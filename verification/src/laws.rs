//! Properties that hold across the library's operations.

use vstd::prelude::*;
use crate::config::{ConfigView, CurrentWallpaper};
use crate::providers::{auth_header, candidate_positions, resolution_le};
use crate::selection::{effective_weight, weighted, lemma_ticket_count};
use crate::text::starts_with;
use crate::tray::{MenuCommand, feedback_result, lowered, with_weight};
use crate::service::{TickAction, tick_action};

verus! {

/// "Show more of this" followed by "show less of this" on the same wallpaper
/// gives back the settings as they were, for a source whose weight is at
/// least one (and below the largest weight).
pub proof fn lemma_more_then_less_restores(c: ConfigView, cur: CurrentWallpaper)
    requires
        cur.source_index < c.sources.len() ==> 1 <= c.sources[cur.source_index as int].weight
            < u32::MAX,
    ensures
        feedback_result(
            feedback_result(c, Some(cur), MenuCommand::More).0,
            Some(cur),
            MenuCommand::Less,
        ).0 == c,
{
    let i = cur.source_index as int;
    if i < c.sources.len() {
        let w = c.sources[i].weight;
        let up = with_weight(c, i, (w + 1) as u32);
        assert(up.sources[i].weight == w + 1);
        assert(lowered((w + 1) as u32) == w);
        assert(with_weight(up, i, w).sources =~= c.sources);
    }
}

/// After "show less of this" the source's weight is still at least one.
pub proof fn lemma_less_keeps_weight_positive(c: ConfigView, cur: CurrentWallpaper)
    requires
        cur.source_index < c.sources.len(),
    ensures
        feedback_result(c, Some(cur), MenuCommand::Less).0.sources[cur.source_index as int].weight
            >= 1,
{
}

/// "Show more of this" on an enabled source of weight at least one gives it
/// exactly one more ticket in the lottery and leaves every other count as it was.
pub proof fn lemma_more_adds_one_ticket(c: ConfigView, cur: CurrentWallpaper, x: usize)
    requires
        c.sources.len() <= usize::MAX,
        cur.source_index < c.sources.len(),
        c.sources[cur.source_index as int].enabled,
        1 <= c.sources[cur.source_index as int].weight < u32::MAX,
    ensures
        weighted(feedback_result(c, Some(cur), MenuCommand::More).0.sources).to_multiset().count(x)
            == weighted(c.sources).to_multiset().count(x) + (if x == cur.source_index {
            1int
        } else {
            0int
        }),
{
    let after = feedback_result(c, Some(cur), MenuCommand::More).0;
    lemma_ticket_count(c.sources, x);
    lemma_ticket_count(after.sources, x);
    if x < c.sources.len() {
        assert(after.sources[x as int].enabled == c.sources[x as int].enabled);
        if x == cur.source_index {
            assert(effective_weight(after.sources[x as int].weight) == effective_weight(
                c.sources[x as int].weight,
            ) + 1);
        } else {
            assert(after.sources[x as int] == c.sources[x as int]);
        }
    }
}

/// "Never show this wallpaper again" puts the wallpaper's address on the
/// blacklist and keeps every address that was there.
pub proof fn lemma_never_blacklists(c: ConfigView, cur: CurrentWallpaper)
    ensures
        feedback_result(c, Some(cur), MenuCommand::Never).0.blacklist.contains(cur.url@),
        forall|u: Seq<char>|
            c.blacklist.contains(u) ==> #[trigger] feedback_result(
                c,
                Some(cur),
                MenuCommand::Never,
            ).0.blacklist.contains(u),
        feedback_result(c, Some(cur), MenuCommand::Never).0.sources == c.sources,
{
    let after = feedback_result(c, Some(cur), MenuCommand::Never).0;
    assert(after.blacklist[c.blacklist.len() as int] == cur.url@);
    assert forall|u: Seq<char>| c.blacklist.contains(u) implies #[trigger] after.blacklist.contains(u) by {
        let k = choose|k: int| 0 <= k < c.blacklist.len() && c.blacklist[k] == u;
        assert(after.blacklist[k] == u);
    }
}

/// The Unsplash authorization header of a header is the header itself.
pub proof fn lemma_auth_header_idempotent(key: Seq<char>)
    ensures
        auth_header(auth_header(key)) == auth_header(key),
{
    reveal_strlit("Client-ID");
    reveal_strlit("Client-ID ");
    let h = auth_header(key);
    if !starts_with(key, "Client-ID"@) {
        assert(h.subrange(0, 9) =~= "Client-ID"@);
    }
}

/// Displays are ordered by width, then by height: of two displays of equal
/// width the higher one is the larger.
pub proof fn lemma_resolution_order_is_lexicographic(a: (u32, u32), b: (u32, u32))
    ensures
        resolution_le(a, b) <==> (a.0 < b.0 || (a.0 == b.0 && a.1 <= b.1)),
        a.0 == b.0 && a.1 > b.1 ==> !resolution_le(a, b) && resolution_le(b, a),
        a.0 > b.0 ==> !resolution_le(a, b),
{
}

/// At most one display is, in (width, height) order, at least as large as
/// every display: the largest display is determined by the list.
pub proof fn lemma_largest_display_unique(displays: Seq<(u32, u32)>, r1: (u32, u32), r2: (u32, u32))
    requires
        displays.contains(r1),
        displays.contains(r2),
        forall|i: int|
            0 <= i < displays.len() ==> (#[trigger] displays[i]).0 < r1.0 || (displays[i].0 == r1.0
                && displays[i].1 <= r1.1),
        forall|i: int|
            0 <= i < displays.len() ==> (#[trigger] displays[i]).0 < r2.0 || (displays[i].0 == r2.0
                && displays[i].1 <= r2.1),
    ensures
        r1 == r2,
{
    let i1 = choose|i: int| 0 <= i < displays.len() && displays[i] == r1;
    let i2 = choose|i: int| 0 <= i < displays.len() && displays[i] == r2;
    assert(displays[i1] == r1);
    assert(displays[i2] == r2);
}

/// An image narrower or lower than the display is never a Wallhaven
/// candidate, and every candidate is at least as wide and as high.
pub proof fn lemma_candidates_are_large_enough(
    images: Seq<crate::providers::WallhavenImage>,
    min_w: u32,
    min_h: u32,
    k: int,
)
    requires
        images.len() <= usize::MAX,
        0 <= k < candidate_positions(images, min_w, min_h).len(),
    ensures
        images[candidate_positions(images, min_w, min_h)[k] as int].dimension_x >= min_w,
        images[candidate_positions(images, min_w, min_h)[k] as int].dimension_y >= min_h,
{
    crate::providers::lemma_candidates(images, min_w, min_h);
    let p = candidate_positions(images, min_w, min_h)[k];
}

/// With an enabled source, a tick updates exactly when the user has been idle
/// less than 600 seconds (an unknown idle time counts as none); from 600
/// seconds on it never updates. Without an enabled source it never updates.
pub proof fn lemma_idle_threshold(enabled: bool, s: u64)
    ensures
        enabled && s < 600 ==> tick_action(enabled, Some(s)) == TickAction::Update,
        enabled && s >= 600 ==> tick_action(enabled, Some(s)) == TickAction::UserIdle,
        enabled ==> tick_action(enabled, None) == TickAction::Update,
        !enabled ==> tick_action(enabled, Some(s)) == TickAction::NoSources,
        !enabled ==> tick_action(enabled, None) == TickAction::NoSources,
{
}

/// "Show less of this" changes only the weight of the current wallpaper's
/// source, to the larger of one and its weight less one: the source stays
/// enabled or disabled as it was, keeps its keywords and kind, and every other
/// source, the blacklist and the other settings are unchanged.
pub proof fn lemma_less_changes_only_the_weight(c: ConfigView, cur: CurrentWallpaper)
    requires
        cur.source_index < c.sources.len(),
        c.sources[cur.source_index as int].weight >= 1,
    ensures
        ({
            let i = cur.source_index as int;
            let after = feedback_result(c, Some(cur), MenuCommand::Less).0;
            &&& after.sources.len() == c.sources.len()
            &&& after.sources[i].weight == (if c.sources[i].weight == 1 {
                1
            } else {
                c.sources[i].weight - 1
            })
            &&& after.sources[i].enabled == c.sources[i].enabled
            &&& after.sources[i].query == c.sources[i].query
            &&& after.sources[i].kind == c.sources[i].kind
            &&& forall|j: int| 0 <= j < c.sources.len() && j != i ==> after.sources[j] == c.sources[j]
            &&& after.blacklist == c.blacklist
            &&& after.unsplash_api_key == c.unsplash_api_key
            &&& after.delay == c.delay
            &&& after.theme_color == c.theme_color
            &&& after.minimize_to_tray == c.minimize_to_tray
            &&& after.run_on_startup == c.run_on_startup
        }),
        feedback_result(c, Some(cur), MenuCommand::Less).1 == crate::tray::Feedback::Save,
{
}

/// The Unsplash header is `Client-ID ` (with its space) followed by the key
/// whenever the key does not begin with `Client-ID`, whatever the key's
/// length, and the key itself when it does.
pub proof fn lemma_auth_header_shape(key: Seq<char>)
    ensures
        !(key.len() >= 9 && key.subrange(0, 9) == "Client-ID"@) ==> auth_header(key)
            == "Client-ID "@ + key,
        !(key.len() >= 9 && key.subrange(0, 9) == "Client-ID"@) ==> auth_header(key).len()
            == key.len() + 10 && auth_header(key)[9] == ' ' && auth_header(key).subrange(10, auth_header(key).len() as int) == key,
        key.len() >= 9 && key.subrange(0, 9) == "Client-ID"@ ==> auth_header(key) == key,
{
    reveal_strlit("Client-ID");
    reveal_strlit("Client-ID ");
    if !(key.len() >= 9 && key.subrange(0, 9) == "Client-ID"@) {
        assert(auth_header(key).subrange(10, auth_header(key).len() as int) =~= key);
    }
}

/// The number that a string of decimal digits denotes.
pub open spec fn digits_value(s: Seq<char>) -> int
    decreases s.len(),
{
    if s.len() == 0 {
        0
    } else {
        digits_value(s.drop_last()) * 10 + ((s.last() as u32) - ('0' as u32))
    }
}

proof fn lemma_digit_char_value(d: nat)
    requires
        d < 10,
    ensures
        (crate::text::digit_char(d) as u32) - ('0' as u32) == d,
{
    assert(('0' as u32) == 48);
    assert(('1' as u32) == 49);
    assert(('9' as u32) == 57);
}

/// The decimal rendering of `n` is made of ASCII digits only, denotes `n`,
/// and begins with a zero only when it is `0` itself.
pub proof fn lemma_decimal_denotes_its_number(n: nat)
    ensures
        crate::text::decimal(n).len() >= 1,
        forall|i: int|
            0 <= i < crate::text::decimal(n).len() ==> '0' <= #[trigger] crate::text::decimal(n)[i]
                && crate::text::decimal(n)[i] <= '9',
        digits_value(crate::text::decimal(n)) == n,
        n >= 10 ==> crate::text::decimal(n)[0] != '0',
    decreases n,
{
    let d = crate::text::decimal(n);
    lemma_digit_char_value((n % 10) as nat);
    if n < 10 {
        assert(d.drop_last() =~= Seq::<char>::empty());
        assert(d.last() == crate::text::digit_char(n % 10));
        assert(digits_value(d) == digits_value(d.drop_last()) * 10 + ((d.last() as u32) - ('0' as u32)));
    }
    if n >= 10 {
        lemma_decimal_denotes_its_number(n / 10);
        assert(d.drop_last() =~= crate::text::decimal(n / 10));
        assert(d.last() == crate::text::digit_char(n % 10));
        assert(digits_value(d) == (n / 10) * 10 + n % 10);
        assert(d[0] == crate::text::decimal(n / 10)[0]);
    }
}

} // verus!
