//! The background service's schedule: whether a tick updates the wallpaper
//! and how long the service then waits.

use vstd::prelude::*;
use crate::config::{Config, Source, sources_view};
use crate::selection::has_enabled;

verus! {

/// What `humantime::parse_duration` gives for a text: the whole seconds and
/// the nanoseconds of the duration, or nothing when the text is not a duration.
pub uninterp spec fn humantime_duration(text: Seq<char>) -> Option<(u64, u32)>;

/// The most decimal digits a delay setting may hold for the parse below.
pub const DELAY_DIGIT_LIMIT: usize = 11;

/// Whether a character is an ASCII decimal digit.
pub open spec fn is_digit(c: char) -> bool {
    '0' <= c && c <= '9'
}

/// How many ASCII decimal digits a text holds.
pub open spec fn digit_count(s: Seq<char>) -> nat
    decreases s.len(),
{
    if s.len() == 0 {
        0
    } else {
        digit_count(s.drop_last()) + (if is_digit(s.last()) {
            1nat
        } else {
            0nat
        })
    }
}

/// Whether a delay setting holds at most `DELAY_DIGIT_LIMIT` digits, so that
/// it can be parsed without overflowing a duration.
pub fn delay_within_digit_limit(text: &str) -> (r: bool)
    ensures
        r == (digit_count(text@) <= DELAY_DIGIT_LIMIT),
{
    let n = text.unicode_len();
    let mut count: usize = 0;
    let mut i: usize = 0;
    assert(text@.take(0) =~= Seq::<char>::empty());
    while i < n
        invariant
            n == text@.len(),
            i <= n,
            count == digit_count(text@.take(i as int)),
            count <= DELAY_DIGIT_LIMIT,
        decreases n - i,
    {
        let c = text.get_char(i);
        assert(text@.take(i + 1).drop_last() =~= text@.take(i as int));
        if '0' <= c && c <= '9' {
            if count == DELAY_DIGIT_LIMIT {
                proof {
                    lemma_digit_count_prefix(text@, i + 1);
                }
                return false;
            }
            count = count + 1;
        }
        i = i + 1;
    }
    assert(text@.take(n as int) =~= text@);
    true
}

/// A prefix holds no more digits than the whole text.
proof fn lemma_digit_count_prefix(s: Seq<char>, k: int)
    requires
        0 <= k <= s.len(),
    ensures
        digit_count(s.take(k)) <= digit_count(s),
    decreases s.len() - k,
{
    if k < s.len() {
        lemma_digit_count_prefix(s, k + 1);
        assert(s.take(k + 1).drop_last() =~= s.take(k));
    } else {
        assert(s.take(k) =~= s);
    }
}

/// Calls `humantime::parse_duration` and splits the `Duration` it returns into
/// whole seconds and nanoseconds; an error becomes `None`. Its result is a
/// function of the text alone, named `humantime_duration`; what that function
/// is (the crate's grammar of units and numbers) is left unsaid here.
///
/// The crate panics in one place: `add_current` passes a nanosecond count of
/// exactly one billion on to `Duration::new`, which panics when carrying that
/// second overflows the seconds, i.e. when the total reaches `u64::MAX`
/// seconds. Every other step uses checked arithmetic and reports overflow as
/// an error. Each number of the text is made of its ASCII digits, and one term
/// with `k` of them adds less than `10^(k+8)` seconds (a year is 31,557,600
/// seconds, a fraction adds less than one unit, and a carry one second). With
/// at most 11 digits in all, the total stays below `10^19 < u64::MAX`, so the
/// call returns.
#[verifier::external_body]
fn parse_duration(text: &str) -> (r: Option<(u64, u32)>)
    requires
        digit_count(text@) <= DELAY_DIGIT_LIMIT,
    ensures
        r == humantime_duration(text@),
{
    match humantime::parse_duration(text) {
        Ok(d) => Some((d.as_secs(), d.subsec_nanos())),
        Err(_) => None,
    }
}

/// The pause used when the delay setting cannot be read: one hour.
pub open spec fn fallback_delay() -> (u64, u32) {
    (3600, 0)
}

/// The pause for a parsed delay setting: the delay itself, or one hour.
pub open spec fn delay_value(parsed: Option<(u64, u32)>) -> (u64, u32) {
    match parsed {
        Some(d) => d,
        None => fallback_delay(),
    }
}

/// The pause, in seconds and nanoseconds, for a parsed delay setting.
pub fn delay_or_default(parsed: Option<(u64, u32)>) -> (r: (u64, u32))
    ensures
        r == delay_value(parsed),
        parsed matches Some(d) ==> r == d,
        parsed is None ==> r.0 == 3600 && r.1 == 0,
{
    match parsed {
        Some(d) => d,
        None => (3600, 0),
    }
}

/// The pause between two ticks of the service for a delay setting such as `1h`.
pub fn service_delay(delay: &str) -> (r: (u64, u32))
    requires
        digit_count(delay@) <= DELAY_DIGIT_LIMIT,
    ensures
        r == delay_value(humantime_duration(delay@)),
{
    delay_or_default(parse_duration(delay))
}

/// A user idle for this many seconds or longer gets no new wallpaper.
pub const IDLE_LIMIT_SECS: u64 = 600;

/// Whether some source is enabled.
pub fn has_enabled_sources(sources: &Vec<Source>) -> (r: bool)
    ensures
        r == has_enabled(sources_view(sources@)),
        r <==> exists|i: int| 0 <= i < sources@.len() && (#[trigger] sources@[i]).enabled,
{
    let ghost all = sources_view(sources@);
    let mut i: usize = 0;
    while i < sources.len()
        invariant
            i <= sources.len(),
            all == sources_view(sources@),
            forall|j: int| 0 <= j < i ==> !(#[trigger] all[j]).enabled,
            forall|j: int| 0 <= j < i ==> !(#[trigger] sources@[j]).enabled,
        decreases sources.len() - i,
    {
        if sources[i].enabled {
            assert(all[i as int].enabled);
            return true;
        }
        i = i + 1;
    }
    false
}

/// What one tick of the service does.
#[derive(Clone, Copy, Debug, PartialEq, Eq, Structural)]
pub enum TickAction {
    /// No source is enabled: only wait.
    NoSources,
    /// The user has been idle too long: skip the update and wait.
    UserIdle,
    /// Update the wallpaper, then wait.
    Update,
}

/// The decision of one tick and the pause that follows it.
#[derive(Clone, Copy, Debug)]
pub struct TickPlan {
    pub action: TickAction,
    pub sleep_secs: u64,
    pub sleep_nanos: u32,
}

/// The action of a tick: none without an enabled source; otherwise an update
/// unless the idle time (zero when unknown) reaches the limit.
pub open spec fn tick_action(enabled: bool, idle_seconds: Option<u64>) -> TickAction {
    if !enabled {
        TickAction::NoSources
    } else if (match idle_seconds {
        Some(s) => s,
        None => 0,
    }) < IDLE_LIMIT_SECS {
        TickAction::Update
    } else {
        TickAction::UserIdle
    }
}

/// Decides what one tick does, from the settings and the user's idle time.
pub fn tick_decision(config: &Config, idle_seconds: Option<u64>) -> (action: TickAction)
    ensures
        action == tick_action(has_enabled(config@.sources), idle_seconds),
        !(exists|i: int| 0 <= i < config@.sources.len() && (#[trigger] config@.sources[i]).enabled)
            ==> action == TickAction::NoSources,
        (exists|i: int| 0 <= i < config@.sources.len() && (#[trigger] config@.sources[i]).enabled)
            ==> match idle_seconds {
            Some(s) => (s < 600 ==> action == TickAction::Update) && (s >= 600 ==> action
                == TickAction::UserIdle),
            None => action == TickAction::Update,
        },
{
    let enabled = has_enabled_sources(&config.sources);
    let idle: u64 = match idle_seconds {
        Some(s) => s,
        None => 0,
    };
    if !enabled {
        TickAction::NoSources
    } else if idle < IDLE_LIMIT_SECS {
        TickAction::Update
    } else {
        TickAction::UserIdle
    }
}

/// Plans one tick of the service from the settings and the user's idle time.
pub fn plan_tick(config: &Config, idle_seconds: Option<u64>) -> (plan: TickPlan)
    requires
        digit_count(config@.delay) <= DELAY_DIGIT_LIMIT,
    ensures
        plan.action == tick_action(has_enabled(config@.sources), idle_seconds),
        !(exists|i: int| 0 <= i < config@.sources.len() && (#[trigger] config@.sources[i]).enabled)
            ==> plan.action == TickAction::NoSources,
        (exists|i: int| 0 <= i < config@.sources.len() && (#[trigger] config@.sources[i]).enabled)
            ==> match idle_seconds {
            Some(s) => (s < 600 ==> plan.action == TickAction::Update) && (s >= 600 ==> plan.action
                == TickAction::UserIdle),
            None => plan.action == TickAction::Update,
        },
        (plan.sleep_secs, plan.sleep_nanos) == delay_value(humantime_duration(config@.delay)),
        humantime_duration(config@.delay) matches Some(d) ==> plan.sleep_secs == d.0
            && plan.sleep_nanos == d.1,
        humantime_duration(config@.delay) is None ==> plan.sleep_secs == 3600
            && plan.sleep_nanos == 0,
{
    let (sleep_secs, sleep_nanos) = service_delay(config.delay.as_str());
    let action = tick_decision(config, idle_seconds);
    TickPlan { action, sleep_secs, sleep_nanos }
}

} // verus!
