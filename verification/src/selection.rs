//! Weighted choice of a source and the run of attempts that updates the
//! wallpaper.

use vstd::prelude::*;
use crate::chance::choose_from_slice;
use crate::config::{Config, Source, SourceView, sources_view, texts_view};
use crate::text::text_eq;

verus! {

broadcast use vstd::seq_lib::group_to_multiset_ensures;

/// How many tickets a source of the given weight holds: its weight, at least one.
pub open spec fn effective_weight(weight: u32) -> nat {
    if weight == 0 {
        1
    } else {
        weight as nat
    }
}

/// The tickets that the source at `index` contributes.
pub open spec fn tickets_for(index: int, source: SourceView) -> Seq<usize> {
    if source.enabled {
        Seq::new(effective_weight(source.weight), |_j: int| index as usize)
    } else {
        Seq::empty()
    }
}

/// The lottery of sources: each enabled source's index, as many times as its
/// effective weight, in the order of the sources.
pub open spec fn weighted(sources: Seq<SourceView>) -> Seq<usize>
    decreases sources.len(),
{
    if sources.len() == 0 {
        Seq::empty()
    } else {
        weighted(sources.drop_last()) + tickets_for(sources.len() - 1, sources.last())
    }
}

/// Whether some source takes part.
pub open spec fn has_enabled(sources: Seq<SourceView>) -> bool {
    exists|i: int| 0 <= i < sources.len() && #[trigger] sources[i].enabled
}

/// Builds the lottery of sources.
pub fn weighted_indices(sources: &Vec<Source>) -> (tickets: Vec<usize>)
    ensures
        tickets@ == weighted(sources_view(sources@)),
        sources@.len() <= usize::MAX,
{
    let ghost all = sources_view(sources@);
    let mut tickets: Vec<usize> = Vec::new();
    let mut i: usize = 0;
    assert(all.take(0) =~= Seq::<SourceView>::empty());
    while i < sources.len()
        invariant
            i <= sources.len(),
            all == sources_view(sources@),
            tickets@ == weighted(all.take(i as int)),
        decreases sources.len() - i,
    {
        let source = &sources[i];
        let ghost before = tickets@;
        if source.enabled {
            let count: u32 = if source.weight < 1 { 1 } else { source.weight };
            let mut k: u32 = 0;
            while k < count
                invariant
                    k <= count,
                    count == effective_weight(source.weight),
                    tickets@ == before + Seq::new(k as nat, |_j: int| i),
                decreases count - k,
            {
                tickets.push(i);
                k = k + 1;
                assert(tickets@ =~= before + Seq::new(k as nat, |_j: int| i));
            }
        }
        assert(all.take(i + 1).drop_last() =~= all.take(i as int));
        assert(all.take(i + 1).last() == source@);
        assert(tickets@ =~= before + tickets_for(i as int, source@));
        i = i + 1;
    }
    assert(all.take(sources.len() as int) =~= all);
    tickets
}

proof fn lemma_repeat_count(n: nat, v: usize, x: usize)
    ensures
        Seq::new(n, |_j: int| v).to_multiset().count(x) == (if x == v { n } else { 0 }),
    decreases n,
{
    broadcast use vstd::multiset::group_multiset_axioms;
    if n == 0 {
        assert(Seq::new(n, |_j: int| v) =~= Seq::<usize>::empty());
    } else {
        lemma_repeat_count((n - 1) as nat, v, x);
        assert(Seq::new(n, |_j: int| v) =~= Seq::new((n - 1) as nat, |_j: int| v).push(v));
    }
}

/// Each source holds as many tickets in the lottery as its effective weight
/// if it is enabled, and none otherwise; no other value holds a ticket.
pub proof fn lemma_ticket_count(sources: Seq<SourceView>, x: usize)
    requires
        sources.len() <= usize::MAX,
    ensures
        weighted(sources).to_multiset().count(x) == (if x < sources.len()
            && sources[x as int].enabled {
            effective_weight(sources[x as int].weight)
        } else {
            0
        }),
        x < sources.len() && sources[x as int].enabled && sources[x as int].weight == 0
            ==> weighted(sources).to_multiset().count(x) == 1,
        x < sources.len() && sources[x as int].enabled && sources[x as int].weight > 0
            ==> weighted(sources).to_multiset().count(x) == sources[x as int].weight,
        !(x < sources.len() && sources[x as int].enabled) ==> weighted(sources).to_multiset().count(x) == 0,
    decreases sources.len(),
{
    broadcast use vstd::multiset::group_multiset_axioms;
    if sources.len() == 0 {
        assert(weighted(sources) =~= Seq::<usize>::empty());
    } else {
        let rest = sources.drop_last();
        let last = sources.last();
        let n = sources.len() - 1;
        lemma_ticket_count(rest, x);
        vstd::seq_lib::lemma_multiset_commutative(weighted(rest), tickets_for(n, last));
        if last.enabled {
            lemma_repeat_count(effective_weight(last.weight), n as usize, x);
        } else {
            assert(tickets_for(n, last) =~= Seq::<usize>::empty());
        }
    }
}

/// Every ticket names an enabled source.
pub proof fn lemma_tickets_name_enabled(sources: Seq<SourceView>, k: int)
    requires
        sources.len() <= usize::MAX,
        0 <= k < weighted(sources).len(),
    ensures
        weighted(sources)[k] < sources.len(),
        sources[weighted(sources)[k] as int].enabled,
{
    let x = weighted(sources)[k];
    lemma_ticket_count(sources, x);
    assert(weighted(sources).contains(x));
}

/// The lottery holds a ticket exactly when some source is enabled.
pub proof fn lemma_lottery_nonempty(sources: Seq<SourceView>)
    requires
        sources.len() <= usize::MAX,
    ensures
        weighted(sources).len() > 0 <==> has_enabled(sources),
{
    if weighted(sources).len() > 0 {
        lemma_tickets_name_enabled(sources, 0);
    }
    if has_enabled(sources) {
        let i = choose|i: int| 0 <= i < sources.len() && #[trigger] sources[i].enabled;
        lemma_ticket_count(sources, i as usize);
        assert(weighted(sources).to_multiset().count(i as usize) > 0);
    }
}

/// How many fetches one update may make before it gives up.
pub const ATTEMPT_LIMIT: u32 = 5;

/// A wallpaper provider.
#[derive(Clone, Copy, Debug, PartialEq, Eq, Structural)]
pub enum Provider {
    Unsplash,
    Wallhaven,
}

/// The provider that a source's kind names: Wallhaven for `wallhaven`,
/// Unsplash for anything else.
pub open spec fn provider_of(kind: Seq<char>) -> Provider {
    if kind == "wallhaven"@ {
        Provider::Wallhaven
    } else {
        Provider::Unsplash
    }
}

/// Reads the provider from a source's kind.
pub fn provider_for(kind: &str) -> (p: Provider)
    ensures
        p == provider_of(kind@),
        p == Provider::Wallhaven <==> kind@ == "wallhaven"@,
        p == Provider::Unsplash <==> kind@ != "wallhaven"@,
{
    if text_eq(kind, "wallhaven") {
        Provider::Wallhaven
    } else {
        Provider::Unsplash
    }
}

/// Whether `url` is on the blacklist.
pub fn is_blacklisted(blacklist: &Vec<String>, url: &str) -> (r: bool)
    ensures
        r == texts_view(blacklist@).contains(url@),
{
    let ghost listed = texts_view(blacklist@);
    let mut i: usize = 0;
    while i < blacklist.len()
        invariant
            i <= blacklist.len(),
            listed == texts_view(blacklist@),
            forall|j: int| 0 <= j < i ==> listed[j] != url@,
        decreases blacklist.len() - i,
    {
        if text_eq(blacklist[i].as_str(), url) {
            assert(listed[i as int] == url@);
            return true;
        }
        i = i + 1;
    }
    false
}

/// What to fetch in one attempt: the chosen source, its provider and keywords.
#[derive(Clone, Debug)]
pub struct FetchRequest {
    pub source_index: usize,
    pub provider: Provider,
    pub query: String,
}

/// Why an update of the wallpaper ended without a new one.
#[derive(Clone, Copy, Debug, PartialEq, Eq, Structural)]
pub enum UpdateError {
    /// No source is enabled.
    NoSourcesEnabled,
    /// The lottery had no ticket to draw.
    EmptyLottery,
    /// Every attempt was used up.
    RetriesExhausted,
}

/// Why one fetch from a provider failed.
#[derive(Clone, Debug)]
pub enum FetchError {
    /// The provider answered with a status that is not a success.
    ApiStatus(u16),
    /// The photo is smaller than the largest display.
    ImageTooSmall,
    /// No image of the search is large enough.
    NoImagesFound,
    /// The request or its answer failed on the way.
    Transport(String),
}

/// What to do after one attempt.
#[derive(Clone, Debug)]
pub enum AttemptOutcome {
    /// Download `url` and set it; the wallpaper came from `source_index`.
    Download { url: String, source_index: usize },
    /// The address is blacklisted: go on to the next attempt at once.
    Blacklisted { url: String },
    /// The fetch failed: pause, then go on to the next attempt.
    Failed,
}

/// The fetch request for the source at `index`.
pub open spec fn request_matches(config: crate::config::ConfigView, req: FetchRequest) -> bool {
    &&& req.source_index < config.sources.len()
    &&& req.provider == provider_of(config.sources[req.source_index as int].kind)
    &&& req.query@ == config.sources[req.source_index as int].query
}

impl FetchRequest {
    /// The request for the source at `index` of `config`.
    pub fn for_source(config: &Config, index: usize) -> (req: FetchRequest)
        requires
            index < config.sources.len(),
        ensures
            req.source_index == index,
            request_matches(config@, req),
    {
        let source = &config.sources[index];
        FetchRequest {
            source_index: index,
            provider: provider_for(source.kind.as_str()),
            query: source.query.clone(),
        }
    }
}

/// One update of the wallpaper: the settings it runs on, their lottery and
/// the attempts made so far.
pub struct UpdateRun {
    pub config: Config,
    pub tickets: Vec<usize>,
    pub attempts: u32,
}

impl UpdateRun {
    /// The run's invariant.
    pub open spec fn wf(&self) -> bool {
        &&& self.tickets@ == weighted(self.config@.sources)
        &&& self.tickets@.len() > 0
        &&& self.config@.sources.len() <= usize::MAX
        &&& self.attempts <= ATTEMPT_LIMIT
    }

    /// Starts an update on `config`; it fails when no source is enabled.
    pub fn start(config: Config) -> (r: Result<UpdateRun, UpdateError>)
        ensures
            r is Ok <==> has_enabled(config@.sources),
            r matches Ok(run) ==> run.wf() && run.config@ == config@ && run.attempts == 0,
            r matches Err(e) ==> e == UpdateError::NoSourcesEnabled,
    {
        let tickets = weighted_indices(&config.sources);
        proof {
            lemma_lottery_nonempty(config@.sources);
        }
        if tickets.len() == 0 {
            Err(UpdateError::NoSourcesEnabled)
        } else {
            Ok(UpdateRun { config, tickets, attempts: 0 })
        }
    }

    /// Begins the next attempt: draws a ticket and names what to fetch, or
    /// gives up once every attempt is used.
    pub fn begin_attempt(&mut self) -> (r: Result<FetchRequest, UpdateError>)
        requires
            old(self).wf(),
        ensures
            final(self).wf(),
            final(self).config@ == old(self).config@,
            final(self).tickets@ == old(self).tickets@,
            old(self).attempts >= ATTEMPT_LIMIT ==> r == Err::<FetchRequest, UpdateError>(
                UpdateError::RetriesExhausted,
            ) && final(self).attempts == old(self).attempts,
            old(self).attempts < ATTEMPT_LIMIT ==> r is Ok && final(self).attempts
                == old(self).attempts + 1,
            r matches Ok(req) ==> request_matches(old(self).config@, req) && old(
                self,
            ).tickets@.contains(req.source_index),
    {
        if self.attempts >= ATTEMPT_LIMIT {
            return Err(UpdateError::RetriesExhausted);
        }
        self.attempts = self.attempts + 1;
        match choose_from_slice(&self.tickets) {
            Some(index) => {
                proof {
                    let k = choose|k: int| 0 <= k < self.tickets@.len() && self.tickets@[k] == index;
                    lemma_tickets_name_enabled(self.config@.sources, k);
                }
                Ok(FetchRequest::for_source(&self.config, index))
            },
            None => Err(UpdateError::EmptyLottery),
        }
    }

    /// Decides what follows a fetch for the source at `source_index`.
    pub fn after_fetch(&self, source_index: usize, result: Result<String, FetchError>) -> (r:
        AttemptOutcome)
        ensures
            match result {
                Ok(url) => if self.config@.blacklist.contains(url@) {
                    r matches AttemptOutcome::Blacklisted { url: u } && u@ == url@
                } else {
                    r matches AttemptOutcome::Download { url: u, source_index: s } && u@ == url@
                        && s == source_index
                },
                Err(_) => r is Failed,
            },
    {
        match result {
            Ok(url) => {
                if is_blacklisted(&self.config.blacklist, url.as_str()) {
                    AttemptOutcome::Blacklisted { url }
                } else {
                    AttemptOutcome::Download { url, source_index }
                }
            },
            Err(_) => AttemptOutcome::Failed,
        }
    }
}

} // verus!
