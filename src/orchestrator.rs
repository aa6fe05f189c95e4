use vstd::prelude::*;
use crate::enrichment::{texts_of, Enrichment, EnrichmentView};
use crate::merge::{merge_enrichments, merged, opt_view, views_of};
use crate::providers::{can_enrich_hit, provider_name, ProviderKind};
use crate::search_hit::{filtered, EngineSettings, SearchHit};

verus! {

/// How many hits of each engine are looked into.
pub const HITS_PER_ENGINE: usize = 1;

/// A provider in the registry, and whether it is switched on.
#[derive(Debug, Clone, Copy)]
pub struct ProviderSlot {
    pub kind: ProviderKind,
    pub enabled: bool,
}

/// The switched-on providers of `slots` that can say something about `hit`, in registry order.
pub open spec fn eligible(slots: Seq<ProviderSlot>, hit: SearchHit) -> Seq<ProviderKind>
    decreases slots.len(),
{
    if slots.len() == 0 {
        Seq::empty()
    } else {
        let r = eligible(slots.drop_last(), hit);
        if slots.last().enabled && can_enrich_hit(slots.last().kind, hit) {
            r.push(slots.last().kind)
        } else {
            r
        }
    }
}

/// The providers to ask about a hit.
pub fn providers_for_hit(slots: &Vec<ProviderSlot>, hit: &SearchHit) -> (r: Vec<ProviderKind>)
    ensures
        r@ == eligible(slots@, *hit),
{
    let mut r: Vec<ProviderKind> = Vec::new();
    let mut i: usize = 0;
    while i < slots.len()
        invariant
            i <= slots@.len(),
            r@ == eligible(slots@.take(i as int), *hit),
        decreases slots.len() - i,
    {
        assert(slots@.take(i + 1).drop_last() =~= slots@.take(i as int));
        let slot = slots[i];
        if slot.enabled && slot.kind.can_enrich(hit) {
            r.push(slot.kind);
        }
        i += 1;
    }
    assert(slots@.take(slots@.len() as int) =~= slots@);
    r
}

/// What one provider's lookup for a hit came to.
#[derive(Debug)]
pub enum ProviderOutcome {
    Found(Enrichment),
    NotFound,
    Failed(String),
}

/// The records found, in the order of the outcomes.
pub open spec fn found(outs: Seq<(ProviderKind, ProviderOutcome)>) -> Seq<EnrichmentView>
    decreases outs.len(),
{
    if outs.len() == 0 {
        Seq::empty()
    } else {
        let rest = found(outs.drop_first());
        match outs[0].1 {
            ProviderOutcome::Found(e) => seq![e@] + rest,
            _ => rest,
        }
    }
}

pub open spec fn provider_failure(k: ProviderKind, msg: Seq<char>) -> Seq<char> {
    "Failed to enrich "@ + provider_name(k) + ": "@ + msg
}

/// A message for each failed lookup, in the order of the outcomes.
pub open spec fn failures(outs: Seq<(ProviderKind, ProviderOutcome)>) -> Seq<Seq<char>>
    decreases outs.len(),
{
    if outs.len() == 0 {
        Seq::empty()
    } else {
        let rest = failures(outs.drop_first());
        match outs[0].1 {
            ProviderOutcome::Failed(m) => seq![provider_failure(outs[0].0, m@)] + rest,
            _ => rest,
        }
    }
}

/// What a hit comes to once every provider asked about it has answered.
#[derive(Debug)]
pub struct HitReport {
    pub merged: Option<Enrichment>,
    pub failures: Vec<String>,
}

fn failure_text(k: ProviderKind, msg: &String) -> (r: String)
    ensures
        r@ == provider_failure(k, msg@),
{
    let mut r = String::from_str("Failed to enrich ");
    let name = k.name();
    r.append(name.as_str());
    r.append(": ");
    r.append(msg.as_str());
    r
}

/// Collects the providers' answers for one hit: the records found are merged,
/// each failure becomes a message, and an empty answer is left out.
pub fn finish_hit(outcomes: Vec<(ProviderKind, ProviderOutcome)>) -> (r: HitReport)
    ensures
        opt_view(r.merged) == merged(found(outcomes@)),
        texts_of(r.failures@) == failures(outcomes@),
{
    let ghost orig = outcomes@;
    let mut outs = outcomes;
    let mut records: Vec<Enrichment> = Vec::new();
    let mut msgs: Vec<String> = Vec::new();
    while outs.len() > 0
        invariant
            views_of(records@) + found(outs@) == found(orig),
            texts_of(msgs@) + failures(outs@) == failures(orig),
        decreases outs.len(),
    {
        let ghost before = outs@;
        let (kind, outcome) = outs.remove(0);
        assert(before.drop_first() =~= outs@);
        match outcome {
            ProviderOutcome::Found(e) => {
                let ghost ev = e@;
                let ghost prev = records@;
                records.push(e);
                assert(views_of(records@) =~= views_of(prev).push(ev));
                assert(views_of(prev).push(ev) + found(outs@) =~= views_of(prev) + (seq![ev] + found(outs@)));
            },
            ProviderOutcome::NotFound => {},
            ProviderOutcome::Failed(m) => {
                let t = failure_text(kind, &m);
                let ghost prev = msgs@;
                msgs.push(t);
                assert(texts_of(msgs@) =~= texts_of(prev).push(t@));
                assert(texts_of(prev).push(t@) + failures(outs@) =~= texts_of(prev) + (seq![t@] + failures(outs@)));
            },
        }
    }
    assert(views_of(records@) + found(outs@) =~= views_of(records@));
    assert(texts_of(msgs@) + failures(outs@) =~= texts_of(msgs@));
    HitReport { merged: merge_enrichments(records), failures: msgs }
}

/// One entry of the result stream.
#[derive(Debug)]
pub enum StreamItem {
    Record(Enrichment),
    Failure(String),
}

pub enum ItemView {
    Record(EnrichmentView),
    Failure(Seq<char>),
}

pub open spec fn item_view(i: StreamItem) -> ItemView {
    match i {
        StreamItem::Record(e) => ItemView::Record(e@),
        StreamItem::Failure(m) => ItemView::Failure(m@),
    }
}

pub open spec fn items_view(s: Seq<StreamItem>) -> Seq<ItemView> {
    s.map_values(|i: StreamItem| item_view(i))
}

/// What a hit puts on the stream: its failure messages, then its merged record if there is one.
pub open spec fn hit_stream(merged: Option<EnrichmentView>, fails: Seq<Seq<char>>) -> Seq<ItemView> {
    let f = fails.map_values(|m: Seq<char>| ItemView::Failure(m));
    match merged {
        Some(e) => f.push(ItemView::Record(e)),
        None => f,
    }
}

/// The stream entries for one finished hit.
pub fn hit_items(report: HitReport) -> (r: Vec<StreamItem>)
    ensures
        items_view(r@) == hit_stream(opt_view(report.merged), texts_of(report.failures@)),
{
    let ghost m = opt_view(report.merged);
    let ghost fails = texts_of(report.failures@);
    let HitReport { merged, failures } = report;
    let mut fs = failures;
    let mut r: Vec<StreamItem> = Vec::new();
    let ghost all = fails;
    while fs.len() > 0
        invariant
            items_view(r@) + texts_of(fs@).map_values(|m: Seq<char>| ItemView::Failure(m))
                == all.map_values(|m: Seq<char>| ItemView::Failure(m)),
        decreases fs.len(),
    {
        let ghost before = fs@;
        let f = fs.remove(0);
        assert(before.drop_first() =~= fs@);
        let ghost prev = r@;
        let item = StreamItem::Failure(f);
        r.push(item);
        assert(items_view(r@) =~= items_view(prev).push(item_view(item)));
        assert(texts_of(before).map_values(|m: Seq<char>| ItemView::Failure(m)) =~= seq![item_view(item)]
            + texts_of(fs@).map_values(|m: Seq<char>| ItemView::Failure(m)));
        assert(items_view(prev).push(item_view(item)) + texts_of(fs@).map_values(
            |m: Seq<char>| ItemView::Failure(m),
        ) =~= items_view(prev) + (seq![item_view(item)] + texts_of(fs@).map_values(
            |m: Seq<char>| ItemView::Failure(m),
        )));
    }
    assert(items_view(r@) + texts_of(fs@).map_values(|m: Seq<char>| ItemView::Failure(m))
        =~= items_view(r@));
    match merged {
        Some(e) => {
            let ghost prev = r@;
            let item = StreamItem::Record(e);
            r.push(item);
            assert(items_view(r@) =~= items_view(prev).push(item_view(item)));
        },
        None => {},
    }
    r
}

/// The indices of the switched-on engines, in registry order.
pub open spec fn running(engines: Seq<EngineSettings>) -> Seq<usize>
    decreases engines.len(),
{
    if engines.len() == 0 {
        Seq::empty()
    } else {
        let r = running(engines.drop_last());
        if engines.last().enabled {
            r.push((engines.len() - 1) as usize)
        } else {
            r
        }
    }
}

/// The engines to start a search on.
pub fn engines_to_run(engines: &Vec<EngineSettings>) -> (r: Vec<usize>)
    ensures
        r@ == running(engines@),
{
    let mut r: Vec<usize> = Vec::new();
    let mut i: usize = 0;
    while i < engines.len()
        invariant
            i <= engines@.len(),
            r@ == running(engines@.take(i as int)),
        decreases engines.len() - i,
    {
        assert(engines@.take(i + 1).drop_last() =~= engines@.take(i as int));
        if engines[i].enabled {
            r.push(i);
        }
        i += 1;
    }
    assert(engines@.take(engines@.len() as int) =~= engines@);
    r
}

/// What a search on one engine came to.
#[derive(Debug)]
pub enum EngineStep {
    /// The hits to look into.
    Hits(Vec<SearchHit>),
    /// The message to put on the stream.
    Failed(String),
}

pub open spec fn engine_failure(name: Seq<char>, msg: Seq<char>) -> Seq<char> {
    "Search error in engine "@ + name + ": "@ + msg
}

impl EngineSettings {
    /// Takes an engine's search result: a failure becomes one stream message
    /// and nothing else; otherwise the best hits, at most `HITS_PER_ENGINE`
    /// of them, go on to the providers.
    pub fn process_result(&self, result: Result<Vec<SearchHit>, String>) -> (r: EngineStep)
        ensures
            match (result, r) {
                (Ok(hits), EngineStep::Hits(h)) => h@ == filtered(
                    hits@,
                    Some(HITS_PER_ENGINE),
                    self.threshold,
                ),
                (Err(m), EngineStep::Failed(t)) => t@ == engine_failure(self.name@, m@),
                _ => false,
            },
    {
        match result {
            Ok(hits) => EngineStep::Hits(self.filter_search(hits, Some(HITS_PER_ENGINE), None)),
            Err(m) => {
                let mut t = String::from_str("Search error in engine ");
                t.append(self.name.as_str());
                t.append(": ");
                t.append(m.as_str());
                EngineStep::Failed(t)
            },
        }
    }
}

/// How one engine's part of a search went: it failed with a message, or
/// each of its hits put its entries on the stream.
pub enum EngineRun {
    Failed(Seq<char>),
    Found(Seq<Seq<ItemView>>),
}

pub open spec fn concat_items(s: Seq<Seq<ItemView>>) -> Seq<ItemView>
    decreases s.len(),
{
    if s.len() == 0 {
        Seq::empty()
    } else {
        s[0] + concat_items(s.drop_first())
    }
}

pub open spec fn run_items(r: EngineRun) -> Seq<ItemView> {
    match r {
        EngineRun::Failed(m) => seq![ItemView::Failure(m)],
        EngineRun::Found(hits) => concat_items(hits),
    }
}

/// Everything a search puts on the stream, engine by engine. Entries of
/// different engines interleave in any order in practice; which entries
/// there are does not depend on that order.
pub open spec fn request_items(runs: Seq<EngineRun>) -> Seq<ItemView>
    decreases runs.len(),
{
    if runs.len() == 0 {
        Seq::empty()
    } else {
        run_items(runs[0]) + request_items(runs.drop_first())
    }
}

proof fn lemma_request_contains(runs: Seq<EngineRun>, i: int, k: int)
    requires
        0 <= i < runs.len(),
        0 <= k < run_items(runs[i]).len(),
    ensures
        request_items(runs).contains(run_items(runs[i])[k]),
    decreases runs.len(),
{
    let x = run_items(runs[i])[k];
    if i == 0 {
        assert((run_items(runs[0]) + request_items(runs.drop_first()))[k] == x);
    } else {
        lemma_request_contains(runs.drop_first(), i - 1, k);
        assert(runs.drop_first()[i - 1] == runs[i]);
        let rest = request_items(runs.drop_first());
        let j = choose|j: int| 0 <= j < rest.len() && rest[j] == x;
        assert((run_items(runs[0]) + rest)[run_items(runs[0]).len() + j] == x);
    }
}

/// One engine failing outright takes nothing away from the others: every
/// entry that another engine puts on the stream is still there, and the
/// failure itself is one message on the stream.
pub proof fn failure_isolation(runs: Seq<EngineRun>, j: int, msg: Seq<char>, i: int, k: int)
    requires
        0 <= j < runs.len(),
        0 <= i < runs.len(),
        i != j,
        0 <= k < run_items(runs[i]).len(),
    ensures
        request_items(runs.update(j, EngineRun::Failed(msg))).contains(run_items(runs[i])[k]),
        request_items(runs.update(j, EngineRun::Failed(msg))).contains(ItemView::Failure(msg)),
{
    let failed = runs.update(j, EngineRun::Failed(msg));
    assert(failed[i] == runs[i]);
    lemma_request_contains(failed, i, k);
    assert(run_items(failed[j]) == seq![ItemView::Failure(msg)]);
    lemma_request_contains(failed, j, 0);
}

/// A hit that no switched-on provider can say anything about is asked of no
/// provider, merges to nothing and puts no record on the stream.
pub proof fn no_provider_no_record(slots: Seq<ProviderSlot>, hit: SearchHit)
    requires
        forall|i: int| 0 <= i < slots.len() ==> !can_enrich_hit(#[trigger] slots[i].kind, hit),
    ensures
        eligible(slots, hit) == Seq::<ProviderKind>::empty(),
        merged(found(Seq::<(ProviderKind, ProviderOutcome)>::empty())) is None,
        forall|k: int| 0 <= k < hit_stream(merged(found(Seq::<(ProviderKind, ProviderOutcome)>::empty())), Seq::empty()).len()
            ==> !(hit_stream(merged(found(Seq::<(ProviderKind, ProviderOutcome)>::empty())), Seq::empty())[k] is Record),
    decreases slots.len(),
{
    if slots.len() > 0 {
        assert forall|i: int| 0 <= i < slots.drop_last().len() implies !can_enrich_hit(
            #[trigger] slots.drop_last()[i].kind,
            hit,
        ) by {
            assert(slots.drop_last()[i] == slots[i]);
        }
        no_provider_no_record(slots.drop_last(), hit);
        assert(!can_enrich_hit(slots[slots.len() - 1].kind, hit));
    }
    assert(Seq::<Seq<char>>::empty().map_values(|m: Seq<char>| ItemView::Failure(m)) =~= Seq::<ItemView>::empty());
}

} // verus!
