use vstd::prelude::*;

verus! {

/// A metadata value attached to a hit by the engine that found it.
#[derive(Debug)]
pub enum MetaValue {
    Text(String),
    Integer(i128),
    /// A number with a fractional part, in thousandths.
    Fraction(i128),
    /// Anything else (a flag, a list, a nested object, nothing), as the
    /// text the engine wrote it in.
    Other(String),
}

/// Similarity scores are in hundredths of a percent: 10000 is an exact match.
pub const FULL_SIMILARITY: u32 = 10000;

/// One match that one engine reported for one search.
#[derive(Debug)]
pub struct SearchHit {
    pub similarity: u32,
    pub thumbnail: Option<String>,
    pub engine: String,
    pub metadata: Vec<(String, MetaValue)>,
}

/// The value filed under `key` in `md`: the first one, if the key repeats.
pub open spec fn lookup(md: Seq<(String, MetaValue)>, key: Seq<char>) -> Option<MetaValue>
    decreases md.len(),
{
    if md.len() == 0 {
        None
    } else if md[0].0@ == key {
        Some(md[0].1)
    } else {
        lookup(md.drop_first(), key)
    }
}

/// Looks up the value filed under `key`.
pub fn get_meta<'a>(md: &'a Vec<(String, MetaValue)>, key: &str) -> (r: Option<&'a MetaValue>)
    ensures
        match r {
            Some(v) => lookup(md@, key@) == Some(*v),
            None => lookup(md@, key@) is None,
        },
{
    let mut i: usize = 0;
    assert(md@.skip(0) =~= md@);
    while i < md.len()
        invariant
            i <= md.len(),
            lookup(md@, key@) == lookup(md@.skip(i as int), key@),
        decreases md.len() - i,
    {
        assert(md@.skip(i as int)[0] == md@[i as int]);
        if crate::text::str_eq(md[i].0.as_str(), key) {
            return Some(&md[i].1);
        }
        assert(md@.skip(i as int).drop_first() =~= md@.skip(i + 1));
        i += 1;
    }
    None
}

/// The hits of `s` whose similarity is at least `t`, in order.
pub open spec fn passing(s: Seq<SearchHit>, t: u32) -> Seq<SearchHit>
    decreases s.len(),
{
    if s.len() == 0 {
        s
    } else {
        let rest = passing(s.drop_first(), t);
        if s[0].similarity >= t {
            seq![s[0]] + rest
        } else {
            rest
        }
    }
}

/// The first `n` entries of `s`, or all of them if there are fewer.
pub open spec fn first_n<T>(s: Seq<T>, n: nat) -> Seq<T> {
    if s.len() <= n {
        s
    } else {
        s.take(n as int)
    }
}

/// The threshold applied first, then the cap.
pub open spec fn filtered(s: Seq<SearchHit>, limit: Option<usize>, threshold: Option<u32>) -> Seq<
    SearchHit,
> {
    let kept = match threshold {
        Some(t) => passing(s, t),
        None => s,
    };
    match limit {
        Some(l) => first_n(kept, l as nat),
        None => kept,
    }
}

proof fn lemma_passing_bounds(s: Seq<SearchHit>, t: u32)
    ensures
        passing(s, t).len() <= s.len(),
        forall|i: int| 0 <= i < passing(s, t).len() ==> passing(s, t)[i].similarity >= t,
    decreases s.len(),
{
    if s.len() > 0 {
        lemma_passing_bounds(s.drop_first(), t);
        let rest = passing(s.drop_first(), t);
        if s[0].similarity >= t {
            assert forall|i: int| 0 <= i < passing(s, t).len() implies passing(s, t)[i].similarity
                >= t by {
                if i > 0 {
                    assert(passing(s, t)[i] == rest[i - 1]);
                }
            }
        }
    }
}

/// Keeps the hits of `hits` whose similarity is at least `threshold`, in order.
pub fn keep_passing(hits: Vec<SearchHit>, threshold: u32) -> (r: Vec<SearchHit>)
    ensures
        r@ == passing(hits@, threshold),
{
    let ghost orig = hits@;
    let mut hits = hits;
    let mut out: Vec<SearchHit> = Vec::new();
    while hits.len() > 0
        invariant
            out@ + passing(hits@, threshold) == passing(orig, threshold),
        decreases hits.len(),
    {
        let ghost before = hits@;
        let h = hits.remove(0);
        assert(before.drop_first() =~= hits@);
        if h.similarity >= threshold {
            assert(out@.push(h) + passing(hits@, threshold) =~= out@ + (seq![h] + passing(
                hits@,
                threshold,
            )));
            out.push(h);
        }
    }
    assert(out@ + passing(hits@, threshold) =~= out@);
    out
}

/// What an engine searches with, and the defaults that its searches apply.
#[derive(Debug)]
pub struct EngineSettings {
    pub name: String,
    pub enabled: bool,
    pub threshold: Option<u32>,
    pub limit: Option<usize>,
}

pub open spec fn or_else<T>(a: Option<T>, b: Option<T>) -> Option<T> {
    if a is Some {
        a
    } else {
        b
    }
}

impl EngineSettings {
    /// Filters what a search returned: the hits below the threshold go, then
    /// the rest is cut to the limit. An argument that is absent falls back
    /// to the engine's own default; with neither, that step keeps everything.
    pub fn filter_search(&self, hits: Vec<SearchHit>, limit: Option<usize>, threshold: Option<u32>) -> (r: Vec<SearchHit>)
        ensures
            r@ == filtered(hits@, or_else(limit, self.limit), or_else(threshold, self.threshold)),
            or_else(threshold, self.threshold) matches Some(t) ==> forall|i: int|
                0 <= i < r@.len() ==> #[trigger] r@[i].similarity >= t,
            or_else(limit, self.limit) matches Some(l) ==> r@.len() <= l,
            r@.len() <= hits@.len(),
    {
        let limit = if limit.is_some() { limit } else { self.limit };
        let threshold = if threshold.is_some() { threshold } else { self.threshold };
        let ghost orig = hits@;
        let mut kept = match threshold {
            Some(t) => {
                proof { lemma_passing_bounds(orig, t); }
                keep_passing(hits, t)
            },
            None => hits,
        };
        match limit {
            Some(l) => {
                kept.truncate(l);
            },
            None => {},
        }
        kept
    }
}

} // verus!
