use vstd::prelude::*;
use crate::text::{
    chars_of, decimal_value, has_prefix, has_suffix, prefix_of, starts_with, ends_with, string_of, suffix_from,
};

verus! {

/// A candidate as the similarity index reports it: its key and its Hamming
/// distance from the query.
pub open spec fn pairs_view(s: Seq<(String, u32)>) -> Seq<(Seq<char>, u32)> {
    s.map_values(|p: (String, u32)| (p.0@, p.1))
}

/// A key with one pair of surrounding double quotes taken off.
pub open spec fn unquoted(s: Seq<char>) -> Seq<char> {
    if starts_with(s, "\""@) && ends_with(s.skip(1), "\""@) {
        s.subrange(1, s.len() - 1)
    } else {
        s
    }
}

/// Takes one pair of surrounding double quotes off a key.
pub fn unquote(s: &str) -> (r: String)
    ensures
        r@ == unquoted(s@),
{
    proof { reveal_strlit("\""); }
    let v = chars_of(s);
    if has_prefix(&v, "\"") {
        let rest = suffix_from(&v, 1);
        if has_suffix(&rest, "\"") {
            let inner = prefix_of(&rest, rest.len() - 1);
            assert(inner@ =~= s@.subrange(1, s@.len() - 1));
            return string_of(&inner);
        }
    }
    string_of(&v)
}

/// The accepted candidates among the first `n`: those within `threshold`
/// whose key has the image prefix, with the prefix taken off.
pub open spec fn accepted(s: Seq<(Seq<char>, u32)>, threshold: u32) -> Seq<(Seq<char>, u32)>
    decreases s.len(),
{
    if s.len() == 0 {
        Seq::empty()
    } else {
        let rest = accepted(s.drop_last(), threshold);
        let (k, d) = s.last();
        if d <= threshold && starts_with(k, "image:"@) {
            rest.push((k.skip("image:"@.len() as int), d))
        } else {
            rest
        }
    }
}

/// Puts `x` after every entry of `s` at least as distant, before the rest.
pub open spec fn insert_desc(s: Seq<(Seq<char>, u32)>, x: (Seq<char>, u32)) -> Seq<(Seq<char>, u32)>
    decreases s.len(),
{
    if s.len() == 0 {
        seq![x]
    } else if s[0].1 >= x.1 {
        seq![s[0]] + insert_desc(s.drop_first(), x)
    } else {
        seq![x] + s
    }
}

/// `s` ordered by decreasing distance, ties in their order in `s`.
pub open spec fn sort_desc(s: Seq<(Seq<char>, u32)>) -> Seq<(Seq<char>, u32)>
    decreases s.len(),
{
    if s.len() == 0 {
        s
    } else {
        insert_desc(sort_desc(s.drop_last()), s.last())
    }
}

/// What a similarity search returns from the index's answer: of the first
/// `min(total, max_results)` candidates, those accepted, ordered by
/// decreasing distance.
pub open spec fn similar(s: Seq<(Seq<char>, u32)>, total: u64, threshold: u32, max_results: usize) -> Seq<
    (Seq<char>, u32),
> {
    let n = if total < max_results { total as int } else { max_results as int };
    let n = if n < s.len() { n } else { s.len() as int };
    sort_desc(accepted(s.take(n), threshold))
}

proof fn lemma_insert_desc_at(s: Seq<(Seq<char>, u32)>, x: (Seq<char>, u32), p: int)
    requires
        0 <= p <= s.len(),
        forall|i: int| 0 <= i < p ==> s[i].1 >= x.1,
        p < s.len() ==> s[p].1 < x.1,
    ensures
        insert_desc(s, x) == s.take(p) + seq![x] + s.skip(p),
    decreases s.len(),
{
    if s.len() == 0 {
        assert(s.take(p) + seq![x] + s.skip(p) =~= seq![x]);
    } else if p == 0 {
        assert(s.take(0) + seq![x] + s.skip(0) =~= seq![x] + s);
    } else {
        let t = s.drop_first();
        assert forall|i: int| 0 <= i < p - 1 implies t[i].1 >= x.1 by {
            assert(t[i] == s[i + 1]);
        }
        if p - 1 < t.len() {
            assert(t[p - 1] == s[p]);
        }
        lemma_insert_desc_at(t, x, p - 1);
        assert(seq![s[0]] + (t.take(p - 1) + seq![x] + t.skip(p - 1)) =~= s.take(p) + seq![x]
            + s.skip(p));
    }
}

/// Inserts `x` into a list ordered by decreasing distance.
fn insert_by_distance(v: &mut Vec<(String, u32)>, x: (String, u32))
    ensures
        pairs_view(final(v)@) == insert_desc(pairs_view(old(v)@), (x.0@, x.1)),
{
    let ghost s = pairs_view(v@);
    let mut p: usize = 0;
    while p < v.len() && v[p].1 >= x.1
        invariant
            p <= v@.len(),
            s == pairs_view(v@),
            forall|i: int| 0 <= i < p ==> s[i].1 >= x.1,
        decreases v.len() - p,
    {
        p += 1;
    }
    proof { lemma_insert_desc_at(s, (x.0@, x.1), p as int); }
    let ghost xv = (x.0@, x.1);
    v.insert(p, x);
    assert(pairs_view(v@) =~= s.take(p as int) + seq![xv] + s.skip(p as int));
}

/// Picks the images that count as the same picture out of the index's
/// answer (see `similar`).
pub fn select_similar(
    candidates: Vec<(String, u32)>,
    total: u64,
    threshold: u32,
    max_results: usize,
) -> (r: Vec<(String, u32)>)
    ensures
        pairs_view(r@) == similar(pairs_view(candidates@), total, threshold, max_results),
{
    let ghost s = pairs_view(candidates@);
    let mut n: usize = if (total as u128) < (max_results as u128) { total as usize } else { max_results };
    if n > candidates.len() {
        n = candidates.len();
    }
    let ghost sn = s.take(n as int);
    let mut sorted: Vec<(String, u32)> = Vec::new();
    let mut i: usize = 0;
    while i < n
        invariant
            n <= candidates@.len(),
            i <= n,
            s == pairs_view(candidates@),
            sn == s.take(n as int),
            pairs_view(sorted@) == sort_desc(accepted(sn.take(i as int), threshold)),
        decreases n - i,
    {
        let ghost t = sn.take(i + 1);
        assert(t.drop_last() =~= sn.take(i as int));
        assert(t.last() == (candidates@[i as int].0@, candidates@[i as int].1));
        let key = chars_of(candidates[i].0.as_str());
        let d = candidates[i].1;
        if d <= threshold && has_prefix(&key, "image:") {
            let id = string_of(&suffix_from(&key, chars_of("image:").len()));
            let ghost acc = accepted(sn.take(i as int), threshold);
            assert(accepted(t, threshold) == acc.push((id@, d)));
            assert(acc.push((id@, d)).drop_last() =~= acc);
            insert_by_distance(&mut sorted, (id, d));
        } else {
            assert(accepted(t, threshold) == accepted(sn.take(i as int), threshold));
        }
        i += 1;
    }
    assert(sn.take(n as int) =~= sn);
    sorted
}

proof fn lemma_insert_desc_contains(s: Seq<(Seq<char>, u32)>, x: (Seq<char>, u32), y: (Seq<char>, u32))
    requires
        y == x || s.contains(y),
    ensures
        insert_desc(s, x).contains(y),
    decreases s.len(),
{
    if s.len() == 0 {
        assert(seq![x][0] == x);
    } else if s[0].1 >= x.1 {
        let r = insert_desc(s.drop_first(), x);
        if y == s[0] {
            assert((seq![s[0]] + r)[0] == y);
        } else {
            if y != x {
                let j = choose|j: int| 0 <= j < s.len() && s[j] == y;
                assert(s.drop_first()[j - 1] == y);
            }
            lemma_insert_desc_contains(s.drop_first(), x, y);
            let k = choose|k: int| 0 <= k < r.len() && r[k] == y;
            assert((seq![s[0]] + r)[k + 1] == y);
        }
    } else {
        if y == x {
            assert((seq![x] + s)[0] == y);
        } else {
            let j = choose|j: int| 0 <= j < s.len() && s[j] == y;
            assert((seq![x] + s)[j + 1] == y);
        }
    }
}

proof fn lemma_sort_desc_contains(s: Seq<(Seq<char>, u32)>, y: (Seq<char>, u32))
    requires
        s.contains(y),
    ensures
        sort_desc(s).contains(y),
    decreases s.len(),
{
    if y == s.last() {
        lemma_insert_desc_contains(sort_desc(s.drop_last()), s.last(), y);
    } else {
        let j = choose|j: int| 0 <= j < s.len() && s[j] == y;
        assert(s.drop_last()[j] == y);
        lemma_sort_desc_contains(s.drop_last(), y);
        lemma_insert_desc_contains(sort_desc(s.drop_last()), s.last(), y);
    }
}

proof fn lemma_accepted_contains(s: Seq<(Seq<char>, u32)>, threshold: u32, k: int, id: Seq<char>)
    requires
        0 <= k < s.len(),
        s[k] == ("image:"@ + id, 0u32),
    ensures
        accepted(s, threshold).contains((id, 0u32)),
    decreases s.len(),
{
    let key = "image:"@ + id;
    assert(key.take("image:"@.len() as int) =~= "image:"@);
    assert(key.skip("image:"@.len() as int) =~= id);
    if k == s.len() - 1 {
        let r = accepted(s.drop_last(), threshold);
        assert(r.push((id, 0u32))[r.len() as int] == (id, 0u32));
    } else {
        assert(s.drop_last()[k] == s[k]);
        lemma_accepted_contains(s.drop_last(), threshold, k, id);
        let r = accepted(s.drop_last(), threshold);
        let j = choose|j: int| 0 <= j < r.len() && r[j] == (id, 0u32);
        let (lk, ld) = s.last();
        if ld <= threshold && starts_with(lk, "image:"@) {
            assert(r.push((lk.skip("image:"@.len() as int), ld))[j] == (id, 0u32));
        }
    }
}

/// A stored image that the index reports at distance 0 among the candidates
/// it returns within the result cap is found again under its id, at
/// distance 0, whatever else the index reports.
pub proof fn stored_image_found(
    s: Seq<(Seq<char>, u32)>,
    total: u64,
    threshold: u32,
    max_results: usize,
    k: int,
    id: Seq<char>,
)
    requires
        0 <= k < s.len(),
        k < total,
        k < max_results,
        s[k] == ("image:"@ + id, 0u32),
    ensures
        similar(s, total, threshold, max_results).contains((id, 0u32)),
{
    let n = if total < max_results { total as int } else { max_results as int };
    let n = if n < s.len() { n } else { s.len() as int };
    assert(s.take(n)[k] == s[k]);
    lemma_accepted_contains(s.take(n), threshold, k, id);
    lemma_sort_desc_contains(accepted(s.take(n), threshold), (id, 0u32));
}

/// The Hamming distance between two hashes of equal length: the number of differing bits.
pub open spec fn hamming(a: Seq<u8>, b: Seq<u8>) -> nat
    decreases a.len(),
{
    if a.len() == 0 || b.len() == 0 {
        0
    } else {
        hamming(a.drop_last(), b.drop_last()) + bit_count(a.last() ^ b.last())
    }
}

pub open spec fn bit_count(x: u8) -> nat
    decreases x,
{
    if x == 0 {
        0
    } else {
        (x % 2) as nat + bit_count(x / 2)
    }
}

/// A hash is at distance 0 from itself, so an image stored under a hash is
/// reported at distance 0 when searched for with that hash.
pub proof fn hash_distance_to_itself(h: Seq<u8>)
    ensures
        hamming(h, h) == 0,
    decreases h.len(),
{
    if h.len() > 0 {
        hash_distance_to_itself(h.drop_last());
        assert(h.last() ^ h.last() == 0) by (bit_vector);
    }
}

/// The key under which an image's hash is stored.
pub fn hash_key(id: &str) -> (r: String)
    ensures
        r@ == "image:"@ + id@,
{
    let mut r = String::from_str("image:");
    r.append(id);
    r
}

/// The key under which an image's link is stored.
pub fn link_key(id: &str) -> (r: String)
    ensures
        r@ == "url:"@ + id@,
{
    let mut r = String::from_str("url:");
    r.append(id);
    r
}

/// The key under which the `seq`-th record found for an image is archived.
pub fn record_key(id: &str, seq: u64) -> (r: String)
    ensures
        r@ == "enriched:"@ + id@ + ":"@ + crate::text::int_text(seq as int),
{
    let mut r = String::from_str("enriched:");
    r.append(id);
    r.append(":");
    let n = crate::text::decimal_text(seq as i128);
    r.append(n.as_str());
    r
}

/// The pattern that matches every record archived for an image.
pub fn record_pattern(id: &str) -> (r: String)
    ensures
        r@ == "enriched:"@ + id@ + ":*"@,
{
    let mut r = String::from_str("enriched:");
    r.append(id);
    r.append(":*");
    r
}

/// Whether a submission is served from the archive: only with a hash, a
/// reachable cache, and a lookup that found a match; the first match found
/// names the archive. Matches come worst first (see `similar`), so when
/// several stored images are within the limit, the archive served is that
/// of the least similar of them.
pub open spec fn archive_to_serve(hashed: bool, cache_up: bool, lookup: Option<Seq<(Seq<char>, u32)>>) -> Option<Seq<char>> {
    if hashed && cache_up {
        match lookup {
            Some(found) => if found.len() > 0 {
                Some(found[0].0)
            } else {
                None
            },
            None => None,
        }
    } else {
        None
    }
}

/// Decides, after the similarity lookup, whether to serve archived records.
/// `lookup` is `None` when the lookup itself failed.
pub fn serve_from_archive(hashed: bool, cache_up: bool, lookup: &Option<Vec<(String, u32)>>) -> (r: Option<String>)
    ensures
        crate::enrichment::text_of(r) == archive_to_serve(
            hashed,
            cache_up,
            match lookup {
                Some(v) => Some(pairs_view(v@)),
                None => None,
            },
        ),
{
    if !(hashed && cache_up) {
        return None;
    }
    match lookup {
        Some(found) => if found.len() > 0 {
            Some(found[0].0.clone())
        } else {
            None
        },
        None => None,
    }
}

/// The id that fresh results are archived under: the new submission's id,
/// when it was hashed, the cache is reachable and its hash was stored.
pub open spec fn archive_for_fresh(hashed: bool, cache_up: bool, stored: bool, new_id: Seq<char>) -> Option<Seq<char>> {
    if hashed && cache_up && stored {
        Some(new_id)
    } else {
        None
    }
}

pub fn archive_fresh_as(hashed: bool, cache_up: bool, stored: bool, new_id: &String) -> (r: Option<String>)
    ensures
        crate::enrichment::text_of(r) == archive_for_fresh(hashed, cache_up, stored, new_id@),
{
    if hashed && cache_up && stored {
        Some(new_id.clone())
    } else {
        None
    }
}

/// The first submission of an image, with nothing stored yet, is searched
/// afresh and its results archived under its own id; a later submission for
/// which the index reports that id at distance 0 is served from the archive.
pub proof fn miss_then_hit(
    new_id: Seq<char>,
    s: Seq<(Seq<char>, u32)>,
    total: u64,
    threshold: u32,
    max_results: usize,
    k: int,
)
    requires
        0 <= k < s.len(),
        k < total,
        k < max_results,
        s[k] == ("image:"@ + new_id, 0u32),
    ensures
        archive_to_serve(true, true, Some(Seq::empty())) is None,
        archive_for_fresh(true, true, true, new_id) == Some(new_id),
        archive_to_serve(true, true, Some(similar(s, total, threshold, max_results))) is Some,
{
    stored_image_found(s, total, threshold, max_results, k, new_id);
}

/// Whether the distances in `s` never increase.
pub open spec fn worst_first(s: Seq<(Seq<char>, u32)>) -> bool {
    forall|i: int, j: int| 0 <= i < j < s.len() ==> s[i].1 >= s[j].1
}

proof fn lemma_insert_desc_sorted(s: Seq<(Seq<char>, u32)>, x: (Seq<char>, u32))
    requires
        worst_first(s),
    ensures
        worst_first(insert_desc(s, x)),
        insert_desc(s, x).len() == s.len() + 1,
        forall|i: int| 0 <= i < insert_desc(s, x).len() ==> (#[trigger] insert_desc(s, x)[i] == x
            || s.contains(insert_desc(s, x)[i])),
    decreases s.len(),
{
    if s.len() == 0 {
        assert(insert_desc(s, x) =~= seq![x]);
    } else if s[0].1 >= x.1 {
        let t = s.drop_first();
        assert(worst_first(t)) by {
            assert forall|i: int, j: int| 0 <= i < j < t.len() implies t[i].1 >= t[j].1 by {
                assert(t[i] == s[i + 1] && t[j] == s[j + 1]);
            }
        }
        lemma_insert_desc_sorted(t, x);
        let r = insert_desc(t, x);
        let full = seq![s[0]] + r;
        assert forall|i: int| 0 <= i < r.len() implies r[i].1 <= s[0].1 by {
            if r[i] != x {
                let k = choose|k: int| 0 <= k < t.len() && t[k] == r[i];
                assert(t[k] == s[k + 1]);
            }
        }
        assert forall|i: int| 0 <= i < full.len() implies (#[trigger] full[i] == x || s.contains(
            full[i],
        )) by {
            if i == 0 {
                assert(s[0] == full[0]);
            } else {
                assert(full[i] == r[i - 1]);
                if r[i - 1] != x {
                    let k = choose|k: int| 0 <= k < t.len() && t[k] == r[i - 1];
                    assert(s[k + 1] == full[i]);
                }
            }
        }
        assert forall|i: int, j: int| 0 <= i < j < full.len() implies full[i].1 >= full[j].1 by {
            if i == 0 {
                assert(full[j] == r[j - 1]);
            } else {
                assert(full[i] == r[i - 1] && full[j] == r[j - 1]);
            }
        }
    } else {
        let full = seq![x] + s;
        assert forall|i: int, j: int| 0 <= i < j < full.len() implies full[i].1 >= full[j].1 by {
            if i == 0 {
                assert(full[j] == s[j - 1]);
                assert(s[0].1 >= s[j - 1].1 || j - 1 == 0);
            } else {
                assert(full[i] == s[i - 1] && full[j] == s[j - 1]);
            }
        }
        assert forall|i: int| 0 <= i < full.len() implies (#[trigger] full[i] == x || s.contains(
            full[i],
        )) by {
            if i > 0 {
                assert(s[i - 1] == full[i]);
            }
        }
    }
}

proof fn lemma_sort_desc_sorted(s: Seq<(Seq<char>, u32)>)
    ensures
        worst_first(sort_desc(s)),
        sort_desc(s).len() == s.len(),
        forall|i: int| 0 <= i < sort_desc(s).len() ==> s.contains(#[trigger] sort_desc(s)[i]),
    decreases s.len(),
{
    if s.len() > 0 {
        let t = s.drop_last();
        lemma_sort_desc_sorted(t);
        lemma_insert_desc_sorted(sort_desc(t), s.last());
        let r = sort_desc(s);
        assert forall|i: int| 0 <= i < r.len() implies s.contains(#[trigger] r[i]) by {
            if r[i] == s.last() {
                assert(s[s.len() - 1] == r[i]);
            } else {
                let k = choose|k: int| 0 <= k < sort_desc(t).len() && sort_desc(t)[k] == r[i];
                let m = choose|m: int| 0 <= m < t.len() && t[m] == sort_desc(t)[k];
                assert(s[m] == r[i]);
            }
        }
    }
}

/// The selected images come worst match first, each is one the index
/// reported within the distance limit, and there are at most `max_results`.
pub proof fn similar_is_worst_first(s: Seq<(Seq<char>, u32)>, total: u64, threshold: u32, max_results: usize)
    ensures
        worst_first(similar(s, total, threshold, max_results)),
        similar(s, total, threshold, max_results).len() <= max_results,
        forall|i: int| 0 <= i < similar(s, total, threshold, max_results).len() ==> (#[trigger] similar(
            s,
            total,
            threshold,
            max_results,
        )[i]).1 <= threshold,
{
    let n = if total < max_results { total as int } else { max_results as int };
    let n = if n < s.len() { n } else { s.len() as int };
    let a = accepted(s.take(n), threshold);
    lemma_accepted_within(s.take(n), threshold);
    lemma_sort_desc_sorted(a);
    assert forall|i: int| 0 <= i < sort_desc(a).len() implies (#[trigger] sort_desc(a)[i]).1 <= threshold by {
        let k = choose|k: int| 0 <= k < a.len() && a[k] == sort_desc(a)[i];
    }
}

proof fn lemma_accepted_within(s: Seq<(Seq<char>, u32)>, threshold: u32)
    ensures
        accepted(s, threshold).len() <= s.len(),
        forall|i: int| 0 <= i < accepted(s, threshold).len() ==> (#[trigger] accepted(s, threshold)[i]).1
            <= threshold,
    decreases s.len(),
{
    if s.len() > 0 {
        lemma_accepted_within(s.drop_last(), threshold);
        let r = accepted(s.drop_last(), threshold);
        let a = accepted(s, threshold);
        assert forall|i: int| 0 <= i < a.len() implies (#[trigger] a[i]).1 <= threshold by {
            if i < r.len() {
                assert(a[i] == r[i]);
            }
        }
    }
}

/// What comes before the sequence number in the keys of an image's records.
pub open spec fn record_prefix(id: Seq<char>) -> Seq<char> {
    "enriched:"@ + id + ":"@
}

/// The sequence number of a record key of image `id`, if it is one.
pub open spec fn record_seq(id: Seq<char>, k: Seq<char>) -> Option<nat> {
    let p = record_prefix(id);
    if starts_with(k, p) {
        decimal_value(k.skip(p.len() as int), u64::MAX as nat)
    } else {
        None
    }
}

/// The record keys of image `id` among `ks`, with their sequence numbers, in order.
pub open spec fn numbered(id: Seq<char>, ks: Seq<Seq<char>>) -> Seq<(nat, Seq<char>)>
    decreases ks.len(),
{
    if ks.len() == 0 {
        Seq::empty()
    } else {
        let rest = numbered(id, ks.drop_last());
        match record_seq(id, ks.last()) {
            Some(n) => rest.push((n, ks.last())),
            None => rest,
        }
    }
}

/// Puts `x` before the first entry with a larger number.
pub open spec fn insert_asc(s: Seq<(nat, Seq<char>)>, x: (nat, Seq<char>)) -> Seq<(nat, Seq<char>)>
    decreases s.len(),
{
    if s.len() == 0 {
        seq![x]
    } else if x.0 < s[0].0 {
        seq![x] + s
    } else {
        seq![s[0]] + insert_asc(s.drop_first(), x)
    }
}

/// `s` ordered by increasing number, ties in their order in `s`.
pub open spec fn sort_asc(s: Seq<(nat, Seq<char>)>) -> Seq<(nat, Seq<char>)>
    decreases s.len(),
{
    if s.len() == 0 {
        s
    } else {
        insert_asc(sort_asc(s.drop_last()), s.last())
    }
}

/// The record keys of image `id` among `ks` in the order the records
/// arrived, that is by increasing sequence number; other keys are left out.
pub open spec fn arrival_order(id: Seq<char>, ks: Seq<Seq<char>>) -> Seq<Seq<char>> {
    sort_asc(numbered(id, ks)).map_values(|p: (nat, Seq<char>)| p.1)
}

pub open spec fn seq_pairs(v: Seq<(u64, String)>) -> Seq<(nat, Seq<char>)> {
    v.map_values(|p: (u64, String)| (p.0 as nat, p.1@))
}

proof fn lemma_insert_asc_at(s: Seq<(nat, Seq<char>)>, x: (nat, Seq<char>), p: int)
    requires
        0 <= p <= s.len(),
        forall|i: int| 0 <= i < p ==> x.0 >= #[trigger] s[i].0,
        p < s.len() ==> x.0 < s[p].0,
    ensures
        insert_asc(s, x) == s.take(p) + seq![x] + s.skip(p),
    decreases s.len(),
{
    if s.len() == 0 {
        assert(s.take(p) + seq![x] + s.skip(p) =~= seq![x]);
    } else if p == 0 {
        assert(s.take(0) + seq![x] + s.skip(0) =~= seq![x] + s);
    } else {
        let t = s.drop_first();
        assert(x.0 >= s[0].0);
        assert forall|i: int| 0 <= i < p - 1 implies x.0 >= #[trigger] t[i].0 by {
            assert(t[i] == s[i + 1]);
        }
        if p - 1 < t.len() {
            assert(t[p - 1] == s[p]);
        }
        lemma_insert_asc_at(t, x, p - 1);
        assert(seq![s[0]] + (t.take(p - 1) + seq![x] + t.skip(p - 1)) =~= s.take(p) + seq![x]
            + s.skip(p));
    }
}

fn insert_by_seq(v: &mut Vec<(u64, String)>, x: (u64, String))
    ensures
        seq_pairs(final(v)@) == insert_asc(seq_pairs(old(v)@), (x.0 as nat, x.1@)),
{
    let ghost s = seq_pairs(v@);
    let mut p: usize = 0;
    while p < v.len() && x.0 >= v[p].0
        invariant
            p <= v@.len(),
            s == seq_pairs(v@),
            forall|i: int| 0 <= i < p ==> x.0 >= #[trigger] s[i].0,
        decreases v.len() - p,
    {
        p += 1;
    }
    let ghost xv = (x.0 as nat, x.1@);
    proof { lemma_insert_asc_at(s, xv, p as int); }
    v.insert(p, x);
    assert(seq_pairs(v@) =~= s.take(p as int) + seq![xv] + s.skip(p as int));
}

/// The sequence number of a record key of image `id`.
fn seq_of(prefix: &Vec<char>, k: &String) -> (r: Option<u64>)
    ensures
        match r {
            Some(n) => starts_with(k@, prefix@) && decimal_value(
                k@.skip(prefix@.len() as int),
                u64::MAX as nat,
            ) == Some(n as nat),
            None => !starts_with(k@, prefix@) || decimal_value(
                k@.skip(prefix@.len() as int),
                u64::MAX as nat,
            ) is None,
        },
{
    let v = chars_of(k.as_str());
    if !crate::text::matches_at(&v, prefix, 0) {
        assert(v@.subrange(0, prefix@.len() as int) =~= v@.take(prefix@.len() as int));
        return None;
    }
    assert(v@.subrange(0, prefix@.len() as int) =~= v@.take(prefix@.len() as int));
    let rest = string_of(&suffix_from(&v, prefix.len()));
    crate::text::parse_decimal(rest.as_str(), u64::MAX)
}

/// Puts the record keys of image `id` in the order the records arrived
/// (by their sequence numbers); keys that are not record keys of `id` go.
pub fn order_record_keys(id: &str, keys: &Vec<String>) -> (r: Vec<String>)
    ensures
        r@.map_values(|k: String| k@) == arrival_order(id@, keys@.map_values(|k: String| k@)),
{
    let mut p = String::from_str("enriched:");
    p.append(id);
    p.append(":");
    let prefix = chars_of(p.as_str());
    let ghost ks = keys@.map_values(|k: String| k@);
    let mut sorted: Vec<(u64, String)> = Vec::new();
    let mut i: usize = 0;
    while i < keys.len()
        invariant
            i <= keys@.len(),
            ks == keys@.map_values(|k: String| k@),
            prefix@ == record_prefix(id@),
            seq_pairs(sorted@) == sort_asc(numbered(id@, ks.take(i as int))),
        decreases keys.len() - i,
    {
        let ghost t = ks.take(i + 1);
        assert(t.drop_last() =~= ks.take(i as int));
        assert(t.last() == keys@[i as int]@);
        match seq_of(&prefix, &keys[i]) {
            Some(n) => {
                let ghost prev = numbered(id@, ks.take(i as int));
                assert(prev.push((n as nat, keys@[i as int]@)).drop_last() =~= prev);
                insert_by_seq(&mut sorted, (n, keys[i].clone()));
            },
            None => {},
        }
        i += 1;
    }
    assert(ks.take(keys@.len() as int) =~= ks);
    let ghost all = seq_pairs(sorted@);
    let mut r: Vec<String> = Vec::new();
    let mut j: usize = 0;
    while j < sorted.len()
        invariant
            j <= sorted@.len(),
            all == seq_pairs(sorted@),
            r@.map_values(|k: String| k@) == all.take(j as int).map_values(|p: (nat, Seq<char>)| p.1),
        decreases sorted.len() - j,
    {
        let k = sorted[j].1.clone();
        let ghost before = r@.map_values(|k: String| k@);
        r.push(k);
        assert(r@.map_values(|k: String| k@) =~= before.push(all[j as int].1));
        assert(all.take(j + 1).map_values(|p: (nat, Seq<char>)| p.1) =~= all.take(
            j as int,
        ).map_values(|p: (nat, Seq<char>)| p.1).push(all[j as int].1));
        j += 1;
    }
    assert(all.take(sorted@.len() as int) =~= all);
    r
}

} // verus!
