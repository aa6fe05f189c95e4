use vstd::prelude::*;
use crate::enrichment::{url_of, Url, UrlView};
use crate::links::{clean_link, link_name, parsed_link, split_link};
use crate::text::chars_of;

verus! {

/// How many links share a row.
pub const LINKS_PER_ROW: usize = 3;

/// Whether text `a` sorts before text `b`, character by character.
pub open spec fn text_lt(a: Seq<char>, b: Seq<char>) -> bool
    decreases a.len(),
{
    if a.len() == 0 {
        b.len() > 0
    } else if b.len() == 0 {
        false
    } else if a[0] != b[0] {
        (a[0] as u32) < (b[0] as u32)
    } else {
        text_lt(a.drop_first(), b.drop_first())
    }
}

/// A labelled link: what is shown, and where it leads.
pub open spec fn labels_of(s: Seq<(String, String)>) -> Seq<(Seq<char>, Seq<char>)> {
    s.map_values(|p: (String, String)| (p.0@, p.1@))
}

/// Puts `x` before the first entry whose label sorts after its own.
pub open spec fn insert_by_label(s: Seq<(Seq<char>, Seq<char>)>, x: (Seq<char>, Seq<char>)) -> Seq<
    (Seq<char>, Seq<char>),
>
    decreases s.len(),
{
    if s.len() == 0 {
        seq![x]
    } else if text_lt(x.0, s[0].0) {
        seq![x] + s
    } else {
        seq![s[0]] + insert_by_label(s.drop_first(), x)
    }
}

/// `s` sorted by label, entries with equal labels in their order in `s`.
pub open spec fn sort_by_label(s: Seq<(Seq<char>, Seq<char>)>) -> Seq<(Seq<char>, Seq<char>)>
    decreases s.len(),
{
    if s.len() == 0 {
        s
    } else {
        insert_by_label(sort_by_label(s.drop_last()), s.last())
    }
}

/// `s` cut into rows of `LINKS_PER_ROW`, the last one possibly shorter.
pub open spec fn rows_of<T>(s: Seq<T>) -> Seq<Seq<T>>
    decreases s.len(),
{
    if s.len() == 0 {
        Seq::empty()
    } else if s.len() <= 3 {
        seq![s]
    } else {
        seq![s.take(3)] + rows_of(s.skip(3))
    }
}

/// The labelled link for `u`, when its canonical form is a valid link.
pub open spec fn link_entry(u: UrlView) -> Option<(Seq<char>, Seq<char>)> {
    match clean_link(u) {
        Some(c) => if parsed_link(c) is Some {
            Some((link_name(u, true), c))
        } else {
            None
        },
        None => None,
    }
}

/// The labelled links for the secondary links, the main one left out.
pub open spec fn other_entries(main: Option<UrlView>, urls: Seq<UrlView>) -> Seq<(Seq<char>, Seq<char>)>
    decreases urls.len(),
{
    if urls.len() == 0 {
        Seq::empty()
    } else {
        let rest = other_entries(main, urls.drop_last());
        if main == Some(urls.last()) {
            rest
        } else {
            match link_entry(urls.last()) {
                Some(e) => rest.push(e),
                None => rest,
            }
        }
    }
}

/// The rows of link buttons for a record: the main link alone on the first
/// row, then the other links sorted by label, `LINKS_PER_ROW` to a row.
pub open spec fn link_layout(main: Option<UrlView>, urls: Option<Seq<UrlView>>) -> Seq<Seq<(Seq<char>, Seq<char>)>> {
    let first = match main {
        Some(m) => match link_entry(m) {
            Some(e) => seq![seq![e]],
            None => Seq::empty(),
        },
        None => Seq::empty(),
    };
    let others = match urls {
        Some(us) => rows_of(sort_by_label(other_entries(main, us))),
        None => Seq::empty(),
    };
    first + others
}

fn text_less(a: &Vec<char>, b: &Vec<char>) -> (r: bool)
    ensures
        r == text_lt(a@, b@),
{
    let mut i: usize = 0;
    assert(a@.skip(0) =~= a@ && b@.skip(0) =~= b@);
    while i < a.len() && i < b.len() && a[i] == b[i]
        invariant
            i <= a@.len(),
            i <= b@.len(),
            text_lt(a@, b@) == text_lt(a@.skip(i as int), b@.skip(i as int)),
        decreases a.len() - i,
    {
        assert(a@.skip(i as int).drop_first() =~= a@.skip(i + 1));
        assert(b@.skip(i as int).drop_first() =~= b@.skip(i + 1));
        i += 1;
    }
    if i == a.len() {
        assert(a@.skip(i as int).len() == 0);
        i < b.len()
    } else if i == b.len() {
        false
    } else {
        assert(a@.skip(i as int)[0] == a@[i as int] && b@.skip(i as int)[0] == b@[i as int]);
        (a[i] as u32) < (b[i] as u32)
    }
}

proof fn lemma_insert_by_label_at(s: Seq<(Seq<char>, Seq<char>)>, x: (Seq<char>, Seq<char>), p: int)
    requires
        0 <= p <= s.len(),
        forall|i: int| 0 <= i < p ==> !text_lt(x.0, #[trigger] s[i].0),
        p < s.len() ==> text_lt(x.0, s[p].0),
    ensures
        insert_by_label(s, x) == s.take(p) + seq![x] + s.skip(p),
    decreases s.len(),
{
    if s.len() == 0 {
        assert(s.take(p) + seq![x] + s.skip(p) =~= seq![x]);
    } else if p == 0 {
        assert(s.take(0) + seq![x] + s.skip(0) =~= seq![x] + s);
    } else {
        let t = s.drop_first();
        assert(!text_lt(x.0, s[0].0));
        assert forall|i: int| 0 <= i < p - 1 implies !text_lt(x.0, #[trigger] t[i].0) by {
            assert(t[i] == s[i + 1]);
        }
        if p - 1 < t.len() {
            assert(t[p - 1] == s[p]);
        }
        lemma_insert_by_label_at(t, x, p - 1);
        assert(seq![s[0]] + (t.take(p - 1) + seq![x] + t.skip(p - 1)) =~= s.take(p) + seq![x]
            + s.skip(p));
    }
}

fn insert_labelled(v: &mut Vec<(String, String)>, x: (String, String))
    ensures
        labels_of(final(v)@) == insert_by_label(labels_of(old(v)@), (x.0@, x.1@)),
{
    let ghost s = labels_of(v@);
    let key = chars_of(x.0.as_str());
    let mut p: usize = 0;
    while p < v.len() && !text_less(&key, &chars_of(v[p].0.as_str()))
        invariant
            p <= v@.len(),
            s == labels_of(v@),
            key@ == x.0@,
            forall|i: int| 0 <= i < p ==> !text_lt(x.0@, #[trigger] s[i].0),
        decreases v.len() - p,
    {
        p += 1;
    }
    proof { lemma_insert_by_label_at(s, (x.0@, x.1@), p as int); }
    let ghost xv = (x.0@, x.1@);
    v.insert(p, x);
    assert(labels_of(v@) =~= s.take(p as int) + seq![xv] + s.skip(p as int));
}

fn entry_for(u: &Url) -> (r: Option<(String, String)>)
    ensures
        match r {
            Some(e) => link_entry(u@) == Some((e.0@, e.1@)),
            None => link_entry(u@) is None,
        },
{
    match u.clean_url() {
        Some(c) => {
            if split_link(c.as_str()).is_some() {
                Some((u.name(true), c))
            } else {
                None
            }
        },
        None => None,
    }
}

fn same_link(a: &Url, b: &Url) -> (r: bool)
    ensures
        r == (a@ == b@),
{
    let same_url = match (&a.url, &b.url) {
        (Some(x), Some(y)) => *x == *y,
        (None, None) => true,
        _ => false,
    };
    let same_name = match (&a.name, &b.name) {
        (Some(x), Some(y)) => *x == *y,
        (None, None) => true,
        _ => false,
    };
    same_url && same_name
}

/// The rows of link buttons for a record's links (see `link_layout`).
pub fn link_rows(main_url: &Option<Url>, urls: &Option<Vec<Url>>) -> (r: Vec<Vec<(String, String)>>)
    ensures
        r@.map_values(|row: Vec<(String, String)>| labels_of(row@)) == link_layout(
            url_of(*main_url),
            match urls {
                Some(v) => Some(crate::enrichment::urls_of(v@)),
                None => None,
            },
        ),
{
    let ghost main = url_of(*main_url);
    let mut rows: Vec<Vec<(String, String)>> = Vec::new();
    match main_url {
        Some(m) => match entry_for(m) {
            Some(e) => {
                let ghost ev = (e.0@, e.1@);
                let mut row: Vec<(String, String)> = Vec::new();
                row.push(e);
                assert(labels_of(row@) =~= seq![ev]);
                let ghost rv = labels_of(row@);
                rows.push(row);
                assert(rows@.map_values(|row: Vec<(String, String)>| labels_of(row@)) =~= seq![rv]);
            },
            None => {
                assert(rows@.map_values(|row: Vec<(String, String)>| labels_of(row@)) =~= Seq::<Seq<(Seq<char>, Seq<char>)>>::empty());
            },
        },
        None => {
            assert(rows@.map_values(|row: Vec<(String, String)>| labels_of(row@)) =~= Seq::<Seq<(Seq<char>, Seq<char>)>>::empty());
        },
    }
    let ghost first = rows@.map_values(|row: Vec<(String, String)>| labels_of(row@));
    assert(first =~= match main {
        Some(m) => match link_entry(m) {
            Some(e) => seq![seq![e]],
            None => Seq::empty(),
        },
        None => Seq::empty(),
    });
    let us = match urls {
        Some(v) => v,
        None => {
            assert(first + Seq::<Seq<(Seq<char>, Seq<char>)>>::empty() =~= first);
            return rows;
        },
    };
    let ghost uv = crate::enrichment::urls_of(us@);
    let mut sorted: Vec<(String, String)> = Vec::new();
    let mut i: usize = 0;
    while i < us.len()
        invariant
            i <= us@.len(),
            uv == crate::enrichment::urls_of(us@),
            main == url_of(*main_url),
            labels_of(sorted@) == sort_by_label(other_entries(main, uv.take(i as int))),
        decreases us.len() - i,
    {
        let ghost t = uv.take(i + 1);
        assert(t.drop_last() =~= uv.take(i as int));
        assert(t.last() == us@[i as int]@);
        let is_main = match main_url {
            Some(m) => same_link(m, &us[i]),
            None => false,
        };
        let ghost prev = other_entries(main, uv.take(i as int));
        if !is_main {
            match entry_for(&us[i]) {
                Some(e) => {
                    let ghost ev = (e.0@, e.1@);
                    assert(prev.push(ev).drop_last() =~= prev);
                    assert(other_entries(main, t) == prev.push(ev));
                    insert_labelled(&mut sorted, e);
                },
                None => {
                    assert(other_entries(main, t) == prev);
                },
            }
        } else {
            assert(other_entries(main, t) == prev);
        }
        i += 1;
    }
    assert(uv.take(us@.len() as int) =~= uv);
    let ghost all = labels_of(sorted@);
    let mut k: usize = 0;
    let ghost base = rows@.map_values(|row: Vec<(String, String)>| labels_of(row@));
    assert(all.skip(0) =~= all);
    while k < sorted.len()
        invariant
            k <= sorted@.len(),
            all == labels_of(sorted@),
            base + rows_of(all.skip(k as int)) == first + rows_of(all),
            rows@.map_values(|row: Vec<(String, String)>| labels_of(row@)) == base,
        decreases sorted.len() - k,
    {
        let end = if sorted.len() - k > LINKS_PER_ROW { k + LINKS_PER_ROW } else { sorted.len() };
        let mut row: Vec<(String, String)> = Vec::new();
        let mut j: usize = k;
        while j < end
            invariant
                k <= j <= end,
                end <= sorted@.len(),
                labels_of(row@) == all.subrange(k as int, j as int),
                all == labels_of(sorted@),
            decreases end - j,
        {
            let e = (sorted[j].0.clone(), sorted[j].1.clone());
            let ghost before = labels_of(row@);
            let ghost ev = (e.0@, e.1@);
            assert(all[j as int] == ev);
            row.push(e);
            assert(labels_of(row@) =~= before.push(ev));
            assert(all.subrange(k as int, j + 1) =~= all.subrange(k as int, j as int).push(ev));
            j += 1;
        }
        let ghost t = all.skip(k as int);
        proof {
            if t.len() > 3 {
                assert(all.subrange(k as int, end as int) =~= t.take(3));
                assert(t.skip(3) =~= all.skip(end as int));
                assert(rows_of(t) == seq![t.take(3)] + rows_of(t.skip(3)));
            } else {
                assert(all.subrange(k as int, end as int) =~= t);
                assert(all.skip(end as int) =~= Seq::<(Seq<char>, Seq<char>)>::empty());
                assert(rows_of(t) == seq![t]);
            }
        }
        let ghost rv = labels_of(row@);
        rows.push(row);
        assert(rows@.map_values(|row: Vec<(String, String)>| labels_of(row@)) =~= base.push(rv));
        assert(base.push(rv) + rows_of(all.skip(end as int)) =~= base + (seq![rv] + rows_of(
            all.skip(end as int),
        )));
        proof {
            base = base.push(rv);
        }
        k = end;
    }
    assert(all.skip(k as int) =~= Seq::<(Seq<char>, Seq<char>)>::empty());
    assert(base + Seq::<Seq<(Seq<char>, Seq<char>)>>::empty() =~= base);
    rows
}

} // verus!
