use vstd::prelude::*;
use crate::enrichment::{
    Chapters, ChaptersView, Enrichment, EnrichmentView, Episodes, EpisodesView, Title, TitleView,
    Url, UrlView, copy_opt_texts, copy_opt_urls, copy_text, opt_texts_of, text_of, texts_of, Status,
};

verus! {

/// Keeps a present value; takes the other only where the first is absent.
pub open spec fn fill<T>(a: Option<T>, b: Option<T>) -> Option<T> {
    if a is Some {
        a
    } else {
        b
    }
}

pub open spec fn fill_title(a: Option<TitleView>, b: Option<TitleView>) -> Option<TitleView> {
    match (a, b) {
        (Some(x), Some(y)) => Some(
            TitleView {
                english: fill(x.english, y.english),
                romaji: fill(x.romaji, y.romaji),
                native: fill(x.native, y.native),
            },
        ),
        (Some(x), None) => Some(x),
        (None, y) => y,
    }
}

pub open spec fn fill_episodes(a: Option<EpisodesView>, b: Option<EpisodesView>) -> Option<
    EpisodesView,
> {
    match (a, b) {
        (Some(x), Some(y)) => Some(
            EpisodesView {
                total: fill(x.total, y.total),
                hit: fill(x.hit, y.hit),
                hit_timestamp_ms: fill(x.hit_timestamp_ms, y.hit_timestamp_ms),
                hit_image: fill(x.hit_image, y.hit_image),
                hit_video: fill(x.hit_video, y.hit_video),
            },
        ),
        (Some(x), None) => Some(x),
        (None, y) => y,
    }
}

pub open spec fn fill_chapters(a: Option<ChaptersView>, b: Option<ChaptersView>) -> Option<
    ChaptersView,
> {
    match (a, b) {
        (Some(x), Some(y)) => Some(
            ChaptersView {
                total: fill(x.total, y.total),
                hit: fill(x.hit, y.hit),
                hit_image: fill(x.hit_image, y.hit_image),
            },
        ),
        (Some(x), None) => Some(x),
        (None, y) => y,
    }
}

pub open spec fn fill_url(a: Option<UrlView>, b: Option<UrlView>) -> Option<UrlView> {
    match (a, b) {
        (Some(x), Some(y)) => Some(UrlView { url: fill(x.url, y.url), name: fill(x.name, y.name) }),
        (Some(x), None) => Some(x),
        (None, y) => y,
    }
}

/// `a` followed by each entry of `b` that is not already there.
pub open spec fn join_new(a: Seq<Seq<char>>, b: Seq<Seq<char>>) -> Seq<Seq<char>>
    decreases b.len(),
{
    if b.len() == 0 {
        a
    } else {
        let r = join_new(a, b.drop_last());
        if r.contains(b.last()) {
            r
        } else {
            r.push(b.last())
        }
    }
}

pub open spec fn join_opt(a: Option<Seq<Seq<char>>>, b: Option<Seq<Seq<char>>>) -> Option<
    Seq<Seq<char>>,
> {
    match (a, b) {
        (Some(x), Some(y)) => Some(join_new(x, y)),
        (Some(x), None) => Some(x),
        (None, y) => y,
    }
}

/// Lays `e` over `acc`: every field that `acc` lacks is filled from `e`, the
/// tag, artist, character and contributor lists are joined, and `acc`'s
/// priority stays. The title, episodes, chapters and main link are records
/// of their own and are filled field by field too: a title that `acc` has
/// in english only takes its romanised and native forms from `e`. The list
/// of secondary links is one field and is taken whole, never joined.
pub open spec fn overlay(acc: EnrichmentView, e: EnrichmentView) -> EnrichmentView {
    EnrichmentView {
        title: fill_title(acc.title, e.title),
        year: fill(acc.year, e.year),
        tags: join_opt(acc.tags, e.tags),
        status: fill(acc.status, e.status),
        artists: join_opt(acc.artists, e.artists),
        characters: join_opt(acc.characters, e.characters),
        thumbnail: fill(acc.thumbnail, e.thumbnail),
        video: fill(acc.video, e.video),
        episodes: fill_episodes(acc.episodes, e.episodes),
        chapters: fill_chapters(acc.chapters, e.chapters),
        main_url: fill_url(acc.main_url, e.main_url),
        urls: fill(acc.urls, e.urls),
        priority: acc.priority,
        enrichers: join_new(acc.enrichers, e.enrichers),
    }
}

/// The records of `s` whose priority is `p`, in their order in `s`.
pub open spec fn with_priority(s: Seq<EnrichmentView>, p: int) -> Seq<EnrichmentView>
    decreases s.len(),
{
    if s.len() == 0 {
        s
    } else {
        let r = with_priority(s.drop_last(), p);
        if s.last().priority == p {
            r.push(s.last())
        } else {
            r
        }
    }
}

/// The records of `s` whose priority is below `p`: those of priority 0 first,
/// then those of priority 1, and so on, each group in its order in `s`.
pub open spec fn below_priority(s: Seq<EnrichmentView>, p: nat) -> Seq<EnrichmentView>
    decreases p,
{
    if p == 0 {
        Seq::empty()
    } else {
        below_priority(s, (p - 1) as nat) + with_priority(s, p - 1)
    }
}

/// `s` sorted by ascending priority, ties kept in their order in `s`.
pub open spec fn by_priority(s: Seq<EnrichmentView>) -> Seq<EnrichmentView> {
    below_priority(s, 256)
}

/// The records of `q` laid over each other from the first to the last.
pub open spec fn overlay_all(q: Seq<EnrichmentView>) -> Option<EnrichmentView>
    decreases q.len(),
{
    if q.len() == 0 {
        None
    } else {
        match overlay_all(q.drop_last()) {
            None => Some(q.last()),
            Some(acc) => Some(overlay(acc, q.last())),
        }
    }
}

/// The one record that a list of records for a hit collapses into.
pub open spec fn merged(s: Seq<EnrichmentView>) -> Option<EnrichmentView> {
    if s.len() == 0 {
        None
    } else if s.len() == 1 {
        Some(s[0])
    } else {
        overlay_all(by_priority(s))
    }
}

pub open spec fn views_of(s: Seq<Enrichment>) -> Seq<EnrichmentView> {
    s.map_values(|e: Enrichment| e@)
}

pub open spec fn opt_view(o: Option<Enrichment>) -> Option<EnrichmentView> {
    match o {
        Some(e) => Some(e@),
        None => None,
    }
}

fn fill_text(a: Option<String>, b: &Option<String>) -> (r: Option<String>)
    ensures
        text_of(r) == fill(text_of(a), text_of(*b)),
{
    match a {
        Some(x) => Some(x),
        None => copy_text(b),
    }
}

fn fill_title_rec(a: Option<Title>, b: &Option<Title>) -> (r: Option<Title>)
    ensures
        crate::enrichment::title_of(r) == fill_title(
            crate::enrichment::title_of(a),
            crate::enrichment::title_of(*b),
        ),
{
    match (a, b) {
        (Some(x), Some(y)) => Some(
            Title {
                english: fill_text(x.english, &y.english),
                romaji: fill_text(x.romaji, &y.romaji),
                native: fill_text(x.native, &y.native),
            },
        ),
        (Some(x), None) => Some(x),
        (None, Some(y)) => Some(y.duplicate()),
        (None, None) => None,
    }
}

fn fill_episodes_rec(a: Option<Episodes>, b: &Option<Episodes>) -> (r: Option<Episodes>)
    ensures
        crate::enrichment::episodes_of(r) == fill_episodes(
            crate::enrichment::episodes_of(a),
            crate::enrichment::episodes_of(*b),
        ),
{
    match (a, b) {
        (Some(x), Some(y)) => Some(
            Episodes {
                total: if x.total.is_some() { x.total } else { y.total },
                hit: if x.hit.is_some() { x.hit } else { y.hit },
                hit_timestamp_ms: if x.hit_timestamp_ms.is_some() {
                    x.hit_timestamp_ms
                } else {
                    y.hit_timestamp_ms
                },
                hit_image: fill_text(x.hit_image, &y.hit_image),
                hit_video: fill_text(x.hit_video, &y.hit_video),
            },
        ),
        (Some(x), None) => Some(x),
        (None, Some(y)) => Some(y.duplicate()),
        (None, None) => None,
    }
}

fn fill_chapters_rec(a: Option<Chapters>, b: &Option<Chapters>) -> (r: Option<Chapters>)
    ensures
        crate::enrichment::chapters_of(r) == fill_chapters(
            crate::enrichment::chapters_of(a),
            crate::enrichment::chapters_of(*b),
        ),
{
    match (a, b) {
        (Some(x), Some(y)) => Some(
            Chapters {
                total: if x.total.is_some() { x.total } else { y.total },
                hit: if x.hit.is_some() { x.hit } else { y.hit },
                hit_image: fill_text(x.hit_image, &y.hit_image),
            },
        ),
        (Some(x), None) => Some(x),
        (None, Some(y)) => Some(y.duplicate()),
        (None, None) => None,
    }
}

fn fill_url_rec(a: Option<Url>, b: &Option<Url>) -> (r: Option<Url>)
    ensures
        crate::enrichment::url_of(r) == fill_url(
            crate::enrichment::url_of(a),
            crate::enrichment::url_of(*b),
        ),
{
    match (a, b) {
        (Some(x), Some(y)) => Some(
            Url { url: fill_text(x.url, &y.url), name: fill_text(x.name, &y.name) },
        ),
        (Some(x), None) => Some(x),
        (None, Some(y)) => Some(y.duplicate()),
        (None, None) => None,
    }
}

/// Whether `v` holds an entry with the text of `s`.
pub fn holds_text(v: &Vec<String>, s: &String) -> (r: bool)
    ensures
        r == texts_of(v@).contains(s@),
{
    let mut i: usize = 0;
    while i < v.len()
        invariant
            i <= v.len(),
            forall|j: int| 0 <= j < i ==> v@[j]@ != s@,
        decreases v.len() - i,
    {
        if v[i] == *s {
            assert(texts_of(v@)[i as int] == s@);
            return true;
        }
        i += 1;
    }
    assert forall|j: int| 0 <= j < texts_of(v@).len() implies texts_of(v@)[j] != s@ by {
        assert(texts_of(v@)[j] == v@[j]@);
    }
    false
}

/// Appends to `acc` each entry of `b` whose text it does not hold yet.
pub fn join_texts(acc: &mut Vec<String>, b: &Vec<String>)
    ensures
        texts_of(final(acc)@) == join_new(texts_of(old(acc)@), texts_of(b@)),
{
    let ghost a0 = texts_of(acc@);
    let mut i: usize = 0;
    while i < b.len()
        invariant
            i <= b.len(),
            texts_of(acc@) == join_new(a0, texts_of(b@.take(i as int))),
        decreases b.len() - i,
    {
        let x = &b[i];
        proof {
            assert(texts_of(b@.take(i + 1)).drop_last() =~= texts_of(b@.take(i as int)));
            assert(texts_of(b@.take(i + 1)).last() == x@);
        }
        if !holds_text(acc, x) {
            let ghost before = acc@;
            acc.push(x.clone());
            assert(texts_of(acc@) =~= texts_of(before).push(x@));
        }
        i += 1;
    }
    assert(b@.take(b.len() as int) =~= b@);
}

fn join_opt_texts(a: Option<Vec<String>>, b: &Option<Vec<String>>) -> (r: Option<Vec<String>>)
    ensures
        opt_texts_of(r) == join_opt(opt_texts_of(a), opt_texts_of(*b)),
{
    match a {
        Some(x) => match b {
            Some(y) => {
                let mut x = x;
                join_texts(&mut x, y);
                Some(x)
            },
            None => Some(x),
        },
        None => copy_opt_texts(b),
    }
}

/// Lays `e` over `acc` (see `overlay`).
pub fn overlay_onto(acc: Enrichment, e: &Enrichment) -> (r: Enrichment)
    ensures
        r@ == overlay(acc@, e@),
{
    let Enrichment {
        title,
        year,
        tags,
        status,
        artists,
        characters,
        thumbnail,
        video,
        episodes,
        chapters,
        main_url,
        urls,
        priority,
        enrichers,
    } = acc;
    let mut enrichers = enrichers;
    join_texts(&mut enrichers, &e.enrichers);
    let status: Option<Status> = if status.is_some() { status } else { e.status };
    let r = Enrichment {
        title: fill_title_rec(title, &e.title),
        year: if year.is_some() { year } else { e.year },
        tags: join_opt_texts(tags, &e.tags),
        status,
        artists: join_opt_texts(artists, &e.artists),
        characters: join_opt_texts(characters, &e.characters),
        thumbnail: fill_text(thumbnail, &e.thumbnail),
        video: fill_text(video, &e.video),
        episodes: fill_episodes_rec(episodes, &e.episodes),
        chapters: fill_chapters_rec(chapters, &e.chapters),
        main_url: fill_url_rec(main_url, &e.main_url),
        urls: match urls {
            Some(u) => Some(u),
            None => copy_opt_urls(&e.urls),
        },
        priority,
        enrichers,
    };
    r
}

proof fn lemma_overlay_all_push(q: Seq<EnrichmentView>, e: EnrichmentView)
    ensures
        overlay_all(q.push(e)) == match overlay_all(q) {
            None => Some(e),
            Some(acc) => Some(overlay(acc, e)),
        },
{
    assert(q.push(e).drop_last() =~= q);
}

/// Collapses the records found for one hit into one: none from none, the
/// record itself from one, and otherwise the records laid over each other
/// in ascending priority (ties in list order).
pub fn merge_enrichments(enrichments: Vec<Enrichment>) -> (r: Option<Enrichment>)
    ensures
        opt_view(r) == merged(views_of(enrichments@)),
        enrichments@.len() == 0 ==> r is None,
        enrichments@.len() == 1 ==> r is Some && r->0@ == enrichments@[0]@,
{
    let ghost s = views_of(enrichments@);
    if enrichments.len() == 0 {
        return None;
    }
    if enrichments.len() == 1 {
        let mut v = enrichments;
        let r = v.pop();
        return r;
    }
    let v = enrichments;
    let mut acc: Option<Enrichment> = None;
    let mut p: u16 = 0;
    while p < 256
        invariant
            p <= 256,
            s == views_of(v@),
            opt_view(acc) == overlay_all(below_priority(s, p as nat)),
        decreases 256 - p,
    {
        let mut i: usize = 0;
        while i < v.len()
            invariant
                i <= v.len(),
                p < 256,
                s == views_of(v@),
                opt_view(acc) == overlay_all(
                    below_priority(s, p as nat) + with_priority(s.take(i as int), p as int),
                ),
            decreases v.len() - i,
        {
            let ghost prefix = below_priority(s, p as nat);
            let ghost before = with_priority(s.take(i as int), p as int);
            proof {
                assert(s.take(i + 1).drop_last() =~= s.take(i as int));
                assert(s.take(i + 1).last() == v@[i as int]@);
            }
            if v[i].priority as u16 == p {
                let ghost e = v@[i as int]@;
                proof {
                    assert(with_priority(s.take(i + 1), p as int) == before.push(e));
                    assert(prefix + before.push(e) =~= (prefix + before).push(e));
                    lemma_overlay_all_push(prefix + before, e);
                }
                acc = match acc {
                    None => Some(v[i].duplicate()),
                    Some(a) => Some(overlay_onto(a, &v[i])),
                };
            } else {
                assert(with_priority(s.take(i + 1), p as int) == before);
            }
            i += 1;
        }
        proof {
            assert(s.take(v.len() as int) =~= s);
            assert(below_priority(s, (p + 1) as nat) == below_priority(s, p as nat)
                + with_priority(s, p as int));
        }
        p += 1;
    }
    acc
}

proof fn lemma_below_two(a: EnrichmentView, b: EnrichmentView, p: nat)
    requires
        a.priority <= b.priority,
    ensures
        below_priority(seq![a, b], p) == if p <= a.priority {
            Seq::<EnrichmentView>::empty()
        } else if p <= b.priority {
            seq![a]
        } else {
            seq![a, b]
        },
        below_priority(seq![b, a], p) == if p <= a.priority {
            Seq::<EnrichmentView>::empty()
        } else if p <= b.priority {
            if a.priority == b.priority { seq![b] } else { seq![a] }
        } else {
            if a.priority == b.priority { seq![b, a] } else { seq![a, b] }
        },
    decreases p,
{
    if p > 0 {
        lemma_below_two(a, b, (p - 1) as nat);
        let q = p - 1;
        assert(seq![a, b].drop_last() =~= seq![a]);
        assert(seq![b, a].drop_last() =~= seq![b]);
        assert(seq![a].drop_last() =~= Seq::<EnrichmentView>::empty());
        assert(seq![b].drop_last() =~= Seq::<EnrichmentView>::empty());
        assert(with_priority(seq![a].drop_last(), q) =~= Seq::<EnrichmentView>::empty());
        assert(with_priority(seq![b].drop_last(), q) =~= Seq::<EnrichmentView>::empty());
        let wa = with_priority(seq![a], q);
        let wb = with_priority(seq![b], q);
        assert(wa == if a.priority == q { seq![a] } else { Seq::<EnrichmentView>::empty() }) by {
            assert(Seq::<EnrichmentView>::empty().push(a) =~= seq![a]);
        }
        assert(wb == if b.priority == q { seq![b] } else { Seq::<EnrichmentView>::empty() }) by {
            assert(Seq::<EnrichmentView>::empty().push(b) =~= seq![b]);
        }
        assert(seq![a].push(b) =~= seq![a, b]);
        assert(seq![b].push(a) =~= seq![b, a]);
        assert(seq![a] + seq![b] =~= seq![a, b]);
        assert(seq![b] + seq![a] =~= seq![b, a]);
        assert(Seq::<EnrichmentView>::empty() + seq![a] =~= seq![a]);
        assert(Seq::<EnrichmentView>::empty() + seq![b] =~= seq![b]);
        assert(Seq::<EnrichmentView>::empty() + seq![a, b] =~= seq![a, b]);
        assert(Seq::<EnrichmentView>::empty() + seq![b, a] =~= seq![b, a]);
        assert(seq![a] + Seq::<EnrichmentView>::empty() =~= seq![a]);
        assert(seq![b] + Seq::<EnrichmentView>::empty() =~= seq![b]);
        assert(seq![a, b] + Seq::<EnrichmentView>::empty() =~= seq![a, b]);
        assert(seq![b, a] + Seq::<EnrichmentView>::empty() =~= seq![b, a]);
        assert(Seq::<EnrichmentView>::empty() + Seq::<EnrichmentView>::empty() =~= Seq::<
            EnrichmentView,
        >::empty());
    }
}

proof fn lemma_overlay_all_two(a: EnrichmentView, b: EnrichmentView)
    ensures
        overlay_all(seq![a, b]) == Some(overlay(a, b)),
{
    assert(seq![a, b].drop_last() =~= seq![a]);
    assert(seq![a].drop_last() =~= Seq::<EnrichmentView>::empty());
    assert(overlay_all(seq![a].drop_last()) is None);
    assert(overlay_all(seq![a]) == Some(a));
}

/// The entries of a joined list are those of both lists.
pub proof fn join_is_union(a: Seq<Seq<char>>, b: Seq<Seq<char>>)
    ensures
        join_new(a, b).to_set() == a.to_set() + b.to_set(),
    decreases b.len(),
{
    if b.len() > 0 {
        join_is_union(a, b.drop_last());
        let r = join_new(a, b.drop_last());
        assert(b.to_set() =~= b.drop_last().to_set().insert(b.last())) by {
            assert forall|x| b.to_set().contains(x) implies b.drop_last().to_set().insert(
                b.last(),
            ).contains(x) by {
                let i = choose|i: int| 0 <= i < b.len() && b[i] == x;
                if i < b.len() - 1 {
                    assert(b.drop_last()[i] == x);
                }
            }
            assert forall|x| b.drop_last().to_set().insert(b.last()).contains(x) implies b.to_set().contains(x) by {
                if x != b.last() {
                    let i = choose|i: int| 0 <= i < b.drop_last().len() && b.drop_last()[i] == x;
                    assert(b[i] == x);
                } else {
                    assert(b[b.len() - 1] == x);
                }
            }
        }
        if r.contains(b.last()) {
            assert(join_new(a, b).to_set() =~= a.to_set() + b.to_set());
        } else {
            assert(r.push(b.last()).to_set() =~= r.to_set().insert(b.last())) by {
                assert forall|x| r.push(b.last()).to_set().contains(x) implies r.to_set().insert(
                    b.last(),
                ).contains(x) by {
                    let i = choose|i: int| 0 <= i < r.push(b.last()).len() && r.push(b.last())[i] == x;
                    if i < r.len() {
                        assert(r[i] == x);
                    }
                }
                assert forall|x| r.to_set().insert(b.last()).contains(x) implies r.push(
                    b.last(),
                ).to_set().contains(x) by {
                    if x != b.last() {
                        let i = choose|i: int| 0 <= i < r.len() && r[i] == x;
                        assert(r.push(b.last())[i] == x);
                    } else {
                        assert(r.push(b.last())[r.len() as int] == x);
                    }
                }
            }
            assert(join_new(a, b).to_set() =~= a.to_set() + b.to_set());
        }
    }
}

/// Merging two records, the one of lower or equal priority first: the result
/// is the second laid over the first. A field that the first lacks is taken
/// from the second; the tag, artist, character and contributor lists hold
/// the entries of both.
pub proof fn merge_fills_gaps(a: EnrichmentView, b: EnrichmentView)
    requires
        a.priority <= b.priority,
    ensures
        merged(seq![a, b]) == Some(overlay(a, b)),
        a.priority < b.priority ==> merged(seq![b, a]) == Some(overlay(a, b)),
        a.title is None ==> merged(seq![a, b])->0.title == b.title,
        a.thumbnail is None ==> merged(seq![a, b])->0.thumbnail == b.thumbnail,
        a.year is None ==> merged(seq![a, b])->0.year == b.year,
        a.main_url is None ==> merged(seq![a, b])->0.main_url == b.main_url,
        a.tags is Some && b.tags is Some ==> merged(seq![a, b])->0.tags->0.to_set()
            == a.tags->0.to_set() + b.tags->0.to_set(),
        a.tags is None ==> merged(seq![a, b])->0.tags == b.tags,
        merged(seq![a, b])->0.enrichers.to_set() == a.enrichers.to_set()
            + b.enrichers.to_set(),
{
    lemma_below_two(a, b, 256);
    lemma_overlay_all_two(a, b);
    join_is_union(a.enrichers, b.enrichers);
    if a.tags is Some && b.tags is Some {
        join_is_union(a.tags->0, b.tags->0);
    }
}

/// Merging two records, the one of lower or equal priority first: a value
/// that the first holds is never replaced by the second's.
pub proof fn merge_keeps_present(a: EnrichmentView, b: EnrichmentView)
    requires
        a.priority <= b.priority,
    ensures
        a.title is Some && a.title->0.english is Some ==> merged(seq![a, b])->0.title->0.english
            == a.title->0.english,
        a.title is Some && a.title->0.romaji is Some ==> merged(seq![a, b])->0.title->0.romaji
            == a.title->0.romaji,
        a.title is Some && a.title->0.native is Some ==> merged(seq![a, b])->0.title->0.native
            == a.title->0.native,
        a.year is Some ==> merged(seq![a, b])->0.year == a.year,
        a.status is Some ==> merged(seq![a, b])->0.status == a.status,
        a.thumbnail is Some ==> merged(seq![a, b])->0.thumbnail == a.thumbnail,
        a.video is Some ==> merged(seq![a, b])->0.video == a.video,
        a.urls is Some ==> merged(seq![a, b])->0.urls == a.urls,
        a.main_url is Some && a.main_url->0.url is Some ==> merged(seq![a, b])->0.main_url->0.url
            == a.main_url->0.url,
        merged(seq![a, b])->0.priority == a.priority,
{
    lemma_below_two(a, b, 256);
    lemma_overlay_all_two(a, b);
}

/// Merging one record gives it back unchanged; merging none gives nothing.
pub proof fn merge_identity(e: EnrichmentView)
    ensures
        merged(seq![e]) == Some(e),
        merged(Seq::<EnrichmentView>::empty()) is None,
{
}

proof fn lemma_with_priority_push(s: Seq<EnrichmentView>, e: EnrichmentView, q: int)
    ensures
        with_priority(s.push(e), q) == if e.priority == q {
            with_priority(s, q).push(e)
        } else {
            with_priority(s, q)
        },
{
    assert(s.push(e).drop_last() =~= s);
}

proof fn lemma_below_push_len(s: Seq<EnrichmentView>, e: EnrichmentView, p: nat)
    ensures
        below_priority(s.push(e), p).len() == below_priority(s, p).len() + if e.priority < p {
            1int
        } else {
            0int
        },
    decreases p,
{
    if p > 0 {
        lemma_below_push_len(s, e, (p - 1) as nat);
        lemma_with_priority_push(s, e, p - 1);
    }
}

proof fn lemma_by_priority_len(s: Seq<EnrichmentView>)
    ensures
        below_priority(s, 256).len() == s.len(),
    decreases s.len(),
{
    if s.len() == 0 {
        lemma_below_empty(s, 256);
    } else {
        let t = s.drop_last();
        lemma_by_priority_len(t);
        assert(t.push(s.last()) =~= s);
        lemma_below_push_len(t, s.last(), 256);
    }
}

proof fn lemma_below_empty(s: Seq<EnrichmentView>, p: nat)
    requires
        s.len() == 0,
    ensures
        below_priority(s, p).len() == 0,
    decreases p,
{
    if p > 0 {
        lemma_below_empty(s, (p - 1) as nat);
    }
}

proof fn lemma_with_priority_has(s: Seq<EnrichmentView>, i: int)
    requires
        0 <= i < s.len(),
    ensures
        with_priority(s, s[i].priority as int).contains(s[i]),
    decreases s.len(),
{
    let t = s.drop_last();
    let q = s[i].priority as int;
    if i == s.len() - 1 {
        let r = with_priority(t, q);
        assert(r.push(s[i])[r.len() as int] == s[i]);
    } else {
        assert(t[i] == s[i]);
        lemma_with_priority_has(t, i);
        let r = with_priority(t, q);
        let k = choose|k: int| 0 <= k < r.len() && r[k] == s[i];
        if s.last().priority == q {
            assert(r.push(s.last())[k] == s[i]);
        }
    }
}

proof fn lemma_below_has(s: Seq<EnrichmentView>, q: int, p: nat, x: EnrichmentView)
    requires
        0 <= q < p,
        with_priority(s, q).contains(x),
    ensures
        below_priority(s, p).contains(x),
    decreases p,
{
    let prev = below_priority(s, (p - 1) as nat);
    let w = with_priority(s, p - 1);
    if q == p - 1 {
        let k = choose|k: int| 0 <= k < w.len() && w[k] == x;
        assert((prev + w)[prev.len() + k] == x);
    } else {
        lemma_below_has(s, q, (p - 1) as nat, x);
        let k = choose|k: int| 0 <= k < prev.len() && prev[k] == x;
        assert((prev + w)[k] == x);
    }
}

/// Sorting by priority keeps every record: the sorted list is as long as
/// the given one and holds each of its records.
pub proof fn sorting_keeps_every_record(s: Seq<EnrichmentView>)
    ensures
        by_priority(s).len() == s.len(),
        forall|i: int| 0 <= i < s.len() ==> by_priority(s).contains(#[trigger] s[i]),
{
    lemma_by_priority_len(s);
    assert forall|i: int| 0 <= i < s.len() implies by_priority(s).contains(#[trigger] s[i]) by {
        lemma_with_priority_has(s, i);
        lemma_below_has(s, s[i].priority as int, 256, s[i]);
    }
}

} // verus!
