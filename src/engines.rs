use vstd::prelude::*;
use crate::links::{link_service, parsed_link, url_id};
use crate::search_hit::{lookup, MetaValue, SearchHit};
use crate::service::{service_key, Service};
use crate::text::{chars_of, contains, has_part, has_prefix, starts_with, str_eq};

verus! {

/// The episode that the scene-search engine reports: a number, or a text
/// when the episode has no number.
#[derive(Debug)]
pub enum EpisodeRef {
    Number(i128),
    Text(String),
}

/// What `set_entry` leaves in the metadata.
pub open spec fn entry_set(before: Seq<(String, MetaValue)>, after: Seq<(String, MetaValue)>, key: Seq<char>, value: MetaValue) -> bool {
    &&& lookup(after, key) == Some(value)
    &&& forall|k: Seq<char>| k != key ==> #[trigger] lookup(after, k) == lookup(before, k)
}

proof fn lemma_lookup_push(md: Seq<(String, MetaValue)>, e: (String, MetaValue), k: Seq<char>)
    ensures
        lookup(md.push(e), k) == match lookup(md, k) {
            Some(v) => Some(v),
            None => if e.0@ == k {
                Some(e.1)
            } else {
                None
            },
        },
    decreases md.len(),
{
    if md.len() > 0 {
        assert(md.push(e).drop_first() =~= md.drop_first().push(e));
        lemma_lookup_push(md.drop_first(), e, k);
    } else {
        assert(md.push(e).drop_first() =~= Seq::<(String, MetaValue)>::empty());
        assert(lookup(Seq::<(String, MetaValue)>::empty(), k) is None);
    }
}

proof fn lemma_lookup_update(md: Seq<(String, MetaValue)>, i: int, e: (String, MetaValue), k: Seq<char>)
    requires
        0 <= i < md.len(),
        md[i].0@ == e.0@,
        forall|j: int| 0 <= j < i ==> md[j].0@ != e.0@,
    ensures
        lookup(md.update(i, e), k) == if k == e.0@ {
            Some(e.1)
        } else {
            lookup(md, k)
        },
    decreases md.len(),
{
    if i > 0 {
        assert(md.update(i, e).drop_first() =~= md.drop_first().update(i - 1, e));
        assert forall|j: int| 0 <= j < i - 1 implies md.drop_first()[j].0@ != e.0@ by {
            assert(md.drop_first()[j] == md[j + 1]);
        }
        lemma_lookup_update(md.drop_first(), i - 1, e, k);
        assert(md[0].0@ != e.0@);
    } else {
        assert(md.update(0, e).drop_first() =~= md.drop_first());
    }
}

/// The position of the first entry filed under `key`.
fn find_key(md: &Vec<(String, MetaValue)>, key: &str) -> (r: Option<usize>)
    ensures
        match r {
            Some(i) => i < md@.len() && md@[i as int].0@ == key@ && forall|j: int|
                0 <= j < i ==> md@[j].0@ != key@,
            None => forall|j: int| 0 <= j < md@.len() ==> md@[j].0@ != key@,
        },
{
    let mut i: usize = 0;
    while i < md.len()
        invariant
            i <= md@.len(),
            forall|j: int| 0 <= j < i ==> md@[j].0@ != key@,
        decreases md.len() - i,
    {
        if str_eq(md[i].0.as_str(), key) {
            return Some(i);
        }
        i += 1;
    }
    None
}

/// Files `value` under `key`, replacing what was there.
pub fn set_entry(md: &mut Vec<(String, MetaValue)>, key: String, value: MetaValue)
    ensures
        entry_set(old(md)@, final(md)@, key@, value),
{
    let ghost before = md@;
    let ghost kv = key@;
    let ghost vv = value;
    match find_key(md, key.as_str()) {
        Some(i) => {
            md.set(i, (key, value));
            proof {
                assert(md@ =~= before.update(i as int, md@[i as int]));
                lemma_lookup_update(before, i as int, md@[i as int], kv);
                assert forall|k: Seq<char>| k != kv implies #[trigger] lookup(md@, k) == lookup(
                    before,
                    k,
                ) by {
                    lemma_lookup_update(before, i as int, md@[i as int], k);
                }
            }
        },
        None => {
            md.push((key, value));
            proof {
                lemma_lookup_absent(before, kv);
                lemma_lookup_push(before, md@.last(), kv);
                assert(md@ == before.push(md@.last()));
                assert forall|k: Seq<char>| k != kv implies #[trigger] lookup(md@, k) == lookup(
                    before,
                    k,
                ) by {
                    lemma_lookup_push(before, md@.last(), k);
                }
            }
        },
    }
}

proof fn lemma_lookup_absent(md: Seq<(String, MetaValue)>, k: Seq<char>)
    requires
        forall|j: int| 0 <= j < md.len() ==> md[j].0@ != k,
    ensures
        lookup(md, k) is None,
    decreases md.len(),
{
    if md.len() > 0 {
        assert forall|j: int| 0 <= j < md.drop_first().len() implies md.drop_first()[j].0@ != k by {
            assert(md.drop_first()[j] == md[j + 1]);
        }
        lemma_lookup_absent(md.drop_first(), k);
    }
}

/// The metadata keys of a hit of the scene-search engine.
pub open spec fn scene_key(k: Seq<char>, episode: Option<EpisodeRef>) -> bool {
    ||| k == "anilist_id"@
    ||| k == "hit_timestamp"@
    ||| k == "hit_image"@
    ||| k == "hit_video"@
    ||| (episode matches Some(EpisodeRef::Number(_)) && k == "hit_episode"@)
    ||| (episode matches Some(EpisodeRef::Text(_)) && k == "episode"@)
}

/// A hit of the scene-search engine: the catalog id, the moment in the
/// episode (in thousandths of a second), the frame and clip, and the
/// episode, under its number or its text; no other key is filed.
pub fn scene_hit(
    similarity: u32,
    anilist: i128,
    at_thousandths: i128,
    image: String,
    video: String,
    episode: Option<EpisodeRef>,
) -> (r: SearchHit)
    ensures
        r.similarity == similarity,
        r.engine@ == "TraceMoe"@,
        r.thumbnail == Some(image),
        lookup(r.metadata@, "anilist_id"@) == Some(MetaValue::Integer(anilist)),
        lookup(r.metadata@, "hit_timestamp"@) == Some(MetaValue::Fraction(at_thousandths)),
        lookup(r.metadata@, "hit_image"@) == Some(MetaValue::Text(image)),
        lookup(r.metadata@, "hit_video"@) == Some(MetaValue::Text(video)),
        match episode {
            Some(EpisodeRef::Number(n)) => lookup(r.metadata@, "hit_episode"@) == Some(
                MetaValue::Integer(n),
            ),
            Some(EpisodeRef::Text(t)) => lookup(r.metadata@, "episode"@) == Some(
                MetaValue::Text(t),
            ),
            None => true,
        },
        forall|k: Seq<char>| !scene_key(k, episode) ==> lookup(r.metadata@, k) is None,
{
    proof {
        reveal_strlit("anilist_id");
        reveal_strlit("hit_timestamp");
        reveal_strlit("hit_image");
        reveal_strlit("hit_video");
        reveal_strlit("hit_episode");
        reveal_strlit("episode");
    }
    let mut md: Vec<(String, MetaValue)> = Vec::new();
    let thumb = image.clone();
    assert("anilist_id"@[0] == 'a' && "episode"@[0] == 'e' && "hit_timestamp"@[0] == 'h'
        && "hit_image"@[0] == 'h' && "hit_video"@[0] == 'h' && "hit_episode"@[0] == 'h');
    assert("hit_timestamp"@[4] == 't' && "hit_image"@[4] == 'i' && "hit_video"@[4] == 'v'
        && "hit_episode"@[4] == 'e');
    assert("anilist_id"@ != "hit_timestamp"@ && "anilist_id"@ != "hit_image"@ && "anilist_id"@
        != "hit_video"@ && "anilist_id"@ != "hit_episode"@ && "anilist_id"@ != "episode"@);
    assert("hit_timestamp"@ != "hit_image"@ && "hit_timestamp"@ != "hit_video"@
        && "hit_timestamp"@ != "hit_episode"@ && "hit_timestamp"@ != "episode"@);
    assert("hit_image"@ != "hit_video"@ && "hit_image"@ != "hit_episode"@ && "hit_image"@
        != "episode"@);
    assert("hit_video"@ != "hit_episode"@ && "hit_video"@ != "episode"@);
    let ghost img = image;
    let ghost vid = video;
    let ghost m0 = md@;
    assert forall|k: Seq<char>| #[trigger] lookup(m0, k) is None by {}
    set_entry(&mut md, String::from_str("anilist_id"), MetaValue::Integer(anilist));
    let ghost m1 = md@;
    set_entry(&mut md, String::from_str("hit_timestamp"), MetaValue::Fraction(at_thousandths));
    let ghost m2 = md@;
    assert(lookup(md@, "anilist_id"@) == Some(MetaValue::Integer(anilist)));
    set_entry(&mut md, String::from_str("hit_image"), MetaValue::Text(image));
    let ghost m3 = md@;
    assert(lookup(md@, "anilist_id"@) == Some(MetaValue::Integer(anilist)));
    assert(lookup(md@, "hit_timestamp"@) == Some(MetaValue::Fraction(at_thousandths)));
    set_entry(&mut md, String::from_str("hit_video"), MetaValue::Text(video));
    let ghost m4 = md@;
    let ghost ep = episode;
    assert forall|k: Seq<char>| !scene_key(k, ep) implies #[trigger] lookup(m4, k) is None by {
        assert(lookup(m4, k) == lookup(m3, k));
        assert(lookup(m3, k) == lookup(m2, k));
        assert(lookup(m2, k) == lookup(m1, k));
        assert(lookup(m1, k) == lookup(m0, k));
    }
    assert(lookup(md@, "anilist_id"@) == Some(MetaValue::Integer(anilist)));
    assert(lookup(md@, "hit_timestamp"@) == Some(MetaValue::Fraction(at_thousandths)));
    assert(lookup(md@, "hit_image"@) == Some(MetaValue::Text(img)));
    match episode {
        Some(EpisodeRef::Number(n)) => {
            set_entry(&mut md, String::from_str("hit_episode"), MetaValue::Integer(n));
            assert(lookup(md@, "anilist_id"@) == Some(MetaValue::Integer(anilist)));
            assert(lookup(md@, "hit_timestamp"@) == Some(MetaValue::Fraction(at_thousandths)));
            assert(lookup(md@, "hit_image"@) == Some(MetaValue::Text(img)));
            assert(lookup(md@, "hit_video"@) == Some(MetaValue::Text(vid)));
        },
        Some(EpisodeRef::Text(t)) => {
            set_entry(&mut md, String::from_str("episode"), MetaValue::Text(t));
            assert(lookup(md@, "anilist_id"@) == Some(MetaValue::Integer(anilist)));
            assert(lookup(md@, "hit_timestamp"@) == Some(MetaValue::Fraction(at_thousandths)));
            assert(lookup(md@, "hit_image"@) == Some(MetaValue::Text(img)));
            assert(lookup(md@, "hit_video"@) == Some(MetaValue::Text(vid)));
        },
        None => {},
    }
    assert forall|k: Seq<char>| !scene_key(k, ep) implies #[trigger] lookup(md@, k) is None by {
        assert(lookup(m4, k) is None);
    }
    SearchHit {
        similarity,
        thumbnail: Some(thumb),
        engine: String::from_str("TraceMoe"),
        metadata: md,
    }
}

/// The id that the last of `links` naming a known service whose key is
/// `key` holds, if any of them does.
pub open spec fn filed_id(links: Seq<String>, key: Seq<char>) -> Option<Seq<char>>
    decreases links.len(),
{
    if links.len() == 0 {
        None
    } else {
        let url = links.last()@;
        let s = link_service(url, parsed_link(url));
        match url_id(s, url) {
            Some(id) => if service_key(s) == key {
                Some(id)
            } else {
                filed_id(links.drop_last(), key)
            },
            None => filed_id(links.drop_last(), key),
        }
    }
}

/// What filing the ids of `links` into `before` leaves: under each key that
/// a link names, that link's id; under every other key, what was there.
pub open spec fn links_filed(before: Seq<(String, MetaValue)>, links: Seq<String>, after: Seq<(String, MetaValue)>) -> bool {
    forall|k: Seq<char>| #[trigger] lookup(after, k) == match filed_id(links, k) {
        Some(id) => lookup(after, k),
        None => lookup(before, k),
    } && (filed_id(links, k) matches Some(id) ==> lookup(after, k) matches Some(
        MetaValue::Text(t),
    ) && t@ == id)
}

/// Files the ids that the source-search engine's links hold, each under its
/// service's key.
pub fn file_link_ids(md: &mut Vec<(String, MetaValue)>, links: &Vec<String>)
    ensures
        links_filed(old(md)@, links@, final(md)@),
{
    let ghost start = md@;
    let mut i: usize = 0;
    while i < links.len()
        invariant
            i <= links@.len(),
            links_filed(start, links@.take(i as int), md@),
        decreases links.len() - i,
    {
        let ghost mid = md@;
        let ghost t = links@.take(i + 1);
        assert(t.drop_last() =~= links@.take(i as int));
        assert(t.last() == links@[i as int]);
        match Service::parse_url(links[i].as_str()) {
            Some((service, id)) => {
                let key = service.key();
                let ghost kv = key@;
                let ghost idv: String = id;
                set_entry(md, key, MetaValue::Text(id));
                assert forall|k: Seq<char>| #[trigger] lookup(md@, k) == match filed_id(t, k) {
                    Some(x) => lookup(md@, k),
                    None => lookup(start, k),
                } && (filed_id(t, k) matches Some(x) ==> lookup(md@, k) matches Some(
                    MetaValue::Text(w),
                ) && w@ == x) by {
                    if k != kv {
                        assert(lookup(md@, k) == lookup(mid, k));
                        assert(filed_id(t, k) == filed_id(links@.take(i as int), k));
                    } else {
                        assert(filed_id(t, k) == Some(idv@));
                    }
                }
            },
            None => {
                assert forall|k: Seq<char>| #[trigger] lookup(md@, k) == match filed_id(t, k) {
                    Some(x) => lookup(md@, k),
                    None => lookup(start, k),
                } && (filed_id(t, k) matches Some(x) ==> lookup(md@, k) matches Some(
                    MetaValue::Text(w),
                ) && w@ == x) by {
                    assert(lookup(md@, k) == lookup(mid, k));
                    assert(filed_id(t, k) == filed_id(links@.take(i as int), k));
                }
            },
        }
        i += 1;
    }
    assert(links@.take(links@.len() as int) =~= links@);
}

/// A hit of the source-search engine: the fields it sent, with the ids of
/// its links filed under their services' keys.
pub fn source_hit(similarity: u32, thumbnail: String, fields: Vec<(String, MetaValue)>, links: &Vec<String>) -> (r: SearchHit)
    ensures
        r.similarity == similarity,
        r.engine@ == "saucenao"@,
        r.thumbnail == Some(thumbnail),
        links_filed(fields@, links@, r.metadata@),
{
    let mut md = fields;
    file_link_ids(&mut md, links);
    SearchHit {
        similarity,
        thumbnail: Some(thumbnail),
        engine: String::from_str("saucenao"),
        metadata: md,
    }
}

/// The image index's address, which its relative links are resolved against.
pub open spec fn index_base() -> Seq<char> {
    "https://iqdb.org"@
}

/// A thumbnail link of the image index, made absolute.
pub open spec fn index_thumbnail(src: Seq<char>) -> Seq<char> {
    if contains(src, index_base()) {
        src
    } else {
        index_base() + src
    }
}

/// A link of the image index with its scheme filled in.
pub open spec fn index_link(href: Seq<char>) -> Seq<char> {
    if starts_with(href, "//"@) {
        "https:"@ + href
    } else {
        href
    }
}

/// What the image index files for one link: under the key of the service
/// the link points to, the id it holds, or else the link itself.
pub open spec fn index_value(url: Seq<char>) -> Seq<char> {
    let s = link_service(url, parsed_link(url));
    match url_id(s, url) {
        Some(id) => id,
        None => url,
    }
}

/// The value filed under `key` by the last of `links` whose service has that key.
pub open spec fn index_filed(links: Seq<Seq<char>>, key: Seq<char>) -> Option<Seq<char>>
    decreases links.len(),
{
    if links.len() == 0 {
        None
    } else {
        let url = index_link(links.last());
        if service_key(link_service(url, parsed_link(url))) == key {
            Some(index_value(url))
        } else {
            index_filed(links.drop_last(), key)
        }
    }
}

/// A hit of the image index, from its thumbnail, its links and its
/// similarity (read from the page by the caller); with no similarity, or
/// with a link that has no address, there is no hit.
pub fn index_hit(thumbnail: &String, hrefs: &Vec<Option<String>>, similarity: Option<u32>) -> (r: Option<SearchHit>)
    ensures
        r is Some <==> (similarity is Some && forall|i: int| 0 <= i < hrefs@.len() ==> #[trigger] hrefs@[i] is Some),
        r matches Some(h) ==> {
            &&& h.similarity == similarity->0
            &&& h.engine@ == "iqdb"@
            &&& h.thumbnail matches Some(t) && t@ == index_thumbnail(thumbnail@)
            &&& forall|k: Seq<char>| {
                let links = hrefs@.map_values(|o: Option<String>| o->0@);
                match index_filed(links, k) {
                    Some(v) => #[trigger] lookup(h.metadata@, k) matches Some(MetaValue::Text(t)) && t@ == v,
                    None => lookup(h.metadata@, k) is None,
                }
            }
        },
{
    let sim = match similarity {
        Some(s) => s,
        None => {
            return None;
        },
    };
    let src = chars_of(thumbnail.as_str());
    let thumb = if has_part(&src, "https://iqdb.org") {
        thumbnail.clone()
    } else {
        let mut t = String::from_str("https://iqdb.org");
        t.append(thumbnail.as_str());
        t
    };
    let ghost links = hrefs@.map_values(|o: Option<String>| o->0@);
    let mut md: Vec<(String, MetaValue)> = Vec::new();
    let mut i: usize = 0;
    while i < hrefs.len()
        invariant
            i <= hrefs@.len(),
            links == hrefs@.map_values(|o: Option<String>| o->0@),
            forall|j: int| 0 <= j < i ==> #[trigger] hrefs@[j] is Some,
            forall|k: Seq<char>| match index_filed(links.take(i as int), k) {
                Some(v) => #[trigger] lookup(md@, k) matches Some(MetaValue::Text(t)) && t@ == v,
                None => lookup(md@, k) is None,
            },
        decreases hrefs.len() - i,
    {
        let href = match &hrefs[i] {
            Some(h) => h,
            None => {
                return None;
            },
        };
        let ghost t = links.take(i + 1);
        assert(t.drop_last() =~= links.take(i as int));
        assert(t.last() == href@);
        let url = if has_prefix(&chars_of(href.as_str()), "//") {
            let mut u = String::from_str("https:");
            u.append(href.as_str());
            u
        } else {
            href.clone()
        };
        let service = Service::from_url(url.as_str());
        let key = service.key();
        let ghost kv = key@;
        let value = match service.get_id(url.as_str()) {
            Some(id) => id,
            None => url.clone(),
        };
        let ghost vv = value;
        let ghost mid = md@;
        set_entry(&mut md, key, MetaValue::Text(value));
        assert forall|k: Seq<char>| match index_filed(t, k) {
            Some(v) => #[trigger] lookup(md@, k) matches Some(MetaValue::Text(w)) && w@ == v,
            None => lookup(md@, k) is None,
        } by {
            if k != kv {
                assert(lookup(md@, k) == lookup(mid, k));
                assert(index_filed(t, k) == index_filed(links.take(i as int), k));
            } else {
                assert(index_filed(t, k) == Some(vv@));
            }
        }
        i += 1;
    }
    assert(links.take(hrefs@.len() as int) =~= links);
    Some(SearchHit { similarity: sim, thumbnail: Some(thumb), engine: String::from_str("iqdb"), metadata: md })
}

} // verus!
