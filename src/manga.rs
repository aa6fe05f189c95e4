use vstd::prelude::*;
use crate::enrichment::{
    text_of, texts_of, urls_of, Chapters, ChaptersView, Enrichment, EnrichmentView, Status, Title,
    TitleView, Url, UrlView, copy_text,
};
use crate::links::{link_service, parsed_link};
use crate::merge::{join_new, join_texts};
use crate::providers::ProviderKind;
use crate::records::{bare, key_link, present};
use crate::search_hit::{get_meta, lookup, MetaValue, SearchHit};
use crate::service::{built_url, Service, ServiceId};
use crate::text::{
    chars_are, chars_of, decimal_value, has_prefix, parse_decimal, starts_with, str_eq,
};

verus! {

/// A series as the manga catalog reports it. `titles` holds the main title
/// map first and then the alternative ones, each from language code to
/// text; `links` maps site codes to ids or links, one entry per site.
#[derive(Debug)]
pub struct MangaInfo {
    pub id: String,
    pub titles: Vec<Vec<(String, String)>>,
    pub links: Vec<(String, String)>,
    pub last_chapter: Option<String>,
    pub status: String,
    pub year: Option<u16>,
    pub tag_names: Vec<Option<String>>,
    pub original_language: String,
}

/// A chapter as the manga catalog reports it.
#[derive(Debug)]
pub struct ChapterInfo {
    pub chapter: Option<String>,
}

/// The text filed under `key` in a language map.
pub open spec fn pair_lookup(m: Seq<(String, String)>, key: Seq<char>) -> Option<Seq<char>>
    decreases m.len(),
{
    if m.len() == 0 {
        None
    } else if m[0].0@ == key {
        Some(m[0].1@)
    } else {
        pair_lookup(m.drop_first(), key)
    }
}

/// The title in `lang` from the first map that has one.
pub open spec fn first_title(ts: Seq<Vec<(String, String)>>, lang: Seq<char>) -> Option<Seq<char>>
    decreases ts.len(),
{
    if ts.len() == 0 {
        None
    } else {
        match pair_lookup(ts[0]@, lang) {
            Some(t) => Some(t),
            None => first_title(ts.drop_first(), lang),
        }
    }
}

/// The service key that a site code of the catalog stands for.
pub open spec fn site_alias(k: Seq<char>) -> Seq<char> {
    if k == "al"@ {
        "anilist"@
    } else if k == "mal"@ {
        "myanimelist"@
    } else if k == "mu"@ {
        "mangaupdates"@
    } else if k == "kt"@ {
        "kitsu"@
    } else if k == "ap"@ {
        "anime-planet"@
    } else if k == "bw"@ {
        "bookwalker"@
    } else {
        k
    }
}

/// The link for one entry of the catalog's link map: the service comes from
/// the site code, or else from the value read as a link; values of unknown
/// sites that are no web links are left out.
pub open spec fn manga_link(k: Seq<char>, v: Seq<char>) -> Option<UrlView> {
    let s = match key_link(site_alias(k)) {
        Some(s) => s,
        None => link_service(v, parsed_link(v)),
    };
    if s is Unknown && !starts_with(v, "http"@) {
        None
    } else {
        Some(UrlView { url: built_url(s, v), name: None })
    }
}

pub open spec fn manga_links(ls: Seq<(String, String)>) -> Seq<UrlView>
    decreases ls.len(),
{
    if ls.len() == 0 {
        Seq::empty()
    } else {
        let rest = manga_links(ls.drop_last());
        match manga_link(ls.last().0@, ls.last().1@) {
            Some(u) => rest.push(u),
            None => rest,
        }
    }
}

pub open spec fn manga_status(s: Seq<char>) -> Status {
    if s == "completed"@ {
        Status::Completed
    } else if s == "ongoing"@ {
        Status::Ongoing
    } else if s == "cancelled"@ {
        Status::Cancelled
    } else if s == "hiatus"@ {
        Status::OnHold
    } else {
        Status::Unknown
    }
}

pub open spec fn chapter_number(o: Option<String>) -> Option<u32> {
    match o {
        Some(t) => match decimal_value(t@, u32::MAX as nat) {
            Some(n) => Some(n as u32),
            None => None,
        },
        None => None,
    }
}

pub open spec fn manga_record(
    thumbnail: Option<Seq<char>>,
    m: MangaInfo,
    c: Option<ChapterInfo>,
) -> EnrichmentView {
    EnrichmentView {
        title: Some(
            TitleView {
                english: first_title(m.titles@, "en"@),
                romaji: first_title(m.titles@, "rj"@),
                native: first_title(m.titles@, m.original_language@),
            },
        ),
        main_url: Some(UrlView { url: built_url(ServiceId::MangaDex, m.id@), name: None }),
        urls: Some(manga_links(m.links@)),
        year: m.year,
        chapters: match c {
            Some(ch) => Some(
                ChaptersView {
                    total: chapter_number(m.last_chapter),
                    hit: chapter_number(ch.chapter),
                    hit_image: None,
                },
            ),
            None => None,
        },
        tags: Some(join_new(Seq::empty(), present(m.tag_names@))),
        status: Some(manga_status(m.status@)),
        thumbnail,
        ..bare(ProviderKind::MangaDex)
    }
}

fn find_pair(m: &Vec<(String, String)>, key: &str) -> (r: Option<String>)
    ensures
        text_of(r) == pair_lookup(m@, key@),
{
    let mut i: usize = 0;
    assert(m@.skip(0) =~= m@);
    while i < m.len()
        invariant
            i <= m@.len(),
            pair_lookup(m@, key@) == pair_lookup(m@.skip(i as int), key@),
        decreases m.len() - i,
    {
        assert(m@.skip(i as int)[0] == m@[i as int]);
        if str_eq(m[i].0.as_str(), key) {
            return Some(m[i].1.clone());
        }
        assert(m@.skip(i as int).drop_first() =~= m@.skip(i + 1));
        i += 1;
    }
    None
}

fn find_title(ts: &Vec<Vec<(String, String)>>, lang: &str) -> (r: Option<String>)
    ensures
        text_of(r) == first_title(ts@, lang@),
{
    let mut i: usize = 0;
    assert(ts@.skip(0) =~= ts@);
    while i < ts.len()
        invariant
            i <= ts@.len(),
            first_title(ts@, lang@) == first_title(ts@.skip(i as int), lang@),
        decreases ts.len() - i,
    {
        assert(ts@.skip(i as int)[0] == ts@[i as int]);
        let t = find_pair(&ts[i], lang);
        if t.is_some() {
            return t;
        }
        assert(ts@.skip(i as int).drop_first() =~= ts@.skip(i + 1));
        i += 1;
    }
    None
}

fn alias_of(k: &str) -> (r: String)
    ensures
        r@ == site_alias(k@),
{
    let v = chars_of(k);
    if chars_are(&v, "al") {
        String::from_str("anilist")
    } else if chars_are(&v, "mal") {
        String::from_str("myanimelist")
    } else if chars_are(&v, "mu") {
        String::from_str("mangaupdates")
    } else if chars_are(&v, "kt") {
        String::from_str("kitsu")
    } else if chars_are(&v, "ap") {
        String::from_str("anime-planet")
    } else if chars_are(&v, "bw") {
        String::from_str("bookwalker")
    } else {
        String::from_str(k)
    }
}

fn link_of(k: &String, v: &String) -> (r: Option<Url>)
    ensures
        crate::enrichment::url_of(r) == manga_link(k@, v@),
{
    let alias = alias_of(k.as_str());
    let service = match Service::from_string(alias.as_str()) {
        Some(s) => s,
        None => Service::from_url(v.as_str()),
    };
    let unknown = match &service {
        Service::Unknown(_) => true,
        _ => false,
    };
    if unknown && !has_prefix(&chars_of(v.as_str()), "http") {
        None
    } else {
        Some(Url { url: service.build_url(v.as_str()), name: None })
    }
}

fn status_of(s: &String) -> (r: Status)
    ensures
        r == manga_status(s@),
{
    let v = chars_of(s.as_str());
    if chars_are(&v, "completed") {
        Status::Completed
    } else if chars_are(&v, "ongoing") {
        Status::Ongoing
    } else if chars_are(&v, "cancelled") {
        Status::Cancelled
    } else if chars_are(&v, "hiatus") {
        Status::OnHold
    } else {
        Status::Unknown
    }
}

fn number_of(o: &Option<String>) -> (r: Option<u32>)
    ensures
        r == chapter_number(*o),
{
    match o {
        Some(t) => match parse_decimal(t.as_str(), u32::MAX as u64) {
            Some(n) => Some(n as u32),
            None => None,
        },
        None => None,
    }
}

/// The manga catalog.
#[derive(Debug)]
pub struct MangaDex {}

/// The catalog request that a hit calls for: the series, or else the
/// chapter, whose id the hit carries as text.
pub open spec fn manga_request(hit: SearchHit) -> Option<Seq<char>> {
    match lookup(hit.metadata@, "mangadex"@) {
        Some(MetaValue::Text(id)) => Some("https://api.mangadex.org/manga/"@ + id@),
        Some(_) => None,
        None => match lookup(hit.metadata@, "mangadex-chapter"@) {
            Some(MetaValue::Text(id)) => Some("https://api.mangadex.org/chapter/"@ + id@),
            _ => None,
        },
    }
}

impl MangaDex {
    pub fn new() -> (r: MangaDex) {
        MangaDex {}
    }

    /// The address to fetch for a hit, if it names a series or chapter.
    pub fn request_url(&self, hit: &SearchHit) -> (r: Option<String>)
        ensures
            text_of(r) == manga_request(*hit),
    {
        match get_meta(&hit.metadata, "mangadex") {
            Some(MetaValue::Text(id)) => {
                let mut u = String::from_str("https://api.mangadex.org/manga/");
                u.append(id.as_str());
                Some(u)
            },
            Some(_) => None,
            None => match get_meta(&hit.metadata, "mangadex-chapter") {
                Some(MetaValue::Text(id)) => {
                    let mut u = String::from_str("https://api.mangadex.org/chapter/");
                    u.append(id.as_str());
                    Some(u)
                },
                _ => None,
            },
        }
    }

    /// The record for a series, and for the chapter a hit was found in when
    /// the hit named a chapter.
    pub fn enrich_manga(&self, hit: &SearchHit, manga: &MangaInfo, chapter: &Option<ChapterInfo>) -> (r: Enrichment)
        ensures
            r@ == manga_record(text_of(hit.thumbnail), *manga, *chapter),
    {
        let mut e = bare_record_manga();
        e.title = Some(
            Title {
                english: find_title(&manga.titles, "en"),
                romaji: find_title(&manga.titles, "rj"),
                native: find_title(&manga.titles, manga.original_language.as_str()),
            },
        );
        e.main_url = Some(Url { url: Service::MangaDex.build_url(manga.id.as_str()), name: None });
        let mut urls: Vec<Url> = Vec::new();
        let mut i: usize = 0;
        while i < manga.links.len()
            invariant
                i <= manga.links@.len(),
                urls_of(urls@) == manga_links(manga.links@.take(i as int)),
            decreases manga.links.len() - i,
        {
            assert(manga.links@.take(i + 1).drop_last() =~= manga.links@.take(i as int));
            match link_of(&manga.links[i].0, &manga.links[i].1) {
                Some(u) => {
                    let ghost before = urls@;
                    urls.push(u);
                    assert(urls_of(urls@) =~= urls_of(before).push(u@));
                },
                None => {},
            }
            i += 1;
        }
        assert(manga.links@.take(manga.links@.len() as int) =~= manga.links@);
        e.urls = Some(urls);
        e.year = manga.year;
        e.chapters = match chapter {
            Some(ch) => Some(
                Chapters {
                    total: number_of(&manga.last_chapter),
                    hit: number_of(&ch.chapter),
                    hit_image: None,
                },
            ),
            None => None,
        };
        let mut names: Vec<String> = Vec::new();
        let mut j: usize = 0;
        while j < manga.tag_names.len()
            invariant
                j <= manga.tag_names@.len(),
                texts_of(names@) == present(manga.tag_names@.take(j as int)),
            decreases manga.tag_names.len() - j,
        {
            assert(manga.tag_names@.take(j + 1).drop_last() =~= manga.tag_names@.take(j as int));
            match &manga.tag_names[j] {
                Some(t) => {
                    let ghost before = names@;
                    names.push(t.clone());
                    assert(texts_of(names@) =~= texts_of(before).push(t@));
                },
                None => {},
            }
            j += 1;
        }
        assert(manga.tag_names@.take(manga.tag_names@.len() as int) =~= manga.tag_names@);
        let mut tags: Vec<String> = Vec::new();
        assert(texts_of(tags@) =~= Seq::<Seq<char>>::empty());
        join_texts(&mut tags, &names);
        e.tags = Some(tags);
        e.status = Some(status_of(&manga.status));
        e.thumbnail = copy_text(&hit.thumbnail);
        e
    }
}

fn bare_record_manga() -> (r: Enrichment)
    ensures
        r@ == bare(ProviderKind::MangaDex),
{
    let k = ProviderKind::MangaDex;
    Enrichment::blank(k.priority(), k.name())
}

} // verus!
