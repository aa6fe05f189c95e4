use vstd::prelude::*;
use crate::enrichment::{
    text_of, texts_of, title_of, urls_of, Enrichment, EnrichmentView, Episodes, EpisodesView,
    Status, Title, Url, UrlView, copy_text,
};
use crate::merge::{fill, join_new, join_texts};
use crate::providers::{meta_text, provider_name, text_value, ProviderKind};
use crate::search_hit::{get_meta, lookup, MetaValue, SearchHit};
use crate::service::{
    built_url, key_service, last_label, service_name, strip_id, Service, ServiceId,
};
use crate::text::{
    chars_are, chars_of, contains, decimal_text, lower_of, nat_text, space_pieces, split_spaces,
    str_eq, swap_char,
};

verus! {

/// The service that a metadata key names.
pub open spec fn key_link(k: Seq<char>) -> Option<ServiceId> {
    key_service(swap_char(lower_of(strip_id(k)), '_', '-'))
}

/// A record with nothing but a contributor and a priority.
pub open spec fn bare(k: ProviderKind) -> EnrichmentView {
    EnrichmentView {
        title: None,
        year: None,
        tags: None,
        status: None,
        artists: None,
        characters: None,
        thumbnail: None,
        video: None,
        episodes: None,
        chapters: None,
        main_url: None,
        urls: None,
        priority: crate::providers::provider_priority(k),
        enrichers: seq![provider_name(k)],
    }
}

fn bare_record(k: ProviderKind) -> (r: Enrichment)
    ensures
        r@ == bare(k),
{
    Enrichment::blank(k.priority(), k.name())
}

/// A link to each metadata entry whose key names a service, built from the
/// value's text and named after the service, in metadata order.
pub open spec fn generic_links(md: Seq<(String, MetaValue)>) -> Seq<UrlView>
    decreases md.len(),
{
    if md.len() == 0 {
        Seq::empty()
    } else {
        let rest = generic_links(md.drop_last());
        match key_link(md.last().0@) {
            Some(s) => rest.push(
                UrlView { url: built_url(s, meta_text(md.last().1)), name: Some(service_name(s)) },
            ),
            None => rest,
        }
    }
}

/// What the catch-all provider makes of a hit: its thumbnail, its first
/// recognised link as the main one and the others after it.
pub open spec fn generic_record(hit: SearchHit) -> Option<EnrichmentView> {
    let links = generic_links(hit.metadata@);
    if hit.thumbnail is None && links.len() == 0 {
        None
    } else {
        Some(
            EnrichmentView {
                thumbnail: text_of(hit.thumbnail),
                main_url: if links.len() > 0 {
                    Some(links[0])
                } else {
                    None
                },
                urls: if links.len() > 1 {
                    Some(links.drop_first())
                } else {
                    None
                },
                ..bare(ProviderKind::Generic)
            },
        )
    }
}

/// Whether some metadata key names a service.
pub open spec fn has_service_key(md: Seq<(String, MetaValue)>) -> bool {
    exists|i: int| 0 <= i < md.len() && (#[trigger] key_link(md[i].0@)) is Some
}

proof fn lemma_generic_links_nonempty(md: Seq<(String, MetaValue)>)
    ensures
        generic_links(md).len() > 0 <==> has_service_key(md),
    decreases md.len(),
{
    if md.len() > 0 {
        let t = md.drop_last();
        lemma_generic_links_nonempty(t);
        if has_service_key(t) {
            let i = choose|i: int| 0 <= i < t.len() && (#[trigger] key_link(t[i].0@)) is Some;
            assert(md[i] == t[i]);
        }
        if has_service_key(md) && key_link(md.last().0@) is None {
            let i = choose|i: int| 0 <= i < md.len() && (#[trigger] key_link(md[i].0@)) is Some;
            assert(i < md.len() - 1);
            assert(t[i] == md[i]);
        }
        if key_link(md.last().0@) is Some {
            assert(key_link(md[md.len() - 1].0@) is Some);
        }
    }
}

fn meta_value_text(v: &MetaValue) -> (r: String)
    ensures
        r@ == meta_text(*v),
{
    match v {
        MetaValue::Text(s) => s.clone(),
        MetaValue::Integer(n) => decimal_text(*n),
        MetaValue::Fraction(t) => crate::text::thousandths_text_of(*t),
        MetaValue::Other(j) => j.clone(),
    }
}

fn links_of_metadata(md: &Vec<(String, MetaValue)>) -> (r: Vec<Url>)
    ensures
        urls_of(r@) == generic_links(md@),
{
    let mut r: Vec<Url> = Vec::new();
    let mut i: usize = 0;
    while i < md.len()
        invariant
            i <= md@.len(),
            urls_of(r@) == generic_links(md@.take(i as int)),
        decreases md.len() - i,
    {
        proof {
            assert(md@.take(i + 1).drop_last() =~= md@.take(i as int));
            assert(md@.take(i + 1).last() == md@[i as int]);
        }
        match Service::from_string(md[i].0.as_str()) {
            Some(s) => {
                let t = meta_value_text(&md[i].1);
                let u = Url { url: s.build_url(t.as_str()), name: Some(s.name()) };
                let ghost before = r@;
                r.push(u);
                assert(urls_of(r@) =~= urls_of(before).push(u@));
            },
            None => {},
        }
        i += 1;
    }
    assert(md@.take(md@.len() as int) =~= md@);
    r
}

/// The catch-all provider: always eligible for a hit with metadata or a thumbnail.
#[derive(Debug)]
pub struct Generic {}

impl Generic {
    pub fn new() -> (r: Generic) {
        Generic {}
    }

    /// Turns the recognised metadata keys of a hit into link records: there
    /// is a record exactly when the hit has a thumbnail or a recognised key.
    pub fn enrich(&self, hit: &SearchHit) -> (r: Option<Enrichment>)
        ensures
            crate::merge::opt_view(r) == generic_record(*hit),
            r is Some <==> (hit.thumbnail is Some || has_service_key(hit.metadata@)),
    {
        proof { lemma_generic_links_nonempty(hit.metadata@); }
        let mut links = links_of_metadata(&hit.metadata);
        if hit.thumbnail.is_none() && links.len() == 0 {
            return None;
        }
        let mut e = bare_record(ProviderKind::Generic);
        e.thumbnail = copy_text(&hit.thumbnail);
        if links.len() > 0 {
            let ghost all = urls_of(links@);
            let first = links.remove(0);
            assert(urls_of(links@) =~= all.drop_first());
            e.main_url = Some(first);
            if links.len() > 0 {
                e.urls = Some(links);
            }
        }
        Some(e)
    }
}

/// Links for each metadata entry that holds a text id under a key naming a
/// known service, in metadata order.
pub open spec fn source_links(md: Seq<(String, MetaValue)>) -> Seq<UrlView>
    decreases md.len(),
{
    if md.len() == 0 {
        Seq::empty()
    } else {
        let rest = source_links(md.drop_last());
        match (md.last().1, key_link(md.last().0@)) {
            (MetaValue::Text(id), Some(s)) => if s is Unknown {
                rest
            } else {
                match built_url(s, id@) {
                    Some(u) => rest.push(UrlView { url: Some(u), name: None }),
                    None => rest,
                }
            },
            _ => rest,
        }
    }
}

/// What the reverse-search engine that found a hit adds to it: links to the
/// sources it named and the thumbnail.
pub open spec fn source_record(hit: SearchHit) -> Option<EnrichmentView> {
    let links = source_links(hit.metadata@);
    if hit.engine@ != "saucenao"@ || links.len() == 0 {
        None
    } else {
        Some(
            EnrichmentView {
                urls: Some(links),
                thumbnail: text_of(hit.thumbnail),
                ..bare(ProviderKind::SauceNao)
            },
        )
    }
}

pub fn source_enrichment(hit: &SearchHit) -> (r: Option<Enrichment>)
    ensures
        crate::merge::opt_view(r) == source_record(*hit),
{
    if !str_eq(hit.engine.as_str(), "saucenao") {
        return None;
    }
    let md = &hit.metadata;
    let mut r: Vec<Url> = Vec::new();
    let mut i: usize = 0;
    while i < md.len()
        invariant
            i <= md@.len(),
            md == hit.metadata,
            urls_of(r@) == source_links(md@.take(i as int)),
        decreases md.len() - i,
    {
        proof {
            assert(md@.take(i + 1).drop_last() =~= md@.take(i as int));
            assert(md@.take(i + 1).last() == md@[i as int]);
        }
        match &md[i].1 {
            MetaValue::Text(id) => {
                match Service::from_string(md[i].0.as_str()) {
                    Some(Service::Unknown(_)) => {},
                    Some(s) => {
                        match s.build_url(id.as_str()) {
                            Some(u) => {
                                let link = Url { url: Some(u), name: None };
                                let ghost before = r@;
                                r.push(link);
                                assert(urls_of(r@) =~= urls_of(before).push(link@));
                            },
                            None => {},
                        }
                    },
                    None => {},
                }
            },
            _ => {},
        }
        i += 1;
    }
    assert(md@.take(md@.len() as int) =~= md@);
    if r.len() == 0 {
        return None;
    }
    let mut e = bare_record(ProviderKind::SauceNao);
    e.urls = Some(r);
    e.thumbnail = copy_text(&hit.thumbnail);
    Some(e)
}

/// A timestamp value in milliseconds: integers are seconds, fractions thousandths of one.
pub open spec fn millis(v: Option<MetaValue>) -> Option<u64> {
    match v {
        Some(MetaValue::Integer(n)) => if 0 <= n * 1000 <= u64::MAX {
            Some((n * 1000) as u64)
        } else {
            None
        },
        Some(MetaValue::Fraction(t)) => if 0 <= t <= u64::MAX {
            Some(t as u64)
        } else {
            None
        },
        _ => None,
    }
}

/// Where in an episode the scene-search engine placed a hit.
pub open spec fn scene_episodes(md: Seq<(String, MetaValue)>) -> Option<EpisodesView> {
    match lookup(md, "hit_episode"@) {
        Some(MetaValue::Integer(n)) => if 0 <= n <= u64::MAX {
            match millis(lookup(md, "hit_timestamp"@)) {
                Some(ms) => Some(
                    EpisodesView {
                        total: None,
                        hit: Some((n % 0x1_0000_0000) as u32),
                        hit_timestamp_ms: Some(ms),
                        hit_image: text_value(lookup(md, "hit_image"@)),
                        hit_video: text_value(lookup(md, "hit_video"@)),
                    },
                ),
                None => None,
            }
        } else {
            None
        },
        _ => None,
    }
}

pub open spec fn scene_record(hit: SearchHit) -> Option<EnrichmentView> {
    if hit.engine@ != "TraceMoe"@ {
        None
    } else {
        Some(
            EnrichmentView {
                episodes: scene_episodes(hit.metadata@),
                ..bare(ProviderKind::TraceMoe)
            },
        )
    }
}

fn meta_text_value(md: &Vec<(String, MetaValue)>, key: &str) -> (r: Option<String>)
    ensures
        text_of(r) == text_value(lookup(md@, key@)),
{
    match get_meta(md, key) {
        Some(MetaValue::Text(s)) => Some(s.clone()),
        _ => None,
    }
}

fn millis_value(md: &Vec<(String, MetaValue)>, key: &str) -> (r: Option<u64>)
    ensures
        r == millis(lookup(md@, key@)),
{
    match get_meta(md, key) {
        Some(MetaValue::Integer(n)) => {
            if 0 <= *n && *n <= (u64::MAX / 1000) as i128 {
                Some((*n * 1000) as u64)
            } else {
                None
            }
        },
        Some(MetaValue::Fraction(t)) => {
            if 0 <= *t && *t <= u64::MAX as i128 {
                Some(*t as u64)
            } else {
                None
            }
        },
        _ => None,
    }
}

/// What the scene-search engine adds to its own hits: the episode and the
/// moment in it.
pub fn scene_enrichment(hit: &SearchHit) -> (r: Option<Enrichment>)
    ensures
        crate::merge::opt_view(r) == scene_record(*hit),
{
    if !str_eq(hit.engine.as_str(), "TraceMoe") {
        return None;
    }
    let md = &hit.metadata;
    let episodes = match get_meta(md, "hit_episode") {
        Some(MetaValue::Integer(n)) => {
            if 0 <= *n && *n <= u64::MAX as i128 {
                match millis_value(md, "hit_timestamp") {
                    Some(ms) => Some(
                        Episodes {
                            total: None,
                            hit: Some((*n % 0x1_0000_0000) as u32),
                            hit_timestamp_ms: Some(ms),
                            hit_image: meta_text_value(md, "hit_image"),
                            hit_video: meta_text_value(md, "hit_video"),
                        },
                    ),
                    None => None,
                }
            } else {
                None
            }
        },
        _ => None,
    };
    let mut e = bare_record(ProviderKind::TraceMoe);
    e.episodes = episodes;
    Some(e)
}

pub open spec fn is_video_ext(e: Seq<char>) -> bool {
    e == "gif"@ || e == "mp4"@ || e == "webm"@
}

pub open spec fn is_image_ext(e: Seq<char>) -> bool {
    e == "jpg"@ || e == "jpeg"@ || e == "png"@ || e == "webp"@
}

fn video_ext(e: &Vec<char>) -> (r: bool)
    ensures
        r == is_video_ext(e@),
{
    chars_are(e, "gif") || chars_are(e, "mp4") || chars_are(e, "webm")
}

fn image_ext(e: &Vec<char>) -> (r: bool)
    ensures
        r == is_image_ext(e@),
{
    chars_are(e, "jpg") || chars_are(e, "jpeg") || chars_are(e, "png") || chars_are(e, "webp")
}

/// The distinct words of a space-separated tag string, in order.
pub open spec fn tag_set(s: Seq<char>) -> Seq<Seq<char>> {
    join_new(Seq::empty(), space_pieces(s))
}

pub fn tags_of(s: &str) -> (r: Vec<String>)
    ensures
        texts_of(r@) == tag_set(s@),
{
    let pieces = split_spaces(s);
    let mut r: Vec<String> = Vec::new();
    assert(texts_of(r@) =~= Seq::<Seq<char>>::empty());
    join_texts(&mut r, &pieces);
    r
}

/// The file extension of a link: what follows its last dot.
fn extension(s: &String) -> (r: Vec<char>)
    ensures
        r@ == last_label(s@),
{
    crate::service::last_label_of(&chars_of(s.as_str()))
}

/// A post as the curated image board reports it.
#[derive(Debug)]
pub struct DanbooruPost {
    pub is_deleted: bool,
    pub is_banned: bool,
    pub tag_string_general: String,
    pub tag_string_artist: String,
    pub tag_string_character: String,
    pub file_ext: String,
    pub file_url: Option<String>,
    pub large_file_url: Option<String>,
    pub preview_file_url: Option<String>,
    pub source: String,
}

/// A post whose media is not shown: deleted, banned, or carrying the barred
/// tag among its space-separated general tags.
pub open spec fn post_hidden(p: DanbooruPost) -> bool {
    p.is_deleted || p.is_banned || space_pieces(p.tag_string_general@).contains("loli"@)
}

pub open spec fn danbooru_record(p: DanbooruPost) -> EnrichmentView {
    let shown = !post_hidden(p);
    EnrichmentView {
        thumbnail: if shown && is_image_ext(p.file_ext@) {
            fill(text_of(p.file_url), fill(text_of(p.large_file_url), text_of(p.preview_file_url)))
        } else {
            None
        },
        video: if shown && is_video_ext(p.file_ext@) {
            text_of(p.file_url)
        } else {
            None
        },
        tags: Some(tag_set(p.tag_string_general@)),
        artists: Some(tag_set(p.tag_string_artist@)),
        characters: Some(tag_set(p.tag_string_character@)),
        main_url: Some(UrlView { url: Some(p.source@), name: None }),
        ..bare(ProviderKind::Danbooru)
    }
}

fn first_text(a: &Option<String>, b: &Option<String>) -> (r: Option<String>)
    ensures
        text_of(r) == fill(text_of(*a), text_of(*b)),
{
    if a.is_some() {
        copy_text(a)
    } else {
        copy_text(b)
    }
}

/// The curated image board, with the credentials its client signs in with.
#[derive(Debug)]
pub struct Danbooru {
    pub credentials: Option<(String, String)>,
}

impl Danbooru {
    /// Credentials are kept only when both the token and the user name are given.
    pub fn new(token: Option<String>, username: Option<String>) -> (r: Danbooru)
        ensures
            r.credentials is Some <==> (token is Some && username is Some),
            r.credentials matches Some((t, u)) ==> token == Some(t) && username == Some(u),
    {
        match (token, username) {
            (Some(t), Some(u)) => Danbooru { credentials: Some((t, u)) },
            _ => Danbooru { credentials: None },
        }
    }

    /// The record for a post: media links unless the post is hidden, the tag,
    /// artist and character sets, and the post's source as the main link.
    pub fn enrichment_from_post(&self, post: &DanbooruPost) -> (r: Enrichment)
        ensures
            r@ == danbooru_record(*post),
    {
        let hidden = post.is_deleted || post.is_banned || crate::text::has_word(
            post.tag_string_general.as_str(),
            "loli",
        );
        let ext = chars_of(post.file_ext.as_str());
        let mut e = bare_record(ProviderKind::Danbooru);
        if !hidden && image_ext(&ext) {
            e.thumbnail = if post.file_url.is_some() {
                copy_text(&post.file_url)
            } else {
                first_text(&post.large_file_url, &post.preview_file_url)
            };
        }
        if !hidden && video_ext(&ext) {
            e.video = copy_text(&post.file_url);
        }
        e.tags = Some(tags_of(post.tag_string_general.as_str()));
        e.artists = Some(tags_of(post.tag_string_artist.as_str()));
        e.characters = Some(tags_of(post.tag_string_character.as_str()));
        e.main_url = Some(Url { url: Some(post.source.clone()), name: None });
        e
    }
}

/// A post as the general image board reports it.
#[derive(Debug)]
pub struct GelbooruPost {
    pub file_url: String,
    pub tags: String,
    pub source: String,
}

pub open spec fn gelbooru_record(p: GelbooruPost) -> EnrichmentView {
    let ext = last_label(p.file_url@);
    EnrichmentView {
        thumbnail: if is_image_ext(ext) {
            Some(p.file_url@)
        } else {
            None
        },
        video: if is_video_ext(ext) {
            Some(p.file_url@)
        } else {
            None
        },
        tags: Some(tag_set(p.tags@)),
        main_url: Some(UrlView { url: Some(p.source@), name: None }),
        ..bare(ProviderKind::Gelbooru)
    }
}

/// The general image board.
#[derive(Debug)]
pub struct Gelbooru {}

impl Gelbooru {
    pub fn new() -> (r: Gelbooru) {
        Gelbooru {}
    }

    /// The record for a post: its file as thumbnail or video by extension,
    /// its tag set, and its source as the main link.
    pub fn enrichment_from_post(&self, post: &GelbooruPost) -> (r: Enrichment)
        ensures
            r@ == gelbooru_record(*post),
    {
        let ext = extension(&post.file_url);
        let mut e = bare_record(ProviderKind::Gelbooru);
        if image_ext(&ext) {
            e.thumbnail = Some(post.file_url.clone());
        }
        if video_ext(&ext) {
            e.video = Some(post.file_url.clone());
        }
        e.tags = Some(tags_of(post.tags.as_str()));
        e.main_url = Some(Url { url: Some(post.source.clone()), name: None });
        e
    }
}

/// A post as the safe-for-work image board reports it.
#[derive(Debug)]
pub struct SafebooruPost {
    pub image: String,
    pub tags: String,
}

pub open spec fn safebooru_record(id: u32, p: SafebooruPost) -> EnrichmentView {
    let ext = last_label(p.image@);
    EnrichmentView {
        thumbnail: if is_image_ext(ext) {
            Some(p.image@)
        } else {
            None
        },
        video: if ext == "gif"@ {
            Some(p.image@)
        } else {
            None
        },
        tags: Some(tag_set(p.tags@)),
        main_url: Some(
            UrlView { url: built_url(ServiceId::Safebooru, nat_text(id as nat)), name: None },
        ),
        ..bare(ProviderKind::Safebooru)
    }
}

/// The safe-for-work image board.
#[derive(Debug)]
pub struct Safebooru {}

impl Safebooru {
    pub fn new() -> (r: Safebooru) {
        Safebooru {}
    }

    /// The record for post `id`: its image as thumbnail (or as video when
    /// animated), its tag set, and a link to the post.
    pub fn enrichment_from_post(&self, id: u32, post: &SafebooruPost) -> (r: Enrichment)
        ensures
            r@ == safebooru_record(id, *post),
    {
        let ext = extension(&post.image);
        let mut e = bare_record(ProviderKind::Safebooru);
        if image_ext(&ext) {
            e.thumbnail = Some(post.image.clone());
        }
        if chars_are(&ext, "gif") {
            e.video = Some(post.image.clone());
        }
        e.tags = Some(tags_of(post.tags.as_str()));
        let id_text = decimal_text(id as i128);
        e.main_url = Some(Url { url: Service::Safebooru.build_url(id_text.as_str()), name: None });
        e
    }
}

/// The texts that are present, in order.
pub open spec fn present(s: Seq<Option<String>>) -> Seq<Seq<char>>
    decreases s.len(),
{
    if s.len() == 0 {
        Seq::empty()
    } else {
        let rest = present(s.drop_last());
        match s.last() {
            Some(t) => rest.push(t@),
            None => rest,
        }
    }
}

fn present_texts(s: &Vec<Option<String>>) -> (r: Vec<String>)
    ensures
        texts_of(r@) == present(s@),
{
    let mut r: Vec<String> = Vec::new();
    let mut i: usize = 0;
    while i < s.len()
        invariant
            i <= s@.len(),
            texts_of(r@) == present(s@.take(i as int)),
        decreases s.len() - i,
    {
        assert(s@.take(i + 1).drop_last() =~= s@.take(i as int));
        match &s[i] {
            Some(t) => {
                let ghost before = r@;
                r.push(t.clone());
                assert(texts_of(r@) =~= texts_of(before).push(t@));
            },
            None => {},
        }
        i += 1;
    }
    assert(s@.take(s@.len() as int) =~= s@);
    r
}

/// Links with no name, one per text.
pub open spec fn plain_links(s: Seq<Seq<char>>) -> Seq<UrlView> {
    s.map_values(|t: Seq<char>| UrlView { url: Some(t), name: None })
}

fn plain_urls(s: Vec<String>) -> (r: Vec<Url>)
    ensures
        urls_of(r@) == plain_links(texts_of(s@)),
{
    let mut r: Vec<Url> = Vec::new();
    let mut i: usize = 0;
    while i < s.len()
        invariant
            i <= s@.len(),
            urls_of(r@) == plain_links(texts_of(s@.take(i as int))),
        decreases s.len() - i,
    {
        let u = Url { url: Some(s[i].clone()), name: None };
        let ghost before = r@;
        r.push(u);
        assert(urls_of(r@) =~= urls_of(before).push(u@));
        assert(plain_links(texts_of(s@.take(i + 1))) =~= plain_links(texts_of(s@.take(i as int))).push(u@));
        i += 1;
    }
    assert(s@.take(s@.len() as int) =~= s@);
    r
}

/// The release status of a series as the anime catalog reports it.
#[derive(Debug, Clone, Copy, PartialEq, Eq, Structural)]
pub enum MediaStatus {
    Finished,
    Releasing,
    NotYetReleased,
    Cancelled,
    Hiatus,
}

pub open spec fn media_status(s: MediaStatus) -> Status {
    match s {
        MediaStatus::Finished => Status::Completed,
        MediaStatus::Releasing => Status::Ongoing,
        MediaStatus::NotYetReleased => Status::Announced,
        MediaStatus::Cancelled => Status::Cancelled,
        MediaStatus::Hiatus => Status::OnHold,
    }
}

/// A series as the anime catalog reports it.
#[derive(Debug)]
pub struct AniListMedia {
    pub title: Option<Title>,
    pub episodes: Option<i64>,
    pub cover_image: Option<String>,
    pub tags: Vec<Option<String>>,
    pub site_url: Option<String>,
    pub external_links: Vec<Option<String>>,
    pub season_year: Option<i64>,
    pub status: Option<MediaStatus>,
}

pub open spec fn anilist_record(m: AniListMedia) -> EnrichmentView {
    EnrichmentView {
        title: title_of(m.title),
        episodes: Some(
            EpisodesView {
                total: match m.episodes {
                    Some(n) => if 0 <= n <= u32::MAX {
                        Some(n as u32)
                    } else {
                        None
                    },
                    None => None,
                },
                hit: None,
                hit_timestamp_ms: None,
                hit_image: None,
                hit_video: None,
            },
        ),
        thumbnail: text_of(m.cover_image),
        tags: Some(join_new(Seq::empty(), present(m.tags@))),
        main_url: Some(UrlView { url: text_of(m.site_url), name: None }),
        urls: Some(plain_links(present(m.external_links@))),
        year: match m.season_year {
            Some(y) => if 0 <= y <= u16::MAX {
                Some(y as u16)
            } else {
                None
            },
            None => None,
        },
        status: match m.status {
            Some(s) => Some(media_status(s)),
            None => None,
        },
        ..bare(ProviderKind::AniList)
    }
}

/// The anime catalog.
#[derive(Debug)]
pub struct Anilist {}

impl Anilist {
    pub fn new() -> (r: Anilist) {
        Anilist {}
    }

    /// The record for a series: titles, episode count, cover, tag set, links,
    /// year and status.
    pub fn enrichment_from_media(&self, media: AniListMedia) -> (r: Enrichment)
        ensures
            r@ == anilist_record(media),
    {
        let ghost m = media;
        let AniListMedia {
            title,
            episodes,
            cover_image,
            tags,
            site_url,
            external_links,
            season_year,
            status,
        } = media;
        let mut e = bare_record(ProviderKind::AniList);
        e.title = title;
        let total = match episodes {
            Some(n) => if 0 <= n && n <= u32::MAX as i64 {
                Some(n as u32)
            } else {
                None
            },
            None => None,
        };
        e.episodes = Some(
            Episodes { total, hit: None, hit_timestamp_ms: None, hit_image: None, hit_video: None },
        );
        e.thumbnail = cover_image;
        let names = present_texts(&tags);
        let mut tag_list: Vec<String> = Vec::new();
        assert(texts_of(tag_list@) =~= Seq::<Seq<char>>::empty());
        join_texts(&mut tag_list, &names);
        e.tags = Some(tag_list);
        e.main_url = Some(Url { url: site_url, name: None });
        e.urls = Some(plain_urls(present_texts(&external_links)));
        e.year = match season_year {
            Some(y) => if 0 <= y && y <= u16::MAX as i64 {
                Some(y as u16)
            } else {
                None
            },
            None => None,
        };
        e.status = match status {
            Some(MediaStatus::Finished) => Some(Status::Completed),
            Some(MediaStatus::Releasing) => Some(Status::Ongoing),
            Some(MediaStatus::NotYetReleased) => Some(Status::Announced),
            Some(MediaStatus::Cancelled) => Some(Status::Cancelled),
            Some(MediaStatus::Hiatus) => Some(Status::OnHold),
            None => None,
        };
        e
    }
}

} // verus!
