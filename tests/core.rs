use saucebot::cache::{
    archive_fresh_as, hash_key, link_key, order_record_keys, record_key, record_pattern,
    select_similar, serve_from_archive, unquote,
};
use saucebot::config::Config;
use saucebot::engines::{index_hit, scene_hit, source_hit, EpisodeRef};
use saucebot::enrichment::{Enrichment, Episodes, Status, Title, Url};
use saucebot::layout::link_rows;
use saucebot::merge::merge_enrichments;
use saucebot::orchestrator::{
    engines_to_run, finish_hit, hit_items, providers_for_hit, EngineStep, ProviderOutcome,
    StreamItem,
};
use saucebot::providers::{anilist_id, board_post_id, ProviderKind};
use saucebot::records::{
    scene_enrichment, source_enrichment, AniListMedia, Anilist, Danbooru, DanbooruPost, Gelbooru,
    GelbooruPost, Generic, MediaStatus, Safebooru, SafebooruPost,
};
use saucebot::manga::{ChapterInfo, MangaDex, MangaInfo};
use saucebot::search_hit::{EngineSettings, MetaValue, SearchHit};
use saucebot::service::{titleize, Service};
use saucebot::text::{decimal_text, hashtag, parse_decimal, tagify};

fn s(x: &str) -> String {
    x.to_string()
}

fn record(priority: u8, who: &str) -> Enrichment {
    Enrichment::blank(priority, s(who))
}

fn hit(similarity: u32) -> SearchHit {
    SearchHit { similarity, thumbnail: None, engine: s("test"), metadata: vec![] }
}

fn sorted(v: &Option<Vec<String>>) -> Vec<String> {
    let mut v = v.clone().unwrap();
    v.sort();
    v
}

#[test]
fn merge_of_nothing_is_nothing() {
    assert!(merge_enrichments(vec![]).is_none());
}

#[test]
fn merge_of_one_is_that_record() {
    let mut a = record(7, "one");
    a.year = Some(1999);
    a.tags = Some(vec![s("b"), s("a"), s("b")]);
    let m = merge_enrichments(vec![a]).unwrap();
    assert_eq!(m.year, Some(1999));
    assert_eq!(m.priority, 7);
    assert_eq!(m.tags, Some(vec![s("b"), s("a"), s("b")]));
}

#[test]
fn merge_fills_gaps_and_joins_sets() {
    let mut a = record(1, "first");
    a.tags = Some(vec![s("x")]);
    let mut b = record(5, "second");
    b.title = Some(Title { english: Some(s("T")), romaji: None, native: None });
    b.tags = Some(vec![s("y")]);
    let m = merge_enrichments(vec![a, b]).unwrap();
    assert_eq!(m.title.unwrap().english, Some(s("T")));
    assert_eq!(sorted(&m.tags), vec![s("x"), s("y")]);
    let mut who = m.enrichers.clone();
    who.sort();
    assert_eq!(who, vec![s("first"), s("second")]);
    assert_eq!(m.priority, 1);
}

#[test]
fn merge_order_follows_priority_not_input() {
    let mut a = record(1, "low");
    a.thumbnail = Some(s("low.png"));
    let mut b = record(5, "high");
    b.thumbnail = Some(s("high.png"));
    b.year = Some(2001);
    let m = merge_enrichments(vec![b, a]).unwrap();
    assert_eq!(m.thumbnail, Some(s("low.png")));
    assert_eq!(m.year, Some(2001));
    assert_eq!(m.enrichers, vec![s("low"), s("high")]);
}

#[test]
fn merge_never_overwrites_present_field() {
    let mut a = record(1, "a");
    a.title = Some(Title { english: Some(s("Keep")), romaji: None, native: None });
    let mut b = record(5, "b");
    b.title = Some(Title { english: Some(s("Override")), romaji: Some(s("R")), native: None });
    let m = merge_enrichments(vec![a, b]).unwrap();
    let t = m.title.unwrap();
    assert_eq!(t.english, Some(s("Keep")));
    assert_eq!(t.romaji, Some(s("R")));
}

#[test]
fn merge_combines_episode_details() {
    let mut scene = record(1, "TraceMoe");
    scene.episodes = Some(Episodes {
        total: None,
        hit: Some(5),
        hit_timestamp_ms: Some(61_500),
        hit_image: None,
        hit_video: Some(s("clip.mp4")),
    });
    let mut catalog = record(10, "AniList");
    catalog.episodes = Some(Episodes {
        total: Some(12),
        hit: None,
        hit_timestamp_ms: None,
        hit_image: None,
        hit_video: None,
    });
    catalog.status = Some(Status::Completed);
    let m = merge_enrichments(vec![catalog, scene]).unwrap();
    let e = m.episodes.unwrap();
    assert_eq!(e.hit, Some(5));
    assert_eq!(e.total, Some(12));
    assert_eq!(e.hit_video, Some(s("clip.mp4")));
    assert_eq!(m.status, Some(Status::Completed));
}

#[test]
fn equal_priorities_keep_input_order() {
    let mut a = record(5, "a");
    a.video = Some(s("a.mp4"));
    let mut b = record(5, "b");
    b.video = Some(s("b.mp4"));
    let mut c = record(5, "c");
    c.video = Some(s("c.mp4"));
    let m = merge_enrichments(vec![a, b, c]).unwrap();
    assert_eq!(m.video, Some(s("a.mp4")));
    assert_eq!(m.enrichers, vec![s("a"), s("b"), s("c")]);
}

fn engine(threshold: Option<u32>, limit: Option<usize>) -> EngineSettings {
    EngineSettings { name: s("test"), enabled: true, threshold, limit }
}

#[test]
fn filter_applies_threshold_before_limit() {
    let hits = vec![hit(5000), hit(9000), hit(9500), hit(4000), hit(9900)];
    let r = engine(None, None).filter_search(hits, Some(2), Some(9000));
    let sims: Vec<u32> = r.iter().map(|h| h.similarity).collect();
    assert_eq!(sims, vec![9000, 9500]);
}

#[test]
fn filter_falls_back_to_engine_defaults() {
    let hits = vec![hit(100), hit(8000), hit(7000), hit(9000)];
    let r = engine(Some(6500), Some(2)).filter_search(hits, None, None);
    let sims: Vec<u32> = r.iter().map(|h| h.similarity).collect();
    assert_eq!(sims, vec![8000, 7000]);
    let hits = vec![hit(100), hit(8000)];
    let r = engine(None, None).filter_search(hits, None, None);
    assert_eq!(r.len(), 2);
}

#[test]
fn filter_with_small_limit_keeps_no_weak_hit() {
    let hits = vec![hit(10), hit(20), hit(9999)];
    let r = engine(Some(9000), None).filter_search(hits, Some(1), None);
    assert_eq!(r.len(), 1);
    assert_eq!(r[0].similarity, 9999);
}

#[test]
fn stored_hash_is_found_at_distance_zero() {
    let r = select_similar(vec![(hash_key("1700"), 0)], 1, 5, 10);
    assert_eq!(r, vec![(s("1700"), 0)]);
}

#[test]
fn similar_images_are_worst_first() {
    let candidates = vec![
        (s("image:a"), 1),
        (s("image:b"), 3),
        (s("image:c"), 2),
        (s("other:x"), 0),
        (s("image:d"), 9),
        (s("image:e"), 3),
    ];
    let r = select_similar(candidates, 6, 5, 10);
    assert_eq!(r, vec![(s("b"), 3), (s("e"), 3), (s("c"), 2), (s("a"), 1)]);
}

#[test]
fn similar_images_respect_total_and_cap() {
    let candidates = vec![(s("image:a"), 1), (s("image:b"), 2), (s("image:c"), 3)];
    let r = select_similar(candidates.clone(), 2, 5, 10);
    assert_eq!(r, vec![(s("b"), 2), (s("a"), 1)]);
    let r = select_similar(candidates, 3, 5, 1);
    assert_eq!(r, vec![(s("a"), 1)]);
}

#[test]
fn first_submission_searches_then_repeat_is_served() {
    assert_eq!(serve_from_archive(true, true, &Some(vec![])), None);
    let id = s("1700000000");
    assert_eq!(archive_fresh_as(true, true, true, &id), Some(id.clone()));
    let found = select_similar(vec![(hash_key(&id), 0)], 1, 5, 10);
    assert_eq!(serve_from_archive(true, true, &Some(found)), Some(id.clone()));
}

#[test]
fn cache_trouble_means_fresh_search() {
    let found = Some(vec![(s("x"), 1)]);
    assert_eq!(serve_from_archive(false, true, &found), None);
    assert_eq!(serve_from_archive(true, false, &found), None);
    assert_eq!(serve_from_archive(true, true, &None), None);
    assert_eq!(archive_fresh_as(false, true, true, &s("i")), None);
    assert_eq!(archive_fresh_as(true, true, false, &s("i")), None);
    assert_eq!(archive_fresh_as(true, false, true, &s("i")), None);
}

#[test]
fn cache_keys() {
    assert_eq!(hash_key("42"), "image:42");
    assert_eq!(link_key("42"), "url:42");
    assert_eq!(record_key("42", 1234567), "enriched:42:1234567");
    assert_eq!(record_pattern("42"), "enriched:42:*");
    assert_eq!(unquote("\"image:1\""), "image:1");
    assert_eq!(unquote("image:1"), "image:1");
    assert_eq!(unquote("\""), "\"");
}

#[test]
fn failed_engine_is_one_message_and_others_go_on() {
    let e = EngineSettings { name: s("saucenao"), enabled: true, threshold: None, limit: None };
    match e.process_result(Err(s("boom"))) {
        EngineStep::Failed(m) => assert_eq!(m, "Search error in engine saucenao: boom"),
        EngineStep::Hits(_) => panic!("a failure gives no hits"),
    }
    let other = EngineSettings { name: s("iqdb"), enabled: true, threshold: Some(5000), limit: None };
    match other.process_result(Ok(vec![hit(100), hit(6000), hit(7000)])) {
        EngineStep::Hits(h) => {
            assert_eq!(h.len(), 1);
            assert_eq!(h[0].similarity, 6000);
        }
        EngineStep::Failed(_) => panic!("hits expected"),
    }
}

#[test]
fn failed_provider_does_not_stop_the_record() {
    let mut a = record(0, "Generic");
    a.thumbnail = Some(s("t.png"));
    let report = finish_hit(vec![
        (ProviderKind::Danbooru, ProviderOutcome::Failed(s("timeout"))),
        (ProviderKind::Generic, ProviderOutcome::Found(a)),
        (ProviderKind::AniList, ProviderOutcome::NotFound),
    ]);
    assert_eq!(report.failures, vec![s("Failed to enrich danbooru: timeout")]);
    let items = hit_items(report);
    assert_eq!(items.len(), 2);
    assert!(matches!(items[0], StreamItem::Failure(_)));
    match &items[1] {
        StreamItem::Record(r) => assert_eq!(r.thumbnail, Some(s("t.png"))),
        _ => panic!("record expected"),
    }
}

#[test]
fn hit_no_provider_claims_gives_nothing() {
    let config = Config::default();
    let bare = SearchHit { similarity: 9000, thumbnail: None, engine: s("iqdb"), metadata: vec![] };
    assert!(providers_for_hit(&config.providers(), &bare).is_empty());
    let report = finish_hit(vec![]);
    assert!(report.merged.is_none());
    assert!(hit_items(report).is_empty());
}

#[test]
fn providers_follow_the_registry() {
    let mut config = Config::default();
    config.danbooru.enabled = Some(false);
    let h = SearchHit {
        similarity: 9000,
        thumbnail: Some(s("t.jpg")),
        engine: s("saucenao"),
        metadata: vec![(s("danbooru"), MetaValue::Integer(12)), (s("anilist_id"), MetaValue::Text(s("21")))],
    };
    let kinds = providers_for_hit(&config.providers(), &h);
    assert_eq!(kinds, vec![ProviderKind::Generic, ProviderKind::AniList, ProviderKind::SauceNao]);
    let names: Vec<String> = config.engines().iter().map(|e| e.name.clone()).collect();
    assert_eq!(names, vec![s("saucenao"), s("TraceMoe"), s("iqdb")]);
    config.iqdb.enabled = Some(false);
    assert_eq!(engines_to_run(&config.engines()), vec![0, 1]);
}

#[test]
fn config_problems_are_listed() {
    let mut config = Config::default();
    assert_eq!(
        config.validate(),
        Err(vec![s("Telegram token is required"), s("RustyPaste base URL is required")])
    );
    config.general.downloads_dir = None;
    assert_eq!(config.validate().unwrap_err().len(), 3);
    config.general.downloads_dir = Some(s("d"));
    config.telegram.token = Some(s("SECRET-REDACTED"));
    config.rustypaste.url = Some(s("https://paste.example"));
    assert_eq!(config.validate(), Ok(()));
}

#[test]
fn generic_provider_turns_keys_into_links() {
    let h = SearchHit {
        similarity: 9000,
        thumbnail: Some(s("t.jpg")),
        engine: s("iqdb"),
        metadata: vec![
            (s("Danbooru_id"), MetaValue::Integer(1234)),
            (s("nothing"), MetaValue::Text(s("x"))),
            (s("pixiv"), MetaValue::Text(s("99"))),
        ],
    };
    let e = Generic::new().enrich(&h).unwrap();
    let main = e.main_url.unwrap();
    assert_eq!(main.url, Some(s("https://danbooru.donmai.us/posts/1234")));
    assert_eq!(main.name, Some(s("Danbooru")));
    let urls = e.urls.unwrap();
    assert_eq!(urls.len(), 1);
    assert_eq!(urls[0].url, Some(s("https://www.pixiv.net/en/artworks/99")));
    assert_eq!(e.thumbnail, Some(s("t.jpg")));
    assert_eq!(e.priority, 0);
    assert_eq!(e.enrichers, vec![s("Generic")]);
    let empty = SearchHit { similarity: 1, thumbnail: None, engine: s("x"), metadata: vec![] };
    assert!(Generic::new().enrich(&empty).is_none());
}

#[test]
fn source_engine_hit_and_record() {
    let links = vec![s("https://danbooru.donmai.us/posts/1234"), s("not a link")];
    let h = source_hit(8700, s("thumb.jpg"), vec![(s("title"), MetaValue::Text(s("x")))], &links);
    assert_eq!(h.engine, "saucenao");
    assert!(h.metadata.iter().any(|(k, v)| k == "danbooru" && matches!(v, MetaValue::Text(t) if t == "1234")));
    let e = source_enrichment(&h).unwrap();
    let urls = e.urls.unwrap();
    assert_eq!(urls.len(), 1);
    assert_eq!(urls[0].url, Some(s("https://danbooru.donmai.us/posts/1234")));
    assert_eq!(e.thumbnail, Some(s("thumb.jpg")));
    assert!(source_enrichment(&hit(1)).is_none());
}

#[test]
fn scene_engine_hit_and_record() {
    let h = scene_hit(9700, 21, 61_500, s("frame.jpg"), s("clip.mp4"), Some(EpisodeRef::Number(7)));
    assert_eq!(anilist_id(&h), Some(21));
    let e = scene_enrichment(&h).unwrap();
    let ep = e.episodes.unwrap();
    assert_eq!(ep.hit, Some(7));
    assert_eq!(ep.hit_timestamp_ms, Some(61_500));
    assert_eq!(ep.hit_image, Some(s("frame.jpg")));
    assert_eq!(ep.hit_video, Some(s("clip.mp4")));
    let named = scene_hit(9700, 21, 0, s("f"), s("c"), Some(EpisodeRef::Text(s("OVA"))));
    assert!(scene_enrichment(&named).unwrap().episodes.is_none());
}

#[test]
fn index_hit_resolves_links() {
    let hrefs = vec![Some(s("//danbooru.donmai.us/posts/5")), Some(s("https://example.org/a"))];
    let h = index_hit(&s("/thumb/1.jpg"), &hrefs, Some(9100)).unwrap();
    assert_eq!(h.thumbnail, Some(s("https://iqdb.org/thumb/1.jpg")));
    assert_eq!(h.engine, "iqdb");
    assert!(h.metadata.iter().any(|(k, v)| k == "danbooru" && matches!(v, MetaValue::Text(t) if t == "5")));
    assert!(h.metadata.iter().any(|(k, v)| k == "unknown-example.org" && matches!(v, MetaValue::Text(t) if t == "https://example.org/a")));
    assert!(index_hit(&s("x"), &vec![None], Some(1)).is_none());
    assert!(index_hit(&s("x"), &vec![], None).is_none());
}

#[test]
fn board_ids() {
    let mk = |k: &str, v: MetaValue| SearchHit { similarity: 1, thumbnail: None, engine: s("e"), metadata: vec![(s(k), v)] };
    assert_eq!(board_post_id(&mk("danbooru", MetaValue::Text(s("1234"))), "danbooru"), Some(1234));
    assert_eq!(board_post_id(&mk("danbooru_id", MetaValue::Integer(77)), "danbooru"), Some(77));
    assert_eq!(board_post_id(&mk("danbooru", MetaValue::Text(s("abc"))), "danbooru"), None);
    assert_eq!(board_post_id(&mk("danbooru", MetaValue::Integer(-1)), "danbooru"), None);
    assert_eq!(board_post_id(&mk("danbooru", MetaValue::Text(s("4294967296"))), "danbooru"), None);
    assert_eq!(anilist_id(&mk("anilist_id", MetaValue::Text(s("-5")))), Some(-5));
}

#[test]
fn decimal_numbers() {
    assert_eq!(parse_decimal("+42", u64::MAX), Some(42));
    assert_eq!(parse_decimal("", u64::MAX), None);
    assert_eq!(parse_decimal("+", u64::MAX), None);
    assert_eq!(parse_decimal("18446744073709551615", u64::MAX), Some(u64::MAX));
    assert_eq!(parse_decimal("18446744073709551616", u64::MAX), None);
    assert_eq!(parse_decimal("256", 255), None);
    assert_eq!(decimal_text(-120), "-120");
    assert_eq!(decimal_text(0), "0");
    assert_eq!(decimal_text(i128::MIN), i128::MIN.to_string());
}

#[test]
fn danbooru_post_media_policy() {
    let post = |general: &str, deleted: bool| DanbooruPost {
        is_deleted: deleted,
        is_banned: false,
        tag_string_general: s(general),
        tag_string_artist: s("artist_a"),
        tag_string_character: s("char_a char_b"),
        file_ext: s("png"),
        file_url: None,
        large_file_url: Some(s("large.png")),
        preview_file_url: Some(s("preview.png")),
        source: s("https://example.org/src"),
    };
    let d = Danbooru::new(Some(s("SECRET-REDACTED")), None);
    assert!(d.credentials.is_none());
    let e = d.enrichment_from_post(&post("a b a", false));
    assert_eq!(e.thumbnail, Some(s("large.png")));
    assert_eq!(e.video, None);
    assert_eq!(e.tags, Some(vec![s("a"), s("b")]));
    assert_eq!(e.characters, Some(vec![s("char_a"), s("char_b")]));
    assert_eq!(e.main_url.unwrap().url, Some(s("https://example.org/src")));
    assert_eq!(d.enrichment_from_post(&post("x loli", false)).thumbnail, None);
    let hidden = d.enrichment_from_post(&post("a", true));
    assert_eq!(hidden.thumbnail, None);
    assert_eq!(hidden.tags, Some(vec![s("a")]));
}

#[test]
fn gelbooru_and_safebooru_posts() {
    let g = Gelbooru::new().enrichment_from_post(&GelbooruPost {
        file_url: s("https://img.example/a.webm"),
        tags: s("t1 t2"),
        source: s("src"),
    });
    assert_eq!(g.video, Some(s("https://img.example/a.webm")));
    assert_eq!(g.thumbnail, None);
    assert_eq!(g.priority, 5);
    let sb = Safebooru::new().enrichment_from_post(7, &SafebooruPost { image: s("a.gif"), tags: s("x") });
    assert_eq!(sb.video, Some(s("a.gif")));
    assert_eq!(sb.main_url.unwrap().url, Some(s("https://safebooru.org/index.php?page=post&s=view&id=7")));
}

#[test]
fn anilist_media_record() {
    let e = Anilist::new().enrichment_from_media(AniListMedia {
        title: Some(Title { english: Some(s("E")), romaji: None, native: Some(s("N")) }),
        episodes: Some(24),
        cover_image: Some(s("cover.jpg")),
        tags: vec![Some(s("Action")), None, Some(s("Action")), Some(s("Drama"))],
        site_url: Some(s("https://anilist.co/anime/1")),
        external_links: vec![None, Some(s("https://x.example"))],
        season_year: Some(70000),
        status: Some(MediaStatus::Hiatus),
    });
    assert_eq!(e.episodes.unwrap().total, Some(24));
    assert_eq!(e.tags, Some(vec![s("Action"), s("Drama")]));
    assert_eq!(e.urls.unwrap().len(), 1);
    assert_eq!(e.year, None);
    assert_eq!(e.status, Some(Status::OnHold));
    assert_eq!(e.priority, 10);
}

#[test]
fn manga_record_from_chapter() {
    let h = SearchHit {
        similarity: 9000,
        thumbnail: Some(s("t.png")),
        engine: s("saucenao"),
        metadata: vec![(s("mangadex-chapter"), MetaValue::Text(s("c1")))],
    };
    let md = MangaDex::new();
    assert_eq!(md.request_url(&h), Some(s("https://api.mangadex.org/chapter/c1")));
    let manga = MangaInfo {
        id: s("m1"),
        titles: vec![vec![(s("ja"), s("Native"))], vec![(s("en"), s("English")), (s("ja"), s("Other"))]],
        links: vec![(s("al"), s("123")), (s("raw"), s("not-a-link")), (s("mu"), s("abc"))],
        last_chapter: Some(s("40")),
        status: s("hiatus"),
        year: Some(2010),
        tag_names: vec![Some(s("Romance"))],
        original_language: s("ja"),
    };
    let e = md.enrich_manga(&h, &manga, &Some(ChapterInfo { chapter: Some(s("12")) }));
    let t = e.title.unwrap();
    assert_eq!(t.english, Some(s("English")));
    assert_eq!(t.native, Some(s("Native")));
    assert_eq!(t.romaji, None);
    let urls: Vec<Option<String>> = e.urls.unwrap().into_iter().map(|u| u.url).collect();
    assert_eq!(urls, vec![Some(s("https://anilist.co/anime/123")), Some(s("https://www.mangaupdates.com/series/abc"))]);
    let c = e.chapters.unwrap();
    assert_eq!((c.total, c.hit), (Some(40), Some(12)));
    assert_eq!(e.status, Some(Status::OnHold));
    assert_eq!(e.main_url.unwrap().url, Some(s("https://mangadex.org/title/m1")));
}

#[test]
fn tags_become_hashtags() {
    assert_eq!(tagify(&vec![s("Test_!_Tag")], false), "#test_tag");
    assert_eq!(tagify(&vec![s("a b"), s("__C__")], true), "\\#a_b, \\#c");
    assert_eq!(tagify(&vec![], false), "");
}

#[test]
fn words_are_titleized() {
    assert_eq!(titleize("hello big world"), "Hello Big World");
    assert_eq!(titleize("1st place"), "1St Place");
    assert_eq!(Service::Unknown(s("www.my-site")).name(), "My Site");
    assert_eq!(Service::Unknown(s("Example.COM")).key(), "unknown-example.com");
}

#[test]
fn keys_are_read_loosely() {
    assert_eq!(Service::from_string("DANBOORU_id"), Some(Service::Danbooru));
    assert_eq!(Service::from_string("danbooru_ID"), None);
    assert_eq!(Service::from_string("Pixiv_Artist"), Some(Service::PixivMember));
    assert_eq!(Service::from_string("unknown-Site.Org"), Some(Service::Unknown(s("site.org"))));
    assert_eq!(Service::from_string("nonsense"), None);
    assert_eq!(Service::EHentai.build_url("1234"), None);
    assert_eq!(Service::Unknown(s("host.net")).build_url("x"), Some(s("https://host.net/x")));
}

#[test]
fn link_names_and_clean_links() {
    let u = Url { url: Some(s("https://danbooru.donmai.us/posts/show/1234")), name: None };
    assert_eq!(u.name(false), "Danbooru");
    assert_eq!(u.name(true), "\u{1F4E6} Danbooru");
    assert_eq!(u.clean_url(), Some(s("https://danbooru.donmai.us/posts/1234")));
    let named = Url { url: None, name: Some(s("Home")) };
    assert_eq!(named.name(true), "\u{1F517} Home");
    assert_eq!(named.clean_url(), None);
    let plain = Url { url: Some(s("https://example.org/page")), name: None };
    assert_eq!(plain.clean_url(), Some(s("https://example.org/page")));
    assert_eq!(plain.name(false), "Org");
    assert_eq!(Url { url: None, name: None }.name(false), "Link");
}

#[test]
fn link_buttons_are_laid_out() {
    let main = Some(Url { url: Some(s("https://anilist.co/anime/1")), name: None });
    let others = Some(vec![
        Url { url: Some(s("https://anilist.co/anime/1")), name: None },
        Url { url: Some(s("https://example.org/b")), name: Some(s("Beta")) },
        Url { url: Some(s("https://example.org/a")), name: Some(s("Alpha")) },
        Url { url: Some(s("https://example.org/d")), name: Some(s("Delta")) },
        Url { url: Some(s("https://example.org/c")), name: Some(s("Alpha")) },
        Url { url: Some(s("not a link")), name: Some(s("Broken")) },
    ]);
    let rows = link_rows(&main, &others);
    let labels: Vec<Vec<String>> = rows.iter().map(|r| r.iter().map(|(l, _)| l.clone()).collect()).collect();
    let chain = "\u{1F517}";
    assert_eq!(
        labels,
        vec![
            vec![s("\u{1F3AC} AniList")],
            vec![format!("{chain} Alpha"), format!("{chain} Alpha"), format!("{chain} Beta")],
            vec![format!("{chain} Delta")],
        ]
    );
    assert_eq!(rows[1][0].1, "https://example.org/a");
    assert_eq!(rows[1][1].1, "https://example.org/c");
    assert!(link_rows(&None, &None).is_empty());
}

#[test]
fn status_names() {
    assert_eq!(Status::OnHold.as_text(), "OnHold");
    assert_eq!(Status::Announced.as_text(), "Announced");
}

#[test]
fn danbooru_post_with_only_the_barred_tag_is_hidden() {
    let post = |general: &str| DanbooruPost {
        is_deleted: false,
        is_banned: false,
        tag_string_general: s(general),
        tag_string_artist: s(""),
        tag_string_character: s(""),
        file_ext: s("mp4"),
        file_url: Some(s("clip.mp4")),
        large_file_url: None,
        preview_file_url: None,
        source: s("src"),
    };
    let d = Danbooru::new(None, None);
    let only = d.enrichment_from_post(&post("loli"));
    assert_eq!(only.video, None);
    assert_eq!(only.thumbnail, None);
    assert_eq!(only.tags, Some(vec![s("loli")]));
    assert_eq!(d.enrichment_from_post(&post("a loli b")).video, None);
    assert_eq!(d.enrichment_from_post(&post("lolita_fashion")).video, Some(s("clip.mp4")));
}

#[test]
fn generic_provider_links_any_value() {
    let h = SearchHit {
        similarity: 1,
        thumbnail: None,
        engine: s("x"),
        metadata: vec![(s("danbooru"), MetaValue::Other(s("true")))],
    };
    let e = Generic::new().enrich(&h).unwrap();
    assert_eq!(e.main_url.unwrap().url, Some(s("https://danbooru.donmai.us/posts/true")));
    let h = SearchHit {
        similarity: 1,
        thumbnail: None,
        engine: s("x"),
        metadata: vec![(s("anidb"), MetaValue::Fraction(-1500))],
    };
    let e = Generic::new().enrich(&h).unwrap();
    assert_eq!(e.main_url.unwrap().url, Some(s("https://anidb.net/anime/-1.500")));
    let h = SearchHit {
        similarity: 1,
        thumbnail: None,
        engine: s("x"),
        metadata: vec![(s("unrecognised"), MetaValue::Text(s("1")))],
    };
    assert!(Generic::new().enrich(&h).is_none());
}

#[test]
fn lowered_tag_becomes_hashtag() {
    assert_eq!(hashtag("test_!_tag", false), "#test_tag");
    assert_eq!(hashtag("__a  b__", true), "\\#a_b");
    assert_eq!(hashtag("!!", false), "#");
}

#[test]
fn archived_keys_in_arrival_order() {
    let keys = vec![
        s("enriched:7:10"),
        s("enriched:7:2"),
        s("enriched:8:1"),
        s("enriched:7:x"),
        s("enriched:7:0"),
        s("url:7"),
    ];
    assert_eq!(
        order_record_keys("7", &keys),
        vec![s("enriched:7:0"), s("enriched:7:2"), s("enriched:7:10")]
    );
    assert!(order_record_keys("9", &keys).is_empty());
}

#[test]
fn scene_hit_files_no_other_key() {
    let h = scene_hit(1, 2, 3, s("i"), s("v"), None);
    assert_eq!(h.metadata.len(), 4);
    let h = scene_hit(1, 2, 3, s("i"), s("v"), Some(EpisodeRef::Number(4)));
    assert_eq!(h.metadata.len(), 5);
    assert!(!h.metadata.iter().any(|(k, _)| k == "episode"));
}
