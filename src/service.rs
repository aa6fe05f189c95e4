use vstd::prelude::*;
use crate::text::{
    chars_are, chars_of, contains, decimal_value, ends_with, has_part, has_prefix, has_suffix,
    lower_of, lowercase, parse_decimal, prefix_of, replace_char, starts_with, string_of,
    suffix_from, swap_char, alphabetic, upper_of, is_alphabetic, first_upper,
};

verus! {

/// A site that links, ids and names are recognised for.
#[derive(Debug)]
pub enum Service {
    Danbooru,
    Safebooru,
    Gelbooru,
    Konachan,
    YandeRe,
    Zerochan,
    AnimePictures,
    IdolComplex,
    SankakuComplex,
    EShuushuu,
    MangaDex,
    MangaDexChapter,
    MangaUpdates,
    MyAnimeList,
    Fakku,
    EHentai,
    AniDB,
    AniList,
    PixivMember,
    PixivArtwork,
    XUser,
    XStatus,
    /// Any other site, by host name.
    Unknown(String),
}

/// The mathematical form of a `Service`.
pub enum ServiceId {
    Danbooru,
    Safebooru,
    Gelbooru,
    Konachan,
    YandeRe,
    Zerochan,
    AnimePictures,
    IdolComplex,
    SankakuComplex,
    EShuushuu,
    MangaDex,
    MangaDexChapter,
    MangaUpdates,
    MyAnimeList,
    Fakku,
    EHentai,
    AniDB,
    AniList,
    PixivMember,
    PixivArtwork,
    XUser,
    XStatus,
    Unknown(Seq<char>),
}

impl View for Service {
    type V = ServiceId;

    open spec fn view(&self) -> ServiceId {
        match self {
            Service::Danbooru => ServiceId::Danbooru,
            Service::Safebooru => ServiceId::Safebooru,
            Service::Gelbooru => ServiceId::Gelbooru,
            Service::Konachan => ServiceId::Konachan,
            Service::YandeRe => ServiceId::YandeRe,
            Service::Zerochan => ServiceId::Zerochan,
            Service::AnimePictures => ServiceId::AnimePictures,
            Service::IdolComplex => ServiceId::IdolComplex,
            Service::SankakuComplex => ServiceId::SankakuComplex,
            Service::EShuushuu => ServiceId::EShuushuu,
            Service::MangaDex => ServiceId::MangaDex,
            Service::MangaDexChapter => ServiceId::MangaDexChapter,
            Service::MangaUpdates => ServiceId::MangaUpdates,
            Service::MyAnimeList => ServiceId::MyAnimeList,
            Service::Fakku => ServiceId::Fakku,
            Service::EHentai => ServiceId::EHentai,
            Service::AniDB => ServiceId::AniDB,
            Service::AniList => ServiceId::AniList,
            Service::PixivMember => ServiceId::PixivMember,
            Service::PixivArtwork => ServiceId::PixivArtwork,
            Service::XUser => ServiceId::XUser,
            Service::XStatus => ServiceId::XStatus,
            Service::Unknown(h) => ServiceId::Unknown(h@),
        }
    }
}

pub open spec fn opt_service(o: Option<Service>) -> Option<ServiceId> {
    match o {
        Some(s) => Some(s@),
        None => None,
    }
}

impl PartialEq for Service {
    fn eq(&self, other: &Service) -> bool {
        match (self, other) {
            (Service::Unknown(a), Service::Unknown(b)) => crate::text::str_eq(a.as_str(), b.as_str()),
            (Service::Danbooru, Service::Danbooru) => true,
            (Service::Safebooru, Service::Safebooru) => true,
            (Service::Gelbooru, Service::Gelbooru) => true,
            (Service::Konachan, Service::Konachan) => true,
            (Service::YandeRe, Service::YandeRe) => true,
            (Service::Zerochan, Service::Zerochan) => true,
            (Service::AnimePictures, Service::AnimePictures) => true,
            (Service::IdolComplex, Service::IdolComplex) => true,
            (Service::SankakuComplex, Service::SankakuComplex) => true,
            (Service::EShuushuu, Service::EShuushuu) => true,
            (Service::MangaDex, Service::MangaDex) => true,
            (Service::MangaDexChapter, Service::MangaDexChapter) => true,
            (Service::MangaUpdates, Service::MangaUpdates) => true,
            (Service::MyAnimeList, Service::MyAnimeList) => true,
            (Service::Fakku, Service::Fakku) => true,
            (Service::EHentai, Service::EHentai) => true,
            (Service::AniDB, Service::AniDB) => true,
            (Service::AniList, Service::AniList) => true,
            (Service::PixivMember, Service::PixivMember) => true,
            (Service::PixivArtwork, Service::PixivArtwork) => true,
            (Service::XUser, Service::XUser) => true,
            (Service::XStatus, Service::XStatus) => true,
            _ => false,
        }
    }
}

impl vstd::std_specs::cmp::PartialEqSpecImpl for Service {
    open spec fn obeys_eq_spec() -> bool {
        true
    }

    open spec fn eq_spec(&self, other: &Service) -> bool {
        self@ == other@
    }
}

/// The part of a host name after its last dot.
pub open spec fn last_label(h: Seq<char>) -> Seq<char>
    decreases h.len(),
{
    if h.len() == 0 {
        h
    } else if h.last() == '.' {
        Seq::empty()
    } else {
        last_label(h.drop_last()).push(h.last())
    }
}

/// Upper-cases the first letter of each word, a word starting after a space.
pub open spec fn titleize_from(s: Seq<char>, cap: bool) -> Seq<char>
    decreases s.len(),
{
    if s.len() == 0 {
        s
    } else if cap && alphabetic(s[0]) {
        seq![upper_of(s[0])] + titleize_from(s.drop_first(), false)
    } else {
        seq![s[0]] + titleize_from(s.drop_first(), if s[0] == ' ' { true } else { cap })
    }
}

pub open spec fn titleized(s: Seq<char>) -> Seq<char> {
    titleize_from(s, true)
}

/// Upper-cases the first letter of each word of `s`.
pub fn titleize(s: &str) -> (r: String)
    ensures
        r@ == titleized(s@),
{
    let v = chars_of(s);
    let mut out: Vec<char> = Vec::new();
    let mut cap = true;
    let mut i: usize = 0;
    assert(v@.skip(0) =~= v@);
    while i < v.len()
        invariant
            v@ == s@,
            i <= v@.len(),
            out@ + titleize_from(v@.skip(i as int), cap) == titleized(s@),
        decreases v.len() - i,
    {
        let c = v[i];
        let ghost rest = v@.skip(i as int);
        assert(rest[0] == c);
        assert(rest.drop_first() =~= v@.skip(i + 1));
        if cap && is_alphabetic(c) {
            let u = first_upper(c);
            assert(out@.push(u) + titleize_from(v@.skip(i + 1), false) =~= out@ + (seq![u]
                + titleize_from(v@.skip(i + 1), false)));
            out.push(u);
            cap = false;
        } else {
            let ghost next_cap = if c == ' ' { true } else { cap };
            assert(out@.push(c) + titleize_from(v@.skip(i + 1), next_cap) =~= out@ + (seq![c]
                + titleize_from(v@.skip(i + 1), next_cap)));
            out.push(c);
            if c == ' ' {
                cap = true;
            }
        }
        i += 1;
    }
    assert(v@.skip(i as int) =~= Seq::<char>::empty());
    assert(out@ + Seq::<char>::empty() =~= out@);
    string_of(&out)
}

/// The characters of `h` after its last dot.
pub fn last_label_of(h: &Vec<char>) -> (r: Vec<char>)
    ensures
        r@ == last_label(h@),
{
    let mut start = h.len();
    assert(h@.take(start as int) =~= h@);
    assert(h@.skip(start as int) =~= Seq::<char>::empty());
    while start > 0 && h[start - 1] != '.'
        invariant
            start <= h@.len(),
            last_label(h@) == last_label(h@.take(start as int)) + h@.skip(start as int),
        decreases start,
    {
        let ghost t = h@.take(start as int);
        assert(t.drop_last() =~= h@.take(start - 1));
        assert(t.last() == h@[start - 1]);
        assert(last_label(h@.take(start - 1)).push(h@[start - 1]) + h@.skip(start as int)
            =~= last_label(h@.take(start - 1)) + h@.skip(start - 1));
        start -= 1;
    }
    if start > 0 {
        assert(h@.take(start as int).last() == '.');
    }
    assert(last_label(h@.take(start as int)) =~= Seq::<char>::empty());
    assert(Seq::<char>::empty() + h@.skip(start as int) =~= h@.skip(start as int));
    suffix_from(h, start)
}

pub open spec fn service_name(s: ServiceId) -> Seq<char> {
    match s {
        ServiceId::Danbooru => "Danbooru"@,
        ServiceId::Safebooru => "Safebooru"@,
        ServiceId::Gelbooru => "Gelbooru"@,
        ServiceId::Konachan => "Konachan"@,
        ServiceId::YandeRe => "Yande.re"@,
        ServiceId::Zerochan => "Zerochan"@,
        ServiceId::AnimePictures => "Anime-Pictures"@,
        ServiceId::IdolComplex => "Idol Complex"@,
        ServiceId::SankakuComplex => "Sankaku Complex"@,
        ServiceId::EShuushuu => "E-Shuushuu"@,
        ServiceId::MangaDex => "MangaDex"@,
        ServiceId::MangaDexChapter => "MangaDexChapter"@,
        ServiceId::MangaUpdates => "Manga Updates"@,
        ServiceId::MyAnimeList => "MyAnimeList"@,
        ServiceId::Fakku => "Fakku"@,
        ServiceId::EHentai => "E-Hentai"@,
        ServiceId::AniDB => "AniDB"@,
        ServiceId::AniList => "AniList"@,
        ServiceId::PixivMember => "Pixiv User"@,
        ServiceId::PixivArtwork => "Pixiv Artwork"@,
        ServiceId::XUser => "X User"@,
        ServiceId::XStatus => "X Status"@,
        ServiceId::Unknown(h) => titleized(swap_char(last_label(h), '-', ' ')),
    }
}

pub open spec fn service_emoji(s: ServiceId) -> char {
    match s {
        ServiceId::Danbooru => '\u{1F4E6}',
        ServiceId::Safebooru => '\u{1F4E6}',
        ServiceId::Gelbooru => '\u{1F5BC}',
        ServiceId::Konachan => '\u{1F338}',
        ServiceId::MangaDex => '\u{1F4DA}',
        ServiceId::MangaDexChapter => '\u{1F4DA}',
        ServiceId::MangaUpdates => '\u{1F4DA}',
        ServiceId::MyAnimeList => '\u{1F4FA}',
        ServiceId::Fakku => '\u{1F48B}',
        ServiceId::EHentai => '\u{1F51E}',
        ServiceId::AniDB => '\u{1F5C4}',
        ServiceId::AniList => '\u{1F3AC}',
        ServiceId::PixivMember => '\u{1F17F}',
        ServiceId::PixivArtwork => '\u{1F17F}',
        ServiceId::XUser => '\u{1D54F}',
        ServiceId::XStatus => '\u{1D54F}',
        _ => '\u{1F517}',
    }
}

pub open spec fn service_key(s: ServiceId) -> Seq<char> {
    match s {
        ServiceId::Danbooru => "danbooru"@,
        ServiceId::Safebooru => "safebooru"@,
        ServiceId::Gelbooru => "gelbooru"@,
        ServiceId::Konachan => "konachan"@,
        ServiceId::YandeRe => "yandere"@,
        ServiceId::Zerochan => "zerochan"@,
        ServiceId::AnimePictures => "anime-pictures"@,
        ServiceId::IdolComplex => "idolcomplex"@,
        ServiceId::SankakuComplex => "sankakucomplex"@,
        ServiceId::EShuushuu => "eshuushuu"@,
        ServiceId::MangaDex => "mangadex"@,
        ServiceId::MangaDexChapter => "mangadex-chapter"@,
        ServiceId::MangaUpdates => "mangaupdates"@,
        ServiceId::MyAnimeList => "myanimelist"@,
        ServiceId::Fakku => "fakku"@,
        ServiceId::EHentai => "ehentai-gallery"@,
        ServiceId::AniDB => "anidb"@,
        ServiceId::AniList => "anilist"@,
        ServiceId::PixivMember => "pixiv-member"@,
        ServiceId::PixivArtwork => "pixiv"@,
        ServiceId::XUser => "x-user"@,
        ServiceId::XStatus => "x-status"@,
        ServiceId::Unknown(h) => "unknown-"@ + lower_of(h),
    }
}

/// A metadata key with an `_id` or `-id` ending taken off.
pub open spec fn strip_id(k: Seq<char>) -> Seq<char> {
    if ends_with(k, "_id"@) {
        k.take(k.len() - "_id"@.len())
    } else if ends_with(k, "-id"@) {
        k.take(k.len() - "-id"@.len())
    } else {
        k
    }
}

/// The service that a lower-cased key names, once underscores are dashes.
pub open spec fn key_service(n: Seq<char>) -> Option<ServiceId> {
    if n == "danbooru"@ {
        Some(ServiceId::Danbooru)
    } else if n == "safebooru"@ {
        Some(ServiceId::Safebooru)
    } else if n == "gelbooru"@ {
        Some(ServiceId::Gelbooru)
    } else if n == "konachan"@ {
        Some(ServiceId::Konachan)
    } else if n == "yandere"@ {
        Some(ServiceId::YandeRe)
    } else if n == "zerochan"@ {
        Some(ServiceId::Zerochan)
    } else if n == "anime-pictures"@ {
        Some(ServiceId::AnimePictures)
    } else if n == "idolcomplex"@ {
        Some(ServiceId::IdolComplex)
    } else if n == "sankakucomplex"@ {
        Some(ServiceId::SankakuComplex)
    } else if n == "eshuushuu"@ {
        Some(ServiceId::EShuushuu)
    } else if n == "mangadex"@ {
        Some(ServiceId::MangaDex)
    } else if n == "mangadex-chapter"@ {
        Some(ServiceId::MangaDexChapter)
    } else if n == "mangaupdates"@ {
        Some(ServiceId::MangaUpdates)
    } else if n == "myanimelist"@ {
        Some(ServiceId::MyAnimeList)
    } else if n == "fakku"@ {
        Some(ServiceId::Fakku)
    } else if n == "ehentai-gallery"@ {
        Some(ServiceId::EHentai)
    } else if n == "anidb"@ {
        Some(ServiceId::AniDB)
    } else if n == "anilist"@ {
        Some(ServiceId::AniList)
    } else if n == "pixiv-user"@ || n == "pixiv-artist"@ || n == "pixiv-member"@ {
        Some(ServiceId::PixivMember)
    } else if n == "pixiv-artwork"@ || n == "pixiv"@ {
        Some(ServiceId::PixivArtwork)
    } else if n == "x-user"@ {
        Some(ServiceId::XUser)
    } else if n == "x-status"@ {
        Some(ServiceId::XStatus)
    } else if starts_with(n, "unknown-"@) {
        Some(ServiceId::Unknown(n.skip("unknown-"@.len() as int)))
    } else {
        None
    }
}

pub open spec fn built_url(s: ServiceId, id: Seq<char>) -> Option<Seq<char>> {
    match s {
        ServiceId::Danbooru => Some("https://danbooru.donmai.us/posts/"@ + id),
        ServiceId::Safebooru => Some("https://safebooru.org/index.php?page=post&s=view&id="@ + id),
        ServiceId::Gelbooru => Some("https://gelbooru.com/index.php?page=post&s=view&id="@ + id),
        ServiceId::Konachan => Some("https://konachan.com/post/show/"@ + id),
        ServiceId::YandeRe => Some("https://yande.re/post/show/"@ + id),
        ServiceId::Zerochan => Some("https://www.zerochan.net/"@ + id),
        ServiceId::AnimePictures => Some("https://anime-pictures.net/posts/"@ + id),
        ServiceId::IdolComplex => Some("https://www.idolcomplex.com/posts/"@ + id),
        ServiceId::SankakuComplex => Some("https://www.sankakucomplex.com/posts/"@ + id),
        ServiceId::EShuushuu => Some("https://e-shuushuu.net/image/"@ + id),
        ServiceId::MangaDex => Some("https://mangadex.org/title/"@ + id),
        ServiceId::MangaDexChapter => Some("https://mangadex.org/chapter/"@ + id),
        ServiceId::MyAnimeList => Some("https://myanimelist.net/anime/"@ + id),
        ServiceId::Fakku => Some("https://www.fakku.net/hentai/"@ + id),
        ServiceId::AniDB => Some("https://anidb.net/anime/"@ + id),
        ServiceId::AniList => Some("https://anilist.co/anime/"@ + id),
        ServiceId::PixivMember => Some("https://www.pixiv.net/en/users/"@ + id),
        ServiceId::PixivArtwork => Some("https://www.pixiv.net/en/artworks/"@ + id),
        ServiceId::XUser => Some("https://x.com/"@ + id),
        ServiceId::XStatus => Some("https://x.com/i/status/"@ + id),
        ServiceId::MangaUpdates => if decimal_value(id, u64::MAX as nat) is Some {
            Some("https://www.mangaupdates.com/series.html?id="@ + id)
        } else {
            Some("https://www.mangaupdates.com/series/"@ + id)
        },
        ServiceId::EHentai => if contains(id, "/"@) {
            Some("https://e-hentai.org/g/"@ + id)
        } else {
            None
        },
        ServiceId::Unknown(h) => Some("https://"@ + h + "/"@ + id),
    }
}

fn joined(a: &str, b: &str) -> (r: String)
    ensures
        r@ == a@ + b@,
{
    let mut s = String::from_str(a);
    s.append(b);
    s
}

impl Service {
    pub fn duplicate(&self) -> (r: Service)
        ensures
            r@ == self@,
    {
        match self {
            Service::Danbooru => Service::Danbooru,
            Service::Safebooru => Service::Safebooru,
            Service::Gelbooru => Service::Gelbooru,
            Service::Konachan => Service::Konachan,
            Service::YandeRe => Service::YandeRe,
            Service::Zerochan => Service::Zerochan,
            Service::AnimePictures => Service::AnimePictures,
            Service::IdolComplex => Service::IdolComplex,
            Service::SankakuComplex => Service::SankakuComplex,
            Service::EShuushuu => Service::EShuushuu,
            Service::MangaDex => Service::MangaDex,
            Service::MangaDexChapter => Service::MangaDexChapter,
            Service::MangaUpdates => Service::MangaUpdates,
            Service::MyAnimeList => Service::MyAnimeList,
            Service::Fakku => Service::Fakku,
            Service::EHentai => Service::EHentai,
            Service::AniDB => Service::AniDB,
            Service::AniList => Service::AniList,
            Service::PixivMember => Service::PixivMember,
            Service::PixivArtwork => Service::PixivArtwork,
            Service::XUser => Service::XUser,
            Service::XStatus => Service::XStatus,
            Service::Unknown(h) => Service::Unknown(h.clone()),
        }
    }

    /// The display name of the service.
    pub fn name(&self) -> (r: String)
        ensures
            r@ == service_name(self@),
    {
        match self {
            Service::Danbooru => String::from_str("Danbooru"),
            Service::Safebooru => String::from_str("Safebooru"),
            Service::Gelbooru => String::from_str("Gelbooru"),
            Service::Konachan => String::from_str("Konachan"),
            Service::YandeRe => String::from_str("Yande.re"),
            Service::Zerochan => String::from_str("Zerochan"),
            Service::AnimePictures => String::from_str("Anime-Pictures"),
            Service::IdolComplex => String::from_str("Idol Complex"),
            Service::SankakuComplex => String::from_str("Sankaku Complex"),
            Service::EShuushuu => String::from_str("E-Shuushuu"),
            Service::MangaDex => String::from_str("MangaDex"),
            Service::MangaDexChapter => String::from_str("MangaDexChapter"),
            Service::MangaUpdates => String::from_str("Manga Updates"),
            Service::MyAnimeList => String::from_str("MyAnimeList"),
            Service::Fakku => String::from_str("Fakku"),
            Service::EHentai => String::from_str("E-Hentai"),
            Service::AniDB => String::from_str("AniDB"),
            Service::AniList => String::from_str("AniList"),
            Service::PixivMember => String::from_str("Pixiv User"),
            Service::PixivArtwork => String::from_str("Pixiv Artwork"),
            Service::XUser => String::from_str("X User"),
            Service::XStatus => String::from_str("X Status"),
            Service::Unknown(host) => {
                let label = last_label_of(&chars_of(host.as_str()));
                let spaced = string_of(&replace_char(&label, '-', ' '));
                titleize(spaced.as_str())
            },
        }
    }

    /// The emoji shown in front of the service's name.
    pub fn emoji(&self) -> (r: char)
        ensures
            r == service_emoji(self@),
    {
        match self {
            Service::Danbooru => '\u{1F4E6}',
            Service::Safebooru => '\u{1F4E6}',
            Service::Gelbooru => '\u{1F5BC}',
            Service::Konachan => '\u{1F338}',
            Service::MangaDex => '\u{1F4DA}',
            Service::MangaDexChapter => '\u{1F4DA}',
            Service::MangaUpdates => '\u{1F4DA}',
            Service::MyAnimeList => '\u{1F4FA}',
            Service::Fakku => '\u{1F48B}',
            Service::EHentai => '\u{1F51E}',
            Service::AniDB => '\u{1F5C4}',
            Service::AniList => '\u{1F3AC}',
            Service::PixivMember => '\u{1F17F}',
            Service::PixivArtwork => '\u{1F17F}',
            Service::XUser => '\u{1D54F}',
            Service::XStatus => '\u{1D54F}',
            _ => '\u{1F517}',
        }
    }

    /// The metadata key that ids of this service are filed under.
    pub fn key(&self) -> (r: String)
        ensures
            r@ == service_key(self@),
    {
        match self {
            Service::Danbooru => String::from_str("danbooru"),
            Service::Safebooru => String::from_str("safebooru"),
            Service::Gelbooru => String::from_str("gelbooru"),
            Service::Konachan => String::from_str("konachan"),
            Service::YandeRe => String::from_str("yandere"),
            Service::Zerochan => String::from_str("zerochan"),
            Service::AnimePictures => String::from_str("anime-pictures"),
            Service::IdolComplex => String::from_str("idolcomplex"),
            Service::SankakuComplex => String::from_str("sankakucomplex"),
            Service::EShuushuu => String::from_str("eshuushuu"),
            Service::MangaDex => String::from_str("mangadex"),
            Service::MangaDexChapter => String::from_str("mangadex-chapter"),
            Service::MangaUpdates => String::from_str("mangaupdates"),
            Service::MyAnimeList => String::from_str("myanimelist"),
            Service::Fakku => String::from_str("fakku"),
            Service::EHentai => String::from_str("ehentai-gallery"),
            Service::AniDB => String::from_str("anidb"),
            Service::AniList => String::from_str("anilist"),
            Service::PixivMember => String::from_str("pixiv-member"),
            Service::PixivArtwork => String::from_str("pixiv"),
            Service::XUser => String::from_str("x-user"),
            Service::XStatus => String::from_str("x-status"),
            Service::Unknown(host) => {
                let lower = lowercase(host.as_str());
                joined("unknown-", lower.as_str())
            },
        }
    }

    /// The service that a lower-cased metadata key names.
    pub fn from_lowered(key: &str) -> (r: Option<Service>)
        ensures
            opt_service(r) == key_service(swap_char(key@, '_', '-')),
    {
        let n = replace_char(&chars_of(key), '_', '-');
        if chars_are(&n, "danbooru") {
            Some(Service::Danbooru)
        } else if chars_are(&n, "safebooru") {
            Some(Service::Safebooru)
        } else if chars_are(&n, "gelbooru") {
            Some(Service::Gelbooru)
        } else if chars_are(&n, "konachan") {
            Some(Service::Konachan)
        } else if chars_are(&n, "yandere") {
            Some(Service::YandeRe)
        } else if chars_are(&n, "zerochan") {
            Some(Service::Zerochan)
        } else if chars_are(&n, "anime-pictures") {
            Some(Service::AnimePictures)
        } else if chars_are(&n, "idolcomplex") {
            Some(Service::IdolComplex)
        } else if chars_are(&n, "sankakucomplex") {
            Some(Service::SankakuComplex)
        } else if chars_are(&n, "eshuushuu") {
            Some(Service::EShuushuu)
        } else if chars_are(&n, "mangadex") {
            Some(Service::MangaDex)
        } else if chars_are(&n, "mangadex-chapter") {
            Some(Service::MangaDexChapter)
        } else if chars_are(&n, "mangaupdates") {
            Some(Service::MangaUpdates)
        } else if chars_are(&n, "myanimelist") {
            Some(Service::MyAnimeList)
        } else if chars_are(&n, "fakku") {
            Some(Service::Fakku)
        } else if chars_are(&n, "ehentai-gallery") {
            Some(Service::EHentai)
        } else if chars_are(&n, "anidb") {
            Some(Service::AniDB)
        } else if chars_are(&n, "anilist") {
            Some(Service::AniList)
        } else if chars_are(&n, "pixiv-user") || chars_are(&n, "pixiv-artist") || chars_are(&n, "pixiv-member") {
            Some(Service::PixivMember)
        } else if chars_are(&n, "pixiv-artwork") || chars_are(&n, "pixiv") {
            Some(Service::PixivArtwork)
        } else if chars_are(&n, "x-user") {
            Some(Service::XUser)
        } else if chars_are(&n, "x-status") {
            Some(Service::XStatus)
        } else if has_prefix(&n, "unknown-") {
            let skip = chars_of("unknown-").len();
            Some(Service::Unknown(string_of(&suffix_from(&n, skip))))
        } else {
            None
        }
    }

    /// The service that a metadata key names: an `_id` or `-id` ending is
    /// ignored, case does not count and underscores stand for dashes.
    pub fn from_string(key: &str) -> (r: Option<Service>)
        ensures
            opt_service(r) == key_service(swap_char(lower_of(strip_id(key@)), '_', '-')),
    {
        let v = chars_of(key);
        let stripped = if has_suffix(&v, "_id") {
            prefix_of(&v, v.len() - chars_of("_id").len())
        } else if has_suffix(&v, "-id") {
            prefix_of(&v, v.len() - chars_of("-id").len())
        } else {
            v
        };
        let lower = lowercase(string_of(&stripped).as_str());
        Service::from_lowered(lower.as_str())
    }

    /// The link to the item with the given id on this service, if one can be made.
    pub fn build_url(&self, id: &str) -> (r: Option<String>)
        ensures
            match r {
                Some(u) => built_url(self@, id@) == Some(u@),
                None => built_url(self@, id@) is None,
            },
    {
        match self {
            Service::Danbooru => Some(joined("https://danbooru.donmai.us/posts/", id)),
            Service::Safebooru => Some(joined("https://safebooru.org/index.php?page=post&s=view&id=", id)),
            Service::Gelbooru => Some(joined("https://gelbooru.com/index.php?page=post&s=view&id=", id)),
            Service::Konachan => Some(joined("https://konachan.com/post/show/", id)),
            Service::YandeRe => Some(joined("https://yande.re/post/show/", id)),
            Service::Zerochan => Some(joined("https://www.zerochan.net/", id)),
            Service::AnimePictures => Some(joined("https://anime-pictures.net/posts/", id)),
            Service::IdolComplex => Some(joined("https://www.idolcomplex.com/posts/", id)),
            Service::SankakuComplex => Some(joined("https://www.sankakucomplex.com/posts/", id)),
            Service::EShuushuu => Some(joined("https://e-shuushuu.net/image/", id)),
            Service::MangaDex => Some(joined("https://mangadex.org/title/", id)),
            Service::MangaDexChapter => Some(joined("https://mangadex.org/chapter/", id)),
            Service::MyAnimeList => Some(joined("https://myanimelist.net/anime/", id)),
            Service::Fakku => Some(joined("https://www.fakku.net/hentai/", id)),
            Service::AniDB => Some(joined("https://anidb.net/anime/", id)),
            Service::AniList => Some(joined("https://anilist.co/anime/", id)),
            Service::PixivMember => Some(joined("https://www.pixiv.net/en/users/", id)),
            Service::PixivArtwork => Some(joined("https://www.pixiv.net/en/artworks/", id)),
            Service::XUser => Some(joined("https://x.com/", id)),
            Service::XStatus => Some(joined("https://x.com/i/status/", id)),
            Service::MangaUpdates => {
                if parse_decimal(id, u64::MAX).is_some() {
                    Some(joined("https://www.mangaupdates.com/series.html?id=", id))
                } else {
                    Some(joined("https://www.mangaupdates.com/series/", id))
                }
            },
            Service::EHentai => {
                if has_part(&chars_of(id), "/") {
                    Some(joined("https://e-hentai.org/g/", id))
                } else {
                    None
                }
            },
            Service::Unknown(host) => {
                let start = joined("https://", host.as_str());
                let mid = joined(start.as_str(), "/");
                Some(joined(mid.as_str(), id))
            },
        }
    }
}

} // verus!
