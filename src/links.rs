use vstd::prelude::*;
use crate::enrichment::{text_of, Url, UrlView};
use crate::service::{Service, ServiceId, service_emoji, service_name, built_url};
use crate::text::{chars_of, contains, has_part, str_eq, string_of};

verus! {

/// The parts of a parsed link that the recognisers read.
pub struct LinkParts {
    pub host: Option<String>,
    pub path: String,
    pub query: Vec<(String, String)>,
    pub segments: Vec<String>,
}

pub struct LinkPartsView {
    pub host: Option<Seq<char>>,
    pub path: Seq<char>,
    pub query: Seq<(Seq<char>, Seq<char>)>,
    pub segments: Seq<Seq<char>>,
}

impl View for LinkParts {
    type V = LinkPartsView;

    open spec fn view(&self) -> LinkPartsView {
        LinkPartsView {
            host: text_of(self.host),
            path: self.path@,
            query: self.query@.map_values(|p: (String, String)| (p.0@, p.1@)),
            segments: self.segments@.map_values(|s: String| s@),
        }
    }
}

pub open spec fn opt_parts(o: Option<LinkParts>) -> Option<LinkPartsView> {
    match o {
        Some(p) => Some(p@),
        None => None,
    }
}

/// What a link parser makes of a text: nothing if it is no valid absolute link.
pub uninterp spec fn parsed_link(s: Seq<char>) -> Option<LinkPartsView>;

/// Relies on `url::Url::parse` (as `reqwest::Url`), read through its `host_str`, `path`,
/// `query_pairs` and `path_segments` accessors: the result depends on the text alone.
#[verifier::external_body]
pub(crate) fn split_link(s: &str) -> (r: Option<LinkParts>)
    ensures
        opt_parts(r) == parsed_link(s@),
{
    let url = reqwest::Url::parse(s).ok()?;
    Some(LinkParts {
        host: url.host_str().map(|h| h.to_string()),
        path: url.path().to_string(),
        query: url.query_pairs().map(|(k, v)| (k.into_owned(), v.into_owned())).collect(),
        segments: match url.path_segments() {
            Some(parts) => parts.map(|p| p.to_string()).collect(),
            None => Vec::new(),
        },
    })
}

/// What the first group of a pattern captures at its first match in a text.
pub uninterp spec fn regex_capture(pattern: Seq<char>, input: Seq<char>) -> Option<Seq<char>>;

/// Relies on `regex::Regex::new` and `Regex::captures`: the text of group 1 of the first match.
#[verifier::external_body]
pub(crate) fn first_capture(pattern: &str, input: &str) -> (r: Option<String>)
    ensures
        text_of(r) == regex_capture(pattern@, input@),
{
    let re = regex::Regex::new(pattern).ok()?;
    re.captures(input).and_then(|caps| caps.get(1).map(|m| m.as_str().to_string()))
}

/// The service that a link with the given host and path points to.
pub open spec fn host_service(h: Seq<char>, path: Seq<char>, n_segments: nat) -> ServiceId {
    if contains(h, "danbooru.donmai.us"@) {
        ServiceId::Danbooru
    } else if contains(h, "safebooru.org"@) {
        ServiceId::Safebooru
    } else if contains(h, "gelbooru.com"@) {
        ServiceId::Gelbooru
    } else if contains(h, "konachan.com"@) {
        ServiceId::Konachan
    } else if contains(h, "yande.re"@) {
        ServiceId::YandeRe
    } else if contains(h, "zerochan.net"@) {
        ServiceId::Zerochan
    } else if contains(h, "anime-pictures.net"@) {
        ServiceId::AnimePictures
    } else if contains(h, "idolcomplex.com"@) || contains(h, "idol.sankakucomplex.com"@) {
        ServiceId::IdolComplex
    } else if contains(h, "sankakucomplex.com"@) {
        ServiceId::SankakuComplex
    } else if contains(h, "e-shuushuu.net"@) {
        ServiceId::EShuushuu
    } else if contains(h, "mangadex.org"@) && contains(path, "title"@) {
        ServiceId::MangaDex
    } else if contains(h, "mangadex.org"@) && contains(path, "chapter"@) {
        ServiceId::MangaDexChapter
    } else if contains(h, "mangaupdates.com"@) {
        ServiceId::MangaUpdates
    } else if contains(h, "myanimelist.net"@) {
        ServiceId::MyAnimeList
    } else if contains(h, "fakku.net"@) {
        ServiceId::Fakku
    } else if contains(h, "e-hentai.org"@) {
        ServiceId::EHentai
    } else if contains(h, "anidb.net"@) {
        ServiceId::AniDB
    } else if contains(h, "anilist.co"@) {
        ServiceId::AniList
    } else if (contains(h, "pixiv.net"@) && contains(path, "artworks"@)) || contains(
        h,
        "pximg.net"@,
    ) {
        ServiceId::PixivArtwork
    } else if contains(h, "pixiv.net"@) && contains(path, "users"@) {
        ServiceId::PixivMember
    } else if (h == "twitter.com"@ || h == "x.com"@) && contains(path, "status"@) {
        ServiceId::XStatus
    } else if (h == "twitter.com"@ || h == "x.com"@) && n_segments == 1 {
        ServiceId::XUser
    } else {
        ServiceId::Unknown(h)
    }
}

/// The service that the link `url` points to, given what the parser made of it.
pub open spec fn link_service(url: Seq<char>, p: Option<LinkPartsView>) -> ServiceId {
    match p {
        Some(parts) => match parts.host {
            Some(h) => host_service(h, parts.path, parts.segments.len()),
            None => ServiceId::Unknown(url),
        },
        None => ServiceId::Unknown(url),
    }
}

/// The value of the first `id` query parameter.
pub open spec fn query_id(q: Seq<(Seq<char>, Seq<char>)>) -> Option<Seq<char>>
    decreases q.len(),
{
    if q.len() == 0 {
        None
    } else if q[0].0 == "id"@ {
        Some(q[0].1)
    } else {
        query_id(q.drop_first())
    }
}

/// `s` without its leading slashes.
pub open spec fn trim_slashes(s: Seq<char>) -> Seq<char>
    decreases s.len(),
{
    if s.len() > 0 && s[0] == '/' {
        trim_slashes(s.drop_first())
    } else {
        s
    }
}

pub open spec fn or_else(a: Option<Seq<char>>, b: Option<Seq<char>>) -> Option<Seq<char>> {
    if a is Some {
        a
    } else {
        b
    }
}

/// The id of the item that a link of service `s` points to.
pub open spec fn link_id(s: ServiceId, p: LinkPartsView) -> Option<Seq<char>> {
    match p.host {
        None => None,
        Some(host) => match s {
            ServiceId::Safebooru | ServiceId::Gelbooru => query_id(p.query),
            ServiceId::Danbooru | ServiceId::Konachan | ServiceId::YandeRe
            | ServiceId::AnimePictures => regex_capture(r"/posts?(?:/show)?/(\d+)"@, p.path),
            ServiceId::Zerochan => Some(trim_slashes(p.path)),
            ServiceId::IdolComplex | ServiceId::SankakuComplex => regex_capture(
                r"/posts?/([a-zA-Z-0-9]+)"@,
                p.path,
            ),
            ServiceId::EShuushuu => regex_capture(r"/image/(\d+)"@, p.path),
            ServiceId::MangaDex => regex_capture(r"/title/([a-zA-Z-0-9]+)"@, p.path),
            ServiceId::MangaDexChapter => regex_capture(r"/chapter/([a-zA-Z-0-9]+)"@, p.path),
            ServiceId::MangaUpdates => or_else(
                query_id(p.query),
                regex_capture(r"/series/([a-zA-Z-0-9]+)"@, p.path),
            ),
            ServiceId::MyAnimeList => regex_capture(r"/anime/(\d+)"@, p.path),
            ServiceId::Fakku => regex_capture(r"/hentai/([a-zA-Z-0-9]+)"@, p.path),
            ServiceId::EHentai => regex_capture(r"/g/([a-zA-Z-0-9]+/[a-zA-Z-0-9]+)"@, p.path),
            ServiceId::AniDB => regex_capture(r"/anime/(\d+)"@, p.path),
            ServiceId::AniList => regex_capture(r"/anime/(\d+)"@, p.path),
            ServiceId::PixivMember => regex_capture(r"/users/(\d+)"@, p.path),
            ServiceId::PixivArtwork => if contains(host, "pixiv.net"@) {
                regex_capture(r"/artworks/(\d+)"@, p.path)
            } else {
                regex_capture(r"(\d+)_p\d"@, p.path)
            },
            ServiceId::XUser => if p.segments.len() == 1 {
                Some(p.segments[0])
            } else {
                None
            },
            ServiceId::XStatus => regex_capture(r"/status/(\d+)"@, p.path),
            ServiceId::Unknown(_) => None,
        },
    }
}

/// The id that the link `url` holds for service `s`.
pub open spec fn url_id(s: ServiceId, url: Seq<char>) -> Option<Seq<char>> {
    match parsed_link(url) {
        Some(p) => link_id(s, p),
        None => None,
    }
}

fn equals_text(v: &Vec<char>, s: &str) -> (r: bool)
    ensures
        r == (v@ == s@),
{
    crate::text::chars_are(v, s)
}

fn first_query_id(q: &Vec<(String, String)>) -> (r: Option<String>)
    ensures
        text_of(r) == query_id(q@.map_values(|p: (String, String)| (p.0@, p.1@))),
{
    let ghost qv = q@.map_values(|p: (String, String)| (p.0@, p.1@));
    let mut i: usize = 0;
    assert(qv.skip(0) =~= qv);
    while i < q.len()
        invariant
            i <= q@.len(),
            qv == q@.map_values(|p: (String, String)| (p.0@, p.1@)),
            query_id(qv) == query_id(qv.skip(i as int)),
        decreases q.len() - i,
    {
        assert(qv.skip(i as int)[0] == qv[i as int]);
        if str_eq(q[i].0.as_str(), "id") {
            return Some(q[i].1.clone());
        }
        assert(qv.skip(i as int).drop_first() =~= qv.skip(i + 1));
        i += 1;
    }
    None
}

fn trimmed_path(path: &String) -> (r: String)
    ensures
        r@ == trim_slashes(path@),
{
    let v = chars_of(path.as_str());
    let mut i: usize = 0;
    assert(v@.skip(0) =~= v@);
    while i < v.len() && v[i] == '/'
        invariant
            i <= v@.len(),
            trim_slashes(v@) == trim_slashes(v@.skip(i as int)),
        decreases v.len() - i,
    {
        assert(v@.skip(i as int).drop_first() =~= v@.skip(i + 1));
        i += 1;
    }
    string_of(&crate::text::suffix_from(&v, i))
}

impl Service {
    /// The service that the link `url` points to, given what the parser made of it.
    pub fn from_parts(url: &str, parts: &Option<LinkParts>) -> (r: Service)
        ensures
            r@ == link_service(url@, opt_parts(*parts)),
    {
        let p = match parts {
            None => {
                return Service::Unknown(string_of(&chars_of(url)));
            },
            Some(p) => p,
        };
        let host = match &p.host {
            None => {
                return Service::Unknown(string_of(&chars_of(url)));
            },
            Some(h) => h,
        };
        let h = chars_of(host.as_str());
        let path = chars_of(p.path.as_str());
        let twitter = equals_text(&h, "twitter.com") || equals_text(&h, "x.com");
        if has_part(&h, "danbooru.donmai.us") {
            Service::Danbooru
        } else if has_part(&h, "safebooru.org") {
            Service::Safebooru
        } else if has_part(&h, "gelbooru.com") {
            Service::Gelbooru
        } else if has_part(&h, "konachan.com") {
            Service::Konachan
        } else if has_part(&h, "yande.re") {
            Service::YandeRe
        } else if has_part(&h, "zerochan.net") {
            Service::Zerochan
        } else if has_part(&h, "anime-pictures.net") {
            Service::AnimePictures
        } else if has_part(&h, "idolcomplex.com") || has_part(&h, "idol.sankakucomplex.com") {
            Service::IdolComplex
        } else if has_part(&h, "sankakucomplex.com") {
            Service::SankakuComplex
        } else if has_part(&h, "e-shuushuu.net") {
            Service::EShuushuu
        } else if has_part(&h, "mangadex.org") && has_part(&path, "title") {
            Service::MangaDex
        } else if has_part(&h, "mangadex.org") && has_part(&path, "chapter") {
            Service::MangaDexChapter
        } else if has_part(&h, "mangaupdates.com") {
            Service::MangaUpdates
        } else if has_part(&h, "myanimelist.net") {
            Service::MyAnimeList
        } else if has_part(&h, "fakku.net") {
            Service::Fakku
        } else if has_part(&h, "e-hentai.org") {
            Service::EHentai
        } else if has_part(&h, "anidb.net") {
            Service::AniDB
        } else if has_part(&h, "anilist.co") {
            Service::AniList
        } else if (has_part(&h, "pixiv.net") && has_part(&path, "artworks")) || has_part(
            &h,
            "pximg.net",
        ) {
            Service::PixivArtwork
        } else if has_part(&h, "pixiv.net") && has_part(&path, "users") {
            Service::PixivMember
        } else if twitter && has_part(&path, "status") {
            Service::XStatus
        } else if twitter && p.segments.len() == 1 {
            Service::XUser
        } else {
            Service::Unknown(host.clone())
        }
    }

    /// The service that a link points to; a text that is no valid link with
    /// a host is an unknown service named by the whole text.
    pub fn from_url(url: &str) -> (r: Service)
        ensures
            r@ == link_service(url@, parsed_link(url@)),
    {
        let parts = split_link(url);
        Service::from_parts(url, &parts)
    }

    /// The id of the item that a link of this service points to, given the link's parts.
    pub fn id_from_parts(&self, p: &LinkParts) -> (r: Option<String>)
        ensures
            text_of(r) == link_id(self@, p@),
    {
        let host = match &p.host {
            None => {
                return None;
            },
            Some(h) => h,
        };
        let path = p.path.as_str();
        match self {
            Service::Safebooru | Service::Gelbooru => first_query_id(&p.query),
            Service::Danbooru | Service::Konachan | Service::YandeRe | Service::AnimePictures => {
                first_capture(r"/posts?(?:/show)?/(\d+)", path)
            },
            Service::Zerochan => Some(trimmed_path(&p.path)),
            Service::IdolComplex | Service::SankakuComplex => first_capture(
                r"/posts?/([a-zA-Z-0-9]+)",
                path,
            ),
            Service::EShuushuu => first_capture(r"/image/(\d+)", path),
            Service::MangaDex => first_capture(r"/title/([a-zA-Z-0-9]+)", path),
            Service::MangaDexChapter => first_capture(r"/chapter/([a-zA-Z-0-9]+)", path),
            Service::MangaUpdates => {
                let q = first_query_id(&p.query);
                if q.is_some() {
                    q
                } else {
                    first_capture(r"/series/([a-zA-Z-0-9]+)", path)
                }
            },
            Service::MyAnimeList => first_capture(r"/anime/(\d+)", path),
            Service::Fakku => first_capture(r"/hentai/([a-zA-Z-0-9]+)", path),
            Service::EHentai => first_capture(r"/g/([a-zA-Z-0-9]+/[a-zA-Z-0-9]+)", path),
            Service::AniDB => first_capture(r"/anime/(\d+)", path),
            Service::AniList => first_capture(r"/anime/(\d+)", path),
            Service::PixivMember => first_capture(r"/users/(\d+)", path),
            Service::PixivArtwork => {
                if has_part(&chars_of(host.as_str()), "pixiv.net") {
                    first_capture(r"/artworks/(\d+)", path)
                } else {
                    first_capture(r"(\d+)_p\d", path)
                }
            },
            Service::XUser => {
                if p.segments.len() == 1 {
                    Some(p.segments[0].clone())
                } else {
                    None
                }
            },
            Service::XStatus => first_capture(r"/status/(\d+)", path),
            Service::Unknown(_) => None,
        }
    }

    /// The id of the item that a link of this service points to.
    pub fn get_id(&self, url: &str) -> (r: Option<String>)
        ensures
            text_of(r) == url_id(self@, url@),
    {
        match split_link(url) {
            Some(p) => self.id_from_parts(&p),
            None => None,
        }
    }

    /// The service that a link points to and the id it holds, when it holds one.
    pub fn parse_url(url: &str) -> (r: Option<(Service, String)>)
        ensures
            match r {
                Some((s, id)) => s@ == link_service(url@, parsed_link(url@)) && url_id(s@, url@)
                    == Some(id@),
                None => url_id(link_service(url@, parsed_link(url@)), url@) is None,
            },
    {
        let service = Service::from_url(url);
        match service.get_id(url) {
            Some(id) => Some((service, id)),
            None => None,
        }
    }
}

/// The display name of a link: its own name, else its service's, else "Link";
/// with the emoji, the service's emoji (or a chain link) and a space go first.
pub open spec fn link_name(u: UrlView, with_emoji: bool) -> Seq<char> {
    let service = match u.url {
        Some(url) => Some(link_service(url, parsed_link(url))),
        None => None,
    };
    let name = match u.name {
        Some(n) => n,
        None => match service {
            Some(s) => service_name(s),
            None => "Link"@,
        },
    };
    if with_emoji {
        match service {
            Some(s) => seq![service_emoji(s), ' '] + name,
            None => seq!['\u{1F517}', ' '] + name,
        }
    } else {
        name
    }
}

/// The canonical form of a link: rebuilt from its service and id where both
/// are recognised and a link can be built, else the link as it is.
pub open spec fn clean_link(u: UrlView) -> Option<Seq<char>> {
    match u.url {
        None => None,
        Some(url) => {
            let s = link_service(url, parsed_link(url));
            match url_id(s, url) {
                Some(id) => match built_url(s, id) {
                    Some(b) => Some(b),
                    None => Some(url),
                },
                None => Some(url),
            }
        },
    }
}

impl Url {
    /// The name to show for this link.
    pub fn name(&self, with_emoji: bool) -> (r: String)
        ensures
            r@ == link_name(self@, with_emoji),
    {
        let service = match &self.url {
            Some(url) => Some(Service::from_url(url.as_str())),
            None => None,
        };
        let name = match &self.name {
            Some(n) => n.clone(),
            None => match &service {
                Some(s) => s.name(),
                None => String::from_str("Link"),
            },
        };
        if with_emoji {
            let mut lead: Vec<char> = Vec::new();
            match &service {
                Some(s) => lead.push(s.emoji()),
                None => lead.push('\u{1F517}'),
            }
            lead.push(' ');
            let mut r = string_of(&lead);
            r.append(name.as_str());
            r
        } else {
            name
        }
    }

    /// The canonical form of this link.
    pub fn clean_url(&self) -> (r: Option<String>)
        ensures
            text_of(r) == clean_link(self@),
    {
        match &self.url {
            None => None,
            Some(url) => match Service::parse_url(url.as_str()) {
                Some((service, id)) => match service.build_url(id.as_str()) {
                    Some(b) => Some(b),
                    None => Some(url.clone()),
                },
                None => Some(url.clone()),
            },
        }
    }
}

} // verus!
