use vstd::prelude::*;

verus! {

/// The text of an optional string.
pub open spec fn text_of(o: Option<String>) -> Option<Seq<char>> {
    match o {
        Some(s) => Some(s@),
        None => None,
    }
}

/// The texts of a list of strings.
pub open spec fn texts_of(v: Seq<String>) -> Seq<Seq<char>> {
    v.map_values(|s: String| s@)
}

/// The texts of an optional list of strings.
pub open spec fn opt_texts_of(o: Option<Vec<String>>) -> Option<Seq<Seq<char>>> {
    match o {
        Some(v) => Some(texts_of(v@)),
        None => None,
    }
}

pub fn copy_text(o: &Option<String>) -> (r: Option<String>)
    ensures
        r == *o,
{
    match o {
        Some(s) => Some(s.clone()),
        None => None,
    }
}

pub fn copy_texts(v: &Vec<String>) -> (r: Vec<String>)
    ensures
        r@ == v@,
{
    let mut r: Vec<String> = Vec::new();
    let mut i: usize = 0;
    while i < v.len()
        invariant
            i <= v.len(),
            r@ == v@.take(i as int),
        decreases v.len() - i,
    {
        r.push(v[i].clone());
        i += 1;
        assert(r@ =~= v@.take(i as int));
    }
    assert(v@.take(v.len() as int) =~= v@);
    r
}

pub fn copy_opt_texts(o: &Option<Vec<String>>) -> (r: Option<Vec<String>>)
    ensures
        opt_texts_of(r) == opt_texts_of(*o),
        o is Some <==> r is Some,
        o is Some ==> r->0@ == o->0@,
{
    match o {
        Some(v) => Some(copy_texts(v)),
        None => None,
    }
}

/// A title in its english, romanised and native spellings.
#[derive(Debug)]
pub struct Title {
    pub english: Option<String>,
    pub romaji: Option<String>,
    pub native: Option<String>,
}

pub struct TitleView {
    pub english: Option<Seq<char>>,
    pub romaji: Option<Seq<char>>,
    pub native: Option<Seq<char>>,
}

impl View for Title {
    type V = TitleView;

    open spec fn view(&self) -> TitleView {
        TitleView {
            english: text_of(self.english),
            romaji: text_of(self.romaji),
            native: text_of(self.native),
        }
    }
}

impl Title {
    pub fn duplicate(&self) -> (r: Title)
        ensures
            r@ == self@,
    {
        Title {
            english: copy_text(&self.english),
            romaji: copy_text(&self.romaji),
            native: copy_text(&self.native),
        }
    }
}

/// Where a hit stands among the episodes of a series. The timestamp is in
/// milliseconds from the start of the episode.
#[derive(Debug)]
pub struct Episodes {
    pub total: Option<u32>,
    pub hit: Option<u32>,
    pub hit_timestamp_ms: Option<u64>,
    pub hit_image: Option<String>,
    pub hit_video: Option<String>,
}

pub struct EpisodesView {
    pub total: Option<u32>,
    pub hit: Option<u32>,
    pub hit_timestamp_ms: Option<u64>,
    pub hit_image: Option<Seq<char>>,
    pub hit_video: Option<Seq<char>>,
}

impl View for Episodes {
    type V = EpisodesView;

    open spec fn view(&self) -> EpisodesView {
        EpisodesView {
            total: self.total,
            hit: self.hit,
            hit_timestamp_ms: self.hit_timestamp_ms,
            hit_image: text_of(self.hit_image),
            hit_video: text_of(self.hit_video),
        }
    }
}

impl Episodes {
    pub fn duplicate(&self) -> (r: Episodes)
        ensures
            r@ == self@,
    {
        Episodes {
            total: self.total,
            hit: self.hit,
            hit_timestamp_ms: self.hit_timestamp_ms,
            hit_image: copy_text(&self.hit_image),
            hit_video: copy_text(&self.hit_video),
        }
    }
}

/// Where a hit stands among the chapters of a series.
#[derive(Debug)]
pub struct Chapters {
    pub total: Option<u32>,
    pub hit: Option<u32>,
    pub hit_image: Option<String>,
}

pub struct ChaptersView {
    pub total: Option<u32>,
    pub hit: Option<u32>,
    pub hit_image: Option<Seq<char>>,
}

impl View for Chapters {
    type V = ChaptersView;

    open spec fn view(&self) -> ChaptersView {
        ChaptersView { total: self.total, hit: self.hit, hit_image: text_of(self.hit_image) }
    }
}

impl Chapters {
    pub fn duplicate(&self) -> (r: Chapters)
        ensures
            r@ == self@,
    {
        Chapters { total: self.total, hit: self.hit, hit_image: copy_text(&self.hit_image) }
    }
}

/// An external link, with an optional display name.
#[derive(Debug)]
pub struct Url {
    pub url: Option<String>,
    pub name: Option<String>,
}

pub struct UrlView {
    pub url: Option<Seq<char>>,
    pub name: Option<Seq<char>>,
}

impl View for Url {
    type V = UrlView;

    open spec fn view(&self) -> UrlView {
        UrlView { url: text_of(self.url), name: text_of(self.name) }
    }
}

impl Url {
    pub fn duplicate(&self) -> (r: Url)
        ensures
            r@ == self@,
    {
        Url { url: copy_text(&self.url), name: copy_text(&self.name) }
    }
}

pub open spec fn urls_of(v: Seq<Url>) -> Seq<UrlView> {
    v.map_values(|u: Url| u@)
}

pub open spec fn opt_urls_of(o: Option<Vec<Url>>) -> Option<Seq<UrlView>> {
    match o {
        Some(v) => Some(urls_of(v@)),
        None => None,
    }
}

pub fn copy_urls(v: &Vec<Url>) -> (r: Vec<Url>)
    ensures
        urls_of(r@) == urls_of(v@),
{
    let mut r: Vec<Url> = Vec::new();
    let mut i: usize = 0;
    while i < v.len()
        invariant
            i <= v.len(),
            urls_of(r@) == urls_of(v@.take(i as int)),
        decreases v.len() - i,
    {
        let u = v[i].duplicate();
        proof {
            assert(urls_of(r@.push(u)) =~= urls_of(r@).push(u@));
            assert(urls_of(v@.take(i + 1)) =~= urls_of(v@.take(i as int)).push(v@[i as int]@));
        }
        r.push(u);
        i += 1;
    }
    assert(v@.take(v.len() as int) =~= v@);
    r
}

pub fn copy_opt_urls(o: &Option<Vec<Url>>) -> (r: Option<Vec<Url>>)
    ensures
        opt_urls_of(r) == opt_urls_of(*o),
{
    match o {
        Some(v) => Some(copy_urls(v)),
        None => None,
    }
}

/// The release status of a series.
#[derive(Debug, Clone, Copy, PartialEq, Eq, Structural)]
pub enum Status {
    Announced,
    Ongoing,
    OnHold,
    Completed,
    Cancelled,
    Unknown,
}

impl Status {
    /// The status's name as text.
    pub fn as_text(&self) -> (r: String)
        ensures
            r@ == status_text(*self),
    {
        match self {
            Status::Announced => String::from_str("Announced"),
            Status::Ongoing => String::from_str("Ongoing"),
            Status::OnHold => String::from_str("OnHold"),
            Status::Completed => String::from_str("Completed"),
            Status::Cancelled => String::from_str("Cancelled"),
            Status::Unknown => String::from_str("Unknown"),
        }
    }
}

pub open spec fn status_text(s: Status) -> Seq<char> {
    match s {
        Status::Announced => "Announced"@,
        Status::Ongoing => "Ongoing"@,
        Status::OnHold => "OnHold"@,
        Status::Completed => "Completed"@,
        Status::Cancelled => "Cancelled"@,
        Status::Unknown => "Unknown"@,
    }
}

/// What one provider, or a merge of several, says about one search hit.
#[derive(Debug)]
pub struct Enrichment {
    pub title: Option<Title>,
    pub year: Option<u16>,
    pub tags: Option<Vec<String>>,
    pub status: Option<Status>,
    pub artists: Option<Vec<String>>,
    pub characters: Option<Vec<String>>,
    pub thumbnail: Option<String>,
    pub video: Option<String>,
    pub episodes: Option<Episodes>,
    pub chapters: Option<Chapters>,
    pub main_url: Option<Url>,
    pub urls: Option<Vec<Url>>,
    pub priority: u8,
    pub enrichers: Vec<String>,
}

pub struct EnrichmentView {
    pub title: Option<TitleView>,
    pub year: Option<u16>,
    pub tags: Option<Seq<Seq<char>>>,
    pub status: Option<Status>,
    pub artists: Option<Seq<Seq<char>>>,
    pub characters: Option<Seq<Seq<char>>>,
    pub thumbnail: Option<Seq<char>>,
    pub video: Option<Seq<char>>,
    pub episodes: Option<EpisodesView>,
    pub chapters: Option<ChaptersView>,
    pub main_url: Option<UrlView>,
    pub urls: Option<Seq<UrlView>>,
    pub priority: u8,
    pub enrichers: Seq<Seq<char>>,
}

pub open spec fn title_of(o: Option<Title>) -> Option<TitleView> {
    match o {
        Some(t) => Some(t@),
        None => None,
    }
}

pub open spec fn episodes_of(o: Option<Episodes>) -> Option<EpisodesView> {
    match o {
        Some(e) => Some(e@),
        None => None,
    }
}

pub open spec fn chapters_of(o: Option<Chapters>) -> Option<ChaptersView> {
    match o {
        Some(c) => Some(c@),
        None => None,
    }
}

pub open spec fn url_of(o: Option<Url>) -> Option<UrlView> {
    match o {
        Some(u) => Some(u@),
        None => None,
    }
}

impl View for Enrichment {
    type V = EnrichmentView;

    open spec fn view(&self) -> EnrichmentView {
        EnrichmentView {
            title: title_of(self.title),
            year: self.year,
            tags: opt_texts_of(self.tags),
            status: self.status,
            artists: opt_texts_of(self.artists),
            characters: opt_texts_of(self.characters),
            thumbnail: text_of(self.thumbnail),
            video: text_of(self.video),
            episodes: episodes_of(self.episodes),
            chapters: chapters_of(self.chapters),
            main_url: url_of(self.main_url),
            urls: opt_urls_of(self.urls),
            priority: self.priority,
            enrichers: texts_of(self.enrichers@),
        }
    }
}

/// The record that says nothing: every optional field absent.
pub open spec fn is_blank(e: EnrichmentView) -> bool {
    &&& e.title is None
    &&& e.year is None
    &&& e.tags is None
    &&& e.status is None
    &&& e.artists is None
    &&& e.characters is None
    &&& e.thumbnail is None
    &&& e.video is None
    &&& e.episodes is None
    &&& e.chapters is None
    &&& e.main_url is None
    &&& e.urls is None
}

impl Enrichment {
    /// A record with every optional field absent, from the given contributor.
    pub fn blank(priority: u8, enricher: String) -> (r: Enrichment)
        ensures
            is_blank(r@),
            r@.priority == priority,
            r@.enrichers == seq![enricher@],
    {
        let mut enrichers: Vec<String> = Vec::new();
        enrichers.push(enricher);
        let r = Enrichment {
            title: None,
            year: None,
            tags: None,
            status: None,
            artists: None,
            characters: None,
            thumbnail: None,
            video: None,
            episodes: None,
            chapters: None,
            main_url: None,
            urls: None,
            priority,
            enrichers,
        };
        assert(r@.enrichers =~= seq![enricher@]);
        r
    }

    pub fn duplicate(&self) -> (r: Enrichment)
        ensures
            r@ == self@,
    {
        Enrichment {
            title: match &self.title {
                Some(t) => Some(t.duplicate()),
                None => None,
            },
            year: self.year,
            tags: copy_opt_texts(&self.tags),
            status: self.status,
            artists: copy_opt_texts(&self.artists),
            characters: copy_opt_texts(&self.characters),
            thumbnail: copy_text(&self.thumbnail),
            video: copy_text(&self.video),
            episodes: match &self.episodes {
                Some(e) => Some(e.duplicate()),
                None => None,
            },
            chapters: match &self.chapters {
                Some(c) => Some(c.duplicate()),
                None => None,
            },
            main_url: match &self.main_url {
                Some(u) => Some(u.duplicate()),
                None => None,
            },
            urls: copy_opt_urls(&self.urls),
            priority: self.priority,
            enrichers: copy_texts(&self.enrichers),
        }
    }
}

} // verus!
