use vstd::prelude::*;
use crate::orchestrator::ProviderSlot;
use crate::providers::ProviderKind;
use crate::search_hit::EngineSettings;
use crate::enrichment::texts_of;

verus! {

#[derive(Debug)]
pub struct General {
    /// Where downloads are kept.
    pub downloads_dir: Option<String>,
}

#[derive(Debug)]
pub struct Telegram {
    /// The bot's token.
    pub token: Option<String>,
}

#[derive(Debug)]
pub struct RustyPaste {
    pub token: Option<String>,
    /// The paste server's base link.
    pub url: Option<String>,
    pub expiry: Option<String>,
}

#[derive(Debug)]
pub struct TraceMoe {
    pub token: Option<String>,
    /// The least similarity kept, in hundredths of a percent.
    pub threshold: Option<u32>,
    pub limit: Option<usize>,
    pub enabled: Option<bool>,
}

#[derive(Debug)]
pub struct Iqdb {
    /// The least similarity kept, in hundredths of a percent.
    pub threshold: Option<u32>,
    pub limit: Option<usize>,
    pub enabled: Option<bool>,
}

#[derive(Debug)]
pub struct SauceNao {
    pub token: Option<String>,
    /// The least similarity kept, in hundredths of a percent.
    pub threshold: Option<u32>,
    pub limit: Option<usize>,
    pub enabled: Option<bool>,
}

#[derive(Debug)]
pub struct Danbooru {
    pub token: Option<String>,
    pub username: Option<String>,
    pub enabled: Option<bool>,
}

#[derive(Debug)]
pub struct Gelbooru {
    pub enabled: Option<bool>,
}

#[derive(Debug)]
pub struct Safebooru {
    pub enabled: Option<bool>,
}

#[derive(Debug)]
pub struct AniList {
    pub enabled: Option<bool>,
}

#[derive(Debug)]
pub struct Config {
    pub general: General,
    pub telegram: Telegram,
    pub rustypaste: RustyPaste,
    pub tracemoe: TraceMoe,
    pub iqdb: Iqdb,
    pub saucenao: SauceNao,
    pub danbooru: Danbooru,
    pub gelbooru: Gelbooru,
    pub safebooru: Safebooru,
    pub anilist: AniList,
}

/// A setting that is absent counts as switched on.
pub open spec fn on(o: Option<bool>) -> bool {
    match o {
        Some(b) => b,
        None => true,
    }
}

fn is_on(o: Option<bool>) -> (r: bool)
    ensures
        r == on(o),
{
    match o {
        Some(b) => b,
        None => true,
    }
}

impl Default for Config {
    /// Downloads under `./downloads`; every engine and provider switched on,
    /// three hits at most from each engine, and thresholds of 95% for the
    /// scene and image-board engines and 65% for the source engine.
    fn default() -> (r: Config)
        ensures
            r.general.downloads_dir matches Some(d) && d@ == "./downloads"@,
            r.telegram.token is None,
            r.rustypaste.url is None,
            r.tracemoe.threshold == Some(9500u32) && r.tracemoe.limit == Some(3usize),
            r.iqdb.threshold == Some(9500u32) && r.iqdb.limit == Some(3usize),
            r.saucenao.threshold == Some(6500u32) && r.saucenao.limit == Some(3usize),
            r.tracemoe.enabled == Some(true) && r.iqdb.enabled == Some(true)
                && r.saucenao.enabled == Some(true) && r.danbooru.enabled == Some(true)
                && r.gelbooru.enabled == Some(true) && r.safebooru.enabled == Some(true)
                && r.anilist.enabled == Some(true),
    {
        Config {
            general: General { downloads_dir: Some(String::from_str("./downloads")) },
            telegram: Telegram { token: None },
            rustypaste: RustyPaste { token: None, url: None, expiry: None },
            tracemoe: TraceMoe {
                token: None,
                threshold: Some(9500),
                limit: Some(3),
                enabled: Some(true),
            },
            iqdb: Iqdb { threshold: Some(9500), limit: Some(3), enabled: Some(true) },
            saucenao: SauceNao {
                token: None,
                threshold: Some(6500),
                limit: Some(3),
                enabled: Some(true),
            },
            danbooru: Danbooru { token: None, username: None, enabled: Some(true) },
            gelbooru: Gelbooru { enabled: Some(true) },
            safebooru: Safebooru { enabled: Some(true) },
            anilist: AniList { enabled: Some(true) },
        }
    }
}

/// The problems that make a configuration unusable, in a fixed order.
pub open spec fn config_problems(c: Config) -> Seq<Seq<char>> {
    let a = if c.telegram.token is None {
        seq!["Telegram token is required"@]
    } else {
        Seq::empty()
    };
    let b = if c.general.downloads_dir is None {
        seq!["Downloads path is required"@]
    } else {
        Seq::empty()
    };
    let d = if c.rustypaste.url is None {
        seq!["RustyPaste base URL is required"@]
    } else {
        Seq::empty()
    };
    a + b + d
}

/// The engines in the order they are searched, with their settings.
pub open spec fn engine_registry(c: Config) -> Seq<(Seq<char>, bool, Option<u32>, Option<usize>)> {
    seq![
        ("saucenao"@, on(c.saucenao.enabled), c.saucenao.threshold, c.saucenao.limit),
        ("TraceMoe"@, on(c.tracemoe.enabled), c.tracemoe.threshold, c.tracemoe.limit),
        ("iqdb"@, on(c.iqdb.enabled), c.iqdb.threshold, c.iqdb.limit),
    ]
}

pub open spec fn settings_view(e: EngineSettings) -> (Seq<char>, bool, Option<u32>, Option<usize>) {
    (e.name@, e.enabled, e.threshold, e.limit)
}

/// The providers in the order they are consulted, with whether each is on.
pub open spec fn provider_registry(c: Config) -> Seq<ProviderSlot> {
    seq![
        ProviderSlot { kind: ProviderKind::Generic, enabled: true },
        ProviderSlot { kind: ProviderKind::AniList, enabled: on(c.anilist.enabled) },
        ProviderSlot { kind: ProviderKind::MangaDex, enabled: true },
        ProviderSlot { kind: ProviderKind::TraceMoe, enabled: on(c.tracemoe.enabled) },
        ProviderSlot { kind: ProviderKind::SauceNao, enabled: on(c.saucenao.enabled) },
        ProviderSlot { kind: ProviderKind::Danbooru, enabled: on(c.danbooru.enabled) },
        ProviderSlot { kind: ProviderKind::Gelbooru, enabled: on(c.gelbooru.enabled) },
        ProviderSlot { kind: ProviderKind::Safebooru, enabled: on(c.safebooru.enabled) },
    ]
}

impl Config {
    /// Checks that the settings the bot cannot run without are there.
    pub fn validate(&self) -> (r: Result<(), Vec<String>>)
        ensures
            match r {
                Ok(()) => config_problems(*self).len() == 0,
                Err(e) => texts_of(e@) == config_problems(*self) && e@.len() > 0,
            },
    {
        let mut errors: Vec<String> = Vec::new();
        if self.telegram.token.is_none() {
            errors.push(String::from_str("Telegram token is required"));
        }
        if self.general.downloads_dir.is_none() {
            errors.push(String::from_str("Downloads path is required"));
        }
        if self.rustypaste.url.is_none() {
            errors.push(String::from_str("RustyPaste base URL is required"));
        }
        assert(texts_of(errors@) =~= config_problems(*self));
        if errors.len() > 0 {
            Err(errors)
        } else {
            Ok(())
        }
    }

    /// The engine registry.
    pub fn engines(&self) -> (r: Vec<EngineSettings>)
        ensures
            r@.map_values(|e: EngineSettings| settings_view(e)) == engine_registry(*self),
    {
        let mut r: Vec<EngineSettings> = Vec::new();
        r.push(
            EngineSettings {
                name: String::from_str("saucenao"),
                enabled: is_on(self.saucenao.enabled),
                threshold: self.saucenao.threshold,
                limit: self.saucenao.limit,
            },
        );
        r.push(
            EngineSettings {
                name: String::from_str("TraceMoe"),
                enabled: is_on(self.tracemoe.enabled),
                threshold: self.tracemoe.threshold,
                limit: self.tracemoe.limit,
            },
        );
        r.push(
            EngineSettings {
                name: String::from_str("iqdb"),
                enabled: is_on(self.iqdb.enabled),
                threshold: self.iqdb.threshold,
                limit: self.iqdb.limit,
            },
        );
        assert(r@.map_values(|e: EngineSettings| settings_view(e)) =~= engine_registry(*self));
        r
    }

    /// The provider registry.
    pub fn providers(&self) -> (r: Vec<ProviderSlot>)
        ensures
            r@ == provider_registry(*self),
    {
        let mut r: Vec<ProviderSlot> = Vec::new();
        r.push(ProviderSlot { kind: ProviderKind::Generic, enabled: true });
        r.push(ProviderSlot { kind: ProviderKind::AniList, enabled: is_on(self.anilist.enabled) });
        r.push(ProviderSlot { kind: ProviderKind::MangaDex, enabled: true });
        r.push(ProviderSlot { kind: ProviderKind::TraceMoe, enabled: is_on(self.tracemoe.enabled) });
        r.push(ProviderSlot { kind: ProviderKind::SauceNao, enabled: is_on(self.saucenao.enabled) });
        r.push(ProviderSlot { kind: ProviderKind::Danbooru, enabled: is_on(self.danbooru.enabled) });
        r.push(ProviderSlot { kind: ProviderKind::Gelbooru, enabled: is_on(self.gelbooru.enabled) });
        r.push(
            ProviderSlot { kind: ProviderKind::Safebooru, enabled: is_on(self.safebooru.enabled) },
        );
        assert(r@ =~= provider_registry(*self));
        r
    }
}

} // verus!
