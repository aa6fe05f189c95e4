use vstd::prelude::*;
use crate::merge::fill;
use crate::search_hit::{get_meta, lookup, MetaValue, SearchHit};
use crate::text::{
    all_digits, chars_of, decimal_value, int_text, parse_decimal, str_eq, suffix_from,
    thousandths_text,
};

verus! {

/// The metadata providers, in the order in which they are consulted.
#[derive(Debug, Clone, Copy, PartialEq, Eq, Structural)]
pub enum ProviderKind {
    Generic,
    AniList,
    MangaDex,
    TraceMoe,
    SauceNao,
    Danbooru,
    Gelbooru,
    Safebooru,
}

pub open spec fn provider_name(k: ProviderKind) -> Seq<char> {
    match k {
        ProviderKind::Generic => "Generic"@,
        ProviderKind::AniList => "AniList"@,
        ProviderKind::MangaDex => "MangaDex"@,
        ProviderKind::TraceMoe => "TraceMoe"@,
        ProviderKind::SauceNao => "saucenao"@,
        ProviderKind::Danbooru => "danbooru"@,
        ProviderKind::Gelbooru => "gelbooru"@,
        ProviderKind::Safebooru => "safebooru"@,
    }
}

/// Lower numbers fill gaps first; see the merge.
pub open spec fn provider_priority(k: ProviderKind) -> u8 {
    match k {
        ProviderKind::Generic => 0,
        ProviderKind::AniList => 10,
        ProviderKind::MangaDex => 10,
        ProviderKind::TraceMoe => 1,
        ProviderKind::SauceNao => 1,
        ProviderKind::Danbooru => 10,
        ProviderKind::Gelbooru => 5,
        ProviderKind::Safebooru => 5,
    }
}

/// The text of a metadata value that is text.
pub open spec fn text_value(v: Option<MetaValue>) -> Option<Seq<char>> {
    match v {
        Some(MetaValue::Text(s)) => Some(s@),
        _ => None,
    }
}

/// A metadata value as the id text of a link: text as it is, numbers in
/// decimal, anything else as the engine wrote it.
pub open spec fn meta_text(v: MetaValue) -> Seq<char> {
    match v {
        MetaValue::Text(s) => s@,
        MetaValue::Integer(n) => int_text(n as int),
        MetaValue::Fraction(t) => thousandths_text(t as int),
        MetaValue::Other(j) => j@,
    }
}

/// A signed 32-bit decimal number, as `str::parse::<i32>` reads it.
pub open spec fn i32_value(s: Seq<char>) -> Option<int> {
    if s.len() > 0 && s[0] == '-' {
        let d = s.drop_first();
        if d.len() > 0 && all_digits(d) && digits_le(d, 2147483648) {
            Some(-(crate::text::digits_value(d) as int))
        } else {
            None
        }
    } else {
        match decimal_value(s, 2147483647) {
            Some(n) => Some(n as int),
            None => None,
        }
    }
}

pub open spec fn digits_le(d: Seq<char>, max: nat) -> bool {
    crate::text::digits_value(d) <= max
}

/// The AniList id that a hit carries.
pub open spec fn anilist_key(md: Seq<(String, MetaValue)>) -> Option<int> {
    match lookup(md, "anilist_id"@) {
        Some(MetaValue::Integer(n)) => if i64::MIN <= n <= i64::MAX {
            Some(n as int)
        } else {
            None
        },
        Some(MetaValue::Text(s)) => i32_value(s@),
        _ => None,
    }
}

/// The post id that a hit carries for an image board: filed under the
/// board's name, or else under the name with `_id` appended.
pub open spec fn board_key(md: Seq<(String, MetaValue)>, name: Seq<char>) -> Option<nat> {
    let v = match lookup(md, name) {
        Some(v) => Some(v),
        None => lookup(md, name + "_id"@),
    };
    match v {
        Some(MetaValue::Integer(n)) => if 0 <= n <= u32::MAX {
            Some(n as nat)
        } else {
            None
        },
        Some(MetaValue::Text(s)) => decimal_value(s@, u32::MAX as nat),
        _ => None,
    }
}

/// Whether provider `k` has something to say about `hit`.
pub open spec fn can_enrich_hit(k: ProviderKind, hit: SearchHit) -> bool {
    match k {
        ProviderKind::Generic => hit.metadata@.len() > 0 || hit.thumbnail is Some,
        ProviderKind::AniList => anilist_key(hit.metadata@) is Some,
        ProviderKind::MangaDex => lookup(hit.metadata@, "mangadex"@) is Some || lookup(
            hit.metadata@,
            "mangadex-chapter"@,
        ) is Some,
        ProviderKind::TraceMoe => hit.engine@ == "TraceMoe"@,
        ProviderKind::SauceNao => hit.engine@ == "saucenao"@,
        ProviderKind::Danbooru => board_key(hit.metadata@, "danbooru"@) is Some,
        ProviderKind::Gelbooru => board_key(hit.metadata@, "gelbooru"@) is Some,
        ProviderKind::Safebooru => board_key(hit.metadata@, "safebooru"@) is Some,
    }
}

/// Reads a signed 32-bit decimal number.
pub fn parse_i32(s: &str) -> (r: Option<i64>)
    ensures
        match r {
            Some(n) => i32_value(s@) == Some(n as int),
            None => i32_value(s@) is None,
        },
{
    let v = chars_of(s);
    if v.len() > 0 && v[0] == '-' {
        let rest = suffix_from(&v, 1);
        assert(rest@ =~= s@.drop_first());
        if rest.len() > 0 && rest[0] == '+' {
            assert(!all_digits(rest@));
            return None;
        }
        let text = crate::text::string_of(&rest);
        match parse_decimal(text.as_str(), 2147483648) {
            Some(n) => {
                assert(crate::text::unsigned_digits(rest@) =~= rest@);
                Some(-(n as i64))
            },
            None => {
                assert(crate::text::unsigned_digits(rest@) =~= rest@);
                None
            },
        }
    } else {
        match parse_decimal(s, 2147483647) {
            Some(n) => Some(n as i64),
            None => None,
        }
    }
}

/// The AniList id that a hit carries.
pub fn anilist_id(hit: &SearchHit) -> (r: Option<i64>)
    ensures
        match r {
            Some(n) => anilist_key(hit.metadata@) == Some(n as int),
            None => anilist_key(hit.metadata@) is None,
        },
{
    match get_meta(&hit.metadata, "anilist_id") {
        Some(MetaValue::Integer(n)) => {
            if i64::MIN as i128 <= *n && *n <= i64::MAX as i128 {
                Some(*n as i64)
            } else {
                None
            }
        },
        Some(MetaValue::Text(s)) => parse_i32(s.as_str()),
        _ => None,
    }
}

/// The post id that a hit carries for the image board `name`.
pub fn board_post_id(hit: &SearchHit, name: &str) -> (r: Option<u32>)
    ensures
        match r {
            Some(n) => board_key(hit.metadata@, name@) == Some(n as nat),
            None => board_key(hit.metadata@, name@) is None,
        },
{
    let mut alt = String::from_str(name);
    alt.append("_id");
    let v = match get_meta(&hit.metadata, name) {
        Some(v) => Some(v),
        None => get_meta(&hit.metadata, alt.as_str()),
    };
    match v {
        Some(MetaValue::Integer(n)) => {
            if 0 <= *n && *n <= u32::MAX as i128 {
                Some(*n as u32)
            } else {
                None
            }
        },
        Some(MetaValue::Text(s)) => match parse_decimal(s.as_str(), u32::MAX as u64) {
            Some(n) => Some(n as u32),
            None => None,
        },
        _ => None,
    }
}

fn has_meta(hit: &SearchHit, key: &str) -> (r: bool)
    ensures
        r == (lookup(hit.metadata@, key@) is Some),
{
    get_meta(&hit.metadata, key).is_some()
}

impl ProviderKind {
    pub fn name(&self) -> (r: String)
        ensures
            r@ == provider_name(*self),
    {
        match self {
            ProviderKind::Generic => String::from_str("Generic"),
            ProviderKind::AniList => String::from_str("AniList"),
            ProviderKind::MangaDex => String::from_str("MangaDex"),
            ProviderKind::TraceMoe => String::from_str("TraceMoe"),
            ProviderKind::SauceNao => String::from_str("saucenao"),
            ProviderKind::Danbooru => String::from_str("danbooru"),
            ProviderKind::Gelbooru => String::from_str("gelbooru"),
            ProviderKind::Safebooru => String::from_str("safebooru"),
        }
    }

    pub fn priority(&self) -> (r: u8)
        ensures
            r == provider_priority(*self),
    {
        match self {
            ProviderKind::Generic => 0,
            ProviderKind::AniList => 10,
            ProviderKind::MangaDex => 10,
            ProviderKind::TraceMoe => 1,
            ProviderKind::SauceNao => 1,
            ProviderKind::Danbooru => 10,
            ProviderKind::Gelbooru => 5,
            ProviderKind::Safebooru => 5,
        }
    }

    /// Whether this provider has something to say about `hit`. Decided from
    /// the hit alone, with no lookup.
    pub fn can_enrich(&self, hit: &SearchHit) -> (r: bool)
        ensures
            r == can_enrich_hit(*self, *hit),
    {
        match self {
            ProviderKind::Generic => hit.metadata.len() > 0 || hit.thumbnail.is_some(),
            ProviderKind::AniList => anilist_id(hit).is_some(),
            ProviderKind::MangaDex => has_meta(hit, "mangadex") || has_meta(hit, "mangadex-chapter"),
            ProviderKind::TraceMoe => str_eq(hit.engine.as_str(), "TraceMoe"),
            ProviderKind::SauceNao => str_eq(hit.engine.as_str(), "saucenao"),
            ProviderKind::Danbooru => board_post_id(hit, "danbooru").is_some(),
            ProviderKind::Gelbooru => board_post_id(hit, "gelbooru").is_some(),
            ProviderKind::Safebooru => board_post_id(hit, "safebooru").is_some(),
        }
    }
}

} // verus!
