//! Per-application detail records: the plain-value model of one detail
//! response, minimum-age normalization, and the decode rules.

use vstd::prelude::*;
use crate::errors::Failure;
use crate::text::parse_u64;
use crate::text::spec_parse_u64;

verus! {

/// A detailed record for one Steam application. Every field but the name is
/// optional: the upstream source omits fields arbitrarily per application.
#[derive(Debug, PartialEq)]
pub struct SteamGame {
    pub name: String,
    pub appid: Option<u64>,
    pub required_age: Option<u64>,
    pub is_free: Option<bool>,
    pub detailed_description: Option<String>,
    pub about_the_game: Option<String>,
    pub short_description: Option<String>,
    pub website: Option<String>,
    pub metacritic: Option<Metacritic>,
}

/// A Metacritic rating: an optional score and an optional review URL.
#[derive(Debug, PartialEq)]
pub struct Metacritic {
    pub score: Option<u8>,
    pub url: Option<String>,
}

fn clone_opt_string(o: &Option<String>) -> (r: Option<String>)
    ensures
        r == *o,
{
    match o {
        Option::Some(s) => Option::Some(s.clone()),
        Option::None => Option::None,
    }
}

impl Clone for Metacritic {
    fn clone(&self) -> (r: Self)
        ensures
            r == *self,
    {
        Metacritic { score: self.score, url: clone_opt_string(&self.url) }
    }
}

impl Clone for SteamGame {
    fn clone(&self) -> (r: Self)
        ensures
            r == *self,
    {
        SteamGame {
            name: self.name.clone(),
            appid: self.appid,
            required_age: self.required_age,
            is_free: self.is_free,
            detailed_description: clone_opt_string(&self.detailed_description),
            about_the_game: clone_opt_string(&self.about_the_game),
            short_description: clone_opt_string(&self.short_description),
            website: clone_opt_string(&self.website),
            metacritic: match &self.metacritic {
                Option::Some(m) => Option::Some(m.clone()),
                Option::None => Option::None,
            },
        }
    }
}

/// How one optional field stood in the source document.
#[derive(Clone, Debug, PartialEq)]
pub enum SourceField<T> {
    /// Absent, or present as JSON `null`.
    Missing,
    /// Present with the expected type.
    Given(T),
    /// Present with an unexpected type.
    Bad,
}

/// The minimum-age value as the source carries it: the upstream writes it
/// inconsistently, as a number or as a quoted numeral.
#[derive(Clone, Debug, PartialEq)]
pub enum AgeValue {
    /// Absent, or present as JSON `null`.
    Missing,
    /// A JSON number representable as `u64`.
    Number(u64),
    /// A JSON string, numeric or not.
    Text(String),
    /// Anything else, a number out of range included.
    Malformed,
}

/// The fields of one detail document's `data` object, read as plain values.
#[derive(Clone, Debug, PartialEq)]
pub struct RawMetacritic {
    pub score: SourceField<u64>,
    pub url: SourceField<String>,
}

/// The fields of one detail document's `data` object, read as plain values.
#[derive(Clone, Debug, PartialEq)]
pub struct RawDetail {
    pub name: SourceField<String>,
    pub appid: SourceField<u64>,
    pub required_age: AgeValue,
    pub is_free: SourceField<bool>,
    pub detailed_description: SourceField<String>,
    pub about_the_game: SourceField<String>,
    pub short_description: SourceField<String>,
    pub website: SourceField<String>,
    pub metacritic: SourceField<RawMetacritic>,
}

/// One detail response: the `success` flag under the requested ID's key and,
/// where present, the `data` object.
#[derive(Clone, Debug, PartialEq)]
pub struct DetailPayload {
    pub success: bool,
    pub data: Option<RawDetail>,
}

/// Minimum-age normalization: a number passes through, a quoted numeral is
/// parsed, absent or `null` becomes `None`, and anything else — a
/// non-numeric string included — is a decode failure, never a default.
pub open spec fn spec_normalize_min_age(v: AgeValue) -> Result<Option<u64>, Failure> {
    match v {
        AgeValue::Missing => Ok(None),
        AgeValue::Number(n) => Ok(Some(n)),
        AgeValue::Text(s) => match spec_parse_u64(s@) {
            Some(n) => Ok(Some(n)),
            None => Err(Failure::DecodeFailure),
        },
        AgeValue::Malformed => Err(Failure::DecodeFailure),
    }
}

/// Normalizes the minimum-age source value to an optional unsigned integer;
/// see [`spec_normalize_min_age`].
pub fn normalize_min_age(v: &AgeValue) -> (r: Result<Option<u64>, Failure>)
    ensures
        r == spec_normalize_min_age(*v),
{
    match v {
        AgeValue::Missing => Ok(None),
        AgeValue::Number(n) => Ok(Some(*n)),
        AgeValue::Text(s) => match parse_u64(s.as_str()) {
            Option::Some(n) => Ok(Some(n)),
            Option::None => Err(Failure::DecodeFailure),
        },
        AgeValue::Malformed => Err(Failure::DecodeFailure),
    }
}

/// An optional field decodes to `None` when missing, to its value when
/// given, and fails when present with the wrong type.
pub open spec fn spec_opt_field<T>(f: SourceField<T>) -> Result<Option<T>, Failure> {
    match f {
        SourceField::Missing => Ok(None),
        SourceField::Given(x) => Ok(Some(x)),
        SourceField::Bad => Err(Failure::DecodeFailure),
    }
}

fn opt_field<T>(f: SourceField<T>) -> (r: Result<Option<T>, Failure>)
    ensures
        r == spec_opt_field(f),
{
    match f {
        SourceField::Missing => Ok(None),
        SourceField::Given(x) => Ok(Some(x)),
        SourceField::Bad => Err(Failure::DecodeFailure),
    }
}

/// A Metacritic score must fit the 0–255 range its record allows.
pub open spec fn spec_decode_score(f: SourceField<u64>) -> Result<Option<u8>, Failure> {
    match f {
        SourceField::Missing => Ok(None),
        SourceField::Given(n) => if n <= 255 {
            Ok(Some(n as u8))
        } else {
            Err(Failure::DecodeFailure)
        },
        SourceField::Bad => Err(Failure::DecodeFailure),
    }
}

fn decode_score(f: SourceField<u64>) -> (r: Result<Option<u8>, Failure>)
    ensures
        r == spec_decode_score(f),
{
    match f {
        SourceField::Missing => Ok(None),
        SourceField::Given(n) => if n <= 255 {
            Ok(Some(n as u8))
        } else {
            Err(Failure::DecodeFailure)
        },
        SourceField::Bad => Err(Failure::DecodeFailure),
    }
}

/// A present `metacritic` object decodes field by field; a present value of
/// another type fails.
pub open spec fn spec_decode_metacritic(f: SourceField<RawMetacritic>) -> Result<
    Option<Metacritic>,
    Failure,
> {
    match f {
        SourceField::Missing => Ok(None),
        SourceField::Bad => Err(Failure::DecodeFailure),
        SourceField::Given(m) => match (spec_decode_score(m.score), spec_opt_field(m.url)) {
            (Ok(score), Ok(url)) => Ok(Some(Metacritic { score, url })),
            _ => Err(Failure::DecodeFailure),
        },
    }
}

fn decode_metacritic(f: SourceField<RawMetacritic>) -> (r: Result<Option<Metacritic>, Failure>)
    ensures
        r == spec_decode_metacritic(f),
{
    match f {
        SourceField::Missing => Ok(None),
        SourceField::Bad => Err(Failure::DecodeFailure),
        SourceField::Given(m) => {
            let score = match decode_score(m.score) {
                Ok(s) => s,
                Err(e) => {
                    return Err(e);
                },
            };
            let url = match opt_field(m.url) {
                Ok(u) => u,
                Err(e) => {
                    return Err(e);
                },
            };
            Ok(Some(Metacritic { score, url }))
        },
    }
}

/// What a detail `data` object decodes to: the record, or a decode failure
/// when the name is absent or any present field has the wrong shape.
pub open spec fn spec_decode_data(d: RawDetail) -> Result<SteamGame, Failure> {
    match d.name {
        SourceField::Given(name) => match (
            spec_opt_field(d.appid),
            spec_normalize_min_age(d.required_age),
            spec_opt_field(d.is_free),
            spec_opt_field(d.detailed_description),
            spec_opt_field(d.about_the_game),
            spec_opt_field(d.short_description),
            spec_opt_field(d.website),
            spec_decode_metacritic(d.metacritic),
        ) {
            (
                Ok(appid),
                Ok(required_age),
                Ok(is_free),
                Ok(detailed_description),
                Ok(about_the_game),
                Ok(short_description),
                Ok(website),
                Ok(metacritic),
            ) => Ok(
                SteamGame {
                    name,
                    appid,
                    required_age,
                    is_free,
                    detailed_description,
                    about_the_game,
                    short_description,
                    website,
                    metacritic,
                },
            ),
            _ => Err(Failure::DecodeFailure),
        },
        _ => Err(Failure::DecodeFailure),
    }
}

/// Decodes a detail `data` object; see [`spec_decode_data`].
pub fn decode_data(d: RawDetail) -> (r: Result<SteamGame, Failure>)
    ensures
        r == spec_decode_data(d),
{
    let name = match d.name {
        SourceField::Given(n) => n,
        _ => {
            return Err(Failure::DecodeFailure);
        },
    };
    let appid = match opt_field(d.appid) {
        Ok(x) => x,
        Err(e) => {
            return Err(e);
        },
    };
    let required_age = match normalize_min_age(&d.required_age) {
        Ok(x) => x,
        Err(e) => {
            return Err(e);
        },
    };
    let is_free = match opt_field(d.is_free) {
        Ok(x) => x,
        Err(e) => {
            return Err(e);
        },
    };
    let detailed_description = match opt_field(d.detailed_description) {
        Ok(x) => x,
        Err(e) => {
            return Err(e);
        },
    };
    let about_the_game = match opt_field(d.about_the_game) {
        Ok(x) => x,
        Err(e) => {
            return Err(e);
        },
    };
    let short_description = match opt_field(d.short_description) {
        Ok(x) => x,
        Err(e) => {
            return Err(e);
        },
    };
    let website = match opt_field(d.website) {
        Ok(x) => x,
        Err(e) => {
            return Err(e);
        },
    };
    let metacritic = match decode_metacritic(d.metacritic) {
        Ok(x) => x,
        Err(e) => {
            return Err(e);
        },
    };
    Ok(
        SteamGame {
            name,
            appid,
            required_age,
            is_free,
            detailed_description,
            about_the_game,
            short_description,
            website,
            metacritic,
        },
    )
}

/// Decoding one detail response for `id`: a `success` flag that is not
/// literally `true` is a lookup failure carrying exactly that ID — a record
/// is only ever built from a payload whose flag is true.
pub open spec fn spec_decode_detail(p: DetailPayload, id: u64) -> Result<SteamGame, Failure> {
    if !p.success {
        Err(Failure::LookupFailure(id))
    } else {
        match p.data {
            Option::Some(d) => spec_decode_data(d),
            Option::None => Err(Failure::DecodeFailure),
        }
    }
}

/// Decodes one detail response; see [`spec_decode_detail`]. A false
/// `success` flag yields `LookupFailure` with the requested ID, never a
/// decode error.
pub fn decode_detail(p: DetailPayload, id: u64) -> (r: Result<SteamGame, Failure>)
    ensures
        r == spec_decode_detail(p, id),
        !p.success ==> r == Err::<SteamGame, Failure>(Failure::LookupFailure(id)),
{
    if !p.success {
        return Err(Failure::LookupFailure(id));
    }
    match p.data {
        Option::Some(d) => decode_data(d),
        Option::None => Err(Failure::DecodeFailure),
    }
}

/// The successfully resolved records of a batch, in candidate order; failed
/// candidates are skipped, never the whole batch.
pub open spec fn spec_successes(s: Seq<Result<SteamGame, Failure>>) -> Seq<SteamGame>
    decreases s.len(),
{
    if s.len() == 0 {
        Seq::empty()
    } else {
        let rest = spec_successes(s.drop_last());
        match s.last() {
            Ok(g) => rest.push(g),
            Err(_) => rest,
        }
    }
}

/// A batch never yields more records than it had candidates.
pub proof fn lemma_successes_len(s: Seq<Result<SteamGame, Failure>>)
    ensures
        spec_successes(s).len() <= s.len(),
    decreases s.len(),
{
    if s.len() > 0 {
        lemma_successes_len(s.drop_last());
    }
}

/// Keeps the successfully resolved records of a batch, in order, dropping
/// failed candidates; the batch itself never fails.
pub fn collect_successes(items: &Vec<Result<SteamGame, Failure>>) -> (r: Vec<SteamGame>)
    ensures
        r@ == spec_successes(items@),
{
    let mut out: Vec<SteamGame> = Vec::new();
    let mut i: usize = 0;
    while i < items.len()
        invariant
            i <= items@.len(),
            out@ == spec_successes(items@.take(i as int)),
        decreases items@.len() - i,
    {
        proof {
            assert(items@.take(i + 1).drop_last() =~= items@.take(i as int));
            assert(items@.take(i + 1).last() == items@[i as int]);
        }
        match &items[i] {
            Ok(g) => {
                out.push(g.clone());
            },
            Err(_) => {},
        }
        i += 1;
    }
    proof {
        assert(items@.take(items@.len() as int) =~= items@);
    }
    out
}

} // verus!
