//! The JSON boundary: a response body is parsed once, through serde_json,
//! into a document model of plain values, and everything after that —
//! navigation, field reading, decoding — is verified against spec functions
//! of the parsed document, which is itself a named function of the text.

use vstd::prelude::*;
use crate::catalog::collect_apps;
use crate::catalog::lemma_collect_apps_err;
use crate::catalog::spec_collect_apps;
use crate::catalog::view_collected;
use crate::catalog::SteamApp;
use crate::detail::collect_successes;
use crate::detail::decode_detail;
use crate::detail::lemma_successes_len;
use crate::detail::spec_decode_detail;
use crate::detail::spec_successes;
use crate::detail::AgeValue;
use crate::detail::DetailPayload;
use crate::detail::RawDetail;
use crate::detail::RawMetacritic;
use crate::detail::SourceField;
use crate::detail::SteamGame;
use crate::errors::Failure;
use crate::text::spec_numeral;
use crate::text::u64_to_string;

verus! {

/// A parsed JSON document, held as plain values. Numbers keep only what
/// the decode rules read: their `u64` form where they have one.
#[derive(Debug, PartialEq)]
pub enum JsonValue {
    Null,
    Bool(bool),
    /// A number representable as `u64`.
    UInt(u64),
    /// A number with no `u64` form: negative or fractional.
    OtherNumber,
    Text(String),
    Array(Vec<JsonValue>),
    Object(Vec<(String, JsonValue)>),
}

/// What a text parses to as a JSON document, `None` when it is not valid
/// JSON: the parse depends on the text alone.
pub uninterp spec fn json_of(s: Seq<char>) -> Option<JsonValue>;

#[verifier::external_type_specification]
#[verifier::external_body]
pub struct ExValue(serde_json::Value);

/// Relies on serde_json::Value's own variants: each arm moves one variant's
/// fields into the document model, keeping a number's `u64` form where
/// serde_json's `Number::as_u64` gives one.
#[verifier::external_body]
fn value_model(v: serde_json::Value) -> JsonValue {
    match v {
        serde_json::Value::Null => JsonValue::Null,
        serde_json::Value::Bool(b) => JsonValue::Bool(b),
        serde_json::Value::Number(n) => n.as_u64().map_or(JsonValue::OtherNumber, JsonValue::UInt),
        serde_json::Value::String(t) => JsonValue::Text(t),
        serde_json::Value::Array(a) => JsonValue::Array(a.into_iter().map(value_model).collect()),
        serde_json::Value::Object(m) => JsonValue::Object(
            m.into_iter().map(|(k, x)| (k, value_model(x))).collect(),
        ),
    }
}

/// Relies on serde_json::from_str::<Value>: parses text as one JSON
/// document, `None` when the text is not valid JSON. The result depends on
/// the text alone, so the contract names it [`json_of`].
#[verifier::external_body]
fn parse_document(s: &str) -> (r: Option<JsonValue>)
    ensures
        r == json_of(s@),
{
    serde_json::from_str::<serde_json::Value>(s).ok().map(value_model)
}

/// The value under `key` among an object's fields: the first match.
pub open spec fn spec_lookup(fields: Seq<(String, JsonValue)>, key: Seq<char>) -> Option<
    JsonValue,
>
    decreases fields.len(),
{
    if fields.len() == 0 {
        None
    } else if fields[0].0@ == key {
        Some(fields[0].1)
    } else {
        spec_lookup(fields.drop_first(), key)
    }
}

/// The value under `key` when `v` is an object carrying it, `None` on any
/// other value or an absent key.
pub open spec fn spec_get(v: JsonValue, key: Seq<char>) -> Option<JsonValue> {
    match v {
        JsonValue::Object(fields) => spec_lookup(fields@, key),
        _ => None,
    }
}

fn get_field<'a>(v: &'a JsonValue, key: &str) -> (r: Option<&'a JsonValue>)
    ensures
        match r {
            Some(f) => spec_get(*v, key@) == Some(*f),
            None => spec_get(*v, key@) is None,
        },
{
    let fields = match v {
        JsonValue::Object(fields) => fields,
        _ => {
            return None;
        },
    };
    let k: String = key.to_owned();
    let mut i: usize = 0;
    proof {
        assert(fields@.skip(0) =~= fields@);
        assert(spec_get(*v, key@) == spec_lookup(fields@, key@));
    }
    while i < fields.len()
        invariant
            i <= fields@.len(),
            k@ == key@,
            spec_get(*v, key@) == spec_lookup(fields@, key@),
            spec_lookup(fields@, key@) == spec_lookup(fields@.skip(i as int), key@),
        decreases fields@.len() - i,
    {
        proof {
            assert(fields@.skip(i as int)[0] == fields@[i as int]);
            assert(fields@.skip(i as int).drop_first() =~= fields@.skip(i + 1));
        }
        if fields[i].0 == k {
            let r = &fields[i].1;
            proof {
                assert(fields@[i as int].0@ == key@);
                assert(spec_lookup(fields@.skip(i as int), key@) == Some(
                    fields@.skip(i as int)[0].1,
                ));
                assert(spec_get(*v, key@) == Some(fields@[i as int].1));
            }
            return Some(r);
        }
        i += 1;
    }
    proof {
        assert(fields@.skip(i as int) =~= Seq::<(String, JsonValue)>::empty());
    }
    None
}

/// What an optional string-typed field holds: missing when absent or
/// `null`, its text when a string, bad on any other type.
pub open spec fn spec_string_source(o: Option<JsonValue>) -> SourceField<String> {
    match o {
        None => SourceField::Missing,
        Some(JsonValue::Null) => SourceField::Missing,
        Some(JsonValue::Text(s)) => SourceField::Given(s),
        Some(_) => SourceField::Bad,
    }
}

pub open spec fn spec_string_field(d: JsonValue, key: Seq<char>) -> SourceField<String> {
    spec_string_source(spec_get(d, key))
}

fn read_string_field(v: &JsonValue, key: &str) -> (r: SourceField<String>)
    ensures
        r == spec_string_field(*v, key@),
{
    match get_field(v, key) {
        Option::None => SourceField::Missing,
        Option::Some(f) => match f {
            JsonValue::Null => SourceField::Missing,
            JsonValue::Text(s) => SourceField::Given(s.clone()),
            _ => SourceField::Bad,
        },
    }
}

/// What an optional unsigned-number field holds.
pub open spec fn spec_u64_source(o: Option<JsonValue>) -> SourceField<u64> {
    match o {
        None => SourceField::Missing,
        Some(JsonValue::Null) => SourceField::Missing,
        Some(JsonValue::UInt(n)) => SourceField::Given(n),
        Some(_) => SourceField::Bad,
    }
}

pub open spec fn spec_u64_field(d: JsonValue, key: Seq<char>) -> SourceField<u64> {
    spec_u64_source(spec_get(d, key))
}

fn read_u64_field(v: &JsonValue, key: &str) -> (r: SourceField<u64>)
    ensures
        r == spec_u64_field(*v, key@),
{
    match get_field(v, key) {
        Option::None => SourceField::Missing,
        Option::Some(f) => match f {
            JsonValue::Null => SourceField::Missing,
            JsonValue::UInt(n) => SourceField::Given(*n),
            _ => SourceField::Bad,
        },
    }
}

/// What an optional boolean field holds.
pub open spec fn spec_bool_source(o: Option<JsonValue>) -> SourceField<bool> {
    match o {
        None => SourceField::Missing,
        Some(JsonValue::Null) => SourceField::Missing,
        Some(JsonValue::Bool(b)) => SourceField::Given(b),
        Some(_) => SourceField::Bad,
    }
}

pub open spec fn spec_bool_field(d: JsonValue, key: Seq<char>) -> SourceField<bool> {
    spec_bool_source(spec_get(d, key))
}

fn read_bool_field(v: &JsonValue, key: &str) -> (r: SourceField<bool>)
    ensures
        r == spec_bool_field(*v, key@),
{
    match get_field(v, key) {
        Option::None => SourceField::Missing,
        Option::Some(f) => match f {
            JsonValue::Null => SourceField::Missing,
            JsonValue::Bool(b) => SourceField::Given(*b),
            _ => SourceField::Bad,
        },
    }
}

/// How the minimum-age field stands: the upstream writes it as a number or
/// as a quoted numeral, so both shapes are kept for the verified
/// normalization to rule on; a number without a `u64` form is malformed.
pub open spec fn spec_age_source(o: Option<JsonValue>) -> AgeValue {
    match o {
        None => AgeValue::Missing,
        Some(JsonValue::Null) => AgeValue::Missing,
        Some(JsonValue::UInt(n)) => AgeValue::Number(n),
        Some(JsonValue::Text(s)) => AgeValue::Text(s),
        Some(_) => AgeValue::Malformed,
    }
}

pub open spec fn spec_age_field(d: JsonValue, key: Seq<char>) -> AgeValue {
    spec_age_source(spec_get(d, key))
}

fn read_age_field(v: &JsonValue, key: &str) -> (r: AgeValue)
    ensures
        r == spec_age_field(*v, key@),
{
    match get_field(v, key) {
        Option::None => AgeValue::Missing,
        Option::Some(f) => match f {
            JsonValue::Null => AgeValue::Missing,
            JsonValue::UInt(n) => AgeValue::Number(*n),
            JsonValue::Text(s) => AgeValue::Text(s.clone()),
            _ => AgeValue::Malformed,
        },
    }
}

/// How the `metacritic` field stands: a present object is read field by
/// field; a present value of any other type is bad.
pub open spec fn spec_metacritic_field(d: JsonValue, key: Seq<char>) -> SourceField<
    RawMetacritic,
> {
    match spec_get(d, key) {
        None => SourceField::Missing,
        Some(JsonValue::Null) => SourceField::Missing,
        Some(JsonValue::Object(fields)) => SourceField::Given(
            RawMetacritic {
                score: spec_u64_field(JsonValue::Object(fields), "score"@),
                url: spec_string_field(JsonValue::Object(fields), "url"@),
            },
        ),
        Some(_) => SourceField::Bad,
    }
}

fn read_metacritic_field(v: &JsonValue, key: &str) -> (r: SourceField<RawMetacritic>)
    ensures
        r == spec_metacritic_field(*v, key@),
{
    match get_field(v, key) {
        Option::None => SourceField::Missing,
        Option::Some(f) => match f {
            JsonValue::Null => SourceField::Missing,
            JsonValue::Object(_) => SourceField::Given(
                RawMetacritic {
                    score: read_u64_field(f, "score"),
                    url: read_string_field(f, "url"),
                },
            ),
            _ => SourceField::Bad,
        },
    }
}

/// The fields of a detail `data` object, read as plain values; a value
/// that is no object at all reads as all-absent and so fails the decode,
/// since the name is required.
pub open spec fn spec_read_data(d: JsonValue) -> RawDetail {
    RawDetail {
        name: spec_string_field(d, "name"@),
        appid: spec_u64_field(d, "steam_appid"@),
        required_age: spec_age_field(d, "required_age"@),
        is_free: spec_bool_field(d, "is_free"@),
        detailed_description: spec_string_field(d, "detailed_description"@),
        about_the_game: spec_string_field(d, "about_the_game"@),
        short_description: spec_string_field(d, "short_description"@),
        website: spec_string_field(d, "website"@),
        metacritic: spec_metacritic_field(d, "metacritic"@),
    }
}

fn read_data(v: &JsonValue) -> (r: RawDetail)
    ensures
        r == spec_read_data(*v),
{
    RawDetail {
        name: read_string_field(v, "name"),
        appid: read_u64_field(v, "steam_appid"),
        required_age: read_age_field(v, "required_age"),
        is_free: read_bool_field(v, "is_free"),
        detailed_description: read_string_field(v, "detailed_description"),
        about_the_game: read_string_field(v, "about_the_game"),
        short_description: read_string_field(v, "short_description"),
        website: read_string_field(v, "website"),
        metacritic: read_metacritic_field(v, "metacritic"),
    }
}

/// One catalog entry: both the ID and the name must be literally present
/// with their expected types, or the entry is unreadable.
pub open spec fn spec_read_app(v: JsonValue) -> Option<SteamApp> {
    match (spec_get(v, "appid"@), spec_get(v, "name"@)) {
        (Some(JsonValue::UInt(n)), Some(JsonValue::Text(s))) => Some(SteamApp { appid: n, name: s }),
        _ => None,
    }
}

fn read_app(v: &JsonValue) -> (r: Option<SteamApp>)
    ensures
        r == spec_read_app(*v),
{
    let appid = match get_field(v, "appid") {
        Option::Some(JsonValue::UInt(n)) => *n,
        _ => {
            return None;
        },
    };
    let name = match get_field(v, "name") {
        Option::Some(JsonValue::Text(s)) => s.clone(),
        _ => {
            return None;
        },
    };
    Some(SteamApp { appid, name })
}

/// The entry array of a parsed app-list document: present only when
/// `applist` leads to an object whose `apps` is an array.
pub open spec fn spec_catalog_array(doc: JsonValue) -> Option<Seq<JsonValue>> {
    match spec_get(doc, "applist"@) {
        Some(al) => match spec_get(al, "apps"@) {
            Some(JsonValue::Array(items)) => Some(items@),
            _ => None,
        },
        _ => None,
    }
}

/// Each entry of the array, read as a catalog entry or found unreadable.
pub open spec fn spec_entry_reads(items: Seq<JsonValue>) -> Seq<Option<SteamApp>> {
    Seq::new(items.len(), |i: int| spec_read_app(items[i]))
}

/// What the catalog fetch decodes to, as a function of the response text:
/// a decode failure when the text is not JSON, when the `applist`/`apps`
/// shape is absent, or when any entry is unreadable; otherwise every entry,
/// in source order.
pub open spec fn spec_decode_catalog(doc: Option<JsonValue>) -> Result<Seq<SteamApp>, Failure> {
    match doc {
        None => Err(Failure::DecodeFailure),
        Some(v) => match spec_catalog_array(v) {
            None => Err(Failure::DecodeFailure),
            Some(items) => spec_collect_apps(spec_entry_reads(items)),
        },
    }
}

/// Decodes the body of the app-list response into the catalog; the result
/// is exactly what [`spec_decode_catalog`] says of the parsed body, so a
/// malformed body — invalid JSON, a missing `applist` key, one unreadable
/// entry — always fails, and no partial catalog is ever returned.
pub fn decode_catalog_response(body: &str) -> (r: Result<Vec<SteamApp>, Failure>)
    ensures
        view_collected(r) == spec_decode_catalog(json_of(body@)),
        r matches Err(f) ==> f == Failure::DecodeFailure,
{
    let doc = match parse_document(body) {
        Option::Some(v) => v,
        Option::None => {
            return Err(Failure::DecodeFailure);
        },
    };
    let applist = match get_field(&doc, "applist") {
        Option::Some(v) => v,
        Option::None => {
            return Err(Failure::DecodeFailure);
        },
    };
    let arr = match get_field(applist, "apps") {
        Option::Some(apps) => match apps {
            JsonValue::Array(items) => items,
            _ => {
                return Err(Failure::DecodeFailure);
            },
        },
        Option::None => {
            return Err(Failure::DecodeFailure);
        },
    };
    proof {
        assert(spec_catalog_array(doc) == Some(arr@));
    }
    let mut reads: Vec<Option<SteamApp>> = Vec::new();
    let mut i: usize = 0;
    while i < arr.len()
        invariant
            i <= arr@.len(),
            reads@.len() == i,
            forall|k: int| 0 <= k < i ==> reads@[k] == spec_read_app(arr@[k]),
        decreases arr@.len() - i,
    {
        reads.push(read_app(&arr[i]));
        i += 1;
    }
    proof {
        assert(reads@ =~= spec_entry_reads(arr@));
        lemma_collect_apps_err(reads@);
    }
    collect_apps(&reads)
}

/// The payload one detail response carries for `id`, as a function of the
/// parsed document: the entry under the ID's decimal key, a `success` flag
/// that counts only when literally `true`, and the `data` object.
pub open spec fn spec_detail_payload(doc: JsonValue, id: u64) -> DetailPayload {
    match spec_get(doc, spec_numeral(id as int)) {
        None => DetailPayload { success: false, data: None },
        Some(entry) => {
            if spec_get(entry, "success"@) == Some(JsonValue::Bool(true)) {
                DetailPayload {
                    success: true,
                    data: match spec_get(entry, "data"@) {
                        Some(d) => Some(spec_read_data(d)),
                        None => None,
                    },
                }
            } else {
                DetailPayload { success: false, data: None }
            }
        },
    }
}

/// What one detail fetch decodes to, as a function of the response text
/// and the requested ID: an unparseable body is a decode failure scoped to
/// this ID; otherwise the payload under the ID's key decides.
pub open spec fn spec_detail_response(doc: Option<JsonValue>, id: u64) -> Result<
    SteamGame,
    Failure,
> {
    match doc {
        None => Err(Failure::DecodeFailure),
        Some(v) => spec_decode_detail(spec_detail_payload(v, id), id),
    }
}

/// Decodes the body of one detail response for `id`; the result is exactly
/// what [`spec_detail_response`] says of the parsed body, so a `success`
/// flag that is not literally `true` — or an absent key — is a lookup
/// failure carrying exactly `id`, never a decode error.
pub fn decode_detail_response(body: &str, id: u64) -> (r: Result<SteamGame, Failure>)
    ensures
        r == spec_detail_response(json_of(body@), id),
        r matches Err(f) ==> f == Failure::DecodeFailure || f == Failure::LookupFailure(id),
{
    let doc = match parse_document(body) {
        Option::Some(v) => v,
        Option::None => {
            return Err(Failure::DecodeFailure);
        },
    };
    let key = u64_to_string(id);
    let payload: DetailPayload = match get_field(&doc, key.as_str()) {
        Option::None => DetailPayload { success: false, data: Option::None },
        Option::Some(entry) => {
            let success = match get_field(entry, "success") {
                Option::Some(JsonValue::Bool(b)) => *b,
                _ => false,
            };
            if !success {
                DetailPayload { success: false, data: Option::None }
            } else {
                let data = match get_field(entry, "data") {
                    Option::Some(d) => Option::Some(read_data(d)),
                    Option::None => Option::None,
                };
                DetailPayload { success: true, data }
            }
        },
    };
    proof {
        assert(payload == spec_detail_payload(doc, id));
    }
    decode_detail(payload, id)
}

/// The outcome of decoding each fetched response of a batch, in candidate
/// order.
pub open spec fn spec_batch_outcomes(rs: Seq<(u64, String)>) -> Seq<Result<SteamGame, Failure>> {
    Seq::new(rs.len(), |i: int| spec_detail_response(json_of(rs[i].1@), rs[i].0))
}

/// Resolves a fetched batch: decodes each response in candidate order and
/// keeps exactly the successful records — a candidate whose lookup or
/// decode failed is dropped, so the batch never fails outright and may
/// come back empty.
pub fn resolve_details(responses: &Vec<(u64, String)>) -> (r: Vec<SteamGame>)
    ensures
        r@ == spec_successes(spec_batch_outcomes(responses@)),
        r@.len() <= responses@.len(),
{
    let mut outcomes: Vec<Result<SteamGame, Failure>> = Vec::new();
    let mut i: usize = 0;
    while i < responses.len()
        invariant
            i <= responses@.len(),
            outcomes@.len() == i,
            forall|k: int| 0 <= k < i ==> outcomes@[k] == spec_batch_outcomes(responses@)[k],
        decreases responses@.len() - i,
    {
        let id = responses[i].0;
        let outcome = decode_detail_response(responses[i].1.as_str(), id);
        outcomes.push(outcome);
        i += 1;
    }
    proof {
        assert(outcomes@ =~= spec_batch_outcomes(responses@));
        lemma_successes_len(outcomes@);
    }
    collect_successes(&outcomes)
}

} // verus!
