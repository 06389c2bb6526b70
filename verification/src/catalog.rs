//! The Steam catalog: lightweight ID/name entries, the shape of the app-list
//! response, and the case-sensitive substring search over entry names.

use vstd::prelude::*;
use crate::errors::Failure;
use crate::text::contains_substring;
use crate::text::is_substring_of;
use crate::text::lemma_empty_is_substring;

verus! {

/// A Steam app: one catalog entry, a numeric application ID and a name.
#[derive(Debug, PartialEq, Eq)]
pub struct SteamApp {
    pub appid: u64,
    pub name: String,
}

impl Clone for SteamApp {
    fn clone(&self) -> (r: Self)
        ensures
            r == *self,
    {
        SteamApp { appid: self.appid, name: self.name.clone() }
    }
}

/// One catalog entry as the app-list endpoint spells it.
#[derive(Clone, Debug, Default, PartialEq)]
pub struct App {
    pub appid: u64,
    pub name: String,
}

/// The inner object of the app-list response body.
#[derive(Clone, Debug, Default, PartialEq)]
pub struct Applist {
    pub apps: Vec<App>,
}

/// What the body of the app-list endpoint's response looks like:
/// `{ applist: { apps: [ {appid, name}, ... ] } }`.
#[derive(Clone, Debug, Default, PartialEq)]
pub struct AppListResponse {
    pub applist: Applist,
}

/// Platforms a Steam application can run on.
#[derive(Clone, Copy, Debug, PartialEq, Eq, Structural)]
pub enum Platforms {
    Windows,
    MacOS,
    Linux,
}

/// The IDs of the catalog entries whose name contains `q`, in catalog order,
/// duplicates kept.
pub open spec fn matching_ids(s: Seq<SteamApp>, q: Seq<char>) -> Seq<u64>
    decreases s.len(),
{
    if s.len() == 0 {
        Seq::empty()
    } else {
        let rest = matching_ids(s.drop_last(), q);
        if is_substring_of(q, s.last().name@) {
            rest.push(s.last().appid)
        } else {
            rest
        }
    }
}

/// Selects every catalog entry whose name contains `query` as a literal,
/// case-sensitive substring, and returns the corresponding IDs in catalog
/// order; duplicate names or IDs are returned as often as they occur.
pub fn find_by_name_substring(catalog: &Vec<SteamApp>, query: &str) -> (ids: Vec<u64>)
    ensures
        ids@ == matching_ids(catalog@, query@),
{
    let mut ids: Vec<u64> = Vec::new();
    let mut i: usize = 0;
    while i < catalog.len()
        invariant
            i <= catalog.len(),
            ids@ == matching_ids(catalog@.take(i as int), query@),
        decreases catalog.len() - i,
    {
        if contains_substring(catalog[i].name.as_str(), query) {
            ids.push(catalog[i].appid);
        }
        proof {
            assert(catalog@.take(i + 1).drop_last() =~= catalog@.take(i as int));
            assert(catalog@.take(i + 1).last() == catalog@[i as int]);
        }
        i += 1;
    }
    proof {
        assert(catalog@.take(catalog@.len() as int) =~= catalog@);
    }
    ids
}

/// The empty query selects every catalog entry: the empty string is a
/// substring of every name, so each entry's ID appears, in catalog order.
pub proof fn lemma_empty_query_selects_all(s: Seq<SteamApp>)
    ensures
        matching_ids(s, Seq::<char>::empty()) =~= s.map_values(|a: SteamApp| a.appid),
    decreases s.len(),
{
    if s.len() > 0 {
        lemma_empty_query_selects_all(s.drop_last());
        lemma_empty_is_substring(s.last().name@);
        assert(s.map_values(|a: SteamApp| a.appid) =~= s.drop_last().map_values(
            |a: SteamApp| a.appid,
        ).push(s.last().appid));
    }
}

/// What a sequence of per-entry reads decodes to: the catalog decodes only
/// as a whole, so one unreadable entry fails the whole fetch.
pub open spec fn spec_collect_apps(s: Seq<Option<SteamApp>>) -> Result<Seq<SteamApp>, Failure>
    decreases s.len(),
{
    if s.len() == 0 {
        Ok(Seq::empty())
    } else {
        match (spec_collect_apps(s.drop_last()), s.last()) {
            (Ok(apps), Option::Some(a)) => Ok(apps.push(a)),
            _ => Err(Failure::DecodeFailure),
        }
    }
}

/// [`spec_collect_apps`], with the entries of an `Ok` result seen abstractly.
pub open spec fn view_collected(r: Result<Vec<SteamApp>, Failure>) -> Result<
    Seq<SteamApp>,
    Failure,
> {
    match r {
        Ok(v) => Ok(v@),
        Err(f) => Err(f),
    }
}

/// A catalog that fails to collect fails with a decode failure and with
/// nothing else.
pub proof fn lemma_collect_apps_err(s: Seq<Option<SteamApp>>)
    ensures
        spec_collect_apps(s) is Err ==> spec_collect_apps(s) == Err::<Seq<SteamApp>, Failure>(
            Failure::DecodeFailure,
        ),
    decreases s.len(),
{
    if s.len() > 0 {
        lemma_collect_apps_err(s.drop_last());
    }
}

proof fn lemma_collect_apps_none(s: Seq<Option<SteamApp>>, i: int)
    requires
        0 <= i < s.len(),
        s[i] is None,
    ensures
        spec_collect_apps(s) == Err::<Seq<SteamApp>, Failure>(Failure::DecodeFailure),
    decreases s.len(),
{
    if i < s.len() - 1 {
        assert(s.drop_last()[i] == s[i]);
        lemma_collect_apps_none(s.drop_last(), i);
    }
}

/// Keeps every entry of a fully readable catalog, in order, and fails the
/// whole batch as soon as any one entry could not be read.
pub fn collect_apps(items: &Vec<Option<SteamApp>>) -> (r: Result<Vec<SteamApp>, Failure>)
    ensures
        view_collected(r) == spec_collect_apps(items@),
{
    let mut out: Vec<SteamApp> = Vec::new();
    let mut i: usize = 0;
    while i < items.len()
        invariant
            i <= items@.len(),
            spec_collect_apps(items@.take(i as int)) == Ok::<Seq<SteamApp>, Failure>(out@),
        decreases items@.len() - i,
    {
        proof {
            assert(items@.take(i + 1).drop_last() =~= items@.take(i as int));
            assert(items@.take(i + 1).last() == items@[i as int]);
        }
        match &items[i] {
            Option::Some(a) => {
                out.push(a.clone());
            },
            Option::None => {
                proof {
                    lemma_collect_apps_none(items@, i as int);
                }
                return Err(Failure::DecodeFailure);
            },
        }
        i += 1;
    }
    proof {
        assert(items@.take(items@.len() as int) =~= items@);
    }
    Ok(out)
}

} // verus!
