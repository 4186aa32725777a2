//! Which household media account a principal is.
//!
//! The map is a JSON object from principal names to account ids. Whatever is wrong with it, the
//! answer is that nobody has an account: a typo must never turn into a grant.
use vstd::prelude::*;

use crate::json::{fields_view, lemma_field_among, lemma_object_view, parse, parsed, Json, JsonView};
use crate::media::clients::{setting, setting_view};
use crate::text::{opt_str, opt_text, owned, trim, trimmed};

verus! {

/// The variable that holds the map.
pub const ACCOUNT_MAP_ENV: &'static str = "TERMINUS_MEDIA_ACCOUNT_MAP";

/// The variable that names the account which the Plex token speaks for.
pub const TOKEN_ACCOUNT_ENV: &'static str = "PLEX_ACCOUNT_ID";

/// Whether a value is an account id: a string that is not blank.
pub open spec fn is_account(v: JsonView) -> bool {
    match v.text() {
        Some(s) => trimmed(s).len() > 0,
        None => false,
    }
}

/// Whether a value is a map of accounts: an object in which every principal has an account id.
pub open spec fn is_account_map(map: JsonView) -> bool {
    map is Object && forall|principal: Seq<char>|
        (#[trigger] map.field(principal)) matches Some(v) ==> is_account(v)
}

/// The account that a map gives a principal. A map with anything wrong in it, under whichever
/// principal, gives nobody an account.
pub open spec fn account_in(map: JsonView, principal: Seq<char>) -> Option<Seq<char>> {
    if is_account_map(map) {
        match map.text_at(principal) {
            Some(s) => Some(trimmed(s)),
            None => None,
        }
    } else {
        None
    }
}

fn account(v: &Json) -> (r: bool)
    ensures
        r == is_account(v@),
{
    match v.as_str() {
        Some(s) => !trim(s).is_empty(),
        None => false,
    }
}

fn account_map(map: &Json) -> (r: bool)
    ensures
        r == is_account_map(map@),
{
    broadcast use lemma_object_view;

    match map {
        Json::Object(fields) => {
            let ghost view = fields_view(fields@);
            let mut i: usize = 0;
            while i < fields.len()
                invariant
                    i <= fields.len(),
                    *map == Json::Object(*fields),
                    view == fields_view(fields@),
                    map@ == JsonView::Object(view),
                    forall|k: int|
                        #![trigger view[k]]
                        0 <= k < i ==> (map@.field(view[k].0) matches Some(v) ==> is_account(v)),
                decreases fields.len() - i,
            {
                assert(view[i as int].0 == fields@[i as int].0@);
                if let Some(v) = map.get(fields[i].0.as_str()) {
                    if !account(v) {
                        return false;
                    }
                }
                i += 1;
            }
            proof {
                assert forall|principal: Seq<char>| (#[trigger] map@.field(principal)) matches Some(
                    v,
                ) ==> is_account(v) by {
                    if map@.field(principal) is Some {
                        let k = lemma_field_among(view, principal);
                        assert(view[k].0 == principal);
                    }
                }
            }
            true
        },
        _ => false,
    }
}

/// Looks a principal up in a map as [`account_in`] says.
pub fn lookup_in(map: &Json, principal: &str) -> (r: Option<String>)
    ensures
        opt_text(r) == account_in(map@, principal@),
{
    if !account_map(map) {
        return None;
    }
    match map.str_at(principal) {
        Some(s) => Some(owned(trim(s))),
        None => None,
    }
}

/// The account that a map document gives a principal. A document that is missing, blank or no JSON
/// gives none.
pub open spec fn account_of(document: Option<Seq<char>>, principal: Seq<char>) -> Option<Seq<char>> {
    match setting_view(document) {
        Some(text) => match parsed(text) {
            Ok(map) => account_in(map, principal),
            Err(_) => None,
        },
        None => None,
    }
}

/// Looks a principal up in a map document as [`account_of`] says.
pub fn lookup(raw: Option<&str>, principal: &str) -> (r: Option<String>)
    ensures
        opt_text(r) == account_of(opt_str(raw), principal@),
{
    match setting(raw) {
        Some(text) => match parse(text.as_str()) {
            Ok(map) => lookup_in(&map, principal),
            Err(_) => None,
        },
        None => None,
    }
}

/// The account of a principal; `raw` is the value of [`ACCOUNT_MAP_ENV`].
pub fn account_for_principal(raw: Option<&str>, principal: &str) -> (r: Option<String>)
    ensures
        opt_text(r) == account_of(opt_str(raw), principal@),
{
    lookup(raw, principal)
}

/// The account that the Plex token speaks for; `raw` is the value of [`TOKEN_ACCOUNT_ENV`].
pub fn plex_token_account(raw: Option<&str>) -> (r: Option<String>)
    ensures
        opt_text(r) == setting_view(opt_str(raw)),
{
    setting(raw)
}

/// A map with one entry that is no account id gives nobody an account, whoever asks: one mistake
/// takes every grant away.
pub proof fn malformed_maps_give_nobody_an_account(
    map: JsonView,
    mistaken: Seq<char>,
    principal: Seq<char>,
)
    requires
        map.field(mistaken) matches Some(v) && !is_account(v),
    ensures
        account_in(map, principal) is None,
{
}

/// A map that is no object gives nobody an account.
pub proof fn only_objects_give_accounts(map: JsonView, principal: Seq<char>)
    requires
        !(map is Object),
    ensures
        account_in(map, principal) is None,
{
}

/// An account that a map gives is never blank.
pub proof fn accounts_are_not_blank(map: JsonView, principal: Seq<char>)
    requires
        account_in(map, principal) is Some,
    ensures
        account_in(map, principal)->Some_0.len() > 0,
{
    assert(map.field(principal) is Some);
}

/// A principal that the map does not name has no account, and neither has anyone where the map is
/// no object.
pub proof fn unnamed_principals_have_no_account(map: JsonView, principal: Seq<char>)
    requires
        map.field(principal) is None,
    ensures
        account_in(map, principal) is None,
{
}

} // verus!
