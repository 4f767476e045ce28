use vstd::prelude::*;
use crate::error::StoreError;
use crate::text::{blank, byte_len, require_text, trimmed};
use crate::wiki::lifecycle::required_text_ok;
use crate::wiki::model::require_id;

verus! {

/// Largest public page listing.
pub const MAX_LIST_PAGE_SIZE: u32 = 100;
/// Largest backfill candidate listing.
pub const MAX_BACKFILL_PAGE_SIZE: u32 = 200;

/// A listing fetches one row more than it returns, to learn whether more
/// rows follow.
pub fn public_fetch_limit(limit: u32) -> (result: Result<i64, StoreError>)
    ensures
        1 <= limit <= MAX_LIST_PAGE_SIZE ==> (result matches Ok(n) && n == limit + 1),
        !(1 <= limit <= MAX_LIST_PAGE_SIZE) ==> (result matches Err(e) && e.is_invalid_request()),
{
    if limit == 0 || limit > MAX_LIST_PAGE_SIZE {
        return Err(StoreError::InvalidRequest("limit must be between 1 and 100".to_string()));
    }
    Ok(limit as i64 + 1)
}

/// Validates a backfill listing size and hands back its fetch limit.
pub fn backfill_fetch_limit(limit: u32) -> (result: Result<i64, StoreError>)
    ensures
        1 <= limit <= MAX_BACKFILL_PAGE_SIZE ==> (result matches Ok(n) && n == limit + 1),
        !(1 <= limit <= MAX_BACKFILL_PAGE_SIZE) ==> (result matches Err(e) && e.is_invalid_request()),
{
    if limit == 0 || limit > MAX_BACKFILL_PAGE_SIZE {
        return Err(StoreError::InvalidRequest("limit must be between 1 and 200".to_string()));
    }
    Ok(limit as i64 + 1)
}

/// The first `n` items of a listing, all of them when fewer.
pub open spec fn first_items<T>(items: Seq<T>, n: nat) -> Seq<T> {
    if items.len() <= n {
        items
    } else {
        items.take(n as int)
    }
}

/// Cuts a listing fetched one row long to its page, and says whether more
/// rows follow.
pub fn take_page<T>(items: Vec<T>, page_size: u32) -> (result: (Vec<T>, bool))
    ensures
        result.0@ == first_items(items@, page_size as nat),
        result.1 == (items@.len() > page_size),
{
    let has_more = items.len() > page_size as usize;
    let mut page = items;
    if has_more {
        page.truncate(page_size as usize);
    }
    (page, has_more)
}

/// The keyset a listing continues after: the last item of a full page.
pub fn next_after<T: Copy>(page: &Vec<T>, has_more: bool) -> (result: Option<T>)
    ensures
        result == (if has_more && page@.len() > 0 {
            Some(page@.last())
        } else {
            None::<T>
        }),
{
    if has_more && page.len() > 0 {
        Some(page[page.len() - 1])
    } else {
        None
    }
}

/// The locale a listing filters on: none, or a trimmed locale tag of at most
/// 35 bytes.
pub fn normalize_locale_filter(locale: Option<&str>) -> (result: Result<String, StoreError>)
    ensures
        locale is None ==> (result matches Ok(s) && s@ == Seq::<char>::empty()),
        locale matches Some(l) ==> (if required_text_ok(l@, 35) {
            result matches Ok(s) && s@ == trimmed(l@)
        } else {
            result matches Err(e) && e.is_invalid_request()
        }),
{
    match locale {
        None => Ok(String::new()),
        Some(l) => {
            let t = require_text("locale", l, 35)?;
            Ok(t.to_string())
        },
    }
}

/// The keyset of a public page listing: route and page id.
#[derive(Debug, Clone)]
pub struct WikiPublicPageKeyset {
    pub canonical_route: String,
    pub page_id: u64,
}

/// The keyset a listing starts after: the empty route and zero when none.
pub fn page_keyset(after: Option<&WikiPublicPageKeyset>) -> (result: Result<(String, i64), StoreError>)
    ensures
        after is None ==> (result matches Ok(k) && k.0@ == Seq::<char>::empty() && k.1 == 0),
        after matches Some(a) ==> (if required_text_ok(a.canonical_route@, 2048) && 0 < a.page_id
            <= i64::MAX {
            result matches Ok(k) && k.0@ == trimmed(a.canonical_route@) && k.1 == a.page_id
        } else {
            result matches Err(e) && e.is_invalid_request()
        }),
{
    match after {
        None => Ok((String::new(), 0)),
        Some(a) => {
            let route = require_text("after.canonical_route", a.canonical_route.as_str(), 2048)?;
            let id = require_id("after.page_id", a.page_id)?;
            Ok((route.to_string(), id))
        },
    }
}

/// Valid locales of a public publication: at least one, none empty, none
/// longer than 35 bytes.
pub open spec fn supported_locales_ok(locales: Seq<String>) -> bool {
    locales.len() > 0 && forall|i: int|
        0 <= i < locales.len() ==> #[trigger] locales[i]@.len() > 0 && byte_len(locales[i]@) <= 35
}

/// Checks the supported locales read back from the database.
pub fn validate_supported_locales(locales: &Vec<String>) -> (result: Result<(), StoreError>)
    ensures
        result is Ok <==> supported_locales_ok(locales@),
        result matches Err(e) ==> e.is_internal(),
{
    if locales.len() == 0 {
        return Err(StoreError::Internal("database returned invalid supported locales".to_string()));
    }
    let mut i: usize = 0;
    while i < locales.len()
        invariant
            i <= locales@.len(),
            forall|k: int| 0 <= k < i ==> #[trigger] locales@[k]@.len() > 0 && byte_len(locales@[k]@) <= 35,
        decreases locales.len() - i,
    {
        let l = locales[i].as_str();
        if l.unicode_len() == 0 || l.as_bytes().len() > 35 {
            return Err(StoreError::Internal("database returned invalid supported locales".to_string()));
        }
        i = i + 1;
    }
    Ok(())
}

/// Reads an optional HTTP redirect status back from its integer column.
pub fn redirect_status_from_i32(value: Option<i32>) -> (result: Result<Option<u16>, StoreError>)
    ensures
        value is None ==> result == Ok::<Option<u16>, StoreError>(None),
        value matches Some(v) ==> (if 0 <= v <= 65535 {
            result == Ok::<Option<u16>, StoreError>(Some(v as u16))
        } else {
            result matches Err(e) && e.is_internal()
        }),
{
    match value {
        None => Ok(None),
        Some(v) => {
            if v < 0 || v > 65535 {
                return Err(StoreError::Internal("database returned invalid Wiki redirect status".to_string()));
            }
            Ok(Some(v as u16))
        },
    }
}

/// A public route resolves to at most one projection.
pub fn single_route_match<T>(matches: Vec<T>) -> (result: Result<Option<T>, StoreError>)
    ensures
        matches@.len() > 1 ==> (result matches Err(e) && e.is_conflict()),
        matches@.len() == 1 ==> result == Ok::<Option<T>, StoreError>(Some(matches@[0])),
        matches@.len() == 0 ==> result == Ok::<Option<T>, StoreError>(None),
{
    if matches.len() > 1 {
        return Err(StoreError::Conflict("more than one public Wiki projection owns the requested route".to_string()));
    }
    let mut rest = matches;
    Ok(rest.pop())
}

/// Law: paging never loses or invents rows. A page holds at most the page
/// size, it is a prefix of the fetched rows, and it is short of the fetch
/// only when more rows follow.
pub proof fn paging_keeps_prefix<T>(items: Seq<T>, page_size: nat)
    ensures
        first_items(items, page_size).len() <= page_size || first_items(items, page_size) == items,
        first_items(items, page_size).len() <= items.len(),
        forall|i: int| 0 <= i < first_items(items, page_size).len() ==> first_items(items, page_size)[i]
            == items[i],
        items.len() > page_size ==> first_items(items, page_size).len() == page_size,
{
}

} // verus!
