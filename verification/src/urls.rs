use vstd::prelude::*;
use crate::text::{chars_to_string, push_chars, str_chars};

verus! {

/// The fixed endpoint of the new-arrivals catalog.
pub open spec fn spec_new_arrivals_url() -> Seq<char> {
    "https://www.nhk.or.jp/radio-api/app/v1/web/ondemand/corners/new_arrivals"@
}

/// The series endpoint for one corner: the fixed prefix with the two
/// site ids filled into the query parameters.
pub open spec fn spec_series_url(series_site_id: Seq<char>, corner_site_id: Seq<char>) -> Seq<char> {
    "https://www.nhk.or.jp/radio-api/app/v1/web/ondemand/series?site_id="@
        + series_site_id + "&corner_site_id="@ + corner_site_id
}

/// The URL of the new-arrivals catalog.
pub fn new_arrivals_url() -> (r: String)
    ensures
        r@ == spec_new_arrivals_url(),
{
    "https://www.nhk.or.jp/radio-api/app/v1/web/ondemand/corners/new_arrivals".to_owned()
}

/// Builds the series endpoint URL for the corner with the given site ids.
pub fn series_url(series_site_id: &str, corner_site_id: &str) -> (r: String)
    ensures
        r@ == spec_series_url(series_site_id@, corner_site_id@),
{
    let prefix = str_chars("https://www.nhk.or.jp/radio-api/app/v1/web/ondemand/series?site_id=");
    let mid = str_chars("&corner_site_id=");
    let a = str_chars(series_site_id);
    let b = str_chars(corner_site_id);
    let mut out: Vec<char> = Vec::new();
    push_chars(&mut out, &prefix);
    push_chars(&mut out, &a);
    push_chars(&mut out, &mid);
    push_chars(&mut out, &b);
    assert(out@ =~= spec_series_url(series_site_id@, corner_site_id@));
    chars_to_string(&out)
}

} // verus!
