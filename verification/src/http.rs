use vstd::prelude::*;
use crate::model::Error;

verus! {

#[verifier::external_type_specification]
#[verifier::external_body]
pub struct ExResponse(reqwest::blocking::Response);

/// Relies on reqwest::blocking::get: a GET request against the URL,
/// None when no connection could be established or the URL is invalid.
/// What comes back depends on the network, so nothing is assumed of it.
/// The blocking client panics when called from inside an async
/// runtime; this crate and everything around it run synchronously, so
/// no admitted call panics.
#[verifier::external_body]
fn http_get(url: &str) -> (r: Option<reqwest::blocking::Response>) {
    reqwest::blocking::get(url).ok()
}

/// Relies on reqwest::blocking::Response::text: the response body as
/// text, None when it could not be read or decoded.
#[verifier::external_body]
fn response_text(response: reqwest::blocking::Response) -> (r: Option<String>) {
    response.text().ok()
}

/// Fetches the body of `url` as text. Whatever the network does, a
/// failure is one of the two fetch errors and names the URL asked for:
/// a connection failure, or a body that could not be read as text.
pub fn fetch_text(url: &str) -> (r: Result<String, Error>)
    ensures
        r matches Err(e) ==> ((e matches Error::Network { url: u } && u@ == url@) || (
        e matches Error::Response { url: u } && u@ == url@)),
{
    let response = match http_get(url) {
        Some(response) => response,
        None => {
            return Err(Error::Network { url: url.to_owned() });
        },
    };
    match response_text(response) {
        Some(text) => Ok(text),
        None => Err(Error::Response { url: url.to_owned() }),
    }
}

} // verus!
