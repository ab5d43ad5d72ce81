//! Exchanging the one-time code for durable app credentials.
//!
//! The library builds the conversion URL and decides the outcome of the one
//! outbound call; sending the request is I/O and stays outside. A non-success
//! response is a terminal failure carrying the response body as diagnostic
//! text; a success response's body is handed on to be deserialized. The code
//! is single-use, so nothing is retried.

use vstd::prelude::*;

use crate::text::{chars_string, push_str_chars, str_chars};
use crate::urls::{join_url, spec_url_join};

verus! {

/// The conversion path for a one-time code.
pub open spec fn spec_conversion_path(code: Seq<char>) -> Seq<char> {
    "app-manifests/"@ + code + "/conversions"@
}

/// A terminal failure of the exchange call, carrying the response body as
/// diagnostic text.
pub struct ExchangeFailure {
    /// The body of the non-success response.
    diagnostic: String,
}

/// Mathematical view of [`ExchangeFailure`].
pub struct ExchangeFailureView {
    /// The body of the non-success response.
    pub diagnostic: Seq<char>,
}

impl View for ExchangeFailure {
    type V = ExchangeFailureView;

    closed spec fn view(&self) -> ExchangeFailureView {
        ExchangeFailureView { diagnostic: self.diagnostic@ }
    }
}

impl ExchangeFailure {
    /// The body of the non-success response.
    pub fn diagnostic(&self) -> (r: &String)
        ensures
            r@ == self@.diagnostic,
    {
        &self.diagnostic
    }

    /// The failure, spelled out: the failing stage, then the remote
    /// diagnostic.
    pub fn message(&self) -> (r: String)
        ensures
            r@ == "failed to convert temporary code: "@ + self@.diagnostic,
    {
        let mut out: Vec<char> = Vec::new();
        push_str_chars(&mut out, "failed to convert temporary code: ");
        let body = str_chars(self.diagnostic.as_str());
        crate::text::push_chars(&mut out, &body);
        chars_string(&out)
    }
}

/// The relative path of the one outbound conversion call for `code`.
pub fn conversion_path(code: &str) -> (r: String)
    ensures
        r@ == spec_conversion_path(code@),
{
    let mut out: Vec<char> = Vec::new();
    push_str_chars(&mut out, "app-manifests/");
    push_str_chars(&mut out, code);
    push_str_chars(&mut out, "/conversions");
    chars_string(&out)
}

/// The full URL of the conversion call: the conversion path for `code`,
/// joined against the remote endpoint. Nothing when the endpoint is not a
/// usable base URL.
pub fn conversion_url(endpoint: &str, code: &str) -> (r: Option<String>)
    ensures
        match r {
            Some(u) => spec_url_join(endpoint@, spec_conversion_path(code@)) == Some(u@),
            None => spec_url_join(endpoint@, spec_conversion_path(code@)) is None,
        },
{
    let path = conversion_path(code);
    join_url(endpoint, path.as_str())
}

/// Decide the outcome of the exchange call.
///
/// A success response hands its body on, to be deserialized into the
/// credentials; any non-success response is a terminal failure carrying the
/// body as diagnostic text.
pub fn check_exchange_reply(success: bool, body: String) -> (r: Result<String, ExchangeFailure>)
    ensures
        success <==> r is Ok,
        r matches Ok(b) ==> b@ == body@,
        r matches Err(e) ==> e@.diagnostic == body@,
{
    if success {
        Ok(body)
    } else {
        Err(ExchangeFailure { diagnostic: body })
    }
}

} // verus!
