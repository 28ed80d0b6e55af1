//! Tunnel fetcher: reads the tunneling service's API response and extracts
//! the first tunnel's public URL. The HTTP request itself happens outside the
//! library; this module interprets the status code and the response body.

use vstd::prelude::*;

verus! {

/// Why a fetch attempt yields no URL.
#[derive(Debug, Clone, Copy, PartialEq, Eq, Structural)]
pub enum FetchError {
    /// The request failed before any response arrived.
    Transport,
    /// The response carried a non-success HTTP status.
    Status(u16),
    /// The response body is not well-formed JSON.
    Parse,
    /// The response holds no first tunnel with a `public_url` string.
    MissingField,
}

/// What the monitor reads out of a response body: either the body is not
/// JSON, or the `public_url` string of each entry of its `tunnels` array,
/// entry by entry, with a missing string recorded as absent and a missing or
/// non-array `tunnels` field read as an empty array.
pub enum TunnelsModel {
    Malformed,
    Doc { urls: Seq<Option<Seq<char>>> },
}

/// The decoded form of a response body, holding plain values only.
pub enum TunnelsDoc {
    Malformed,
    Doc { urls: Vec<Option<String>> },
}

impl View for TunnelsDoc {
    type V = TunnelsModel;

    open spec fn view(&self) -> TunnelsModel {
        match self {
            TunnelsDoc::Malformed => TunnelsModel::Malformed,
            TunnelsDoc::Doc { urls } => TunnelsModel::Doc { urls: urls.deep_view() },
        }
    }
}

/// How a response body decodes; a function of the body text alone.
pub uninterp spec fn tunnels_of(body: Seq<char>) -> TunnelsModel;

/// Relies on serde_json: `from_str::<Value>` accepts exactly well-formed JSON
/// text, and `Value::get`, `Value::as_array` and `Value::as_str` read the
/// `tunnels` array and each entry's `public_url` field. The outcome depends
/// on the body text alone; it is named `tunnels_of`.
#[verifier::external_body]
fn decode_tunnels(body: &str) -> (r: TunnelsDoc)
    ensures
        r@ == tunnels_of(body@),
{
    let root: serde_json::Value = match serde_json::from_str(body) {
        Ok(v) => v,
        Err(_) => return TunnelsDoc::Malformed,
    };
    let urls: Vec<Option<String>> = match root.get("tunnels").and_then(serde_json::Value::as_array)
    {
        None => Vec::new(),
        Some(entries) => entries.iter().map(
            |e| e.get("public_url").and_then(serde_json::Value::as_str).map(str::to_string),
        ).collect(),
    };
    TunnelsDoc::Doc { urls }
}

/// What extraction yields on a decoded body: the first tunnel's URL verbatim,
/// a missing-field error when there is no first tunnel or it has no URL
/// string, and a parse error on a body that is not JSON.
pub open spec fn extract_result(m: TunnelsModel) -> Result<Seq<char>, FetchError> {
    match m {
        TunnelsModel::Malformed => Err(FetchError::Parse),
        TunnelsModel::Doc { urls } => {
            if urls.len() == 0 {
                Err(FetchError::MissingField)
            } else {
                match urls[0] {
                    Some(u) => Ok(u),
                    None => Err(FetchError::MissingField),
                }
            }
        },
    }
}

/// Extracts the first tunnel's public URL from a decoded response body.
pub fn extract_public_url(doc: &TunnelsDoc) -> (r: Result<String, FetchError>)
    ensures
        match r {
            Ok(u) => extract_result(doc@) == Ok::<Seq<char>, FetchError>(u@),
            Err(e) => extract_result(doc@) == Err::<Seq<char>, FetchError>(e),
        },
{
    match doc {
        TunnelsDoc::Malformed => Err(FetchError::Parse),
        TunnelsDoc::Doc { urls } => {
            if urls.len() == 0 {
                Err(FetchError::MissingField)
            } else {
                match &urls[0] {
                    Some(u) => Ok(u.clone()),
                    None => Err(FetchError::MissingField),
                }
            }
        },
    }
}

/// Whether an HTTP status code counts as success.
pub open spec fn is_success_status(status: u16) -> bool {
    200 <= status < 300
}

/// What a completed fetch yields from the response's status and body.
pub open spec fn fetch_result(status: u16, body: Seq<char>) -> Result<Seq<char>, FetchError> {
    if !is_success_status(status) {
        Err(FetchError::Status(status))
    } else {
        extract_result(tunnels_of(body))
    }
}

/// The compute part of a fetch: interprets the response's HTTP status and
/// body, returning the first tunnel's public URL or the error that the
/// response forces.
pub fn fetch_from_response(status: u16, body: &str) -> (r: Result<String, FetchError>)
    ensures
        match r {
            Ok(u) => fetch_result(status, body@) == Ok::<Seq<char>, FetchError>(u@),
            Err(e) => fetch_result(status, body@) == Err::<Seq<char>, FetchError>(e),
        },
{
    if status < 200 || status >= 300 {
        return Err(FetchError::Status(status));
    }
    let doc = decode_tunnels(body);
    extract_public_url(&doc)
}

} // verus!
