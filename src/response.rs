//! Decoding the listing endpoint's response into a typed result or a typed
//! error.
use vstd::prelude::*;

verus! {

/// The models of one listing, in the order the server sent them. Each model
/// is kept as the compact JSON text of the server's object: the client does
/// not interpret it.
pub struct ModelListResponse {
    pub models: Vec<String>,
}

/// Why a call failed.
pub enum ClientError {
    /// The request never completed (connection, DNS, TLS, timeout).
    Transport { cause: String },
    /// The server answered with a status outside `200..=299`; `body` is what it
    /// sent, verbatim.
    Api { status: u16, body: String },
    /// A success status with a body that is not the expected JSON; `body` is
    /// what the server sent, verbatim.
    Decode { body: String, cause: String },
}

/// The views of a sequence of strings.
pub open spec fn texts(v: Seq<String>) -> Seq<Seq<char>> {
    v.map_values(|s: String| s@)
}

/// What serde_json makes of `text`: `None` where it is not JSON;
/// `Some(None)` where it is, but holds no array under `key` at the top level;
/// else the compact JSON text of each element of that array, in order.
pub uninterp spec fn json_array_at(text: Seq<char>, key: Seq<char>) -> Option<Option<Seq<Seq<char>>>>;

/// Relies on `serde_json::from_str` into a `serde_json::Value`, then
/// `Value::get` and `Value::as_array` to find the array member `key` of the
/// top-level object, and `Value`'s `Display` for the compact text of each
/// element. On a parse failure the parser's message comes back.
#[verifier::external_body]
fn json_array_member(text: &str, key: &str) -> (r: Result<Option<Vec<String>>, String>)
    ensures
        match r {
            Ok(Some(items)) => json_array_at(text@, key@) == Some(Some(texts(items@))),
            Ok(None) => json_array_at(text@, key@) == Some(None::<Seq<Seq<char>>>),
            Err(_) => json_array_at(text@, key@) is None,
        },
{
    match serde_json::from_str::<serde_json::Value>(text) {
        Ok(v) => Ok(v.get(key).and_then(serde_json::Value::as_array).map(
            |items| items.iter().map(ToString::to_string).collect(),
        )),
        Err(e) => Err(e.to_string()),
    }
}

/// A status in `200..=299`.
pub open spec fn is_success(status: u16) -> bool {
    200 <= status <= 299
}

/// The cause carried by `Decode` when the body is JSON without a `models`
/// array.
pub open spec fn missing_models_cause() -> Seq<char> {
    "the response has no models array"@
}

/// Builds the outcome of a listing call from its status, its body, and what
/// the body's `models` member turned out to be (`Err` with the parser's
/// message where the body is not JSON, `Ok(None)` where it holds no such
/// array). Any status outside `200..=299` gives `Api`, whatever the body.
pub fn list_response_from_parts(
    status: u16,
    body: &str,
    models: Result<Option<Vec<String>>, String>,
) -> (r: Result<ModelListResponse, ClientError>)
    ensures
        !is_success(status) ==> (r matches Err(ClientError::Api { status: s, body: b })
            && s == status && b@ == body@),
        is_success(status) ==> match models {
            Ok(Some(m)) => r matches Ok(resp) && resp.models@ == m@,
            Ok(None) => r matches Err(ClientError::Decode { body: b, cause: c })
                && b@ == body@ && c@ == missing_models_cause(),
            Err(e) => r matches Err(ClientError::Decode { body: b, cause: c })
                && b@ == body@ && c@ == e@,
        },
{
    if status < 200 || status > 299 {
        return Err(ClientError::Api { status, body: String::from_str(body) });
    }
    match models {
        Ok(Some(models)) => Ok(ModelListResponse { models }),
        Ok(None) => {
            let cause = String::from_str("the response has no models array");
            proof {
                reveal_strlit("the response has no models array");
            }
            Err(ClientError::Decode { body: String::from_str(body), cause })
        },
        Err(cause) => Err(ClientError::Decode { body: String::from_str(body), cause }),
    }
}

/// Decodes a response of the listing endpoint from its status and body.
/// A success status with a body whose top-level object holds a `models`
/// array gives exactly that array's elements, in order; a success status with
/// any other body gives `Decode`, never a partial list; any other status
/// gives `Api` with that status. The body travels verbatim in either error.
pub fn decode_list_response(status: u16, body: &str) -> (r: Result<ModelListResponse, ClientError>)
    ensures
        !is_success(status) ==> (r matches Err(ClientError::Api { status: s, body: b })
            && s == status && b@ == body@),
        is_success(status) ==> match json_array_at(body@, "models"@) {
            Some(Some(items)) => r matches Ok(resp) && texts(resp.models@) == items,
            _ => r matches Err(ClientError::Decode { body: b, .. }) && b@ == body@,
        },
{
    let models = if status < 200 || status > 299 {
        Ok(None)
    } else {
        json_array_member(body, "models")
    };
    list_response_from_parts(status, body, models)
}

} // verus!
