use crate::requester::{CredentialView, Requester, RequesterView};
use crate::text::{decimal, decimal_text};
use vstd::prelude::*;
use vstd::string::*;
use vstd::utf8::encode_utf8;

verus! {

/// The headers of a republished JSON document `json`.
pub open spec fn publish_headers(json: Seq<char>) -> Seq<(Seq<char>, Seq<char>)> {
    seq![
        ("Content-Type"@, "application/json"@),
        ("User-Agent"@, "Rust Program"@),
        ("Accept"@, "application/json"@),
        ("Content-Length"@, decimal(encode_utf8(json).len())),
    ]
}

/// The POST that republishes the JSON document `json` to `api_url`, without
/// credential.
pub fn publish_request(api_url: String, json: String) -> (r: Requester)
    ensures
        r@ == (RequesterView {
            url: api_url@,
            data: Some(json@),
            headers: publish_headers(json@),
            credential: CredentialView::Anonymous,
        }),
{
    let length = decimal_text(json.as_str().as_bytes().len());
    let mut req = Requester::new(api_url);
    req.set_data(json);
    req.add_header("Content-Type", "application/json");
    req.add_header("User-Agent", "Rust Program");
    req.add_header("Accept", "application/json");
    req.add_header("Content-Length", length.as_str());
    assert(req@.headers =~= publish_headers(req@.data.unwrap()));
    req
}

} // verus!
