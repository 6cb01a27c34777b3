use vstd::prelude::*;
use vstd::string::*;

verus! {

/// The standard base64 text, with padding, of a byte sequence.
pub uninterp spec fn base64_of(b: Seq<u8>) -> Seq<char>;

/// Relies on base64::encode (standard alphabet, padded): the text depends on
/// the bytes alone, four characters for each started group of three bytes.
/// Its buffer size computation panics only past half the address space.
#[verifier::external_body]
fn encode_base64(b: &[u8]) -> (r: String)
    requires
        b@.len() <= usize::MAX / 2,
    ensures
        r@ == base64_of(b@),
        r@.len() == 4 * ((b@.len() + 2) / 3),
{
    base64::encode(b)
}

/// Where the browser is sent after a successful login.
pub open spec fn redirect_target(token: Seq<char>, metadata: Seq<char>) -> Seq<char> {
    "https://poac.pm/api/auth?access_token="@ + token + "&user_metadata="@ + metadata
}

/// The redirect for a login: the raw access token, and the base64 text of the
/// JSON of the account's public fields.
pub fn redirect_url(access_token: &str, user_json: &str) -> (r: String)
    requires
        user_json.spec_bytes().len() <= usize::MAX / 2,
    ensures
        r@ == redirect_target(access_token@, base64_of(user_json.spec_bytes())),
{
    let metadata = encode_base64(user_json.as_bytes());
    let mut url = String::from_str("https://poac.pm/api/auth?access_token=");
    url.append(access_token);
    url.append("&user_metadata=");
    url.append(metadata.as_str());
    url
}

} // verus!
