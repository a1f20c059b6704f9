use vstd::prelude::*;
use vstd::utf8::encode_utf8;

use crate::config::App;

pub mod create_coverart;
pub mod create_song;
pub mod fetch_next_queue_item;
pub mod fetch_song_queue_data;
pub mod get_coverart_queue;
pub mod get_metadata_queue;
pub mod parsing;
pub mod refresh_token;
pub mod service_token;
pub mod update_queued_song;
pub mod wipe_data;

verus! {

#[verifier::external_type_specification]
#[verifier::external_body]
pub struct ExHeaderValue(reqwest::header::HeaderValue);

#[verifier::external_type_specification]
#[verifier::external_body]
pub struct ExInvalidHeaderValue(reqwest::header::InvalidHeaderValue);

#[verifier::external_type_specification]
#[verifier::external_body]
pub struct ExHeaderName(reqwest::header::HeaderName);

/// The text of a header name.
pub uninterp spec fn header_name_text(name: reqwest::header::HeaderName) -> Seq<char>;

/// Gives the standard header name `reqwest::header::AUTHORIZATION` (from the
/// `http` crate), which its source defines as the name `authorization`.
#[verifier::external_body]
pub(crate) fn authorization_header_name() -> (res: reqwest::header::HeaderName)
    ensures
        header_name_text(res) == "authorization"@,
{
    reqwest::header::AUTHORIZATION
}

/// The bytes that a header value holds.
pub uninterp spec fn header_value_bytes(value: reqwest::header::HeaderValue) -> Seq<u8>;

/// A character that may stand in a header value built from text: a tab, or
/// anything from the space upwards but DEL.
pub open spec fn header_char_allowed(c: char) -> bool {
    c == '\t' || (c as u32 >= 32 && c as u32 != 127)
}

/// Text that a header value can be built from.
pub open spec fn header_text_allowed(text: Seq<char>) -> bool {
    forall|i: int| 0 <= i < text.len() ==> #[trigger] header_char_allowed(text[i])
}

/// Calls `HeaderValue::from_str` (the `http` crate, through `reqwest::header`).
/// Its source checks every byte of the text (a tab, or 32 and above but 127)
/// and, where all pass, keeps a copy of the text's bytes. The bytes of a
/// character from U+0080 on are all 128 or above, so the check passes
/// exactly when every character is a tab or at least a space and not DEL.
#[verifier::external_body]
pub(crate) fn header_value_from_str(text: &str) -> (res: Result<
    reqwest::header::HeaderValue,
    reqwest::header::InvalidHeaderValue,
>)
    ensures
        res is Ok <==> header_text_allowed(text@),
        res matches Ok(value) ==> header_value_bytes(value) == encode_utf8(text@),
{
    reqwest::header::HeaderValue::from_str(text)
}

/// Whether a header value can be built from `text`.
pub fn header_text_is_allowed(text: &str) -> (res: bool)
    ensures
        res == header_text_allowed(text@),
{
    header_value_from_str(text).is_ok()
}

/// The value of the `Authorization` header that carries a bearer token.
pub open spec fn bearer_text(token: Seq<char>) -> Seq<char> {
    "Bearer "@ + token
}

/// Whether requests can carry the login of `app`: the bearer text of its
/// token can stand in a header value.
pub open spec fn can_authorize(app: App) -> bool {
    header_text_allowed(bearer_text(app.token.token@))
}

/// The name of the header that carries the bearer token.
pub open spec fn authorization_name() -> Seq<char> {
    "authorization"@
}

/// The header that authorizes a request with the token of `app`:
/// `authorization: Bearer <token>`. A token that cannot stand in a header
/// value is left out by `requires` (the service stops on it).
pub fn auth_header(app: &App) -> (res: (reqwest::header::HeaderName, reqwest::header::HeaderValue))
    requires
        can_authorize(*app),
    ensures
        header_name_text(res.0) == authorization_name(),
        header_value_bytes(res.1) == encode_utf8(bearer_text(app.token.token@)),
{
    let mut bearer = String::from_str("Bearer ");
    bearer.append(app.token.token.as_str());
    match header_value_from_str(bearer.as_str()) {
        Ok(value) => (authorization_header_name(), value),
        Err(_) => {
            assert(false);
            unreached()
        },
    }
}

/// Whether the token of `app` can stand in the `Authorization` header.
pub fn authorizes(app: &App) -> (res: bool)
    ensures
        res == can_authorize(*app),
{
    let mut bearer = String::from_str("Bearer ");
    bearer.append(app.token.token.as_str());
    header_text_is_allowed(bearer.as_str())
}

} // verus!
