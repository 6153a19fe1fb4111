//! The wire-level values of the request/response schema layer. They pass
//! through the dispatch logic unread.
use vstd::prelude::*;

verus! {

/// A transport-ready description of one HTTP exchange.
#[verifier::external_type_specification]
#[verifier::external_body]
pub struct ExHttpRequest(telegram_bot_raw::HttpRequest);

/// A transport-level reply: the body bytes, if any.
#[verifier::external_type_specification]
#[verifier::external_body]
pub struct ExHttpResponse(telegram_bot_raw::HttpResponse);

/// A failure of the schema layer: serializing a request, or reading a reply
/// (including an error envelope sent by the server).
#[verifier::external_type_specification]
#[verifier::external_body]
pub struct ExRawError(telegram_bot_raw::Error);

} // verus!
