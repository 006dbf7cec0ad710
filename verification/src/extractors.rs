//! The device a request comes from, as its cookie tells.

use vstd::prelude::*;

verus! {

/// The name of the cookie that holds the device identifier.
pub const COOKIE_NAME: &'static str = "ava_device_id";

/// The status of a request that names no device.
pub const BAD_REQUEST: u16 = 400;

/// What a request that names no device is told.
pub const MISSING_COOKIE: &'static str = "cookie `device_id` is missing";

/// The context of a request: the device it comes from.
#[derive(Debug, Clone)]
pub struct AppContext {
    pub device_id: String,
}

impl AppContext {
    /// The context of a request with the given value of the device cookie;
    /// a request without the cookie is refused as a bad request.
    pub fn from_cookie(cookie: Option<String>) -> (r: Result<AppContext, (u16, &'static str)>)
        ensures
            r is Ok <==> cookie is Some,
            r matches Ok(ctx) ==> Some(ctx.device_id) == cookie,
            r matches Err(refusal) ==> refusal.0 == BAD_REQUEST && refusal.1@ == MISSING_COOKIE@,
    {
        match cookie {
            Some(device_id) => Ok(AppContext { device_id }),
            None => Err((BAD_REQUEST, MISSING_COOKIE)),
        }
    }
}

/// `uuid::Uuid::new_v4`, written by its `Display`: a random identifier in
/// hyphenated form, which is 36 characters long whatever was drawn.
#[verifier::external_body]
pub(crate) fn random_identifier() -> (id: String)
    ensures
        id@.len() == 36,
{
    uuid::Uuid::new_v4().to_string()
}

/// The device identifier to hand out with the response: none where the
/// request carries the cookie already, a fresh one where it does not.
pub fn layer_auth(cookie: &Option<String>) -> (issued: Option<String>)
    ensures
        issued is None <==> *cookie is Some,
        issued matches Some(id) ==> id@.len() == 36,
{
    match cookie {
        Some(_) => None,
        None => Some(random_identifier()),
    }
}

} // verus!
