//! The payloads that the route handlers produce, computed from the auth
//! gates' outcomes. Serialization to JSON happens outside this crate; here
//! each payload is plain fields with an exact contract.

use vstd::prelude::*;
use vstd::string::StringExecFns;

use crate::auth::{AuthExtension, OptionalAuthUser};

verus! {

/// Payload of the health route: a constant status.
#[derive(Clone, Debug)]
pub struct HealthResponse {
    pub status: &'static str,
}

pub fn health_response() -> (r: HealthResponse)
    ensures
        r.status@ == "ok"@,
{
    HealthResponse { status: "ok" }
}

/// Payload of the current-user route: the authenticated user's fields
/// echoed back.
#[derive(Clone, Debug)]
pub struct MeResponse {
    pub id: String,
    pub name: String,
    pub email: String,
    pub email_verified: bool,
    pub image: Option<String>,
}

pub fn me_response(auth: &AuthExtension) -> (r: MeResponse)
    ensures
        r.id@ == auth.0.id@,
        r.name@ == auth.0.name@,
        r.email@ == auth.0.email@,
        r.email_verified == auth.0.email_verified,
        r.image.deep_view() == auth.0.image.deep_view(),
{
    MeResponse {
        id: auth.0.id.clone(),
        name: auth.0.name.clone(),
        email: auth.0.email.clone(),
        email_verified: auth.0.email_verified,
        image: auth.0.image.clone(),
    }
}

/// Payload of the greeting route: a personalized message for a logged-in
/// requester, a generic one otherwise.
#[derive(Clone, Debug)]
pub struct GreetingResponse {
    pub message: String,
    pub user_name: Option<String>,
    pub is_logged_in: bool,
}

pub fn greeting_response(user: &OptionalAuthUser) -> (r: GreetingResponse)
    ensures
        match user.0 {
            Some(u) => {
                &&& r.message@ == "こんにちは、"@ + u.name@ + "さん！"@
                &&& r.user_name matches Some(n) && n@ == u.name@
                &&& r.is_logged_in
            },
            None => {
                &&& r.message@ == "こんにちは、ゲストさん！"@
                &&& r.user_name is None
                &&& !r.is_logged_in
            },
        },
{
    match &user.0 {
        Some(u) => {
            let mut message = String::from_str("こんにちは、");
            message.append(u.name.as_str());
            message.append("さん！");
            GreetingResponse { message, user_name: Some(u.name.clone()), is_logged_in: true }
        },
        None => GreetingResponse {
            message: String::from_str("こんにちは、ゲストさん！"),
            user_name: None,
            is_logged_in: false,
        },
    }
}

} // verus!
