use vstd::prelude::*;

use crate::api::service_token::response::Response as ServiceTokenResponse;
use crate::api::refresh_token::response::Response as RefreshTokenResponse;
use crate::config::App;
use crate::models::LoginResult;
use crate::request::{Body, BodyView, HttpRequest, Method, Payload, PayloadView, RequestView};

verus! {

/// The request that logs the service in: `POST <auth_uri>/api/v2/service/login`
/// with `{"passphrase"}`, without any login.
pub open spec fn service_login_request(app: App, passphrase: Seq<char>) -> RequestView {
    RequestView {
        method: Method::Post,
        url: app.auth_uri@ + "/api/v2/service/login"@,
        query: Seq::empty(),
        authorization: None,
        body: BodyView::Json(PayloadView::ServiceLogin { passphrase }),
    }
}

/// The request that renews the login of `app`:
/// `POST <auth_uri>/api/v2/token/refresh` with `{"access_token"}` holding the
/// current token, without any `Authorization` header.
pub open spec fn token_refresh_request(app: App) -> RequestView {
    RequestView {
        method: Method::Post,
        url: app.auth_uri@ + "/api/v2/token/refresh"@,
        query: Seq::empty(),
        authorization: None,
        body: BodyView::Json(PayloadView::RefreshToken { access_token: app.token.token@ }),
    }
}

/// The error text when the authentication service answers with no login.
pub open spec fn no_token_message() -> Seq<char> {
    "No token returned"@
}

/// What an answer of the authentication service yields: its first login, the
/// error "No token returned" when it holds none, or the error that came
/// instead of an answer.
pub open spec fn login_outcome(answer: Result<Vec<LoginResult>, String>, res: Result<LoginResult, String>) -> bool {
    match answer {
        Err(e) => res == Err::<LoginResult, String>(e),
        Ok(data) => if data@.len() == 0 {
            res matches Err(e) && e@ == no_token_message()
        } else {
            res == Ok::<LoginResult, String>(data@[0])
        },
    }
}

/// Builds the request that logs the service in with `passphrase`.
pub fn service_login(app: &App, passphrase: &String) -> (res: HttpRequest)
    ensures
        res@ == service_login_request(*app, passphrase@),
{
    let url = crate::request::join_url(&app.auth_uri, "/api/v2/service/login");
    let query = crate::request::no_query();
    let payload = Payload::ServiceLogin { passphrase: passphrase.clone() };
    HttpRequest { method: Method::Post, url, query, authorization: None, body: Body::Json(payload) }
}

/// Builds the request that renews the login of `app`.
pub fn token_refresh(app: &App) -> (res: HttpRequest)
    ensures
        res@ == token_refresh_request(*app),
{
    let url = crate::request::join_url(&app.auth_uri, "/api/v2/token/refresh");
    let query = crate::request::no_query();
    let payload = Payload::RefreshToken { access_token: app.token.token.clone() };
    HttpRequest { method: Method::Post, url, query, authorization: None, body: Body::Json(payload) }
}

fn first_login(answer: Result<Vec<LoginResult>, String>) -> (res: Result<LoginResult, String>)
    ensures
        login_outcome(answer, res),
{
    match answer {
        Err(e) => Err(e),
        Ok(mut data) => {
            if data.len() == 0 {
                Err(String::from_str("No token returned"))
            } else {
                Ok(data.remove(0))
            }
        },
    }
}

/// The login that the answer to a service login yields (its first login), or
/// the error: "No token returned" for an empty answer, or the error that came
/// instead of an answer.
pub fn get_token(answer: Result<ServiceTokenResponse, String>) -> (res: Result<LoginResult, String>)
    ensures
        login_outcome(
            match answer {
                Ok(r) => Ok::<Vec<LoginResult>, String>(r.data),
                Err(e) => Err::<Vec<LoginResult>, String>(e),
            },
            res,
        ),
{
    match answer {
        Ok(r) => first_login(Ok(r.data)),
        Err(e) => first_login(Err(e)),
    }
}

/// The login that the answer to a token refresh yields (its first login), or
/// the error: "No token returned" for an empty answer, or the error that came
/// instead of an answer.
pub fn get_refresh_token(answer: Result<RefreshTokenResponse, String>) -> (res: Result<LoginResult, String>)
    ensures
        login_outcome(
            match answer {
                Ok(r) => Ok::<Vec<LoginResult>, String>(r.data),
                Err(e) => Err::<Vec<LoginResult>, String>(e),
            },
            res,
        ),
{
    match answer {
        Ok(r) => first_login(Ok(r.data)),
        Err(e) => first_login(Err(e)),
    }
}

} // verus!
