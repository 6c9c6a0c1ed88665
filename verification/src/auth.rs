//! Authentication against the identity service: the addresses it is
//! reached at, the check of a session's tokens (with a refresh when the
//! identity token no longer holds) and the password sign-in.
//!
//! Each check is a machine: the caller performs the action that a step
//! returns (a session read, an HTTP request) and hands back what came of it
//! as the next event.

use crate::models::{LoginResponse, RefreshPayload, RefreshResponse, UserResponse};
use crate::reply::Reply;
use vstd::prelude::*;

verus! {

/// The identity service's address that confirms an identity token.
pub open spec fn lookup_uri_text(key: Seq<char>) -> Seq<char> {
    "https://identitytoolkit.googleapis.com/v1/accounts:lookup?key="@ + key
}

/// The token service's address that exchanges a refresh token.
pub open spec fn refresh_uri_text(key: Seq<char>) -> Seq<char> {
    "https://securetoken.googleapis.com/v1/token?key="@ + key
}

/// The identity service's address for a password sign-in.
pub open spec fn sign_in_uri_text(key: Seq<char>) -> Seq<char> {
    "https://identitytoolkit.googleapis.com/v1/accounts:signInWithPassword?key="@ + key
}

/// The text that refuses a session.
pub open spec fn auth_failure_text() -> Seq<char> {
    "User unable to be authenticated."@
}

/// `prefix` followed by `key`.
fn with_key(prefix: &str, key: &str) -> (r: String)
    ensures
        r@ == prefix@ + key@,
{
    let mut r: String = prefix.to_owned();
    r.append(key);
    r
}

/// The address that confirms an identity token, for the API key `key`.
pub fn lookup_uri(key: &str) -> (r: String)
    ensures
        r@ == lookup_uri_text(key@),
{
    with_key("https://identitytoolkit.googleapis.com/v1/accounts:lookup?key=", key)
}

/// The address that exchanges a refresh token, for the API key `key`.
pub fn refresh_uri(key: &str) -> (r: String)
    ensures
        r@ == refresh_uri_text(key@),
{
    with_key("https://securetoken.googleapis.com/v1/token?key=", key)
}

/// The address of a password sign-in, for the API key `key`.
pub fn sign_in_uri(key: &str) -> (r: String)
    ensures
        r@ == sign_in_uri_text(key@),
{
    with_key("https://identitytoolkit.googleapis.com/v1/accounts:signInWithPassword?key=", key)
}

/// The text that refuses a session.
pub fn auth_failure() -> (r: String)
    ensures
        r@ == auth_failure_text(),
{
    "User unable to be authenticated.".to_owned()
}

/// How far a token check has come: what it waits for.
pub enum TokenStage {
    AwaitingStart,
    AwaitingIdToken,
    AwaitingLookup,
    AwaitingRefreshToken,
    AwaitingRefresh,
    AwaitingRefreshBody,
    AwaitingStore,
    Finished,
}

/// A token check of one session, with the identity service's API key.
pub struct TokenCheck {
    pub firebase_key: String,
    pub stage: TokenStage,
}

/// What came of the last action of a token check.
pub enum TokenEvent {
    /// The check starts.
    Begin,
    /// The session's identity token, or none when it has none or it could
    /// not be read.
    IdToken(Option<String>),
    /// The HTTP status of the token lookup, or none when the request failed.
    LookupStatus(Option<u16>),
    /// The session's refresh token, or none when it has none or it could not
    /// be read.
    RefreshToken(Option<String>),
    /// The HTTP status of the token exchange, or none when the request failed.
    RefreshStatus(Option<u16>),
    /// The body of the token exchange, or none when it is not a
    /// `RefreshResponse`.
    RefreshBody(Option<RefreshResponse>),
    /// The new tokens were written to the session.
    TokensStored,
}

/// What a token check asks its caller to do next.
pub enum TokenAction {
    /// Read the session's identity token.
    ReadIdToken,
    /// Post `id_token` as JSON to `uri`.
    PostLookup { uri: String, id_token: String },
    /// Read the session's refresh token.
    ReadRefreshToken,
    /// Post `payload` as JSON to `uri`.
    PostRefresh { uri: String, payload: RefreshPayload },
    /// Read the exchange's body as a `RefreshResponse`.
    ReadRefreshBody,
    /// Write both tokens to the session.
    StoreTokens { id_token: String, refresh_token: String },
    /// The check is over with this outcome.
    Done(Result<(), String>),
    /// The check cannot go on: the exchange answered with success but with a
    /// body that is no token pair. The caller stops with this message.
    Fail(String),
}

/// The events that a token check waiting at `stage` accepts.
pub open spec fn token_accepts(stage: TokenStage, e: TokenEvent) -> bool {
    match stage {
        TokenStage::AwaitingStart => e is Begin,
        TokenStage::AwaitingIdToken => e is IdToken,
        TokenStage::AwaitingLookup => e is LookupStatus,
        TokenStage::AwaitingRefreshToken => e is RefreshToken,
        TokenStage::AwaitingRefresh => e is RefreshStatus,
        TokenStage::AwaitingRefreshBody => e is RefreshBody,
        TokenStage::AwaitingStore => e is TokensStored,
        TokenStage::Finished => false,
    }
}

/// `a` ends the check by refusing the session.
pub open spec fn is_refusal(a: TokenAction) -> bool {
    a matches TokenAction::Done(Err(m)) && m@ == auth_failure_text()
}

/// The transition of a token check from `s` on event `e` to `t`, asking
/// for action `a`.
pub open spec fn token_step_spec(s: TokenCheck, e: TokenEvent, t: TokenCheck, a: TokenAction) -> bool {
    &&& t.firebase_key == s.firebase_key
    &&& match e {
        TokenEvent::Begin => t.stage == TokenStage::AwaitingIdToken && a == TokenAction::ReadIdToken,
        TokenEvent::IdToken(Some(id)) => t.stage == TokenStage::AwaitingLookup && (a matches TokenAction::PostLookup { uri, id_token } && uri@ == lookup_uri_text(
            s.firebase_key@,
        ) && id_token == id),
        TokenEvent::IdToken(None) => t.stage == TokenStage::AwaitingRefreshToken && a
            == TokenAction::ReadRefreshToken,
        TokenEvent::LookupStatus(status) => if status == Some(200u16) {
            t.stage == TokenStage::Finished && a == TokenAction::Done(Ok(()))
        } else {
            t.stage == TokenStage::AwaitingRefreshToken && a == TokenAction::ReadRefreshToken
        },
        TokenEvent::RefreshToken(Some(token)) => t.stage == TokenStage::AwaitingRefresh && (a matches TokenAction::PostRefresh { uri, payload } && uri@ == refresh_uri_text(
            s.firebase_key@,
        ) && payload.grant_type@ == "refresh_token"@ && payload.refresh_token == token),
        TokenEvent::RefreshToken(None) => t.stage == TokenStage::Finished && is_refusal(a),
        TokenEvent::RefreshStatus(status) => if status == Some(200u16) {
            t.stage == TokenStage::AwaitingRefreshBody && a == TokenAction::ReadRefreshBody
        } else {
            t.stage == TokenStage::Finished && is_refusal(a)
        },
        TokenEvent::RefreshBody(Some(body)) => t.stage == TokenStage::AwaitingStore && a
            == TokenAction::StoreTokens {
            id_token: body.id_token,
            refresh_token: body.refresh_token,
        },
        TokenEvent::RefreshBody(None) => t.stage == TokenStage::Finished && a is Fail,
        TokenEvent::TokensStored => t.stage == TokenStage::Finished && a == TokenAction::Done(
            Ok(()),
        ),
    }
}

impl TokenCheck {
    /// A check that has not started, with the identity service's API key.
    pub fn new(firebase_key: String) -> (c: TokenCheck)
        ensures
            c.firebase_key == firebase_key,
            c.stage == TokenStage::AwaitingStart,
    {
        TokenCheck { firebase_key, stage: TokenStage::AwaitingStart }
    }

    /// The next stage and action after event `e`. The identity token is
    /// confirmed first; when it is missing or the lookup does not answer
    /// 200, the refresh token is exchanged for new tokens, which are stored.
    /// Without a refresh token, or when the exchange does not answer 200,
    /// the session is refused.
    pub fn step(self, e: TokenEvent) -> (r: (TokenCheck, TokenAction))
        requires
            token_accepts(self.stage, e),
        ensures
            token_step_spec(self, e, r.0, r.1),
    {
        let key = self.firebase_key;
        match e {
            TokenEvent::Begin => (
                TokenCheck { firebase_key: key, stage: TokenStage::AwaitingIdToken },
                TokenAction::ReadIdToken,
            ),
            TokenEvent::IdToken(Some(id)) => {
                let uri = lookup_uri(key.as_str());
                (
                    TokenCheck { firebase_key: key, stage: TokenStage::AwaitingLookup },
                    TokenAction::PostLookup { uri, id_token: id },
                )
            },
            TokenEvent::IdToken(None) => (
                TokenCheck { firebase_key: key, stage: TokenStage::AwaitingRefreshToken },
                TokenAction::ReadRefreshToken,
            ),
            TokenEvent::LookupStatus(status) => {
                if status == Some(200u16) {
                    (
                        TokenCheck { firebase_key: key, stage: TokenStage::Finished },
                        TokenAction::Done(Ok(())),
                    )
                } else {
                    (
                        TokenCheck { firebase_key: key, stage: TokenStage::AwaitingRefreshToken },
                        TokenAction::ReadRefreshToken,
                    )
                }
            },
            TokenEvent::RefreshToken(Some(token)) => {
                let uri = refresh_uri(key.as_str());
                let payload = RefreshPayload {
                    grant_type: "refresh_token".to_owned(),
                    refresh_token: token,
                };
                (
                    TokenCheck { firebase_key: key, stage: TokenStage::AwaitingRefresh },
                    TokenAction::PostRefresh { uri, payload },
                )
            },
            TokenEvent::RefreshToken(None) => (
                TokenCheck { firebase_key: key, stage: TokenStage::Finished },
                TokenAction::Done(Err(auth_failure())),
            ),
            TokenEvent::RefreshStatus(status) => {
                if status == Some(200u16) {
                    (
                        TokenCheck { firebase_key: key, stage: TokenStage::AwaitingRefreshBody },
                        TokenAction::ReadRefreshBody,
                    )
                } else {
                    (
                        TokenCheck { firebase_key: key, stage: TokenStage::Finished },
                        TokenAction::Done(Err(auth_failure())),
                    )
                }
            },
            TokenEvent::RefreshBody(Some(body)) => (
                TokenCheck { firebase_key: key, stage: TokenStage::AwaitingStore },
                TokenAction::StoreTokens {
                    id_token: body.id_token,
                    refresh_token: body.refresh_token,
                },
            ),
            TokenEvent::RefreshBody(None) => (
                TokenCheck { firebase_key: key, stage: TokenStage::Finished },
                TokenAction::Fail("the token exchange answered with an unreadable body".to_owned()),
            ),
            TokenEvent::TokensStored => (
                TokenCheck { firebase_key: key, stage: TokenStage::Finished },
                TokenAction::Done(Ok(())),
            ),
        }
    }
}

/// How far a sign-in has come: what it waits for.
pub enum LoginStage {
    AwaitingStart,
    AwaitingSignIn,
    AwaitingBody,
    AwaitingStore,
    Finished,
}

/// A password sign-in, with the identity service's API key and, once the
/// service answered, the signed-in user's id.
pub struct LoginFlow {
    pub firebase_key: String,
    pub user_id: String,
    pub stage: LoginStage,
}

/// What came of the last action of a sign-in.
pub enum LoginEvent {
    /// The sign-in starts.
    Begin,
    /// The HTTP status of the sign-in request, or none when it failed.
    SignInStatus(Option<u16>),
    /// The answer's body, or none when it is not a `LoginResponse`.
    SignInBody(Option<LoginResponse>),
    /// The tokens were written to the session.
    TokensStored,
}

/// What a sign-in asks its caller to do next.
pub enum LoginAction {
    /// Post the reader's credentials as JSON to `uri`.
    PostSignIn { uri: String },
    /// Read the answer's body as a `LoginResponse`.
    ReadSignInBody,
    /// Write both tokens to the session.
    StoreTokens { id_token: String, refresh_token: String },
    /// Answer the client.
    Respond(Reply<UserResponse>),
}

/// The events that a sign-in waiting at `stage` accepts.
pub open spec fn login_accepts(stage: LoginStage, e: LoginEvent) -> bool {
    match stage {
        LoginStage::AwaitingStart => e is Begin,
        LoginStage::AwaitingSignIn => e is SignInStatus,
        LoginStage::AwaitingBody => e is SignInBody,
        LoginStage::AwaitingStore => e is TokensStored,
        LoginStage::Finished => false,
    }
}

/// The transition of a sign-in from `s` on event `e` to `t`, asking for
/// action `a`.
pub open spec fn login_step_spec(s: LoginFlow, e: LoginEvent, t: LoginFlow, a: LoginAction) -> bool {
    &&& t.firebase_key == s.firebase_key
    &&& match e {
        LoginEvent::Begin => t.stage == LoginStage::AwaitingSignIn && t.user_id == s.user_id && (a matches LoginAction::PostSignIn {
            uri,
        } && uri@ == sign_in_uri_text(s.firebase_key@)),
        LoginEvent::SignInStatus(status) => t.user_id == s.user_id && if status == Some(200u16) {
            t.stage == LoginStage::AwaitingBody && a == LoginAction::ReadSignInBody
        } else {
            t.stage == LoginStage::Finished && a == LoginAction::Respond(Reply::BadRequest)
        },
        LoginEvent::SignInBody(Some(login)) => t.stage == LoginStage::AwaitingStore && t.user_id
            == login.id && a == LoginAction::StoreTokens {
            id_token: login.token,
            refresh_token: login.refresh_token,
        },
        LoginEvent::SignInBody(None) => t.stage == LoginStage::Finished && t.user_id == s.user_id
            && a == LoginAction::Respond(Reply::BadRequest),
        LoginEvent::TokensStored => t.stage == LoginStage::Finished && t.user_id == s.user_id && (a matches LoginAction::Respond(
            Reply::Success(r),
        ) && r.user_id == s.user_id),
    }
}

impl LoginFlow {
    /// A sign-in that has not started, with the identity service's API key.
    pub fn new(firebase_key: String) -> (f: LoginFlow)
        ensures
            f.firebase_key == firebase_key,
            f.user_id@ == Seq::<char>::empty(),
            f.stage == LoginStage::AwaitingStart,
    {
        LoginFlow { firebase_key, user_id: String::new(), stage: LoginStage::AwaitingStart }
    }

    /// The next stage and action after event `e`. Only an answer 200 whose
    /// body holds a user signs the reader in: the session gets the tokens and
    /// the client the user's id. Anything else is a bad request.
    pub fn step(self, e: LoginEvent) -> (r: (LoginFlow, LoginAction))
        requires
            login_accepts(self.stage, e),
        ensures
            login_step_spec(self, e, r.0, r.1),
    {
        let LoginFlow { firebase_key, user_id, stage } = self;
        match e {
            LoginEvent::Begin => {
                let uri = sign_in_uri(firebase_key.as_str());
                (
                    LoginFlow { firebase_key, user_id, stage: LoginStage::AwaitingSignIn },
                    LoginAction::PostSignIn { uri },
                )
            },
            LoginEvent::SignInStatus(status) => {
                if status == Some(200u16) {
                    (
                        LoginFlow { firebase_key, user_id, stage: LoginStage::AwaitingBody },
                        LoginAction::ReadSignInBody,
                    )
                } else {
                    (
                        LoginFlow { firebase_key, user_id, stage: LoginStage::Finished },
                        LoginAction::Respond(Reply::BadRequest),
                    )
                }
            },
            LoginEvent::SignInBody(Some(login)) => (
                LoginFlow { firebase_key, user_id: login.id, stage: LoginStage::AwaitingStore },
                LoginAction::StoreTokens {
                    id_token: login.token,
                    refresh_token: login.refresh_token,
                },
            ),
            LoginEvent::SignInBody(None) => (
                LoginFlow { firebase_key, user_id, stage: LoginStage::Finished },
                LoginAction::Respond(Reply::BadRequest),
            ),
            LoginEvent::TokensStored => {
                let reply = UserResponse { user_id: user_id.clone() };
                (
                    LoginFlow { firebase_key, user_id, stage: LoginStage::Finished },
                    LoginAction::Respond(Reply::Success(reply)),
                )
            },
        }
    }
}

} // verus!
