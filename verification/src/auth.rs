//! Which requests to protected routes are let through.

use crate::ids::Uuid;
use crate::json::{member, object, text, Json, JsonView};
use crate::store::{StoreCommand, StoreCommandView};
use crate::text::{join2, same_text};
use vstd::prelude::*;

verus! {

/// The user and session that a request was authenticated as.
#[derive(Clone, Copy, Debug, PartialEq, Eq, Structural)]
pub struct AuthenticatedUser {
    pub user_id: Uuid,
    pub session_id: Uuid,
}

/// The subject and session that an access token names.
pub struct Claims {
    pub sub: String,
    pub sid: String,
}

/// An answer to a request: a status code and a body.
#[derive(Debug, PartialEq, Eq)]
pub struct Response {
    pub status: u16,
    pub body: Json,
}

/// What a [`Response`] says.
pub struct ResponseView {
    pub status: u16,
    pub body: JsonView,
}

impl View for Response {
    type V = ResponseView;

    open spec fn view(&self) -> ResponseView {
        ResponseView { status: self.status, body: self.body@ }
    }
}

/// The answer to a request that is not let through.
pub open spec fn unauthorized(message: Seq<char>) -> ResponseView {
    ResponseView { status: 401, body: JsonView::Object(seq![("error"@, JsonView::Text(message))]) }
}

/// The answer to a request that is not let through.
pub fn unauthorized_response(message: &str) -> (r: Response)
    ensures
        r@ == unauthorized(message@),
{
    let body = object(vec![member("error", text(message))]);
    assert(body@->Object_0 =~= unauthorized(message@).body->Object_0);
    Response { status: 401, body }
}

/// How far a request has come.
#[derive(Debug, PartialEq, Eq)]
pub enum AuthProgress {
    /// The token has to be validated.
    ValidateToken { token: String },
    /// It has to be looked up whether the session is remembered as valid.
    LookUpSession { user: AuthenticatedUser, lookup: StoreCommand },
    /// The session has to be looked up in the repository.
    CheckSession { user: AuthenticatedUser },
    /// The request is let through as this user, after the command, if there is one, was tried.
    Admitted { user: AuthenticatedUser, remember: Option<StoreCommand> },
    /// The request is answered without being let through.
    Rejected { response: Response },
}

/// What an [`AuthProgress`] says.
pub enum AuthProgressView {
    ValidateToken { token: Seq<char> },
    LookUpSession { user: AuthenticatedUser, lookup: StoreCommandView },
    CheckSession { user: AuthenticatedUser },
    Admitted { user: AuthenticatedUser, remember: Option<StoreCommandView> },
    Rejected { response: ResponseView },
}

impl View for AuthProgress {
    type V = AuthProgressView;

    open spec fn view(&self) -> AuthProgressView {
        match self {
            AuthProgress::ValidateToken { token } => AuthProgressView::ValidateToken {
                token: token@,
            },
            AuthProgress::LookUpSession { user, lookup } => AuthProgressView::LookUpSession {
                user: *user,
                lookup: lookup@,
            },
            AuthProgress::CheckSession { user } => AuthProgressView::CheckSession { user: *user },
            AuthProgress::Admitted { user, remember } => AuthProgressView::Admitted {
                user: *user,
                remember: match remember {
                    Some(command) => Some(command@),
                    None => None,
                },
            },
            AuthProgress::Rejected { response } => AuthProgressView::Rejected {
                response: response@,
            },
        }
    }
}

/// A request that is answered with this message.
pub open spec fn rejected(message: Seq<char>) -> AuthProgressView {
    AuthProgressView::Rejected { response: unauthorized(message) }
}

/// The key under which a valid session is remembered.
pub open spec fn session_key(session_id: Uuid) -> Seq<char> {
    "session:"@ + crate::ids::hyphenated(session_id)
}

/// What the authorization header of a request leads to.
pub open spec fn after_header(authorization: Option<Seq<char>>) -> AuthProgressView {
    match authorization {
        None => rejected("Missing bearer token"@),
        Some(value) => if "Bearer "@.is_prefix_of(value) {
            AuthProgressView::ValidateToken { token: value.skip("Bearer "@.len() as int) }
        } else {
            rejected("Invalid authorization scheme"@)
        },
    }
}

/// What the user and the session that a valid token names lead to; `None` stands for a claim that
/// names none. The session of a temporary token does not matter.
pub open spec fn after_identity(
    user_id: Option<Uuid>,
    temporary: bool,
    session_id: Option<Uuid>,
) -> AuthProgressView {
    match (user_id, session_id) {
        (None, _) => rejected("Malformed token subject"@),
        (Some(user_id), _) if temporary => rejected(
            "Temporary 2FA token cannot be used for this endpoint"@,
        ),
        (Some(user_id), None) => rejected("Malformed token session"@),
        (Some(user_id), Some(session_id)) => AuthProgressView::LookUpSession {
            user: AuthenticatedUser { user_id, session_id },
            lookup: StoreCommandView::Get { key: session_key(session_id) },
        },
    }
}

/// What the claims of a token lead to; `None` stands for a token that is not valid. Tokens for a
/// pending second factor or recovery carry the temporary session, and open no protected route.
pub open spec fn after_token(
    claims: Option<(Seq<char>, Seq<char>)>,
    temp_session_id: Seq<char>,
) -> AuthProgressView {
    match claims {
        None => rejected("Invalid or expired token"@),
        Some((sub, sid)) => after_identity(
            crate::ids::uuid_named(sub),
            sid == temp_session_id,
            crate::ids::uuid_named(sid),
        ),
    }
}

/// What the lookup of a session leads to.
pub open spec fn after_lookup(user: AuthenticatedUser, remembered: bool) -> AuthProgressView {
    if remembered {
        AuthProgressView::Admitted { user, remember: None }
    } else {
        AuthProgressView::CheckSession { user }
    }
}

/// What the answer of the repository leads to; `None` stands for a failure to answer.
pub open spec fn after_check(
    user: AuthenticatedUser,
    valid: Option<bool>,
    access_token_ttl: u64,
) -> AuthProgressView {
    if valid == Some(true) {
        AuthProgressView::Admitted {
            user,
            remember: Some(
                StoreCommandView::SetEx {
                    key: session_key(user.session_id),
                    value: "active"@,
                    seconds: access_token_ttl,
                },
            ),
        }
    } else {
        rejected("Session revoked or expired"@)
    }
}

/// The claims as texts.
pub open spec fn claims_view(claims: Option<Claims>) -> Option<(Seq<char>, Seq<char>)> {
    match claims {
        Some(c) => Some((c.sub@, c.sid@)),
        None => None,
    }
}

fn reject(message: &str) -> (r: AuthProgress)
    ensures
        r@ == rejected(message@),
{
    AuthProgress::Rejected { response: unauthorized_response(message) }
}

/// Begins with a request: takes the token out of its authorization header.
pub fn auth_middleware(authorization: Option<&str>) -> (r: AuthProgress)
    ensures
        authorization is Some && "Bearer "@.is_prefix_of(authorization->0@) ==> r@ is ValidateToken
            && "Bearer "@ + r@->token == authorization->0@,
        r@ == after_header(
            match authorization {
                Some(value) => Some(value@),
                None => None,
            },
        ),
{
    proof {
        reveal_strlit("Bearer ");
        if authorization is Some {
            whole_token_is_handed_on(authorization->0@);
        }
    }
    match authorization {
        None => reject("Missing bearer token"),
        Some(value) => {
            let len: usize = value.unicode_len();
            if len >= 7 && same_text(value.substring_char(0, 7), "Bearer ") {
                assert("Bearer "@.is_prefix_of(value@));
                AuthProgress::ValidateToken { token: value.substring_char(7, len).to_owned() }
            } else {
                assert("Bearer "@.is_prefix_of(value@) ==> value@.subrange(0, 7) =~= "Bearer "@);
                reject("Invalid authorization scheme")
            }
        },
    }
}

/// Begins with the session of a user: looks up whether it is remembered as valid.
pub fn validate_session(user: AuthenticatedUser) -> (r: AuthProgress)
    ensures
        r@ == (AuthProgressView::LookUpSession {
            user,
            lookup: StoreCommandView::Get { key: session_key(user.session_id) },
        }),
{
    AuthProgress::LookUpSession {
        user,
        lookup: StoreCommand::Get { key: join2("session:", user.session_id.text().as_str()) },
    }
}

/// Goes on with the user and the session that a valid token names.
pub fn identity_read(
    user_id: Option<Uuid>,
    temporary: bool,
    session_id: Option<Uuid>,
) -> (r: AuthProgress)
    ensures
        r@ == after_identity(user_id, temporary, session_id),
{
    match user_id {
        None => reject("Malformed token subject"),
        Some(user_id) => if temporary {
            reject("Temporary 2FA token cannot be used for this endpoint")
        } else {
            match session_id {
                None => reject("Malformed token session"),
                Some(session_id) => validate_session(AuthenticatedUser { user_id, session_id }),
            }
        },
    }
}

/// Goes on with the claims of the token, or with `None` for a token that is not valid.
pub fn token_validated(claims: Option<Claims>, temp_session_id: &str) -> (r: AuthProgress)
    ensures
        r@ == after_token(claims_view(claims), temp_session_id@),
        forall|user: AuthenticatedUser|
            claims is Some && claims->0.sub@ == #[trigger] crate::ids::hyphenated(user.user_id)
                && claims->0.sid@ == #[trigger] crate::ids::hyphenated(user.session_id)
                && claims->0.sid@ != temp_session_id@ ==> r@ == (AuthProgressView::LookUpSession {
                user,
                lookup: StoreCommandView::Get { key: session_key(user.session_id) },
            }),
{
    match claims {
        None => reject("Invalid or expired token"),
        Some(claims) => {
            let user_id = Uuid::parse_str(claims.sub.as_str());
            let temporary = same_text(claims.sid.as_str(), temp_session_id);
            let session_id = Uuid::parse_str(claims.sid.as_str());
            identity_read(user_id, temporary, session_id)
        },
    }
}

/// Goes on with whether the session was remembered as valid.
pub fn session_looked_up(user: AuthenticatedUser, remembered: bool) -> (r: AuthProgress)
    ensures
        r@ == after_lookup(user, remembered),
{
    if remembered {
        AuthProgress::Admitted { user, remember: None }
    } else {
        AuthProgress::CheckSession { user }
    }
}

/// Goes on with what the repository says of the session, or with `None` where it failed.
pub fn session_checked(
    user: AuthenticatedUser,
    valid: Option<bool>,
    access_token_ttl: u64,
) -> (r: AuthProgress)
    ensures
        r@ == after_check(user, valid, access_token_ttl),
{
    match valid {
        Some(true) => AuthProgress::Admitted {
            user,
            remember: Some(
                StoreCommand::SetEx {
                    key: join2("session:", user.session_id.text().as_str()),
                    value: "active".to_owned(),
                    seconds: access_token_ttl,
                },
            ),
        },
        _ => reject("Session revoked or expired"),
    }
}

/// Where a request ends: with its header, what its token proves to hold, whether its session is
/// remembered, and what the repository says of it.
pub open spec fn outcome(
    authorization: Option<Seq<char>>,
    claims: Option<(Seq<char>, Seq<char>)>,
    temp_session_id: Seq<char>,
    remembered: bool,
    valid: Option<bool>,
    access_token_ttl: u64,
) -> AuthProgressView {
    match after_header(authorization) {
        AuthProgressView::ValidateToken { token } => match after_token(claims, temp_session_id) {
            AuthProgressView::LookUpSession { user, lookup } => match after_lookup(
                user,
                remembered,
            ) {
                AuthProgressView::CheckSession { user: pending } => after_check(
                    pending,
                    valid,
                    access_token_ttl,
                ),
                end => end,
            },
            end => end,
        },
        end => end,
    }
}

/// Every request is let through or answered with 401, and let through exactly if it carries a
/// bearer token that is valid, names a user and a session, is not a temporary one, and whose
/// session is remembered or confirmed by the repository.
pub proof fn admitted_exactly_when_authenticated(
    authorization: Option<Seq<char>>,
    claims: Option<(Seq<char>, Seq<char>)>,
    temp_session_id: Seq<char>,
    remembered: bool,
    valid: Option<bool>,
    access_token_ttl: u64,
)
    ensures
        ({
            let end = outcome(
                authorization,
                claims,
                temp_session_id,
                remembered,
                valid,
                access_token_ttl,
            );
            let named = claims->0;
            &&& end is Admitted || (end is Rejected && end->response.status == 401)
            &&& end is Admitted <==> {
                &&& authorization is Some
                &&& "Bearer "@.is_prefix_of(authorization->0)
                &&& claims is Some
                &&& crate::ids::uuid_named(named.0) is Some
                &&& named.1 != temp_session_id
                &&& crate::ids::uuid_named(named.1) is Some
                &&& remembered || valid == Some(true)
            }
            &&& end is Admitted ==> end->Admitted_user == (AuthenticatedUser {
                user_id: crate::ids::uuid_named(named.0)->0,
                session_id: crate::ids::uuid_named(named.1)->0,
            })
        }),
{
}

/// A token of a pending second factor or recovery is never let through.
pub proof fn temporary_tokens_are_never_admitted(
    authorization: Option<Seq<char>>,
    sub: Seq<char>,
    temp_session_id: Seq<char>,
    remembered: bool,
    valid: Option<bool>,
    access_token_ttl: u64,
)
    ensures
        outcome(
            authorization,
            Some((sub, temp_session_id)),
            temp_session_id,
            remembered,
            valid,
            access_token_ttl,
        ) is Rejected,
{
}

/// A session that the repository confirmed is found by the next lookup.
pub proof fn confirmed_session_is_remembered(
    keys: Map<Seq<char>, Seq<char>>,
    user: AuthenticatedUser,
    access_token_ttl: u64,
    claims: (Seq<char>, Seq<char>),
    temp_session_id: Seq<char>,
)
    requires
        after_token(Some(claims), temp_session_id) is LookUpSession,
        after_token(Some(claims), temp_session_id)->LookUpSession_user == user,
    ensures
        ({
            let end = after_check(user, Some(true), access_token_ttl);
            let lookup = after_token(Some(claims), temp_session_id)->lookup;
            &&& end is Admitted
            &&& end->remember is Some
            &&& lookup is Get
            &&& crate::store::keys_after(keys, end->remember->0).contains_key(lookup->Get_key)
        }),
{
}

/// The whole token is handed on for validation: with `Bearer ` before it, it is the header.
pub proof fn whole_token_is_handed_on(header: Seq<char>)
    ensures
        "Bearer "@.is_prefix_of(header) <==> after_header(Some(header)) is ValidateToken,
        after_header(Some(header)) is ValidateToken ==> "Bearer "@ + after_header(
            Some(header),
        )->token == header,
{
    if "Bearer "@.is_prefix_of(header) {
        assert("Bearer "@ + header.skip("Bearer "@.len() as int) =~= header);
    }
}

/// Whatever token stands behind `Bearer ` is the one that is validated.
pub proof fn any_token_is_taken_as_it_is(token: Seq<char>)
    ensures
        after_header(Some("Bearer "@ + token)) == (AuthProgressView::ValidateToken { token }),
{
    let header = "Bearer "@ + token;
    assert(header.subrange(0, "Bearer "@.len() as int) =~= "Bearer "@);
    assert(header.skip("Bearer "@.len() as int) =~= token);
}

/// Headers of any other scheme are all refused alike.
pub proof fn other_schemes_are_refused_alike(a: Seq<char>, b: Seq<char>)
    requires
        !"Bearer "@.is_prefix_of(a),
        !"Bearer "@.is_prefix_of(b),
    ensures
        after_header(Some(a)) is Rejected,
        after_header(Some(a)) == after_header(Some(b)),
        after_header(Some(a)) == rejected("Invalid authorization scheme"@),
        after_header(None) == rejected("Missing bearer token"@),
{
}

/// A refusal has status 401 and says why, in one member of its body that holds the whole message.
pub proof fn refusals_say_why(message: Seq<char>)
    ensures
        rejected(message) is Rejected,
        ({
            let response = rejected(message)->response;
            &&& response.status == 401
            &&& response.body is Object
            &&& response.body->Object_0.len() == 1
            &&& response.body->Object_0[0] == ("error"@, JsonView::Text(message))
        }),
{
}

/// What is wrong with a token decides the answer, and nothing else in it does: an invalid token,
/// then a subject that names no user, then a temporary session, then one that is none.
pub proof fn faults_of_a_token_are_answered_in_order(
    user_id: Uuid,
    session: Option<Uuid>,
    temporary: bool,
    temp_session_id: Seq<char>,
)
    ensures
        after_token(None, temp_session_id) == rejected("Invalid or expired token"@),
        after_identity(None, temporary, session) == rejected("Malformed token subject"@),
        after_identity(Some(user_id), true, session) == rejected(
            "Temporary 2FA token cannot be used for this endpoint"@,
        ),
        after_identity(Some(user_id), false, None) == rejected("Malformed token session"@),
{
}

/// A token that names a user and a session leads to the lookup of exactly that session, for exactly
/// that user.
pub proof fn the_named_session_is_looked_up(user_id: Uuid, session_id: Uuid)
    ensures
        ({
            let next = after_identity(Some(user_id), false, Some(session_id));
            &&& next is LookUpSession
            &&& next->LookUpSession_user.user_id == user_id
            &&& next->LookUpSession_user.session_id == session_id
            &&& next->lookup is Get
            &&& next->lookup->Get_key == session_key(session_id)
        }),
{
}

/// The claims of a token are read as they are: the subject names the user and the other claim the
/// session, and a session is temporary exactly if it is the temporary one.
pub proof fn claims_are_read_as_they_are(claims: Claims, temp_session_id: Seq<char>)
    ensures
        claims_view(None) is None,
        claims_view(Some(claims)) == Some((claims.sub@, claims.sid@)),
        after_token(Some((claims.sub@, claims.sid@)), temp_session_id) == after_identity(
            crate::ids::uuid_named(claims.sub@),
            claims.sid@ == temp_session_id,
            crate::ids::uuid_named(claims.sid@),
        ),
{
}

/// A remembered session is let through for its user, one that is not is asked for.
pub proof fn remembered_sessions_are_let_through(user: AuthenticatedUser)
    ensures
        after_lookup(user, true) is Admitted,
        after_lookup(user, true)->Admitted_user == user,
        after_lookup(user, true)->remember is None,
        after_lookup(user, false) is CheckSession,
        after_lookup(user, false)->CheckSession_user == user,
{
}

/// Only a session that the repository confirms is let through, for its user, and remembered for as
/// long as access tokens live; a session that it denies and one that it cannot tell of are refused
/// alike.
pub proof fn only_confirmed_sessions_are_let_through(
    user: AuthenticatedUser,
    valid: Option<bool>,
    ttl: u64,
)
    ensures
        after_check(user, valid, ttl) is Admitted <==> valid == Some(true),
        valid != Some(true) ==> after_check(user, valid, ttl) == rejected(
            "Session revoked or expired"@,
        ),
        ({
            let end = after_check(user, Some(true), ttl);
            let command = end->remember->0;
            &&& end->Admitted_user == user
            &&& end->remember is Some
            &&& command is SetEx
            &&& command->SetEx_key == session_key(user.session_id)
            &&& command->value == "active"@
            &&& command->seconds == ttl
        }),
{
}

/// Each session has a key of its own, which ends with its text.
pub proof fn session_keys_are_distinct(a: Uuid, b: Uuid)
    ensures
        session_key(a) == session_key(b) ==> a == b,
        session_key(a) == "session:"@ + session_key(a).skip(session_key(a).len() - 36),
        session_key(a).skip(session_key(a).len() - 36) == crate::ids::hyphenated(a),
{
    let n = "session:"@.len() as int;
    assert(session_key(a).skip(n) =~= crate::ids::hyphenated(a));
    assert(session_key(b).skip(n) =~= crate::ids::hyphenated(b));
    if session_key(a) == session_key(b) {
        crate::ids::hyphenated_injective(a, b);
    }
}

/// An answer says the status and the body that it was made with.
pub proof fn answers_say_what_they_were_made_with(r: Response)
    ensures
        r@.status == r.status,
        r@.body == r.body@,
{
}

/// How far a request has come is seen as it is.
pub proof fn progress_is_seen_as_it_is(
    token: String,
    user: AuthenticatedUser,
    command: StoreCommand,
    response: Response,
)
    ensures
        (AuthProgress::ValidateToken { token })@ == (AuthProgressView::ValidateToken {
            token: token@,
        }),
        (AuthProgress::LookUpSession { user, lookup: command })@ == (
        AuthProgressView::LookUpSession { user, lookup: command@ }),
        (AuthProgress::CheckSession { user })@ == (AuthProgressView::CheckSession { user }),
        (AuthProgress::Admitted { user, remember: Some(command) })@ == (
        AuthProgressView::Admitted { user, remember: Some(command@) }),
        (AuthProgress::Admitted { user, remember: None })@ == (AuthProgressView::Admitted {
            user,
            remember: None,
        }),
        (AuthProgress::Rejected { response })@ == (AuthProgressView::Rejected {
            response: response@,
        }),
{
}

} // verus!
