//! Authentication: bearer tokens, login, logout, and the current user.

use crate::config::AppConfig;
use crate::effects::{
    fail_invalid, fail_storage, fail_unauthorized, invalid, storage_failed, unauthorized,
    Command, CommandView, Event, EventView, Step, StepView,
};
use crate::models::auth::{
    success_reply, LoginRequest, LoginRequestView, LoginResponseData, LoginResponseDataView,
    Reply, ReplyView, User, UserResponse, UserResponseView, UserView,
};
use crate::text::{
    blank, decimal, decimal_text, has_prefix, is_blank, lemma_decimal_round_trip, parse_decimal,
    parsed_decimal, strip_prefix,
};
use crate::utils::errors::{outcome_view, ServiceError, ServiceErrorView};
use vstd::prelude::*;
use vstd::string::*;

verus! {

/// How long a token is valid: 24 hours, in seconds.
pub const TOKEN_LIFETIME: u64 = 86_400;

/// What `bcrypt::verify` returns for a password and a stored hash: whether
/// they match, or nothing where the hash cannot be read.
pub uninterp spec fn password_verdict(password: Seq<char>, hash: Seq<char>) -> Option<bool>;

/// The token that `jsonwebtoken::encode` makes of the five claims under the
/// default header, signed with `secret`; nothing where it fails.
pub uninterp spec fn signed_token(
    sub: Seq<char>,
    username: Seq<char>,
    name: Seq<char>,
    exp: u64,
    iat: u64,
    secret: Seq<char>,
) -> Option<Seq<char>>;

/// The claims of a bearer token. Times are in seconds since the Unix epoch.
#[derive(Debug, PartialEq, Eq)]
pub struct Claims {
    /// The user's id, in decimal.
    pub sub: String,
    pub username: String,
    pub name: String,
    /// When the token expires.
    pub exp: u64,
    /// When the token was issued.
    pub iat: u64,
}

/// [`Claims`] as contracts see it: text as sequences of characters.
pub struct ClaimsView {
    pub sub: Seq<char>,
    pub username: Seq<char>,
    pub name: Seq<char>,
    pub exp: u64,
    pub iat: u64,
}

impl DeepView for Claims {
    type V = ClaimsView;

    open spec fn deep_view(&self) -> ClaimsView {
        ClaimsView {
            sub: self.sub@,
            username: self.username@,
            name: self.name@,
            exp: self.exp,
            iat: self.iat,
        }
    }
}

/// The claims of a token as they were found in it: each is absent where the
/// token does not hold it in the right form.
#[derive(Debug, PartialEq, Eq)]
pub struct TokenFields {
    pub sub: Option<String>,
    pub username: Option<String>,
    pub name: Option<String>,
    pub exp: Option<u64>,
    pub iat: Option<u64>,
}

/// [`TokenFields`] as contracts see it: text as sequences of characters.
pub struct TokenFieldsView {
    pub sub: Option<Seq<char>>,
    pub username: Option<Seq<char>>,
    pub name: Option<Seq<char>>,
    pub exp: Option<u64>,
    pub iat: Option<u64>,
}

impl DeepView for TokenFields {
    type V = TokenFieldsView;

    open spec fn deep_view(&self) -> TokenFieldsView {
        TokenFieldsView {
            sub: self.sub.deep_view(),
            username: self.username.deep_view(),
            name: self.name.deep_view(),
            exp: self.exp,
            iat: self.iat,
        }
    }
}

/// How many dots `token` holds.
pub open spec fn dots(token: Seq<char>) -> nat
    decreases token.len(),
{
    if token.len() == 0 {
        0
    } else if token.last() == '.' {
        dots(token.drop_last()) + 1
    } else {
        dots(token.drop_last())
    }
}

/// The token that an `Authorization` header carries: what follows `Bearer `.
pub open spec fn bearer_of(authorization: Option<Seq<char>>) -> Option<Seq<char>> {
    match authorization {
        Some(value) => if has_prefix(value, "Bearer "@) {
            Some(value.skip("Bearer "@.len() as int))
        } else {
            None
        },
        None => None,
    }
}

/// The claims issued to `user` at time `now`, under the name they logged in with.
pub open spec fn issued_claims(user: UserView, username: Seq<char>, now: u64) -> ClaimsView {
    ClaimsView {
        sub: decimal(user.id as int),
        username,
        name: user.name,
        exp: (now + TOKEN_LIFETIME) as u64,
        iat: now,
    }
}

/// The claims that the fields of a token make up, if all five are there.
pub open spec fn claims_of(fields: TokenFieldsView) -> Option<ClaimsView> {
    if fields.sub is Some && fields.username is Some && fields.name is Some && fields.exp is Some
        && fields.iat is Some {
        Some(
            ClaimsView {
                sub: fields.sub->0,
                username: fields.username->0,
                name: fields.name->0,
                exp: fields.exp->0,
                iat: fields.iat->0,
            },
        )
    } else {
        None
    }
}

/// The user id that a subject claim names, if it names one.
pub open spec fn subject_id(sub: Seq<char>) -> Option<i32> {
    match parsed_decimal(sub, true, i32::MIN as int, i32::MAX as int) {
        Some(n) => Some(n as i32),
        None => None,
    }
}

/// Who the bearer of a token is, given the claims that decoding it gave:
/// a token that did not decode is invalid, and so is a subject that names
/// no user id.
pub open spec fn identity_of(decoded: Option<ClaimsView>) -> Result<i32, ServiceErrorView> {
    match decoded {
        None => Err(ServiceErrorView::Unauthorized("Invalid token"@)),
        Some(claims) => match subject_id(claims.sub) {
            Some(id) => Ok(id),
            None => Err(ServiceErrorView::Unauthorized("Invalid user ID in token"@)),
        },
    }
}

/// What authentication may say of an `Authorization` header. Without a
/// bearer token it asks for one. With one, the token's signature and expiry
/// decide, which this library takes from its token codec.
pub open spec fn may_authenticate(
    authorization: Option<Seq<char>>,
    who: Result<i32, ServiceErrorView>,
) -> bool {
    match bearer_of(authorization) {
        None => who == Err::<i32, ServiceErrorView>(
            ServiceErrorView::Unauthorized("Authentication required"@),
        ),
        Some(_) => exists|decoded: Option<ClaimsView>| who == #[trigger] identity_of(decoded),
    }
}

/// `bcrypt::verify`: hashes `password` with the salt and cost that `hash`
/// holds and compares. It fails where `hash` is no bcrypt hash.
#[verifier::external_body]
fn verify_password(password: &str, hash: &str) -> (r: Result<bool, bcrypt::BcryptError>)
    ensures
        match r {
            Ok(matches) => password_verdict(password@, hash@) == Some(matches),
            Err(_) => password_verdict(password@, hash@) is None,
        },
{
    bcrypt::verify(password, hash)
}

/// `jsonwebtoken::encode` with the default header (HS256) on the five
/// claims as a JSON object, signed with `secret`.
#[verifier::external_body]
fn sign_claims(claims: &Claims, secret: &str) -> (r: Result<String, jsonwebtoken::errors::Error>)
    ensures
        match r {
            Ok(token) => signed_token(
                claims.sub@,
                claims.username@,
                claims.name@,
                claims.exp,
                claims.iat,
                secret@,
            ) == Some(token@),
            Err(_) => signed_token(
                claims.sub@,
                claims.username@,
                claims.name@,
                claims.exp,
                claims.iat,
                secret@,
            ) is None,
        },
{
    let mut body = serde_json::Map::new();
    body.insert("sub".to_string(), claims.sub.clone().into());
    body.insert("username".to_string(), claims.username.clone().into());
    body.insert("name".to_string(), claims.name.clone().into());
    body.insert("exp".to_string(), claims.exp.into());
    body.insert("iat".to_string(), claims.iat.into());
    let key = jsonwebtoken::EncodingKey::from_secret(secret.as_bytes());
    jsonwebtoken::encode(&jsonwebtoken::Header::default(), &body, &key)
}

/// `jsonwebtoken::decode` with the default validation: the token must be
/// signed with `secret` under HS256, and by the clock of this machine its
/// expiry must not lie more than 60 seconds back, the leeway of the default
/// rules. What comes back are the claims found in it. The decoder
/// splits a token at its last two dots before it looks at anything else, and
/// fails where it does not find them.
#[verifier::external_body]
fn read_token(token: &str, secret: &str) -> (r: Result<TokenFields, jsonwebtoken::errors::Error>)
    ensures
        dots(token@) < 2 ==> r is Err,
{
    let key = jsonwebtoken::DecodingKey::from_secret(secret.as_bytes());
    let rules = jsonwebtoken::Validation::default();
    let body = jsonwebtoken::decode::<serde_json::Value>(token, &key, &rules)?.claims;
    Ok(
        TokenFields {
            sub: body["sub"].as_str().map(String::from),
            username: body["username"].as_str().map(String::from),
            name: body["name"].as_str().map(String::from),
            exp: body["exp"].as_u64(),
            iat: body["iat"].as_u64(),
        },
    )
}

/// `chrono::Utc::now().timestamp()`: the seconds since the Unix epoch by the
/// clock of this machine. The clock is never read as before the epoch.
#[verifier::external_body]
fn unix_now() -> (seconds: i64)
    ensures
        0 <= seconds,
{
    chrono::Utc::now().timestamp()
}

/// The token that an `Authorization` header carries, if it carries one.
pub fn bearer_token(authorization: Option<&str>) -> (token: Option<String>)
    ensures
        token.deep_view() == bearer_of(authorization.deep_view()),
{
    match authorization {
        Some(value) => strip_prefix(value, "Bearer "),
        None => None,
    }
}

impl Claims {
    /// The claims for `user`, issued at `now` under the name they logged in
    /// with, valid for 24 hours.
    pub fn issue(user: &User, username: &str, now: u64) -> (claims: Claims)
        requires
            now + TOKEN_LIFETIME <= u64::MAX,
        ensures
            claims.deep_view() == issued_claims(user.deep_view(), username@, now),
    {
        Claims {
            sub: decimal_text(user.id as i64),
            username: String::from_str(username),
            name: user.name.clone(),
            exp: now + TOKEN_LIFETIME,
            iat: now,
        }
    }

    /// The claims that the fields of a token make up, if all five are there.
    pub fn from_fields(fields: TokenFields) -> (claims: Option<Claims>)
        ensures
            claims.deep_view() == claims_of(fields.deep_view()),
    {
        match (fields.sub, fields.username, fields.name, fields.exp, fields.iat) {
            (Some(sub), Some(username), Some(name), Some(exp), Some(iat)) => Some(
                Claims { sub, username, name, exp, iat },
            ),
            _ => None,
        }
    }

    /// The user id that the subject names, if it names one.
    pub fn user_id(&self) -> (id: Option<i32>)
        ensures
            id == subject_id(self.sub@),
    {
        match parse_decimal(self.sub.as_str(), true, i32::MIN as i64, i32::MAX as i64) {
            Some(n) => Some(n as i32),
            None => None,
        }
    }
}

/// Signs `claims` with `secret`.
pub fn encode_claims(claims: &Claims, secret: &str) -> (r: Result<String, ServiceError>)
    ensures
        outcome_view(r) == match signed_token(
            claims.sub@,
            claims.username@,
            claims.name@,
            claims.exp,
            claims.iat,
            secret@,
        ) {
            Some(token) => Ok(token),
            None => Err(ServiceErrorView::AuthenticationError("Failed to generate token"@)),
        },
{
    match sign_claims(claims, secret) {
        Ok(token) => Ok(token),
        Err(_) => Err(ServiceError::AuthenticationError(String::from_str("Failed to generate token"))),
    }
}

/// The claims of `token`, if it is signed with `secret`, holds all five,
/// and has not expired more than 60 seconds ago: the codec takes a token
/// for that long after its expiry. A token is three parts set apart by
/// dots: one with fewer than two dots has no claims, whatever the secret
/// and the time.
pub fn decode_claims(token: &str, secret: &str) -> (claims: Option<Claims>)
    ensures
        dots(token@) < 2 ==> claims is None,
{
    match read_token(token, secret) {
        Ok(fields) => Claims::from_fields(fields),
        Err(_) => None,
    }
}

/// Who the bearer of a token is, given the claims that decoding it gave.
pub fn identify(decoded: Option<Claims>) -> (who: Result<i32, ServiceError>)
    ensures
        outcome_view(who) == identity_of(decoded.deep_view()),
{
    match decoded {
        None => Err(ServiceError::Unauthorized(String::from_str("Invalid token"))),
        Some(claims) => match claims.user_id() {
            Some(id) => Ok(id),
            None => Err(ServiceError::Unauthorized(String::from_str("Invalid user ID in token"))),
        },
    }
}

/// The id of the user that a request is made by, judged by its
/// `Authorization` header.
pub fn get_user_from_token(authorization: Option<&str>, config: &AppConfig) -> (who: Result<
    i32,
    ServiceError,
>)
    ensures
        may_authenticate(authorization.deep_view(), outcome_view(who)),
{
    match bearer_token(authorization) {
        None => Err(ServiceError::Unauthorized(String::from_str("Authentication required"))),
        Some(token) => {
            let decoded = decode_claims(token.as_str(), config.jwt_secret.as_str());
            let ghost seen = decoded.deep_view();
            let who = identify(decoded);
            assert(outcome_view(who) == identity_of(seen));
            who
        },
    }
}

/// The subject of the claims issued to a user names that user, and the
/// claims expire exactly 24 hours after they were issued.
pub proof fn issued_claims_name_their_user(user: UserView, username: Seq<char>, now: u64)
    requires
        now + TOKEN_LIFETIME <= u64::MAX,
    ensures
        subject_id(issued_claims(user, username, now).sub) == Some(user.id),
        identity_of(Some(issued_claims(user, username, now))) == Ok::<i32, ServiceErrorView>(
            user.id,
        ),
        issued_claims(user, username, now).exp == issued_claims(user, username, now).iat + 86_400,
{
    lemma_decimal_round_trip(user.id as int, i32::MIN as int, i32::MAX as int);
}

/// A login that waits for the user to be looked up.
#[derive(Debug, PartialEq, Eq)]
pub struct LoginFlow {
    pub username: String,
    pub password: String,
    pub secret: String,
}

/// [`LoginFlow`] as contracts see it: text as sequences of characters.
pub struct LoginFlowView {
    pub username: Seq<char>,
    pub password: Seq<char>,
    pub secret: Seq<char>,
}

impl DeepView for LoginFlow {
    type V = LoginFlowView;

    open spec fn deep_view(&self) -> LoginFlowView {
        LoginFlowView { username: self.username@, password: self.password@, secret: self.secret@ }
    }
}

/// Where the endpoint stands after a step, as contracts see it.
pub type LoginStep = StepView<LoginFlowView, ReplyView<LoginResponseDataView>>;

/// How a login starts: blank credentials are refused, others have the user
/// looked up by the exact username.
pub open spec fn login_plan(request: LoginRequestView, secret: Seq<char>) -> LoginStep {
    if blank(request.username) {
        invalid("Username is required"@)
    } else if blank(request.password) {
        invalid("Password is required"@)
    } else {
        StepView::Ask(
            LoginFlowView { username: request.username, password: request.password, secret },
            CommandView::FindUserByUsername(request.username),
        )
    }
}

/// What a successful login at `now` answers, where signing gives `token`.
pub open spec fn login_answer(user: UserView, token: Seq<char>) -> ReplyView<
    LoginResponseDataView,
> {
    success_reply(
        200,
        "Login successful"@,
        LoginResponseDataView { token, user: user.public() },
    )
}

/// How a login ends once the store has answered, at time `now`. A user that
/// is not there and a password that does not match are told apart nowhere.
pub open spec fn login_step(flow: LoginFlowView, event: EventView, now: u64) -> LoginStep {
    match event {
        EventView::User(None) => unauthorized("Invalid credentials"@),
        EventView::User(Some(user)) => match password_verdict(flow.password, user.password_hash) {
            None => StepView::Done(
                Err(ServiceErrorView::AuthenticationError("Password verification failed"@)),
            ),
            Some(false) => unauthorized("Invalid credentials"@),
            Some(true) => {
                let claims = issued_claims(user, flow.username, now);
                match signed_token(
                    claims.sub,
                    claims.username,
                    claims.name,
                    claims.exp,
                    claims.iat,
                    flow.secret,
                ) {
                    Some(token) => StepView::Done(Ok(login_answer(user, token))),
                    None => StepView::Done(
                        Err(ServiceErrorView::AuthenticationError("Failed to generate token"@)),
                    ),
                }
            },
        },
        _ => storage_failed("Failed to query user"@),
    }
}

/// Starts a login.
pub fn login(request: LoginRequest, config: &AppConfig) -> (step: Step<
    LoginFlow,
    Reply<LoginResponseData>,
>)
    ensures
        step.deep_view() == login_plan(request.deep_view(), config.jwt_secret@),
{
    if is_blank(request.username.as_str()) {
        return fail_invalid("Username is required");
    }
    if is_blank(request.password.as_str()) {
        return fail_invalid("Password is required");
    }
    let name = request.username.clone();
    Step::Ask(
        LoginFlow {
            username: request.username,
            password: request.password,
            secret: config.jwt_secret.clone(),
        },
        Command::FindUserByUsername(name),
    )
}

impl LoginFlow {
    /// Ends the login with what the store answered, taking `now` as the
    /// time at which the token is issued.
    pub fn step_at(self, event: Event, now: u64) -> (step: Step<LoginFlow, Reply<LoginResponseData>>)
        requires
            now + TOKEN_LIFETIME <= u64::MAX,
        ensures
            step.deep_view() == login_step(self.deep_view(), event.deep_view(), now),
    {
        match event {
            Event::User(None) => fail_unauthorized("Invalid credentials"),
            Event::User(Some(user)) => {
                match verify_password(self.password.as_str(), user.password_hash.as_str()) {
                    Err(_) => Step::Done(
                        Err(
                            ServiceError::AuthenticationError(
                                String::from_str("Password verification failed"),
                            ),
                        ),
                    ),
                    Ok(false) => fail_unauthorized("Invalid credentials"),
                    Ok(true) => {
                        let claims = Claims::issue(&user, self.username.as_str(), now);
                        match encode_claims(&claims, self.secret.as_str()) {
                            Err(e) => Step::Done(Err(e)),
                            Ok(token) => {
                                let data = LoginResponseData { token, user: UserResponse::from(user) };
                                Step::Done(Ok(Reply::success(200, "Login successful", data)))
                            },
                        }
                    },
                }
            },
            _ => fail_storage("Failed to query user"),
        }
    }

    /// Ends the login with what the store answered. The token is issued at
    /// the time the clock shows.
    pub fn step(self, event: Event) -> (step: Step<LoginFlow, Reply<LoginResponseData>>)
        ensures
            exists|now: u64|
                now + TOKEN_LIFETIME <= u64::MAX && step.deep_view() == #[trigger] login_step(
                    self.deep_view(),
                    event.deep_view(),
                    now,
                ),
    {
        let now = unix_now() as u64;
        let ghost flow = self.deep_view();
        let ghost seen = event.deep_view();
        let step = self.step_at(event, now);
        assert(step.deep_view() == login_step(flow, seen, now));
        step
    }
}

/// A login under a name that no user has and a login with a wrong password
/// end alike: same failure, same message, same status.
pub proof fn login_failures_are_alike(flow: LoginFlowView, user: UserView, now: u64, later: u64)
    requires
        password_verdict(flow.password, user.password_hash) == Some(false),
    ensures
        login_step(flow, EventView::User(None), now) == login_step(
            flow,
            EventView::User(Some(user)),
            later,
        ),
        login_step(flow, EventView::User(None), now) == unauthorized::<
            LoginFlowView,
            ReplyView<LoginResponseDataView>,
        >("Invalid credentials"@),
        ServiceErrorView::Unauthorized("Invalid credentials"@).status_code() == 401,
{
}

/// What logging out answers. The token is not looked into: the service
/// keeps no sessions, so there is nothing to end.
pub open spec fn logout_answer(authorization: Option<Seq<char>>) -> Result<
    ReplyView<bool>,
    ServiceErrorView,
> {
    match bearer_of(authorization) {
        Some(_) => Ok(success_reply(200, "Successfully logout from the system"@, true)),
        None => Err(ServiceErrorView::Unauthorized("Authentication required"@)),
    }
}

/// Logs out.
pub fn logout(authorization: Option<&str>) -> (r: Result<Reply<bool>, ServiceError>)
    ensures
        outcome_view(r) == logout_answer(authorization.deep_view()),
{
    match bearer_token(authorization) {
        Some(_) => Ok(Reply::success(200, "Successfully logout from the system", true)),
        None => Err(ServiceError::Unauthorized(String::from_str("Authentication required"))),
    }
}

/// A request for the current user that waits for the user to be looked up.
#[derive(Debug, Clone, Copy, PartialEq, Eq, Structural)]
pub struct CurrentUserFlow {
    pub user_id: i32,
}

impl DeepView for CurrentUserFlow {
    type V = CurrentUserFlow;

    open spec fn deep_view(&self) -> CurrentUserFlow {
        *self
    }
}

/// Where the endpoint stands after a step, as contracts see it.
pub type CurrentUserStep = StepView<CurrentUserFlow, ReplyView<UserResponseView>>;

/// How a request for the current user starts, by what authentication said.
pub open spec fn get_me_plan(who: Result<i32, ServiceErrorView>) -> CurrentUserStep {
    match who {
        Err(e) => StepView::Done(Err(e)),
        Ok(user_id) => StepView::Ask(
            CurrentUserFlow { user_id },
            CommandView::FindUserById(user_id),
        ),
    }
}

/// How a request for the current user ends once the store has answered.
pub open spec fn get_me_step(event: EventView) -> CurrentUserStep {
    match event {
        EventView::User(Some(user)) => StepView::Done(
            Ok(success_reply(200, "Successfully retrieved user data"@, user.public())),
        ),
        EventView::User(None) => unauthorized("User not found"@),
        _ => storage_failed("Failed to query user"@),
    }
}

/// Starts a request for the current user, for whom authentication found.
pub fn get_me_as(who: Result<i32, ServiceError>) -> (step: Step<
    CurrentUserFlow,
    Reply<UserResponse>,
>)
    ensures
        step.deep_view() == get_me_plan(outcome_view(who)),
{
    match who {
        Err(e) => Step::Done(Err(e)),
        Ok(user_id) => Step::Ask(CurrentUserFlow { user_id }, Command::FindUserById(user_id)),
    }
}

/// Starts a request for the current user.
pub fn get_me(authorization: Option<&str>, config: &AppConfig) -> (step: Step<
    CurrentUserFlow,
    Reply<UserResponse>,
>)
    ensures
        exists|who: Result<i32, ServiceErrorView>|
            may_authenticate(authorization.deep_view(), who) && step.deep_view()
                == #[trigger] get_me_plan(who),
{
    let who = get_user_from_token(authorization, config);
    let ghost seen = outcome_view(who);
    let step = get_me_as(who);
    assert(step.deep_view() == get_me_plan(seen));
    step
}

impl CurrentUserFlow {
    /// Ends the request with what the store answered.
    pub fn step(self, event: Event) -> (step: Step<CurrentUserFlow, Reply<UserResponse>>)
        ensures
            step.deep_view() == get_me_step(event.deep_view()),
    {
        match event {
            Event::User(Some(user)) => Step::Done(
                Ok(Reply::success(200, "Successfully retrieved user data", UserResponse::from(user))),
            ),
            Event::User(None) => fail_unauthorized("User not found"),
            _ => fail_storage("Failed to query user"),
        }
    }
}

} // verus!
