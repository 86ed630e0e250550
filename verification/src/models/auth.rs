//! Users, credentials, and the response envelope.

use vstd::prelude::*;
use vstd::std_specs::convert::FromSpecImpl;
use vstd::string::*;

verus! {

/// A point in time: microseconds since the Unix epoch, UTC.
pub type Timestamp = i64;

/// A user as the store holds it.
#[derive(Debug, PartialEq, Eq)]
pub struct User {
    pub id: i32,
    pub username: String,
    pub password_hash: String,
    pub name: String,
    pub created_at: Timestamp,
    pub updated_at: Timestamp,
}

/// [`User`] as contracts see it: text as sequences of characters.
pub struct UserView {
    pub id: i32,
    pub username: Seq<char>,
    pub password_hash: Seq<char>,
    pub name: Seq<char>,
    pub created_at: Timestamp,
    pub updated_at: Timestamp,
}

impl DeepView for User {
    type V = UserView;

    open spec fn deep_view(&self) -> UserView {
        UserView {
            id: self.id,
            username: self.username@,
            password_hash: self.password_hash@,
            name: self.name@,
            created_at: self.created_at,
            updated_at: self.updated_at,
        }
    }
}

impl UserView {
    /// What clients get to see of a user: everything but the password hash.
    pub open spec fn public(self) -> UserResponseView {
        UserResponseView {
            id: self.id,
            username: self.username,
            name: self.name,
            created_at: self.created_at,
            updated_at: self.updated_at,
        }
    }
}

/// The public projection of a user.
#[derive(Debug, PartialEq, Eq)]
pub struct UserResponse {
    pub id: i32,
    pub username: String,
    pub name: String,
    pub created_at: Timestamp,
    pub updated_at: Timestamp,
}

/// [`UserResponse`] as contracts see it: text as sequences of characters.
pub struct UserResponseView {
    pub id: i32,
    pub username: Seq<char>,
    pub name: Seq<char>,
    pub created_at: Timestamp,
    pub updated_at: Timestamp,
}

impl DeepView for UserResponse {
    type V = UserResponseView;

    open spec fn deep_view(&self) -> UserResponseView {
        UserResponseView {
            id: self.id,
            username: self.username@,
            name: self.name@,
            created_at: self.created_at,
            updated_at: self.updated_at,
        }
    }
}

impl From<User> for UserResponse {
    fn from(user: User) -> (out: UserResponse) {
        UserResponse {
            id: user.id,
            username: user.username,
            name: user.name,
            created_at: user.created_at,
            updated_at: user.updated_at,
        }
    }
}

impl FromSpecImpl<User> for UserResponse {
    open spec fn obeys_from_spec() -> bool {
        true
    }

    open spec fn from_spec(user: User) -> UserResponse {
        UserResponse {
            id: user.id,
            username: user.username,
            name: user.name,
            created_at: user.created_at,
            updated_at: user.updated_at,
        }
    }
}

/// The body of a login request.
#[derive(Debug, PartialEq, Eq)]
pub struct LoginRequest {
    pub username: String,
    pub password: String,
}

/// [`LoginRequest`] as contracts see it: text as sequences of characters.
pub struct LoginRequestView {
    pub username: Seq<char>,
    pub password: Seq<char>,
}

impl DeepView for LoginRequest {
    type V = LoginRequestView;

    open spec fn deep_view(&self) -> LoginRequestView {
        LoginRequestView { username: self.username@, password: self.password@ }
    }
}

/// What a successful login hands back.
#[derive(Debug, PartialEq, Eq)]
pub struct LoginResponseData {
    pub token: String,
    pub user: UserResponse,
}

/// [`LoginResponseData`] as contracts see it: text as sequences of characters.
pub struct LoginResponseDataView {
    pub token: Seq<char>,
    pub user: UserResponseView,
}

impl DeepView for LoginResponseData {
    type V = LoginResponseDataView;

    open spec fn deep_view(&self) -> LoginResponseDataView {
        LoginResponseDataView { token: self.token@, user: self.user.deep_view() }
    }
}

/// The envelope of every successful response.
#[derive(Debug, PartialEq, Eq)]
pub struct ApiResponse<T> {
    pub status: String,
    pub message: String,
    pub data: Option<T>,
}

/// [`ApiResponse`] as contracts see it: text as sequences of characters.
pub struct ApiResponseView<V> {
    pub status: Seq<char>,
    pub message: Seq<char>,
    pub data: Option<V>,
}

impl<T: DeepView> DeepView for ApiResponse<T> {
    type V = ApiResponseView<T::V>;

    open spec fn deep_view(&self) -> ApiResponseView<T::V> {
        ApiResponseView {
            status: self.status@,
            message: self.message@,
            data: self.data.deep_view(),
        }
    }
}

/// The success envelope with `message` around `data`.
pub open spec fn success_envelope<V>(message: Seq<char>, data: V) -> ApiResponseView<V> {
    ApiResponseView { status: "success"@, message, data: Some(data) }
}

impl<T> ApiResponse<T> {
    /// Wraps `data` as a success.
    pub fn success(message: &str, data: T) -> (out: Self)
        ensures
            out.status@ == "success"@,
            out.message@ == message@,
            out.data == Some(data),
    {
        Self {
            status: String::from_str("success"),
            message: String::from_str(message),
            data: Some(data),
        }
    }
}

/// The envelope of every error response.
#[derive(Debug, PartialEq, Eq)]
pub struct ErrorResponse {
    pub status: String,
    pub message: String,
}

/// [`ErrorResponse`] as contracts see it: text as sequences of characters.
pub struct ErrorResponseView {
    pub status: Seq<char>,
    pub message: Seq<char>,
}

impl DeepView for ErrorResponse {
    type V = ErrorResponseView;

    open spec fn deep_view(&self) -> ErrorResponseView {
        ErrorResponseView { status: self.status@, message: self.message@ }
    }
}

/// A successful answer: the HTTP status and the envelope that goes with it.
#[derive(Debug, PartialEq, Eq)]
pub struct Reply<T> {
    pub status: u16,
    pub body: ApiResponse<T>,
}

/// [`Reply`] as contracts see it: text as sequences of characters.
pub struct ReplyView<V> {
    pub status: u16,
    pub body: ApiResponseView<V>,
}

impl<T: DeepView> DeepView for Reply<T> {
    type V = ReplyView<T::V>;

    open spec fn deep_view(&self) -> ReplyView<T::V> {
        ReplyView { status: self.status, body: self.body.deep_view() }
    }
}

/// The answer with `status` whose envelope reports success with `message`
/// around `data`.
pub open spec fn success_reply<V>(status: u16, message: Seq<char>, data: V) -> ReplyView<V> {
    ReplyView { status, body: success_envelope(message, data) }
}

impl<T: DeepView> Reply<T> {
    /// The answer with `status` that reports success with `message` around `data`.
    pub fn success(status: u16, message: &str, data: T) -> (out: Self)
        ensures
            out.deep_view() == success_reply(status, message@, data.deep_view()),
    {
        Reply { status, body: ApiResponse::success(message, data) }
    }
}

} // verus!
