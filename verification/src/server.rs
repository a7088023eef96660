//! Shared server API pieces: errors, timestamps and GraphQL error messages.
use vstd::prelude::*;

verus! {

/// An error that a server API call reports, with its message.
#[derive(Debug, PartialEq, Eq)]
pub struct ServerApiError {
    pub message: String,
}

/// A point in time the server reported, in microseconds since the Unix epoch.
#[derive(Clone, Copy, Debug, PartialEq, Eq)]
pub struct ServerTimestamp {
    pub micros: i64,
}

/// An error the server meant for the user, with the message to show.
#[derive(Clone, Debug, PartialEq, Eq)]
pub struct UserFacingError {
    pub message: String,
}

/// A GraphQL answer: the expected output, an error meant for the user, or
/// something the client does not know.
pub enum GqlResult<T> {
    Output(T),
    UserFacingError(UserFacingError),
    Unknown,
}

/// Errors of GraphQL requests in this build.
#[derive(Debug, PartialEq, Eq)]
pub enum GraphQLError {
    StagingAccessBlocked,
    HttpError { status: u16 },
}

/// The message shown for any GraphQL error in this build.
pub open spec fn graphql_unavailable_message() -> Seq<char> {
    "Server GraphQL APIs are not available in this build"@
}

/// The user-facing message of a GraphQL error: in this build, always the same.
pub fn get_user_facing_error_message(error: &GraphQLError) -> (s: String)
    ensures
        s@ == graphql_unavailable_message(),
{
    String::from_str("Server GraphQL APIs are not available in this build")
}

/// The request context sent with GraphQL requests; this build sends none.
pub fn get_request_context() {
}

/// An error with the given message.
pub fn server_error(message: &str) -> (e: ServerApiError)
    ensures
        e.message@ == message@,
{
    ServerApiError { message: String::from_str(message) }
}

} // verus!
