//! The errors that GraphQL queries, mutations and resolvers report, and the message
//! that a client sees for each.
use vstd::prelude::*;

use crate::ids::{uuid_string, uuid_text};

verus! {

/// Errors that occur while executing a GraphQL query, mutation or resolver.
#[derive(Debug)]
pub enum GqlApiError {
    /// An internal error whose details are only logged, never shown to the client.
    Internal {
        /// Context of the error for the log.
        message: String,
        /// The underlying error (message).
        underlying_error: String,
    },
    /// A requested entry was not found.
    NotFound(String),
    /// Invalid (login) credentials were provided.
    InvalidCredentials,
    /// Invalid input was provided.
    InvalidInput(String),
}

/// The message that a client receives for an internal error.
pub open spec fn internal_error_message() -> Seq<char> {
    "Encountered an internal error while processing this request. See server logs for more details."@
}

/// The message that a client receives for invalid credentials.
pub open spec fn invalid_credentials_message() -> Seq<char> {
    "Invalid email or password"@
}

/// The message of a GraphQL error as the client receives it.
pub open spec fn client_message_of(e: GqlApiError) -> Seq<char> {
    match e {
        GqlApiError::Internal { .. } => internal_error_message(),
        GqlApiError::NotFound(msg) => msg@,
        GqlApiError::InvalidCredentials => invalid_credentials_message(),
        GqlApiError::InvalidInput(msg) => "Invalid input provided: "@ + msg@,
    }
}

/// `<kind> with ID '<id>' not found`
pub open spec fn entity_not_found_message(kind: Seq<char>, id: u128) -> Seq<char> {
    kind + " with ID '"@ + uuid_string(id) + "' not found"@
}

impl GqlApiError {
    /// An internal error with a context message and the underlying error.
    pub fn internal(msg: String, detail: String) -> (e: Self)
        ensures
            e == (GqlApiError::Internal { message: msg, underlying_error: detail }),
    {
        GqlApiError::Internal { message: msg, underlying_error: detail }
    }

    /// A "not found" error with the given message.
    pub fn not_found(msg: String) -> (e: Self)
        ensures
            e == GqlApiError::NotFound(msg),
    {
        GqlApiError::NotFound(msg)
    }

    /// An "invalid input" error with the given message.
    pub fn invalid_input(msg: String) -> (e: Self)
        ensures
            e == GqlApiError::InvalidInput(msg),
    {
        GqlApiError::InvalidInput(msg)
    }

    /// The "not found" error for the entity of the given kind and identifier.
    pub fn entity_not_found(kind: &str, id: u128) -> (e: Self)
        ensures
            e matches GqlApiError::NotFound(m) && m@ == entity_not_found_message(kind@, id),
    {
        let mut m = String::from_str(kind);
        m.append(" with ID '");
        let t = uuid_text(id);
        m.append(t.as_str());
        m.append("' not found");
        GqlApiError::NotFound(m)
    }

    /// The message that the client receives for this error: internal errors and
    /// invalid credentials are reported with fixed texts, the others with their
    /// message.
    pub fn client_message(&self) -> (m: String)
        ensures
            m@ == client_message_of(*self),
    {
        match self {
            GqlApiError::Internal { .. } => String::from_str(
                "Encountered an internal error while processing this request. See server logs for more details.",
            ),
            GqlApiError::NotFound(msg) => msg.clone(),
            GqlApiError::InvalidCredentials => String::from_str("Invalid email or password"),
            GqlApiError::InvalidInput(msg) => {
                let mut m = String::from_str("Invalid input provided: ");
                m.append(msg.as_str());
                m
            },
        }
    }
}

/// The value of an optional lookup, or the "not found" error of its entity.
pub fn require_found<T>(value: Option<T>, kind: &str, id: u128) -> (r: Result<T, GqlApiError>)
    ensures
        value is Some ==> r == Ok::<T, GqlApiError>(value->0),
        value is None ==> (r matches Err(GqlApiError::NotFound(m)) && m@ == entity_not_found_message(kind@, id)),
{
    match value {
        Some(v) => Ok(v),
        None => Err(GqlApiError::entity_not_found(kind, id)),
    }
}

/// Whatever went wrong inside, a client sees one and the same message for an internal
/// error: no context and no underlying error reaches it.
pub proof fn lemma_internal_details_stay_hidden(a: GqlApiError, b: GqlApiError)
    requires
        a is Internal,
        b is Internal,
    ensures
        client_message_of(a) == client_message_of(b),
{
}


/// How a database statement failed, as far as the resolvers distinguish it.
#[derive(Debug)]
pub enum DbError {
    /// The statement found no row.
    NotFound,
    /// Any other failure, with its message.
    Other(String),
}

/// The error of a failed lookup or update of the entity of the given kind and id: a
/// missing row is reported to the client, any other failure is internal and logged
/// with `context`.
pub fn lookup_failure(e: DbError, kind: &str, id: u128, context: String) -> (r: GqlApiError)
    ensures
        e is NotFound ==> (r matches GqlApiError::NotFound(m) && m@ == entity_not_found_message(kind@, id)),
        e matches DbError::Other(d) ==> r == (GqlApiError::Internal { message: context, underlying_error: d }),
{
    match e {
        DbError::NotFound => GqlApiError::entity_not_found(kind, id),
        DbError::Other(d) => GqlApiError::internal(context, d),
    }
}

} // verus!
