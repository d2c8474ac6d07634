//! Creating users and logging in.
use vstd::prelude::*;
use vstd::utf8::encode_utf8;

use crate::error::{DbError, GqlApiError};
use crate::ids::new_id;
use crate::models::DbUser;
use crate::password::{
    argon2_accepts, argon2_verify_errs, argon2id_default_prefix, check_password, hash_password, phc_hash_parses,
    PasswordCheck, MAX_PASSWORD_LEN,
};
use crate::time::{now, Timestamp};

verus! {

/// Input of `createUser`.
#[derive(Debug)]
pub struct CreateUserInput {
    pub email: String,
    pub password: String,
}

/// Input of `loginUser`.
#[derive(Debug)]
pub struct LoginUserInput {
    pub email: String,
    pub password: String,
}

/// Whether the stored hash of `user` accepts `password`.
pub open spec fn password_accepted(password: Seq<u8>, user: DbUser) -> bool {
    phc_hash_parses(user.password_hash@) && argon2_accepts(password, user.password_hash@)
}

/// Whether the readable stored hash of `user` rejects `password` as wrong (and not
/// for another reason, such as unusable parameters).
pub open spec fn password_rejected(password: Seq<u8>, user: DbUser) -> bool {
    &&& phc_hash_parses(user.password_hash@)
    &&& !argon2_accepts(password, user.password_hash@)
    &&& !argon2_verify_errs(password, user.password_hash@)
}

/// Whether a login with `password` for the looked-up user is refused as invalid
/// credentials: no user has the email, or its hash rejects the password.
pub open spec fn login_refused(password: Seq<u8>, lookup: Result<DbUser, DbError>) -> bool {
    match lookup {
        Err(DbError::NotFound) => true,
        Err(DbError::Other(_)) => false,
        Ok(user) => password_rejected(password, user),
    }
}

/// Logs a user in: the user looked up by email must exist and the password must match
/// its hash. A missing user and a wrong password are both reported as invalid
/// credentials; other failures are internal.
pub fn authenticate(input: &LoginUserInput, lookup: Result<DbUser, DbError>) -> (r: Result<DbUser, GqlApiError>)
    ensures
        (r is Ok) == (lookup is Ok && password_accepted(encode_utf8(input.password@), lookup->Ok_0)),
        r matches Ok(u) ==> u == lookup->Ok_0,
        (r matches Err(GqlApiError::InvalidCredentials)) == login_refused(encode_utf8(input.password@), lookup),
        (r matches Err(GqlApiError::Internal { .. })) == (!(r is Ok) && !login_refused(
            encode_utf8(input.password@),
            lookup,
        )),
        lookup matches Err(DbError::NotFound) ==> r matches Err(GqlApiError::InvalidCredentials),
        lookup is Ok && !phc_hash_parses(lookup->Ok_0.password_hash@) ==> r matches Err(GqlApiError::Internal { .. }),
        lookup matches Err(DbError::Other(_)) ==> r matches Err(GqlApiError::Internal { .. }),
        lookup matches Err(DbError::Other(d)) ==> (r matches Err(GqlApiError::Internal { message, underlying_error })
            && message@ == "Error while fetching user '"@ + input.email@ + "'"@ && underlying_error == d),
        lookup matches Ok(u) ==> (!phc_hash_parses(u.password_hash@) ==> (r matches Err(
            GqlApiError::Internal { message, .. },
        ) && message@ == "Unable to read password hash '"@ + u.password_hash@ + "' of user '"@ + u.email@
            + "'"@)),
        lookup matches Ok(u) ==> ((phc_hash_parses(u.password_hash@) && !argon2_accepts(
            encode_utf8(input.password@),
            u.password_hash@,
        ) && argon2_verify_errs(encode_utf8(input.password@), u.password_hash@)) ==> (r matches Err(
            GqlApiError::Internal { message, .. },
        ) && message@ == "Unable to verify password for user '"@ + input.email@ + "'"@)),
{
    match lookup {
        Err(DbError::NotFound) => Err(GqlApiError::InvalidCredentials),
        Err(DbError::Other(d)) => {
            let mut m = String::from_str("Error while fetching user '");
            m.append(input.email.as_str());
            m.append("'");
            Err(GqlApiError::internal(m, d))
        },
        Ok(user) => match check_password(input.password.as_str().as_bytes(), user.password_hash.as_str()) {
            PasswordCheck::Match => Ok(user),
            PasswordCheck::Mismatch => Err(GqlApiError::InvalidCredentials),
            PasswordCheck::UnreadableHash(e) => {
                let mut m = String::from_str("Unable to read password hash '");
                m.append(user.password_hash.as_str());
                m.append("' of user '");
                m.append(user.email.as_str());
                m.append("'");
                Err(GqlApiError::internal(m, e))
            },
            PasswordCheck::Failed(e) => {
                let mut m = String::from_str("Unable to verify password for user '");
                m.append(input.email.as_str());
                m.append("'");
                Err(GqlApiError::internal(m, e))
            },
        },
    }
}


/// Whether `user` was made for `email` with a hash that accepts `password`.
pub open spec fn registered_with(user: DbUser, email: Seq<char>, password: Seq<u8>) -> bool {
    &&& user.email@ == email
    &&& phc_hash_parses(user.password_hash@)
    &&& argon2_accepts(password, user.password_hash@)
}

/// The row of a new user with the given id, time of creation and password hash.
pub fn new_user(input: CreateUserInput, id: u128, now: Timestamp, password_hash: String) -> (u: DbUser)
    ensures
        u.id == id,
        u.email == input.email,
        u.password_hash == password_hash,
        u.created_at == now,
        u.updated_at == now,
{
    DbUser { id, email: input.email, password_hash, created_at: now, updated_at: now }
}

/// The row of a new user: a fresh id, the current time and an Argon2id hash (default
/// parameters) of the password with a fresh salt. Fails (internally) only for a
/// password too long for Argon2.
pub fn register_user(input: CreateUserInput) -> (r: Result<DbUser, GqlApiError>)
    ensures
        (r is Ok) == (encode_utf8(input.password@).len() <= MAX_PASSWORD_LEN),
        r matches Ok(u) ==> registered_with(u, input.email@, encode_utf8(input.password@)),
        r matches Ok(u) ==> argon2id_default_prefix().is_prefix_of(u.password_hash@),
        r matches Ok(u) ==> u.created_at == u.updated_at && u.created_at.wf(),
        r matches Err(e) ==> e is Internal,
        r matches Err(e) ==> (e matches GqlApiError::Internal { message, .. } && message@
            == "Unable to create hash for new user"@),
{
    match hash_password(input.password.as_str().as_bytes()) {
        Ok(hash) => {
            let t = now();
            Ok(new_user(input, new_id(), t, hash))
        },
        Err(e) => Err(GqlApiError::internal(String::from_str("Unable to create hash for new user"), e)),
    }
}

/// An unknown email and a wrong password get the same answer: both logins are
/// refused as invalid credentials, so a client cannot tell which it was.
pub proof fn lemma_unknown_email_like_wrong_password(password: Seq<u8>, other: Seq<u8>, user: DbUser)
    requires
        password_rejected(other, user),
    ensures
        login_refused(password, Err(DbError::NotFound)),
        login_refused(other, Ok(user)),
{
}

/// A user created with a password can log in with that password: `authenticate`
/// accepts the password for the row that `register_user` produced.
pub proof fn lemma_registered_password_logs_in(user: DbUser, email: Seq<char>, password: Seq<char>)
    requires
        registered_with(user, email, encode_utf8(password)),
    ensures
        password_accepted(encode_utf8(password), user),
{
}

} // verus!
