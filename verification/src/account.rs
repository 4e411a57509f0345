//! Accounts: registering with a password, and logging in with it.
//!
//! Passwords are stored as bcrypt hashes. The database is read and written
//! around these functions; they decide what to store and whom to let in.

use vstd::prelude::*;

use crate::api::ServerError;
use crate::text::same_text;

verus! {

#[verifier::external_type_specification]
#[verifier::external_body]
pub struct ExBcryptError(bcrypt::BcryptError);

/// What `bcrypt::verify(password, hash)` returns: `Some(b)` for `Ok(b)`, `None`
/// for an error. It is a function of its two arguments alone: the hash string
/// carries the cost and the salt.
pub uninterp spec fn bcrypt_verify(password: Seq<char>, hash: Seq<char>) -> Option<bool>;

/// Whether logging in with `password` against the stored hash `stored` succeeds.
pub open spec fn login_accepts(password: Seq<char>, stored: Seq<char>) -> bool {
    bcrypt_verify(password, stored) == Some(true)
}

/// Calls `bcrypt::verify`, which recomputes the hash of `password` with the
/// cost and salt read from `hash` and compares.
///
/// The result is `bcrypt_verify` of the two texts. A hash that is not 60 ASCII
/// characters is refused with an error before anything else is done; which
/// error comes back is left open.
#[verifier::external_body]
fn verify_password(password: &str, hash: &str) -> (res: Result<bool, bcrypt::BcryptError>)
    ensures
        res is Ok <==> bcrypt_verify(password@, hash@) is Some,
        res matches Ok(b) ==> bcrypt_verify(password@, hash@) == Some(b),
        !(vstd::utf8::is_ascii_chars(hash@) && hash@.len() == 60) ==> res is Err,
{
    bcrypt::verify(password, hash)
}

/// Calls `bcrypt::hash` with `bcrypt::DEFAULT_COST` (12), which draws a random
/// salt from the operating system.
///
/// A hash it returns is 60 ASCII characters ("$2b$12$", the salt, the digest),
/// and `bcrypt::verify` accepts the same password against it, since it parses
/// the cost and salt back from that string. The hash itself depends on the
/// random salt and is left open, as is when the salt cannot be drawn (the only
/// error at this cost).
#[verifier::external_body]
fn hash_password(password: &str) -> (res: Result<String, bcrypt::BcryptError>)
    ensures
        res matches Ok(h) ==> {
            &&& login_accepts(password@, h@)
            &&& vstd::utf8::is_ascii_chars(h@)
            &&& h@.len() == 60
        },
{
    bcrypt::hash(password, bcrypt::DEFAULT_COST)
}

/// Why registering or logging in failed.
#[derive(Debug)]
pub enum AccountError {
    /// A failure reported to the client as it is.
    Server(ServerError),
    /// Hashing or checking the password failed.
    Hashing(bcrypt::BcryptError),
}

/// Registration, once the database has said whether the name is taken
/// (`None` when it could not say): the password hash to store for the new account.
pub fn create_account(password: &str, username_exists: Option<bool>) -> (res: Result<
    String,
    AccountError,
>)
    ensures
        username_exists is None ==> res matches Err(AccountError::Server(ServerError::UnknownError)),
        username_exists == Some(true) ==> res matches Err(AccountError::Server(ServerError::UsernameExists)),
        username_exists == Some(false) ==> res is Ok || res matches Err(AccountError::Hashing(_)),
        res matches Ok(hash) ==> stored_hash_for(password@, hash@),
{
    let exists = match username_exists {
        Some(b) => b,
        None => return Err(AccountError::Server(ServerError::UnknownError)),
    };
    if exists {
        return Err(AccountError::Server(ServerError::UsernameExists));
    }
    match hash_password(password) {
        Ok(hash) => Ok(hash),
        Err(e) => Err(AccountError::Hashing(e)),
    }
}

/// The outcome of a login once the password was checked against the stored
/// hash: the user's id when it matched.
pub fn login_outcome(user_id: i64, verified: Result<bool, bcrypt::BcryptError>) -> (res: Result<
    i64,
    AccountError,
>)
    ensures
        verified matches Ok(true) ==> res == Ok::<i64, AccountError>(user_id),
        verified matches Ok(false) ==> res matches Err(AccountError::Server(ServerError::FailedLogin)),
        verified is Err ==> res matches Err(AccountError::Hashing(_)),
{
    match verified {
        Ok(true) => Ok(user_id),
        Ok(false) => Err(AccountError::Server(ServerError::FailedLogin)),
        Err(e) => Err(AccountError::Hashing(e)),
    }
}

/// How a login is answered.
#[derive(Clone, Copy, Debug, PartialEq, Eq, Structural)]
pub enum LoginVerdict {
    /// The password matches: the user with this id is logged in.
    Accepted(i64),
    /// No account has that name, or the password does not match; both are
    /// answered alike, so the answer does not tell whether the name exists.
    WrongCredentials,
    /// The stored hash could not be checked.
    BadHash,
}

/// The account found for the submitted name, as texts: its id and stored hash.
pub open spec fn account_view(account: Option<(i64, &str)>) -> Option<(i64, Seq<char>)> {
    match account {
        Some((id, hash)) => Some((id, hash@)),
        None => None,
    }
}

/// How a login with `password` is answered, given the account found for the
/// submitted name (none when no account has it).
pub open spec fn login_verdict(account: Option<(i64, Seq<char>)>, password: Seq<char>) -> LoginVerdict {
    match account {
        None => LoginVerdict::WrongCredentials,
        Some((id, hash)) => match bcrypt_verify(password, hash) {
            Some(true) => LoginVerdict::Accepted(id),
            Some(false) => LoginVerdict::WrongCredentials,
            None => LoginVerdict::BadHash,
        },
    }
}

/// Login, once the database has looked up the account with the submitted
/// name (`None` when there is none): the user's id when the password matches.
/// An unknown name is answered as a wrong password is.
pub fn check_login_details(account: Option<(i64, &str)>, password: &str) -> (res: Result<
    i64,
    AccountError,
>)
    ensures
        match login_verdict(account_view(account), password@) {
            LoginVerdict::Accepted(id) => res == Ok::<i64, AccountError>(id),
            LoginVerdict::WrongCredentials => res matches Err(
                AccountError::Server(ServerError::FailedLogin),
            ),
            LoginVerdict::BadHash => res matches Err(AccountError::Hashing(_)),
        },
{
    match account {
        None => Err(AccountError::Server(ServerError::FailedLogin)),
        Some((user_id, password_hash)) => login_outcome(
            user_id,
            verify_password(password, password_hash),
        ),
    }
}

/// What registration promises of the hash it hands back for storage: a bcrypt
/// hash string of 60 ASCII characters that accepts the password.
pub open spec fn stored_hash_for(password: Seq<char>, hash: Seq<char>) -> bool {
    &&& login_accepts(password, hash)
    &&& vstd::utf8::is_ascii_chars(hash)
    &&& hash.len() == 60
}

/// An account logs in with the password it was created with: once the hash
/// `create_account` handed back is stored for the account with id `id`, a
/// login with the same password is accepted as that account.
pub proof fn lemma_created_account_accepts_its_password(
    id: i64,
    password: Seq<char>,
    hash: Seq<char>,
)
    requires
        stored_hash_for(password, hash),
    ensures
        login_verdict(Some((id, hash)), password) == LoginVerdict::Accepted(id),
{
}

/// A login is accepted, as the account found, exactly when bcrypt accepts the
/// password against that account's stored hash; a rejected password is a
/// failed login, and a hash bcrypt cannot read is reported as such.
pub proof fn lemma_login_verdict(id: i64, password: Seq<char>, hash: Seq<char>)
    ensures
        bcrypt_verify(password, hash) == Some(true) ==> login_verdict(Some((id, hash)), password)
            == LoginVerdict::Accepted(id),
        bcrypt_verify(password, hash) == Some(false) ==> login_verdict(Some((id, hash)), password)
            == LoginVerdict::WrongCredentials,
        bcrypt_verify(password, hash) is None ==> login_verdict(Some((id, hash)), password)
            == LoginVerdict::BadHash,
        forall|other: i64|
            login_verdict(Some((id, hash)), password) == LoginVerdict::Accepted(other) ==> other
                == id,
        login_verdict(None, password) == LoginVerdict::WrongCredentials,
{
}

/// A login never tells an unknown name from a wrong password: both are
/// refused with the same answer, and an unknown name is never accepted.
pub proof fn lemma_unknown_name_answered_as_wrong_password(
    id: i64,
    password: Seq<char>,
    hash: Seq<char>,
)
    requires
        bcrypt_verify(password, hash) == Some(false),
    ensures
        login_verdict(None, password) == login_verdict(Some((id, hash)), password),
        login_verdict(None, password) == LoginVerdict::WrongCredentials,
{
}

/// Whether the registration form may be sent: a name is given, the password
/// is typed the same twice, and it is at least 3 bytes long.
pub open spec fn registration_form_ok(
    username: Seq<char>,
    password: Seq<char>,
    password_repeat: Seq<char>,
) -> bool {
    &&& username.len() > 0
    &&& password == password_repeat
    &&& crate::text::utf8_of(password).len() >= 3
}

/// The form is sent exactly when a name is given, the password is typed the
/// same twice, and the password takes at least 3 bytes; so a repeat that
/// differs from the password in any way, a prefix of it included, is refused.
pub proof fn lemma_registration_form(
    username: Seq<char>,
    password: Seq<char>,
    password_repeat: Seq<char>,
)
    ensures
        registration_form_ok(username, password, password_repeat) ==> password == password_repeat,
        registration_form_ok(username, password, password_repeat) ==> username.len() > 0,
        registration_form_ok(username, password, password_repeat) <==> (username.len() > 0
            && password == password_repeat && crate::text::utf8_of(password).len() >= 3),
{
}

/// Checks the registration form before it is sent.
pub fn registration_form_valid(username: &str, password: &str, password_repeat: &str) -> (ok: bool)
    ensures
        ok == registration_form_ok(username@, password@, password_repeat@),
        ok == (username@.len() > 0 && password@ == password_repeat@ && crate::text::utf8_of(
            password@,
        ).len() >= 3),
{
    !username.is_empty() && same_text(password, password_repeat) && password.as_bytes().len() >= 3
}

} // verus!
