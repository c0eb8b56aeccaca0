use crate::password::{argon2_verify, hash_password, verify_hash, MAX_PASSWORD_BYTES};
use crate::reply::{AppError, Status};
use vstd::prelude::*;
use vstd::utf8::encode_utf8;

verus! {

/// The registration form. The e-mail address is accepted but not stored.
pub struct RegisterForm {
    pub username: String,
    pub email: String,
    pub password: String,
}

/// The login form.
pub struct LoginForm {
    pub username: String,
    pub password: String,
}

/// The row to insert for a new account: the name and the PHC string of the
/// salted password hash.
pub struct NewUser {
    pub username: String,
    pub password_hash: String,
}

/// A stored account, as read back by its name.
pub struct User {
    pub id: i32,
    pub username: String,
    pub password: String,
}

/// `user` is what registering `form` stores: the same name, and a hash that
/// the registered password verifies against.
pub open spec fn registered(form: RegisterForm, user: NewUser) -> bool {
    &&& user.username@ == form.username@
    &&& argon2_verify(form.password@, user.password_hash@) == Some(true)
}

/// Turns a registration form into the row to store, hashing the password
/// under a fresh salt. Fails only where the password is too long to hash.
pub fn register(form: &RegisterForm) -> (r: Result<NewUser, AppError>)
    ensures
        r is Ok <==> encode_utf8(form.password@).len() <= MAX_PASSWORD_BYTES,
        r matches Ok(user) ==> registered(*form, user),
        r matches Err(e) ==> e == AppError::Hashing,
{
    match hash_password(form.password.as_str()) {
        Some(password_hash) => Ok(NewUser { username: form.username.clone(), password_hash }),
        None => Err(AppError::Hashing),
    }
}

/// The answer to a registration, given how the insert of the new row went.
pub fn registration_status(inserted: Result<(), AppError>) -> (r: Status)
    ensures
        r == (if inserted is Ok {
            Status::Created
        } else {
            Status::InternalServerError
        }),
{
    match inserted {
        Ok(()) => Status::Created,
        Err(e) => e.status(),
    }
}

/// The answer to a login with `password`, where `stored` is the account found
/// under the given name, if any. An unknown name and a wrong password are not
/// told apart; a stored hash that cannot be read is an internal error.
pub open spec fn login_outcome(password: Seq<char>, stored: Option<User>) -> Status {
    match stored {
        None => Status::Unauthorized,
        Some(user) => match argon2_verify(password, user.password@) {
            Some(true) => Status::Success,
            Some(false) => Status::Unauthorized,
            None => Status::InternalServerError,
        },
    }
}

/// The answer to a login, given the result of looking the account up by the
/// form's name.
pub fn login_status(form: &LoginForm, lookup: Result<Option<User>, AppError>) -> (r: Status)
    ensures
        r == (match lookup {
            Ok(stored) => login_outcome(form.password@, stored),
            Err(_) => Status::InternalServerError,
        }),
{
    match lookup {
        Err(e) => e.status(),
        Ok(None) => Status::Unauthorized,
        Ok(Some(user)) => match verify_hash(form.password.as_str(), user.password.as_str()) {
            Some(true) => Status::Success,
            Some(false) => Status::Unauthorized,
            None => Status::InternalServerError,
        },
    }
}

/// Registering and then logging in with the same password succeeds: an
/// account stored from a registration form, once read back, is let in by a
/// login form that carries the registered password.
pub proof fn lemma_register_then_login(
    form: RegisterForm,
    user: NewUser,
    stored: User,
    login: LoginForm,
)
    requires
        registered(form, user),
        stored.username@ == user.username@,
        stored.password@ == user.password_hash@,
        login.username@ == form.username@,
        login.password@ == form.password@,
    ensures
        login_outcome(login.password@, Some(stored)) == Status::Success,
{
}

/// Logging in with a password that the stored hash rejects, or under a name
/// that no account has, is answered as unauthorized.
pub proof fn lemma_wrong_password_unauthorized(login: LoginForm, stored: Option<User>)
    requires
        stored matches Some(user) ==> argon2_verify(login.password@, user.password@) == Some(
            false,
        ),
    ensures
        login_outcome(login.password@, stored) == Status::Unauthorized,
{
}

} // verus!
