//! Users: registration, login, the creation of the administrator, and the
//! records exchanged with storage.
//!
//! Passwords are stored as Argon2 PHC strings: registration hashes the
//! password with a fresh random salt, and login verifies the password given
//! against the stored string.

pub mod errors;
pub mod events;
pub mod models;
pub mod register_user_error;
pub mod user_id;
pub mod user_list;

use vstd::prelude::*;
use argon2::{Argon2, PasswordHash, PasswordHasher, PasswordVerifier};
use argon2::password_hash::rand_core::OsRng;
use argon2::password_hash::SaltString;
use crate::DataError;
use crate::DomainError;
use crate::users::errors::{LoginError, RegisterUserError};
use crate::users::events::{was_sent, AfterRegisterUserEvent, UserEventsContainer, UsrEvents};
use crate::users::models::claims::{Claims, ClaimsTrait};
use crate::users::user_id::UserId;

verus! {

/// A stored user.
#[derive(Clone)]
pub struct User {
    pub id: String,
    pub username: String,
    pub password: String,
}

/// A user to add by name alone.
#[derive(Clone)]
pub struct AddUser {
    pub username: String,
}

/// A user to register: the name and the hashed password.
#[derive(Clone)]
pub struct RegisterUser {
    pub username: String,
    pub password: String,
}

/// Credentials given at login.
pub struct LoginUser {
    pub username: String,
    pub password: String,
}

/// What [`hash_password`] gives back: the PHC string of the Argon2 hash of a
/// password with a salt, or `None` when Argon2 refuses them.
pub uninterp spec fn argon2_encoded(password: Seq<char>, salt: Seq<char>) -> Option<Seq<char>>;

/// What [`verify_password`] gives back: whether a password matches a stored
/// PHC string, or `None` when the string is no PHC string.
pub uninterp spec fn argon2_verified(password: Seq<char>, stored: Seq<char>) -> Option<bool>;

/// The start of every PHC string that the default Argon2 context writes: the
/// algorithm (Argon2id), the version (19) and the default parameters.
pub open spec fn phc_prefix() -> Seq<char> {
    "$argon2id$v=19$m=19456,t=2,p=1$"@
}

/// `h` is a PHC string of the default Argon2 context with salt `salt`: the
/// prefix, the salt, a `$`, and the 43 B64 characters of the 32-byte hash.
pub open spec fn phc_form(h: Seq<char>, salt: Seq<char>) -> bool {
    &&& h.len() == phc_prefix().len() + salt.len() + 44
    &&& h.subrange(0, (phc_prefix().len() + salt.len() + 1) as int) == phc_prefix() + salt + seq!['$']
}

/// A character of the standard B64 alphabet.
pub open spec fn is_b64_char(c: char) -> bool {
    ('A' <= c && c <= 'Z') || ('a' <= c && c <= 'z') || ('0' <= c && c <= '9') || c == '+'
        || c == '/'
}

/// The value of a character of the standard B64 alphabet
/// (`A`-`Z`, `a`-`z`, `0`-`9`, `+`, `/` in that order).
pub open spec fn b64_value(c: char) -> int {
    if 'A' <= c && c <= 'Z' {
        (c as int) - ('A' as int)
    } else if 'a' <= c && c <= 'z' {
        (c as int) - ('a' as int) + 26
    } else if '0' <= c && c <= '9' {
        (c as int) - ('0' as int) + 52
    } else if c == '+' {
        62
    } else {
        63
    }
}

/// A salt text that hashing accepts: the canonical unpadded B64 text of 8 to
/// 48 bytes. That is 11 to 64 characters of the B64 alphabet, not one more
/// than a multiple of 4 (such a text decodes to no whole byte), and, where the
/// last group is short, a last character that carries no bits beyond the
/// last byte (of a group of 2 characters the value's low 4 bits are 0, of a
/// group of 3 its low 2 bits).
pub open spec fn argon2_salt(salt: Seq<char>) -> bool {
    &&& 11 <= salt.len() <= 64
    &&& salt.len() % 4 != 1
    &&& forall|i: int| 0 <= i < salt.len() ==> is_b64_char(#[trigger] salt[i])
    &&& salt.len() % 4 == 2 ==> b64_value(salt.last()) % 16 == 0
    &&& salt.len() % 4 == 3 ==> b64_value(salt.last()) % 4 == 0
}

/// The password and salt that hashing accepts: a password of at most
/// `0xFFFF_FFFF` UTF-8 bytes and a salt that `argon2_salt` describes.
pub open spec fn hash_accepts(password: Seq<char>, salt: Seq<char>) -> bool {
    &&& vstd::utf8::encode_utf8(password).len() <= 0xFFFF_FFFF
    &&& argon2_salt(salt)
}

/// Calls `SaltString::generate` with the operating system's random source and
/// gives back the salt's B64 text. The salt is random; the contract claims
/// only that hashing accepts it: it is the canonical B64 text of 16 random
/// bytes, 22 characters of the B64 alphabet (`argon2_salt`).
#[verifier::external_body]
fn generate_salt() -> (salt: String)
    ensures
        argon2_salt(salt@),
{
    SaltString::generate(&mut OsRng).as_str().to_string()
}

/// Calls `PasswordHasher::hash_password` of the default `Argon2` context on
/// the password's bytes with the salt (read from its B64 text by
/// `SaltString::from_b64`) and gives back the hash as a PHC string. The
/// contract claims that the result is a function of the password and the
/// salt (named `argon2_encoded`), and that verifying the same password against
/// the string it gives succeeds: the verifier recomputes the hash with the
/// algorithm, version, parameters and salt that the string records. It also
/// claims the form of the string, which `PasswordHash`'s `Display` writes as
/// `$argon2id$v=19$m=19456,t=2,p=1$`, the salt's text, `$`, and the 32-byte
/// output in 43 B64 characters; and that hashing succeeds exactly for the
/// passwords of at most `0xFFFF_FFFF` UTF-8 bytes with a salt that
/// `argon2_salt` describes: `from_b64` accepts 4 to 64 characters of the PHC
/// salt alphabet, the B64 decoder refuses `.` and `-`, a text one more than a
/// multiple of 4 long, and a last character with bits beyond the last byte,
/// and Argon2 refuses passwords beyond `0xFFFF_FFFF` bytes and salts below 8
/// bytes.
#[verifier::external_body]
fn hash_password(password: &str, salt: &str) -> (r: Option<String>)
    ensures
        r.deep_view() == argon2_encoded(password@, salt@),
        r matches Some(h) ==> argon2_verified(password@, h@) == Some(true),
        r matches Some(h) ==> phc_form(h@, salt@),
        r is Some <==> hash_accepts(password@, salt@),
{
    let salt = match SaltString::from_b64(salt) {
        Ok(s) => s,
        Err(_) => return None,
    };
    match Argon2::default().hash_password(password.as_bytes(), &salt) {
        Ok(hash) => Some(hash.to_string()),
        Err(_) => None,
    }
}

/// Calls `PasswordVerifier::verify_password` of the default `Argon2` context
/// on the password's bytes and the stored hash (read by `PasswordHash::new`).
/// The contract claims only that the result is a function of the password and
/// the stored text (named `argon2_verified`); `None` when the text is no PHC
/// string, otherwise whether verification succeeded.
#[verifier::external_body]
fn verify_password(password: &str, stored: &str) -> (r: Option<bool>)
    ensures
        r == argon2_verified(password@, stored@),
{
    match PasswordHash::new(stored) {
        Ok(hash) => Some(Argon2::default().verify_password(password.as_bytes(), &hash).is_ok()),
        Err(_) => None,
    }
}

/// The registration of `username` with `password`, hashed with `salt`;
/// `None` when Argon2 refuses them.
pub fn registration_with_salt(username: String, password: &str, salt: &str) -> (r: Option<
    RegisterUser,
>)
    ensures
        argon2_encoded(password@, salt@) is None ==> r is None,
        argon2_encoded(password@, salt@) matches Some(h) ==> (r matches Some(u) && u.username@
            == username@ && u.password@ == h),
        r matches Some(u) ==> argon2_verified(password@, u.password@) == Some(true),
        r matches Some(u) ==> phc_form(u.password@, salt@),
        r is Some <==> hash_accepts(password@, salt@),
{
    match hash_password(password, salt) {
        Some(encoded) => Some(RegisterUser { username, password: encoded }),
        None => None,
    }
}

/// The registration of `username` with `password`, hashed with a fresh random
/// salt. It succeeds for every password of at most `0xFFFF_FFFF` UTF-8 bytes,
/// and the stored string always verifies the password it was made from.
pub fn prepare_registration(username: String, password: &str) -> (r: Option<RegisterUser>)
    ensures
        vstd::utf8::encode_utf8(password@).len() <= 0xFFFF_FFFF ==> r is Some,
        r matches Some(u) ==> u.username@ == username@ && argon2_verified(password@, u.password@)
            == Some(true),
        r matches Some(u) ==> exists|salt: Seq<char>|
            argon2_encoded(password@, salt) == Some(u.password@) && #[trigger] phc_form(
                u.password@,
                salt,
            ),
{
    let salt = generate_salt();
    let r = registration_with_salt(username, password, salt.as_str());
    proof {
        if r is Some {
            assert(phc_form(r->0.password@, salt@));
        }
    }
    r
}

/// What storage's answer to a registration becomes: on success the new user's
/// identifier, and the event that announces the user; on failure a
/// registration error with the storage error's message, and no event.
pub fn registration_outcome<E: DataError>(result: Result<UserId, E>) -> (r: (
    Result<UserId, RegisterUserError>,
    Option<AfterRegisterUserEvent>,
))
    ensures
        result matches Ok(id) ==> (r.0 matches Ok(i) && i.value@ == id.value@) && (r.1 matches Some(
            ev,
        ) && ev.user_id.value@ == id.value@),
        result matches Err(e) ==> (r.0 matches Err(err) && err.message_view() == e.message_view())
            && r.1 is None,
{
    match result {
        Ok(user_id) => {
            let event = AfterRegisterUserEvent { user_id: UserId { value: user_id.value.clone() } };
            (Ok(user_id), Some(event))
        },
        Err(data_error) => (Err(RegisterUserError::new(data_error.message())), None),
    }
}

/// Finishes a registration once storage answered: announces a new user to the
/// listeners and gives back its identifier, or gives back the registration
/// error.
pub fn finish_registration<E: DataError>(events: &UserEventsContainer, result: Result<UserId, E>) -> (r:
    Result<UserId, RegisterUserError>)
    requires
        events.paired(),
    ensures
        result matches Ok(id) ==> (r matches Ok(i) && i.value@ == id.value@),
        result matches Ok(id) ==> was_sent(events.channel(), id.value@),
        result matches Err(e) ==> (r matches Err(err) && err.message_view() == e.message_view()),
{
    let (outcome, event) = registration_outcome(result);
    match event {
        Some(ev) => {
            let _sent = events.notify(UsrEvents::AfterRegister(ev));
        },
        None => {},
    }
    outcome
}

/// The message of a login by an unknown name ("user not found").
pub open spec fn user_not_found() -> Seq<char> {
    "Пользователь не найден"@
}

/// The message of a login with a wrong password ("wrong password").
pub open spec fn wrong_password() -> Seq<char> {
    "Неверный пароль"@
}

/// The outcome of a login, given the user that storage found by name: the
/// claims (name, identifier) of that user when the password verifies against
/// the stored hash, and otherwise the message of the refusal.
pub open spec fn login_outcome(found: Option<User>, password: Seq<char>) -> Result<
    (Seq<char>, Seq<char>),
    Seq<char>,
> {
    match found {
        None => Err(user_not_found()),
        Some(user) => if argon2_verified(password, user.password@) == Some(true) {
            Ok((user.username@, user.id@))
        } else {
            Err(wrong_password())
        },
    }
}

/// A login result, as claims (name, identifier) or a refusal's message.
pub open spec fn login_view(r: Result<Claims, LoginError>) -> Result<
    (Seq<char>, Seq<char>),
    Seq<char>,
> {
    match r {
        Ok(c) => Ok((c.username_view(), c.id_view())),
        Err(e) => Err(e.message_view()),
    }
}

/// The login result once the password was verified against the stored hash
/// of the user that storage found: that user's claims when it verified, and
/// otherwise the refusal ("user not found" when no user was found, "wrong
/// password" when one was).
pub fn login_result(found: Option<User>, verified: bool) -> (r: Result<Claims, LoginError>)
    ensures
        found is None ==> login_view(r) == Err::<(Seq<char>, Seq<char>), Seq<char>>(
            user_not_found(),
        ),
        found matches Some(u) ==> login_view(r) == (if verified {
            Ok::<(Seq<char>, Seq<char>), Seq<char>>((u.username@, u.id@))
        } else {
            Err::<(Seq<char>, Seq<char>), Seq<char>>(wrong_password())
        }),
{
    match found {
        None => Err(LoginError::new(String::from_str("Пользователь не найден"))),
        Some(user) => {
            if verified {
                Ok(Claims::new(user.username, user.id))
            } else {
                Err(LoginError::new(String::from_str("Неверный пароль")))
            }
        },
    }
}

/// Checks a login against the user that storage found by the login's name:
/// the claims of that user when the password verifies against the stored
/// hash, and otherwise the refusal; `None` when the stored password is no PHC
/// string.
pub fn check_login_checked(found: Option<User>, login: &LoginUser) -> (r: Option<
    Result<Claims, LoginError>,
>)
    ensures
        (found matches Some(u) && argon2_verified(login.password@, u.password@) is None) ==> r is None,
        !(found matches Some(u) && argon2_verified(login.password@, u.password@) is None) ==> (r matches Some(
            res,
        ) && login_view(res) == login_outcome(found, login.password@)),
{
    let verified = match &found {
        None => false,
        Some(user) => match verify_password(login.password.as_str(), user.password.as_str()) {
            Some(ok) => ok,
            None => {
                return None;
            },
        },
    };
    Some(login_result(found, verified))
}

/// A password that registration stored logs in: when the stored password is
/// one that registration produced from `password` (so that it verifies
/// `password`), logging in with `password` gives the claims of the stored user.
pub proof fn lemma_registered_password_logs_in(stored: User, password: Seq<char>)
    requires
        argon2_verified(password, stored.password@) == Some(true),
    ensures
        login_outcome(Some(stored), password) == Ok::<(Seq<char>, Seq<char>), Seq<char>>(
            (stored.username@, stored.id@),
        ),
{
}

/// A login with a password that does not verify against the stored hash is
/// refused with "wrong password".
pub proof fn lemma_wrong_password_refused(stored: User, password: Seq<char>)
    requires
        argon2_verified(password, stored.password@) == Some(false),
    ensures
        login_outcome(Some(stored), password) == Err::<(Seq<char>, Seq<char>), Seq<char>>(
            wrong_password(),
        ),
{
}

/// A login by a name that storage does not know is refused with "user not found".
pub proof fn lemma_unknown_user_refused(password: Seq<char>)
    ensures
        login_outcome(None, password) == Err::<(Seq<char>, Seq<char>), Seq<char>>(
            user_not_found(),
        ),
{
}

/// What the creation of the administrator does once storage was asked for a
/// user by the administrator's name.
pub enum CreateAdminAction {
    /// No such user: add one by this name.
    AddUser(String),
    /// The user exists: read the roles of the user by this name.
    ReadRoles(String),
}

/// Decides the creation of the administrator named `username`, given the user
/// that storage found by that name.
pub fn create_admin_action(username: String, found: Option<User>) -> (r: CreateAdminAction)
    ensures
        found is None ==> (r matches CreateAdminAction::AddUser(n) && n@ == username@),
        found matches Some(u) ==> (r matches CreateAdminAction::ReadRoles(n) && n@ == u.username@),
{
    match found {
        None => CreateAdminAction::AddUser(username),
        Some(user) => CreateAdminAction::ReadRoles(user.username),
    }
}

} // verus!
