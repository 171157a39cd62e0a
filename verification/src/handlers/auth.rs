//! Signing up, signing in and signing out.

use vstd::prelude::*;
use crate::db::DbError;
use crate::models::{LoginForm, RegisterForm, SessionUser};
use crate::password::{bcrypt_verify_outcome, hash_password, is_default_cost_hash, verify_password};
use crate::text::{contains_text, occurs_in, utf8_byte_len};
use crate::web::{Reply, home_path, is_session_removal_cookie, login_path, session_removal_cookie};

verus! {

/// The sign-in page.
pub struct LoginTemplate {
    pub current_user: Option<SessionUser>,
    pub error: Option<String>,
}

/// The sign-up page.
pub struct RegisterTemplate {
    pub current_user: Option<SessionUser>,
    pub error: Option<String>,
}

/// What the sign-in query finds for an e-mail address: the account and the name
/// of its role.
pub struct Credentials {
    pub id: u128,
    pub username: String,
    pub email: String,
    pub password_hash: String,
    pub role_name: String,
}

/// Shown for every refused sign-in, whatever the reason.
pub const INVALID_CREDENTIALS: &'static str = "Nieprawidłowy email lub hasło";

/// The two password fields of the sign-up form differ.
pub const PASSWORDS_DIFFER: &'static str = "Hasła nie są zgodne";

/// The password is shorter than six bytes.
pub const PASSWORD_TOO_SHORT: &'static str = "Hasło musi mieć co najmniej 6 znaków";

/// Hashing the password or finding the default role failed.
pub const SERVER_ERROR: &'static str = "Błąd serwera";

/// The database refused the new account as a duplicate.
pub const USER_EXISTS: &'static str = "Użytkownik z tym emailem lub nazwą już istnieje";

/// The database refused the new account for another reason.
pub const REGISTRATION_FAILED: &'static str = "Błąd podczas rejestracji";

/// The role every new account gets.
pub const DEFAULT_ROLE: &'static str = "user";

/// The text whose presence in a database error marks a duplicate account.
pub const DUPLICATE_MARKER: &'static str = "unique";

/// Where a visitor who is already signed in goes instead of an auth page; an
/// anonymous visitor gets the page, blank.
pub open spec fn auth_page_reply<P>(session: Option<SessionUser>, reply: Reply<P>) -> bool {
    match session {
        Some(_) => reply matches Reply::Redirect(to) && to@ == home_path(),
        None => reply is Page,
    }
}

/// The sign-in page, or the home page for a visitor who is already signed in.
pub fn login_page(session: &Option<SessionUser>) -> (r: Reply<LoginTemplate>)
    ensures
        auth_page_reply(*session, r),
        r matches Reply::Page(t) ==> t.current_user is None && t.error is None,
{
    match session {
        Some(_) => Reply::Redirect(String::from_str("/")),
        None => Reply::Page(LoginTemplate { current_user: None, error: None }),
    }
}

/// The sign-up page, or the home page for a visitor who is already signed in.
pub fn register_page(session: &Option<SessionUser>) -> (r: Reply<RegisterTemplate>)
    ensures
        auth_page_reply(*session, r),
        r matches Reply::Page(t) ==> t.current_user is None && t.error is None,
{
    match session {
        Some(_) => Reply::Redirect(String::from_str("/")),
        None => Reply::Page(RegisterTemplate { current_user: None, error: None }),
    }
}

/// How a sign-in ends.
pub enum LoginOutcome {
    /// The credentials hold: this user is to be signed in.
    SignIn(SessionUser),
    /// The sign-in page again, with an error.
    Refused(LoginTemplate),
}

/// A sign-in succeeds exactly when an account was found for the e-mail address and
/// the submitted password matches its hash; a failed query counts as no account.
pub open spec fn login_accepted(form: LoginForm, found: Result<Option<Credentials>, DbError>) -> bool {
    found matches Ok(Some(row)) && bcrypt_verify_outcome(form.password@, row.password_hash@) == Some(
        true,
    )
}

/// `u` is the session user made from the account `row`.
pub open spec fn session_of(u: SessionUser, row: Credentials) -> bool {
    &&& u.id == row.id
    &&& u.username == row.username
    &&& u.email == row.email
    &&& u.role_name == row.role_name
}

/// The sign-in page that answers every refused sign-in.
pub open spec fn is_refused_login(t: LoginTemplate) -> bool {
    t.error matches Some(e) && e@ == INVALID_CREDENTIALS@ && t.current_user is None
}

/// The sign-in page shown for a refused sign-in.
fn refused_login() -> (r: LoginOutcome)
    ensures
        r matches LoginOutcome::Refused(t) && is_refused_login(t),
{
    LoginOutcome::Refused(
        LoginTemplate { current_user: None, error: Some(String::from_str(INVALID_CREDENTIALS)) },
    )
}

/// Decides a sign-in from the submitted form and what the query for its e-mail
/// address found. Every refusal gets the same answer, so it does not tell whether
/// the address has an account.
pub fn login(form: &LoginForm, found: Result<Option<Credentials>, DbError>) -> (r: LoginOutcome)
    ensures
        login_accepted(*form, found) ==> match (r, found) {
            (LoginOutcome::SignIn(u), Ok(Some(row))) => session_of(u, row),
            _ => false,
        },
        !login_accepted(*form, found) ==> (r matches LoginOutcome::Refused(t) && is_refused_login(t)),
        match (r, found) {
            (LoginOutcome::SignIn(u), Ok(Some(row))) => u.id == row.id && u.username == row.username
                && u.email == row.email && u.role_name == row.role_name && bcrypt_verify_outcome(
                form.password@,
                row.password_hash@,
            ) == Some(true),
            (LoginOutcome::SignIn(_), _) => false,
            (LoginOutcome::Refused(t), _) => t.error matches Some(e) && e@ == INVALID_CREDENTIALS@
                && t.current_user is None,
        },
{
    match found {
        Ok(Some(row)) => {
            let verified = verify_password(form.password.as_str(), row.password_hash.as_str());
            login_verified(row, verified)
        },
        _ => refused_login(),
    }
}

/// Decides a sign-in once the submitted password was checked against the account's
/// hash: only a positive check signs in; a mismatch and a hash that cannot be read
/// are refused alike.
pub fn login_verified(row: Credentials, verified: Result<bool, bcrypt::BcryptError>) -> (r: LoginOutcome)
    ensures
        verified matches Ok(true) ==> (r matches LoginOutcome::SignIn(u) && session_of(u, row)),
        !(verified matches Ok(true)) ==> (r matches LoginOutcome::Refused(t) && is_refused_login(t)),
        match r {
            LoginOutcome::SignIn(u) => verified matches Ok(true) && u.id == row.id && u.username
                == row.username && u.email == row.email && u.role_name == row.role_name,
            LoginOutcome::Refused(t) => !(verified matches Ok(true)) && t.current_user is None,
        },
{
    match verified {
        Ok(true) => LoginOutcome::SignIn(
            SessionUser {
                id: row.id,
                username: row.username,
                email: row.email,
                role_name: row.role_name,
            },
        ),
        _ => refused_login(),
    }
}

/// A refused sign-in tells nothing of its reason: any two refusal pages are the same.
pub proof fn refusals_look_alike(a: LoginTemplate, b: LoginTemplate)
    requires
        is_refused_login(a),
        is_refused_login(b),
    ensures
        a.current_user == b.current_user,
        match (a.error, b.error) {
            (Some(x), Some(y)) => x@ == y@,
            _ => false,
        },
{
}

/// An accepted sign-in starts the session of the stored account as it is: its
/// identifier, name, e-mail and role, the role in particular neither raised nor
/// lowered.
pub proof fn sign_in_keeps_the_account(u: SessionUser, row: Credentials)
    requires
        session_of(u, row),
    ensures
        u.id == row.id,
        u.username == row.username,
        u.email == row.email,
        u.role_name == row.role_name,
        u.has_admin_role() == (row.role_name@ == "admin"@),
{
}

/// Which sign-ins are accepted: a found account whose hash the password verifies
/// against, and nothing else; no account and a failed query are refused.
pub proof fn sign_in_acceptance(form: LoginForm, row: Credentials, error: DbError)
    ensures
        login_accepted(form, Ok(Some(row))) == (bcrypt_verify_outcome(
            form.password@,
            row.password_hash@,
        ) == Some(true)),
        !login_accepted(form, Ok(None)),
        !login_accepted(form, Err(error)),
{
}

/// One step of a sign-up: what is to be done next.
pub enum RegisterStep {
    /// The sign-up page again, with an error.
    Refused(RegisterTemplate),
    /// Look up the identifier of the default role; the password is hashed.
    FetchUserRole { password_hash: String },
    /// Store the new account.
    InsertUser { username: String, email: String, password_hash: String, role_id: u128 },
    /// The account is stored: this user is to be signed in.
    SignIn(SessionUser),
}

/// The two password fields differ.
pub open spec fn passwords_differ(form: RegisterForm) -> bool {
    form.password@ != form.confirm_password@
}

/// The password has fewer than six bytes of UTF-8 (what `str::len` counts).
pub open spec fn password_too_short(form: RegisterForm) -> bool {
    (utf8_byte_len(form.password@) as usize) < 6
}

/// `step` is the sign-up page showing `message`.
pub open spec fn refused_with(step: RegisterStep, message: Seq<char>) -> bool {
    match step {
        RegisterStep::Refused(t) => t.error matches Some(e) && e@ == message && t.current_user is None,
        _ => false,
    }
}

/// The message for a database error that refused a new account.
pub open spec fn insert_failure_message(error: Seq<char>) -> Seq<char> {
    if occurs_in(error, DUPLICATE_MARKER@) {
        USER_EXISTS@
    } else {
        REGISTRATION_FAILED@
    }
}

/// First step of a sign-up: check the form, then hash the password.
///
/// Differing passwords are reported before a short one; a form that passes both
/// checks has its password hashed, and the hash asked to be stored verifies
/// against the submitted password and is a bcrypt hash at the default cost.
pub fn register(form: &RegisterForm) -> (r: RegisterStep)
    ensures
        passwords_differ(*form) ==> refused_with(r, PASSWORDS_DIFFER@),
        !passwords_differ(*form) && password_too_short(*form) ==> refused_with(
            r,
            PASSWORD_TOO_SHORT@,
        ),
        !passwords_differ(*form) && !password_too_short(*form) ==> match r {
            RegisterStep::FetchUserRole { password_hash } => bcrypt_verify_outcome(
                form.password@,
                password_hash@,
            ) == Some(true) && is_default_cost_hash(password_hash@),
            _ => refused_with(r, SERVER_ERROR@),
        },
        form.password@ == form.confirm_password@ && 6 <= utf8_byte_len(form.password@) <= usize::MAX
            ==> match r {
            RegisterStep::FetchUserRole { password_hash } => bcrypt_verify_outcome(
                form.password@,
                password_hash@,
            ) == Some(true),
            RegisterStep::Refused(t) => t.error matches Some(e) && e@ == SERVER_ERROR@,
            _ => false,
        },
        form.password@ != form.confirm_password@ ==> match r {
            RegisterStep::Refused(t) => t.error matches Some(e) && e@ == PASSWORDS_DIFFER@,
            _ => false,
        },
        form.password@ == form.confirm_password@ && utf8_byte_len(form.password@) < 6 ==> match r {
            RegisterStep::Refused(t) => t.error matches Some(e) && e@ == PASSWORD_TOO_SHORT@,
            _ => false,
        },
{
    if form.password != form.confirm_password {
        return RegisterStep::Refused(
            RegisterTemplate { current_user: None, error: Some(String::from_str(PASSWORDS_DIFFER)) },
        );
    }
    if form.password.as_str().len() < 6 {
        return RegisterStep::Refused(
            RegisterTemplate { current_user: None, error: Some(String::from_str(PASSWORD_TOO_SHORT)) },
        );
    }
    password_hashed(hash_password(form.password.as_str()))
}

/// The step after hashing the password: with a hash, look up the default role;
/// without one, report a server error.
pub fn password_hashed(hashed: Result<String, bcrypt::BcryptError>) -> (r: RegisterStep)
    ensures
        match hashed {
            Ok(h) => r == RegisterStep::FetchUserRole { password_hash: h },
            Err(_) => refused_with(r, SERVER_ERROR@),
        },
{
    match hashed {
        Ok(h) => RegisterStep::FetchUserRole { password_hash: h },
        Err(_) => RegisterStep::Refused(
            RegisterTemplate { current_user: None, error: Some(String::from_str(SERVER_ERROR)) },
        ),
    }
}

/// Second step of a sign-up: with the default role found, store the account;
/// without it, report a server error.
pub fn register_with_role(form: &RegisterForm, password_hash: String, role: Result<u128, DbError>) -> (r: RegisterStep)
    ensures
        match role {
            Ok(role_id) => r == RegisterStep::InsertUser {
                username: form.username,
                email: form.email,
                password_hash: password_hash,
                role_id: role_id,
            },
            Err(_) => refused_with(r, SERVER_ERROR@),
        },
{
    match role {
        Ok(role_id) => RegisterStep::InsertUser {
            username: form.username.clone(),
            email: form.email.clone(),
            password_hash: password_hash,
            role_id: role_id,
        },
        Err(_) => RegisterStep::Refused(
            RegisterTemplate { current_user: None, error: Some(String::from_str(SERVER_ERROR)) },
        ),
    }
}

/// Last step of a sign-up: with the account stored under `id`, sign in as that
/// user with the default role; otherwise report why the database refused it.
pub fn register_finish(form: &RegisterForm, inserted: Result<u128, DbError>) -> (r: RegisterStep)
    ensures
        match inserted {
            Ok(id) => match r {
                RegisterStep::SignIn(u) => u.id == id && u.username == form.username && u.email
                    == form.email && u.role_name@ == DEFAULT_ROLE@,
                _ => false,
            },
            Err(e) => refused_with(r, insert_failure_message(e.message@)),
        },
{
    match inserted {
        Ok(id) => RegisterStep::SignIn(
            SessionUser {
                id: id,
                username: form.username.clone(),
                email: form.email.clone(),
                role_name: String::from_str(DEFAULT_ROLE),
            },
        ),
        Err(e) => {
            let message = if contains_text(e.message.as_str(), DUPLICATE_MARKER) {
                USER_EXISTS
            } else {
                REGISTRATION_FAILED
            };
            RegisterStep::Refused(
                RegisterTemplate { current_user: None, error: Some(String::from_str(message)) },
            )
        },
    }
}

/// Signing out: remove the session cookie and go to the sign-in page.
pub fn logout<P>() -> (r: Reply<P>)
    ensures
        r matches Reply::RemoveCookie { cookie, redirect } && is_session_removal_cookie(cookie)
            && redirect@ == login_path(),
{
    Reply::RemoveCookie { cookie: session_removal_cookie(), redirect: String::from_str("/auth/login") }
}

/// Validation refuses only what it must: equal passwords of at least six bytes pass
/// both checks, whatever their length; fewer than six bytes fail, and differing
/// passwords fail.
pub proof fn validation_bounds(form: RegisterForm)
    ensures
        form.password@ == form.confirm_password@ && 6 <= utf8_byte_len(form.password@) <= usize::MAX
            ==> !passwords_differ(form) && !password_too_short(form),
        utf8_byte_len(form.password@) < 6 ==> password_too_short(form),
        form.password@ != form.confirm_password@ ==> passwords_differ(form),
{
}

/// A refused new account is explained as a duplicate exactly when the database error
/// mentions `unique`.
pub proof fn insert_failure_explained(error: Seq<char>)
    ensures
        occurs_in(error, "unique"@) ==> insert_failure_message(error) == USER_EXISTS@,
        !occurs_in(error, "unique"@) ==> insert_failure_message(error) == REGISTRATION_FAILED@,
{
}

/// A new account never has the administrator role.
pub proof fn new_accounts_are_not_admins(user: SessionUser)
    requires
        user.role_name@ == DEFAULT_ROLE@,
    ensures
        !user.has_admin_role(),
{
    reveal_strlit("user");
    reveal_strlit("admin");
    assert(DEFAULT_ROLE@[0] != crate::models::user::admin_role()[0]);
}

/// The password chosen at sign-up signs in: if the hash stored for an account
/// verifies against the password given at sign-up, then signing in with that
/// password against the stored account succeeds.
pub proof fn chosen_password_signs_in(
    registration: RegisterForm,
    stored: Credentials,
    attempt: LoginForm,
)
    requires
        attempt.password@ == registration.password@,
    ensures
        bcrypt_verify_outcome(registration.password@, stored.password_hash@) == Some(true)
            ==> login_accepted(attempt, Ok(Some(stored))),
{
}

} // verus!
