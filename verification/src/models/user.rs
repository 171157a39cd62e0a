use vstd::prelude::*;

verus! {

/// A user account as stored in the `users` table.
#[derive(Debug)]
pub struct User {
    pub id: u128,
    pub username: String,
    pub email: String,
    pub password_hash: String,
    pub role_id: u128,
    pub created_at: i64,
}

/// The sign-in form.
#[derive(Debug)]
pub struct LoginForm {
    pub email: String,
    pub password: String,
}

/// The sign-up form.
#[derive(Debug)]
pub struct RegisterForm {
    pub username: String,
    pub email: String,
    pub password: String,
    pub confirm_password: String,
}

/// The signed-in user, as kept in the session cookie.
#[derive(Debug)]
pub struct SessionUser {
    pub id: u128,
    pub username: String,
    pub email: String,
    pub role_name: String,
}

/// The name of the role that grants access to the administration panel.
pub open spec fn admin_role() -> Seq<char> {
    "admin"@
}

impl SessionUser {
    /// The user holds the administrator role.
    pub open spec fn has_admin_role(&self) -> bool {
        self.role_name@ == admin_role()
    }

    /// Whether the user is an administrator: their role is exactly `admin`.
    pub fn is_admin(&self) -> (r: bool)
        ensures
            r == self.has_admin_role(),
            r == (self.role_name@ == "admin"@),
    {
        let admin = String::from_str("admin");
        self.role_name == admin
    }
}

impl Clone for SessionUser {
    fn clone(&self) -> (r: Self)
        ensures
            r == *self,
    {
        SessionUser {
            id: self.id,
            username: self.username.clone(),
            email: self.email.clone(),
            role_name: self.role_name.clone(),
        }
    }
}

} // verus!
