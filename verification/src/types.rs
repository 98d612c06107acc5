//! The records that cross the service's boundary.

use vstd::prelude::*;

verus! {

/// The text of an optional string.
pub open spec fn text_of(s: Option<String>) -> Option<Seq<char>> {
    match s {
        Some(t) => Some(t@),
        None => None,
    }
}

/// A copy of an optional string.
pub fn copy_text(s: &Option<String>) -> (copy: Option<String>)
    ensures
        text_of(copy) == text_of(*s),
{
    match s {
        Some(t) => Some(t.clone()),
        None => None,
    }
}

/// A registered user, as clients see it.
#[derive(Debug)]
pub struct User {
    pub id: String,
    pub email: String,
    pub first_name: Option<String>,
    pub last_name: Option<String>,
    pub role: Option<String>,
    pub tenant_id: Option<String>,
}

/// The model of a [`User`].
pub struct UserView {
    pub id: Seq<char>,
    pub email: Seq<char>,
    pub first_name: Option<Seq<char>>,
    pub last_name: Option<Seq<char>>,
    pub role: Option<Seq<char>>,
    pub tenant_id: Option<Seq<char>>,
}

impl View for User {
    type V = UserView;

    open spec fn view(&self) -> UserView {
        UserView {
            id: self.id@,
            email: self.email@,
            first_name: text_of(self.first_name),
            last_name: text_of(self.last_name),
            role: text_of(self.role),
            tenant_id: text_of(self.tenant_id),
        }
    }
}

impl Clone for User {
    fn clone(&self) -> (copy: User)
        ensures
            copy@ == self@,
    {
        User {
            id: self.id.clone(),
            email: self.email.clone(),
            first_name: copy_text(&self.first_name),
            last_name: copy_text(&self.last_name),
            role: copy_text(&self.role),
            tenant_id: copy_text(&self.tenant_id),
        }
    }
}

/// What a new user says of itself besides email and password.
#[derive(Debug)]
pub struct Profile {
    pub first_name: Option<String>,
    pub last_name: Option<String>,
    pub role: Option<String>,
    pub tenant_id: Option<String>,
}

/// The model of a [`Profile`].
pub struct ProfileView {
    pub first_name: Option<Seq<char>>,
    pub last_name: Option<Seq<char>>,
    pub role: Option<Seq<char>>,
    pub tenant_id: Option<Seq<char>>,
}

impl View for Profile {
    type V = ProfileView;

    open spec fn view(&self) -> ProfileView {
        ProfileView {
            first_name: text_of(self.first_name),
            last_name: text_of(self.last_name),
            role: text_of(self.role),
            tenant_id: text_of(self.tenant_id),
        }
    }
}

/// The body of a login request.
#[derive(Debug)]
pub struct LoginRequest {
    pub email: String,
    pub password: String,
}

/// The body of a registration request.
#[derive(Debug)]
pub struct RegisterRequest {
    pub email: String,
    pub password: String,
    pub first_name: Option<String>,
    pub last_name: Option<String>,
}

/// The answer to a successful registration or login.
#[derive(Debug)]
pub struct AuthResponse {
    pub token: String,
    pub user: User,
}

/// The answer to a successful token verification.
#[derive(Debug)]
pub struct UserResponse {
    pub user: User,
}

/// The model of an [`AuthResponse`].
pub struct AuthView {
    pub token: Seq<char>,
    pub user: UserView,
}

impl View for AuthResponse {
    type V = AuthView;

    open spec fn view(&self) -> AuthView {
        AuthView { token: self.token@, user: self.user@ }
    }
}

/// The model of a result that holds a user.
pub open spec fn user_view<E>(r: Result<User, E>) -> Result<UserView, E> {
    match r {
        Ok(u) => Ok(u@),
        Err(e) => Err(e),
    }
}

/// The model of a result that holds a token and a user.
pub open spec fn auth_view<E>(r: Result<AuthResponse, E>) -> Result<AuthView, E> {
    match r {
        Ok(a) => Ok(a@),
        Err(e) => Err(e),
    }
}

} // verus!
