//! What the pages of the application are filled with. Each template holds
//! the values that its page shows; turning one into markup is left to the
//! renderer.

use crate::db::models::posts::Post;
use vstd::prelude::*;

verus! {

/// The main page of a signed-in user: the published posts.
#[derive(Debug)]
pub struct MainTemplate {
    pub posts: Vec<Post>,
}

/// One post.
#[derive(Debug)]
pub struct PostTemplate {
    pub post: Post,
}

/// The form to sign in with.
#[derive(Debug, Clone, Copy, PartialEq, Eq, Structural)]
pub struct LoginFormTemplate {}

/// The form to sign up with.
#[derive(Debug, Clone, Copy, PartialEq, Eq, Structural)]
pub struct SignupFormTemplate {}

/// What a visitor sees who is not signed in.
#[derive(Debug, Clone, Copy, PartialEq, Eq, Structural)]
pub struct WelcomeTemplate {}

/// The header that greets a signed-in user by name.
#[derive(Debug)]
pub struct UserHeaderTemplate {
    pub username: String,
}

/// The note that a signup went through.
#[derive(Debug, Clone, Copy, PartialEq, Eq, Structural)]
pub struct SignupSuccessTemplate {}

/// A message that something went wrong.
#[derive(Debug)]
pub struct ErrorMessageTemplate {
    pub message: String,
}

/// A page that sends the browser on to another address.
#[derive(Debug)]
pub struct RedirectTemplate {
    pub redirect_url: String,
}

} // verus!
