//! What each page of the application decides: which template answers a
//! request, with which values, or which status refuses it. Reading the
//! request, talking to the store and rendering are the caller's.

use crate::clock::{now, Timestamp};
use crate::db::models::posts::{NewPost, NewPostView, Post};
use crate::db::models::users::{Error, User};
use crate::templates::{
    ErrorMessageTemplate, LoginFormTemplate, MainTemplate, PostTemplate, RedirectTemplate,
    SignupFormTemplate, SignupSuccessTemplate, UserHeaderTemplate, WelcomeTemplate,
};
use vstd::prelude::*;

verus! {

/// The form that submits a post.
#[derive(Debug)]
pub struct PostForm {
    pub title: String,
    pub body: String,
}

/// The form that signs a user up.
#[derive(Debug)]
pub struct SignupForm {
    pub username: String,
    pub password: String,
    pub email: String,
}

/// The statuses with which a page refuses a request.
#[derive(Debug, Clone, Copy, PartialEq, Eq, Structural)]
pub enum Status {
    BadRequest,
    Unauthorized,
    InternalServerError,
}

impl Status {
    /// The number of the status.
    pub fn code(&self) -> (code: u16)
        ensures
            code == match *self {
                Status::BadRequest => 400u16,
                Status::Unauthorized => 401u16,
                Status::InternalServerError => 500u16,
            },
    {
        match self {
            Status::BadRequest => 400,
            Status::Unauthorized => 401,
            Status::InternalServerError => 500,
        }
    }
}

/// The step at which a signup was refused.
#[derive(Debug, Clone, Copy, PartialEq, Eq, Structural)]
pub enum SignupFailure {
    /// The user could not be written.
    User,
    /// The user was written, its account could not be.
    Account,
}

/// What the front page shows.
#[derive(Debug)]
pub enum RootPage {
    /// To a signed-in user: a header with the name, above the posts.
    Member(UserHeaderTemplate),
    /// To anybody else: the invitation to sign in or up.
    Visitor(WelcomeTemplate),
}

/// Where a sign-in and a sign-out lead.
pub const HOME: &'static str = "/";

/// The front page: the header of the user who is signed in, or the welcome
/// page for a visitor.
pub fn root(user: &Option<User>) -> (page: RootPage)
    ensures
        match *user {
            Some(user) => page matches RootPage::Member(header) && header.username@
                == user.username@,
            None => page is Visitor,
        },
{
    match user {
        Some(user) => RootPage::Member(UserHeaderTemplate { username: user.username.clone() }),
        None => RootPage::Visitor(WelcomeTemplate {  }),
    }
}

/// The main page over the posts given, in their order.
pub fn main_page(posts: Vec<Post>) -> (page: MainTemplate)
    ensures
        page.posts == posts,
{
    MainTemplate { posts }
}

/// The form to sign in with.
pub fn login_form() -> LoginFormTemplate {
    LoginFormTemplate {  }
}

/// The form to sign up with.
pub fn signup_form() -> SignupFormTemplate {
    SignupFormTemplate {  }
}

/// Lets a signed-in user through and refuses anybody else with
/// `Unauthorized`.
pub fn signed_in(user: &Option<User>) -> (id: Result<i32, Status>)
    ensures
        id == match *user {
            Some(user) => Ok::<i32, Status>(user.id),
            None => Err(Status::Unauthorized),
        },
{
    match user {
        Some(user) => Ok(user.id),
        None => Err(Status::Unauthorized),
    }
}

/// The list of posts: one template for each post, in the order given.
pub fn post_get(posts: Vec<Post>) -> (pages: Vec<PostTemplate>)
    ensures
        pages@.len() == posts@.len(),
        forall|i: int| 0 <= i < posts@.len() ==> (#[trigger] pages@[i]).post == posts@[i],
{
    let mut pages: Vec<PostTemplate> = Vec::new();
    let mut i: usize = 0;
    while i < posts.len()
        invariant
            i <= posts@.len(),
            pages@.len() == i,
            forall|k: int| 0 <= k < i ==> (#[trigger] pages@[k]).post == posts@[k],
        decreases posts@.len() - i,
    {
        pages.push(PostTemplate { post: posts[i].clone() });
        i += 1;
    }
    pages
}

/// The id of the user who is signed in, if anybody is.
pub open spec fn author_of(user: Option<User>) -> Option<i32> {
    match user {
        Some(user) => Some(user.id),
        None => None,
    }
}

/// Why a submitted post is refused, if it is: with `BadRequest` where the
/// title or the body is empty, else with `Unauthorized` where nobody is
/// signed in.
pub open spec fn refusal(title: Seq<char>, body: Seq<char>, author: Option<i32>) -> Option<Status> {
    if title.len() == 0 || body.len() == 0 {
        Some(Status::BadRequest)
    } else if author is None {
        Some(Status::Unauthorized)
    } else {
        None
    }
}

/// The post that a submission becomes: published, by its author.
pub open spec fn accepted(
    title: Seq<char>,
    body: Seq<char>,
    author: i32,
    created_at: Timestamp,
) -> NewPostView {
    NewPostView { title, body, published: Some(true), author_id: Some(author), created_at }
}

/// Checks a submitted post at a given time: refused with `BadRequest` if
/// the title or the body is empty, else with `Unauthorized` if nobody is
/// signed in. A post that passes is published, by the user signed in, at
/// `created_at`.
pub fn post_post_at(input: PostForm, user: &Option<User>, created_at: Timestamp) -> (post: Result<
    NewPost,
    Status,
>)
    ensures
        match post {
            Ok(post) => {
                &&& refusal(input.title@, input.body@, author_of(*user)) is None
                &&& post@ == accepted(input.title@, input.body@, author_of(*user)->0, created_at)
            },
            Err(status) => refusal(input.title@, input.body@, author_of(*user)) == Some(status),
        },
{
    if input.title.as_str().is_empty() || input.body.as_str().is_empty() {
        return Err(Status::BadRequest);
    }
    match user {
        Some(user) => Ok(
            NewPost::new(input.title, input.body, Some(true), Some(user.id), created_at),
        ),
        None => Err(Status::Unauthorized),
    }
}

/// Checks a submitted post as `post_post_at` does, at the time of the call.
pub fn post_post(input: PostForm, user: &Option<User>) -> (post: Result<NewPost, Status>)
    ensures
        match post {
            Ok(post) => {
                &&& refusal(input.title@, input.body@, author_of(*user)) is None
                &&& post@ == accepted(
                    input.title@,
                    input.body@,
                    author_of(*user)->0,
                    post.created_at,
                )
            },
            Err(status) => refusal(input.title@, input.body@, author_of(*user)) == Some(status),
        },
{
    post_post_at(input, user, now())
}

/// Answers a submitted post once the store has been asked to write it: the
/// post as written, or `InternalServerError` if it was not.
pub fn post_created(written: Option<Post>) -> (page: Result<PostTemplate, Status>)
    ensures
        match written {
            Some(post) => page matches Ok(template) && template.post == post,
            None => page == Err::<PostTemplate, Status>(Status::InternalServerError),
        },
{
    match written {
        Some(post) => Ok(PostTemplate { post }),
        None => Err(Status::InternalServerError),
    }
}

/// The message shown for a signup that was refused at the given step.
pub open spec fn signup_message(failure: SignupFailure) -> Seq<char> {
    match failure {
        SignupFailure::User => "Failed to create user. Username might already be taken."@,
        SignupFailure::Account => "Failed to create account. Email might already be in use."@,
    }
}

/// Answers a signup: the note of success, or the message for the step at
/// which it was refused.
pub fn signup_post(outcome: Result<(), SignupFailure>) -> (page: Result<
    SignupSuccessTemplate,
    ErrorMessageTemplate,
>)
    ensures
        match outcome {
            Ok(_) => page is Ok,
            Err(failure) => page matches Err(template) && template.message@ == signup_message(
                failure,
            ),
        },
{
    match outcome {
        Ok(_) => Ok(SignupSuccessTemplate {  }),
        Err(SignupFailure::User) => Err(
            ErrorMessageTemplate {
                message: "Failed to create user. Username might already be taken.".to_owned(),
            },
        ),
        Err(SignupFailure::Account) => Err(
            ErrorMessageTemplate {
                message: "Failed to create account. Email might already be in use.".to_owned(),
            },
        ),
    }
}

/// What a sign-in is answered with.
#[derive(Debug)]
pub enum LoginPage {
    /// The credentials resolved to a user: a session is started for it, and
    /// the browser is sent home.
    SignedIn(User, RedirectTemplate),
    /// The credentials were refused. The message does not say whether the
    /// address or the password was wrong.
    Refused(ErrorMessageTemplate),
    /// The backend could not put the question to the store. Nothing is said
    /// of the credentials, and no session is started.
    Failed(Status),
}

/// What a sign-in is answered with, as contracts speak of it.
pub enum LoginAnswer {
    SignedIn(User, Seq<char>),
    Refused(Seq<char>),
    Failed(Status),
}

impl View for LoginPage {
    type V = LoginAnswer;

    open spec fn view(&self) -> LoginAnswer {
        match *self {
            LoginPage::SignedIn(user, redirect) => LoginAnswer::SignedIn(
                user,
                redirect.redirect_url@,
            ),
            LoginPage::Refused(template) => LoginAnswer::Refused(template.message@),
            LoginPage::Failed(status) => LoginAnswer::Failed(status),
        }
    }
}

/// The page for each answer of the backend: a user is signed in and sent
/// home, a refusal is told that the credentials are invalid, and a fault of
/// the backend is reported as `InternalServerError`, which no refusal is.
pub open spec fn login_answer(answer: Result<Option<User>, Error>) -> LoginAnswer {
    match answer {
        Ok(Some(user)) => LoginAnswer::SignedIn(user, HOME@),
        Ok(None) => LoginAnswer::Refused("Invalid email or password. Please try again."@),
        Err(_) => LoginAnswer::Failed(Status::InternalServerError),
    }
}

/// Answers a sign-in: the user to start a session for, with the redirect
/// home, where the backend resolved the credentials to one; the message
/// that the credentials are invalid where it refused them; and a failure,
/// which is neither, where the backend could not answer.
pub fn login_post(answer: Result<Option<User>, Error>) -> (page: LoginPage)
    ensures
        page@ == login_answer(answer),
{
    match answer {
        Ok(Some(user)) => LoginPage::SignedIn(user, RedirectTemplate { redirect_url: HOME.to_owned() }),
        Ok(None) => LoginPage::Refused(
            ErrorMessageTemplate {
                message: "Invalid email or password. Please try again.".to_owned(),
            },
        ),
        Err(_) => LoginPage::Failed(Status::InternalServerError),
    }
}

/// A fault of the backend is never answered as a refusal is, nor as a
/// sign-in: whoever reads the page can tell that the credentials were not
/// judged.
pub proof fn lemma_fault_is_no_refusal(fault: Error, granted: Option<User>)
    ensures
        login_answer(Err(fault)) is Failed,
        login_answer(Ok(granted)) !is Failed,
        login_answer(Err(fault)) != login_answer(Ok(granted)),
{
}

} // verus!
