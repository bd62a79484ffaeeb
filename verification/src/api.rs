//! The API boundary as plain values: what each request is answered with.
//! This is the one place where a repository error becomes a response.

use vstd::prelude::*;
use vstd::string::StringExecFns;
use crate::error::{ApiError, ApiErrorView, RepoError, RepoErrorView};
use crate::model::{NewPost, NewPostView, Post, PostView, post_views};
use crate::repository::{Repository, post_result_view, posts_result_view};
use crate::store::{StoreView, empty_title_text};

verus! {

/// Status of a successful response.
pub const OK: u16 = 200;

/// What a response carries.
#[derive(Debug, PartialEq, Eq)]
pub enum Body {
    /// Nothing.
    Empty,
    /// An explanation of a failure.
    Message(String),
    /// A greeting.
    Greeting(String),
    /// One post.
    Post(Post),
    /// A list of posts.
    Posts(Vec<Post>),
}

/// A response: its status and what it carries.
#[derive(Debug, PartialEq, Eq)]
pub struct Response {
    pub status: u16,
    pub body: Body,
}

/// Mathematical value of a [`Body`].
pub enum BodyView {
    Empty,
    Message(Seq<char>),
    Greeting(Seq<char>),
    Post(PostView),
    Posts(Seq<PostView>),
}

/// Mathematical value of a [`Response`].
pub struct ResponseView {
    pub status: int,
    pub body: BodyView,
}

impl View for Body {
    type V = BodyView;

    open spec fn view(&self) -> BodyView {
        match self {
            Body::Empty => BodyView::Empty,
            Body::Message(text) => BodyView::Message(text@),
            Body::Greeting(text) => BodyView::Greeting(text@),
            Body::Post(post) => BodyView::Post(post@),
            Body::Posts(posts) => BodyView::Posts(post_views(posts@)),
        }
    }
}

impl View for Response {
    type V = ResponseView;

    open spec fn view(&self) -> ResponseView {
        ResponseView { status: self.status as int, body: self.body@ }
    }
}

impl ApiErrorView {
    /// The response that reports this error: its status, and its
    /// explanation where it has one. No error response carries a post.
    pub open spec fn response(self) -> ResponseView {
        ResponseView {
            status: self.status(),
            body: match self.message() {
                Some(text) => BodyView::Message(text),
                None => BodyView::Empty,
            },
        }
    }
}

impl ApiError {
    /// The response that reports this error.
    pub fn error_response(&self) -> (response: Response)
        ensures
            response@ == self@.response(),
    {
        let body = match self.message() {
            Some(text) => Body::Message(text),
            None => Body::Empty,
        };
        Response { status: self.status_code(), body }
    }
}

/// The decimal digit for a number below ten.
pub open spec fn digit(d: nat) -> char {
    if d == 0 {
        '0'
    } else if d == 1 {
        '1'
    } else if d == 2 {
        '2'
    } else if d == 3 {
        '3'
    } else if d == 4 {
        '4'
    } else if d == 5 {
        '5'
    } else if d == 6 {
        '6'
    } else if d == 7 {
        '7'
    } else if d == 8 {
        '8'
    } else {
        '9'
    }
}

/// A number written in decimal, without leading zeros.
pub open spec fn decimal(n: nat) -> Seq<char>
    decreases n,
{
    if n < 10 {
        seq![digit(n)]
    } else {
        decimal(n / 10).push(digit(n % 10))
    }
}

/// The greeting for a name and an age.
pub open spec fn greeting_text(name: Seq<char>, age: nat) -> Seq<char> {
    "Hello, "@ + name + "! You are "@ + decimal(age) + " years old."@
}

fn digit_str(d: u32) -> (text: &'static str)
    requires
        d < 10,
    ensures
        text@ == seq![digit(d as nat)],
{
    proof {
        reveal_strlit("0");
        reveal_strlit("1");
        reveal_strlit("2");
        reveal_strlit("3");
        reveal_strlit("4");
        reveal_strlit("5");
        reveal_strlit("6");
        reveal_strlit("7");
        reveal_strlit("8");
        reveal_strlit("9");
    }
    let text = if d == 0 {
        "0"
    } else if d == 1 {
        "1"
    } else if d == 2 {
        "2"
    } else if d == 3 {
        "3"
    } else if d == 4 {
        "4"
    } else if d == 5 {
        "5"
    } else if d == 6 {
        "6"
    } else if d == 7 {
        "7"
    } else if d == 8 {
        "8"
    } else {
        "9"
    };
    assert(text@ =~= seq![digit(d as nat)]);
    text
}

fn push_decimal(text: &mut String, n: u32)
    ensures
        final(text)@ == old(text)@ + decimal(n as nat),
    decreases n,
{
    if n >= 10 {
        push_decimal(text, n / 10);
    }
    text.append(digit_str(n % 10));
    assert(text@ =~= old(text)@ + decimal(n as nat));
}

/// Writes the greeting for a name and an age.
pub fn greeting(name: &str, age: u32) -> (text: String)
    ensures
        text@ == greeting_text(name@, age as nat),
{
    let mut text = "Hello, ".to_owned();
    text.append(name);
    text.append("! You are ");
    push_decimal(&mut text, age);
    text.append(" years old.");
    assert(text@ =~= greeting_text(name@, age as nat));
    text
}

/// The answer to a greeting request.
pub open spec fn hello_view(name: Seq<char>, age: nat) -> ResponseView {
    ResponseView { status: 200, body: BodyView::Greeting(greeting_text(name, age)) }
}

/// The answer to a request that asked for one post, given what the
/// repository returned: the post under status 200, or the error.
pub open spec fn post_outcome(result: Result<PostView, RepoErrorView>) -> Result<
    ResponseView,
    ApiErrorView,
> {
    match result {
        Ok(post) => Ok(ResponseView { status: 200, body: BodyView::Post(post) }),
        Err(error) => Err(error.api_error()),
    }
}

/// The answer to a request that asked for all posts, given what the
/// repository returned: the posts under status 200, or the error.
pub open spec fn posts_outcome(result: Result<Seq<PostView>, RepoErrorView>) -> Result<
    ResponseView,
    ApiErrorView,
> {
    match result {
        Ok(posts) => Ok(ResponseView { status: 200, body: BodyView::Posts(posts) }),
        Err(error) => Err(error.api_error()),
    }
}

/// The answer to a request that creates a post from `payload`. The payload
/// is validated first: one without a title is refused as a bad request and
/// the store is not asked. A valid one is handed to the repository.
pub open spec fn create_outcome(store: StoreView, payload: NewPostView) -> Result<
    ResponseView,
    ApiErrorView,
> {
    if payload.valid() {
        post_outcome(store.create_result(payload))
    } else {
        Err(ApiErrorView::BadRequest(empty_title_text()))
    }
}

/// The value of a handler's outcome.
pub open spec fn outcome_view(outcome: Result<Response, ApiError>) -> Result<
    ResponseView,
    ApiErrorView,
> {
    match outcome {
        Ok(response) => Ok(response@),
        Err(error) => Err(error@),
    }
}

/// What the client receives for a handler's outcome: the response itself,
/// or the response that reports the error.
pub open spec fn delivered(outcome: Result<ResponseView, ApiErrorView>) -> ResponseView {
    match outcome {
        Ok(response) => response,
        Err(error) => error.response(),
    }
}

/// Answers a request for one post from what the repository returned.
pub fn respond_post(result: Result<Post, RepoError>) -> (outcome: Result<Response, ApiError>)
    ensures
        outcome_view(outcome) == post_outcome(post_result_view(result)),
{
    match result {
        Ok(post) => Ok(Response { status: OK, body: Body::Post(post) }),
        Err(error) => Err(ApiError::from(error)),
    }
}

/// Answers a request for all posts from what the repository returned.
pub fn respond_posts(result: Result<Vec<Post>, RepoError>) -> (outcome: Result<Response, ApiError>)
    ensures
        outcome_view(outcome) == posts_outcome(posts_result_view(result)),
{
    match result {
        Ok(posts) => Ok(Response { status: OK, body: Body::Posts(posts) }),
        Err(error) => Err(ApiError::from(error)),
    }
}

/// What the client receives for a handler's outcome.
pub fn deliver(outcome: Result<Response, ApiError>) -> (response: Response)
    ensures
        response@ == delivered(outcome_view(outcome)),
{
    match outcome {
        Ok(response) => response,
        Err(error) => error.error_response(),
    }
}

/// `GET /`: greets the caller by name and age.
pub fn hello(name: &str, age: u32) -> (response: Response)
    ensures
        response@ == hello_view(name@, age as nat),
{
    Response { status: OK, body: Body::Greeting(greeting(name, age)) }
}

/// `POST /posts`: validates the payload, creates a post from it and
/// answers with the post. A request that is not answered with a post
/// leaves the store as it was.
pub fn create_post(repo: &mut Repository, new_post: NewPost) -> (outcome: Result<
    Response,
    ApiError,
>)
    ensures
        outcome_view(outcome) == create_outcome(old(repo)@, new_post@),
        final(repo)@ == old(repo)@.after_create(new_post@),
        outcome is Ok <==> old(repo)@.admits(new_post@.title),
        outcome is Err ==> final(repo)@ == old(repo)@,
{
    if !new_post.is_valid() {
        return Err(ApiError::BadRequest("title must not be empty".to_owned()));
    }
    respond_post(repo.create_post(new_post))
}

/// `GET /posts`: answers with every post.
pub fn list_posts(repo: &Repository) -> (outcome: Result<Response, ApiError>)
    ensures
        outcome_view(outcome) == posts_outcome(repo@.list_result()),
        outcome is Ok <==> repo@.online,
{
    respond_posts(repo.list_posts())
}

/// `GET /posts/{id}`: answers with the post that has this id.
pub fn get_post(repo: &Repository, id: i32) -> (outcome: Result<Response, ApiError>)
    ensures
        outcome_view(outcome) == post_outcome(repo@.get_result(id as int)),
        outcome is Ok <==> repo@.online && repo@.holds(id as int),
{
    respond_post(repo.get_post(id))
}

} // verus!
