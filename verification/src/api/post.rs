//! The endpoints of the post resource, and the counter of listings that they
//! share.

use vstd::prelude::*;
use crate::api::reply::{Body, BodyView, HttpReply, HttpReplyView};
use crate::api::route::{Endpoint, Method, Route, RouteView, Scope, ScopeView};
use crate::repository::models::post::{NewPost, Post};
use crate::repository::table::{sequence_exhausted_message, PostTable};
use crate::services::post::{delete, get, get_one, post, publish, LIST_LIMIT};
use crate::types::db::StorageError;
use crate::types::text::{append_decimal, decimal_spec};

verus! {

/// The state that the endpoints share: how often posts have been listed.
/// Whoever serves requests side by side keeps it behind a lock and holds the
/// lock for one call of `increment` or `read`, no longer.
#[derive(Debug, PartialEq, Eq)]
pub struct AppState {
    calls: i32,
}

impl AppState {
    /// The number of listings so far.
    pub closed spec fn calls(&self) -> int {
        self.calls as int
    }

    /// The state of a service that has listed nothing yet.
    pub fn new() -> (state: AppState)
        ensures
            state.calls() == 0,
    {
        AppState { calls: 0 }
    }

    /// Counts one more listing.
    pub fn increment(&mut self)
        requires
            old(self).calls() < i32::MAX,
        ensures
            final(self).calls() == old(self).calls() + 1,
    {
        self.calls = self.calls + 1;
    }

    /// The number of listings so far. The state stays as it is.
    pub fn read(&self) -> (calls: i32)
        ensures
            calls == self.calls(),
    {
        self.calls
    }
}

/// The counter after `n` further listings, one after another.
pub open spec fn calls_after(calls: int, n: nat) -> int
    decreases n,
{
    if n == 0 {
        calls
    } else {
        calls_after(calls, (n - 1) as nat) + 1
    }
}

/// Listings that follow one another are all counted: after `n` of them the
/// counter stands higher by exactly `n`.
pub proof fn lemma_calls_after(calls: int, n: nat)
    ensures
        calls_after(calls, n) == calls + n,
    decreases n,
{
    if n > 0 {
        lemma_calls_after(calls, (n - 1) as nat);
    }
}

/// The message of the answer to a listing for which the store had nothing.
pub open spec fn no_posts_message() -> Seq<char> {
    "No Posts Yet"@
}

/// The message of the answer about a post that is not there.
pub open spec fn missing_post_message(post_id: int) -> Seq<char> {
    "No post found with id: "@ + decimal_spec(post_id)
}

/// The answer to a listing, for each outcome of the store.
pub open spec fn list_reply_spec(
    outcome: Result<Option<Vec<Post>>, StorageError>,
) -> HttpReplyView {
    match outcome {
        Ok(Some(posts)) => HttpReplyView::ok(BodyView::JsonPosts(posts.deep_view())),
        Ok(None) => HttpReplyView::not_found(no_posts_message()),
        Err(error) => HttpReplyView::internal_server_error(error.message@),
    }
}

/// The answer about the single post `post_id`, for each outcome of the
/// store.
pub open spec fn post_reply_spec(
    outcome: Result<Option<Post>, StorageError>,
    post_id: int,
) -> HttpReplyView {
    match outcome {
        Ok(Some(post)) => HttpReplyView::ok(BodyView::JsonPost(post@)),
        Ok(None) => HttpReplyView::not_found(missing_post_message(post_id)),
        Err(error) => HttpReplyView::internal_server_error(error.message@),
    }
}

/// The answer to a creation, for each outcome of the store.
pub open spec fn created_reply_spec(outcome: Result<NewPost, StorageError>) -> HttpReplyView {
    match outcome {
        Ok(new_post) => HttpReplyView::ok(BodyView::JsonNewPost(new_post@)),
        Err(error) => HttpReplyView::internal_server_error(error.message@),
    }
}

/// Answers a listing: the posts where the store gave some, also none at
/// all; not found where it gave no list; an internal error where it failed.
pub fn list_reply(outcome: Result<Option<Vec<Post>>, StorageError>) -> (reply: HttpReply)
    ensures
        reply@ == list_reply_spec(outcome),
{
    match outcome {
        Ok(Some(posts)) => HttpReply::ok(Body::JsonPosts(posts)),
        Ok(None) => HttpReply::not_found("No Posts Yet".to_string()),
        Err(error) => HttpReply::internal_server_error(error.message),
    }
}

/// Answers a request about the single post `post_id`: the post where the
/// store gave one; not found, with the id in the message, where it gave
/// none; an internal error where it failed.
pub fn post_reply(outcome: Result<Option<Post>, StorageError>, post_id: i32) -> (reply: HttpReply)
    ensures
        reply@ == post_reply_spec(outcome, post_id as int),
{
    match outcome {
        Ok(Some(post)) => HttpReply::ok(Body::JsonPost(post)),
        Ok(None) => {
            let mut message = "No post found with id: ".to_string();
            append_decimal(&mut message, post_id);
            HttpReply::not_found(message)
        },
        Err(error) => HttpReply::internal_server_error(error.message),
    }
}

/// Answers a creation: the payload as it came in, or an internal error
/// where the store failed.
pub fn created_reply(outcome: Result<NewPost, StorageError>) -> (reply: HttpReply)
    ensures
        reply@ == created_reply_spec(outcome),
{
    match outcome {
        Ok(new_post) => HttpReply::ok(Body::JsonNewPost(new_post)),
        Err(error) => HttpReply::internal_server_error(error.message),
    }
}

/// Lists published posts, `LIST_LIMIT` at most, and counts the listing.
pub fn get_post(conn: &mut PostTable, state: &mut AppState) -> (reply: HttpReply)
    requires
        old(state).calls() < i32::MAX,
    ensures
        final(state).calls() == old(state).calls() + 1,
        final(conn)@ == old(conn)@,
        reply@ == HttpReplyView::ok(BodyView::JsonPosts(old(conn)@.listing(LIST_LIMIT as nat))),
{
    state.increment();
    list_reply(get(conn))
}

/// Answers with the post `post_id`, or that there is none.
pub fn get_post_by_id(conn: &mut PostTable, post_id: i32) -> (reply: HttpReply)
    ensures
        final(conn)@ == old(conn)@,
        reply@ == (match old(conn)@.find(post_id as int) {
            Some(row) => HttpReplyView::ok(BodyView::JsonPost(row)),
            None => HttpReplyView::not_found(missing_post_message(post_id as int)),
        }),
{
    post_reply(get_one(conn, post_id), post_id)
}

/// Creates an unpublished post from `form` and answers with `form` as it
/// came in. Once the table has no id left, it answers with an internal
/// error and creates nothing.
pub fn new_post(conn: &mut PostTable, form: NewPost) -> (reply: HttpReply)
    ensures
        old(conn)@.can_insert() ==> final(conn)@ == old(conn)@.insert(form@) && reply@
            == HttpReplyView::ok(BodyView::JsonNewPost(form@)),
        !old(conn)@.can_insert() ==> final(conn)@ == old(conn)@ && reply@
            == HttpReplyView::internal_server_error(sequence_exhausted_message()),
{
    created_reply(post(conn, form.title, form.body))
}

/// Publishes the post `post_id` and answers with it as it then stands, or
/// that there is none.
pub fn publish_post(conn: &mut PostTable, post_id: i32) -> (reply: HttpReply)
    ensures
        final(conn)@ == old(conn)@.publish(post_id as int),
        reply@ == (match old(conn)@.find(post_id as int) {
            Some(row) => HttpReplyView::ok(BodyView::JsonPost(row.publish())),
            None => HttpReplyView::not_found(missing_post_message(post_id as int)),
        }),
{
    post_reply(publish(conn, post_id), post_id)
}

/// Deletes the post `post_id` and answers with it as it last stood, or that
/// there is none.
pub fn delete_post(conn: &mut PostTable, post_id: i32) -> (reply: HttpReply)
    ensures
        final(conn)@ == old(conn)@.delete(post_id as int),
        reply@ == (match old(conn)@.find(post_id as int) {
            Some(row) => HttpReplyView::ok(BodyView::JsonPost(row)),
            None => HttpReplyView::not_found(missing_post_message(post_id as int)),
        }),
{
    post_reply(delete(conn, post_id), post_id)
}

/// Answers with the number of listings so far.
pub fn post_counter(state: &AppState) -> (reply: HttpReply)
    ensures
        reply@ == HttpReplyView::ok(BodyView::JsonNumber(state.calls())),
{
    HttpReply::ok(Body::JsonNumber(state.read()))
}

/// The scope of the post resource: its prefix, its six routes, and a
/// counter that stands at 0.
pub open spec fn posts_scope() -> ScopeView {
    ScopeView {
        prefix: "/posts"@,
        calls: Some(0),
        routes: seq![
            RouteView { method: Method::Get, path: "/list"@, endpoint: Endpoint::GetPost },
            RouteView {
                method: Method::Get,
                path: "/get/{post_id}"@,
                endpoint: Endpoint::GetPostById,
            },
            RouteView { method: Method::Post, path: "/new"@, endpoint: Endpoint::NewPost },
            RouteView {
                method: Method::Put,
                path: "/publish/{post_id}"@,
                endpoint: Endpoint::PublishPost,
            },
            RouteView {
                method: Method::Delete,
                path: "/delete/{post_id}"@,
                endpoint: Endpoint::DeletePost,
            },
            RouteView { method: Method::Get, path: "/ctx"@, endpoint: Endpoint::PostCounter },
        ],
        files: Seq::empty(),
    }
}

/// Mounts the endpoints of the post resource, with a fresh counter.
pub fn routes_posts() -> (scope: Scope)
    ensures
        scope@ == posts_scope(),
{
    let mut routes: Vec<Route> = Vec::new();
    routes.push(Route::new(Method::Get, "/list", Endpoint::GetPost));
    routes.push(Route::new(Method::Get, "/get/{post_id}", Endpoint::GetPostById));
    routes.push(Route::new(Method::Post, "/new", Endpoint::NewPost));
    routes.push(Route::new(Method::Put, "/publish/{post_id}", Endpoint::PublishPost));
    routes.push(Route::new(Method::Delete, "/delete/{post_id}", Endpoint::DeletePost));
    routes.push(Route::new(Method::Get, "/ctx", Endpoint::PostCounter));
    let scope = Scope {
        prefix: "/posts".to_string(),
        state: Some(AppState::new()),
        routes,
        files: Vec::new(),
    };
    assert(scope@.routes =~= posts_scope().routes);
    assert(scope@.files =~= posts_scope().files);
    scope
}

} // verus!
