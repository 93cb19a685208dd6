//! The answer to a request: a status and a body, before either is put on
//! the wire.

use vstd::prelude::*;
use crate::api::test::SampleJSONRespJSON;
use crate::repository::models::post::{NewPost, NewPostView, Post, PostView};

verus! {

/// The status of an answer that succeeded.
pub const STATUS_OK: u16 = 200;

/// The status of an answer about something that is not there.
pub const STATUS_NOT_FOUND: u16 = 404;

/// The status of an answer to a request on which the store failed.
pub const STATUS_INTERNAL_SERVER_ERROR: u16 = 500;

/// The body of an answer. `Text` goes out as plain text; every other body
/// goes out as JSON.
#[derive(Debug, PartialEq, Eq)]
pub enum Body {
    /// A plain message.
    Text(String),
    /// A JSON string.
    JsonText(String),
    /// A JSON integer.
    JsonNumber(i32),
    /// A post, as a JSON object.
    JsonPost(Post),
    /// Posts, as a JSON array of objects.
    JsonPosts(Vec<Post>),
    /// The payload of a creation, as a JSON object.
    JsonNewPost(NewPost),
    /// The sample record, as a JSON object.
    JsonSample(SampleJSONRespJSON),
}

/// A body, as the contracts see it.
pub enum BodyView {
    Text(Seq<char>),
    JsonText(Seq<char>),
    JsonNumber(int),
    JsonPost(PostView),
    JsonPosts(Seq<PostView>),
    JsonNewPost(NewPostView),
    JsonSample(Seq<char>),
}

impl View for Body {
    type V = BodyView;

    open spec fn view(&self) -> BodyView {
        match self {
            Body::Text(text) => BodyView::Text(text@),
            Body::JsonText(text) => BodyView::JsonText(text@),
            Body::JsonNumber(number) => BodyView::JsonNumber(*number as int),
            Body::JsonPost(post) => BodyView::JsonPost(post@),
            Body::JsonPosts(posts) => BodyView::JsonPosts(posts.deep_view()),
            Body::JsonNewPost(new_post) => BodyView::JsonNewPost(new_post@),
            Body::JsonSample(sample) => BodyView::JsonSample(sample.username@),
        }
    }
}

/// The answer to a request.
#[derive(Debug, PartialEq, Eq)]
pub struct HttpReply {
    pub status: u16,
    pub body: Body,
}

/// An answer, as the contracts see it.
pub struct HttpReplyView {
    pub status: int,
    pub body: BodyView,
}

impl View for HttpReply {
    type V = HttpReplyView;

    open spec fn view(&self) -> HttpReplyView {
        HttpReplyView { status: self.status as int, body: self.body@ }
    }
}

impl HttpReplyView {
    /// A successful answer with the body `body`.
    pub open spec fn ok(body: BodyView) -> HttpReplyView {
        HttpReplyView { status: 200, body }
    }

    /// The answer that `message` names something that is not there.
    pub open spec fn not_found(message: Seq<char>) -> HttpReplyView {
        HttpReplyView { status: 404, body: BodyView::Text(message) }
    }

    /// The answer to a request on which the store failed with `message`.
    pub open spec fn internal_server_error(message: Seq<char>) -> HttpReplyView {
        HttpReplyView { status: 500, body: BodyView::Text(message) }
    }
}

impl HttpReply {
    /// A successful answer with the body `body`.
    pub fn ok(body: Body) -> (reply: HttpReply)
        ensures
            reply@ == HttpReplyView::ok(body@),
    {
        HttpReply { status: STATUS_OK, body }
    }

    /// The answer that `message` names something that is not there.
    pub fn not_found(message: String) -> (reply: HttpReply)
        ensures
            reply@ == HttpReplyView::not_found(message@),
    {
        HttpReply { status: STATUS_NOT_FOUND, body: Body::Text(message) }
    }

    /// The answer to a request on which the store failed with `message`.
    pub fn internal_server_error(message: String) -> (reply: HttpReply)
        ensures
            reply@ == HttpReplyView::internal_server_error(message@),
    {
        HttpReply { status: STATUS_INTERNAL_SERVER_ERROR, body: Body::Text(message) }
    }
}

} // verus!
