//! The post, as it is stored, and the payload from which one is created.

use vstd::prelude::*;

verus! {

/// A stored post, as the contracts see it.
pub struct PostView {
    pub id: int,
    pub title: Seq<char>,
    pub body: Seq<char>,
    pub published: bool,
}

/// The payload of a creation, as the contracts see it.
pub struct NewPostView {
    pub title: Seq<char>,
    pub body: Seq<char>,
}

/// A stored post. The table assigns `id`; it never changes afterwards.
#[derive(Debug, PartialEq, Eq)]
pub struct Post {
    pub id: i32,
    pub title: String,
    pub body: String,
    pub published: bool,
}

/// What a caller hands in to create a post: no id, and no `published` flag,
/// which the table sets to `false`.
#[derive(Debug, PartialEq, Eq)]
pub struct NewPost {
    pub title: String,
    pub body: String,
}

impl View for Post {
    type V = PostView;

    open spec fn view(&self) -> PostView {
        PostView {
            id: self.id as int,
            title: self.title@,
            body: self.body@,
            published: self.published,
        }
    }
}

impl DeepView for Post {
    type V = PostView;

    open spec fn deep_view(&self) -> PostView {
        self@
    }
}

impl View for NewPost {
    type V = NewPostView;

    open spec fn view(&self) -> NewPostView {
        NewPostView { title: self.title@, body: self.body@ }
    }
}

impl Clone for Post {
    fn clone(&self) -> (copy: Post)
        ensures
            copy@ == self@,
    {
        Post {
            id: self.id,
            title: self.title.clone(),
            body: self.body.clone(),
            published: self.published,
        }
    }
}

impl Clone for NewPost {
    fn clone(&self) -> (copy: NewPost)
        ensures
            copy@ == self@,
    {
        NewPost { title: self.title.clone(), body: self.body.clone() }
    }
}

impl PostView {
    /// The same post with the `published` flag set.
    pub open spec fn publish(self) -> PostView {
        PostView { published: true, ..self }
    }
}

impl NewPostView {
    /// The row that the table stores for this payload under `id`.
    pub open spec fn stored_as(self, id: int) -> PostView {
        PostView { id, title: self.title, body: self.body, published: false }
    }
}

} // verus!
