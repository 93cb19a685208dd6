//! The five operations on posts. Each one issues a single statement against
//! the table and reports a row that is not there as an absent value, not as
//! a failure.

use vstd::prelude::*;
use crate::repository::models::post::{NewPost, NewPostView, Post};
use crate::repository::table::{sequence_exhausted_message, PostTable};
use crate::types::db::{optional, required, QueryError, StorageError, StorageErrorKind};

verus! {

/// How many posts a listing holds at most.
pub const LIST_LIMIT: usize = 5;

/// Lists published posts in storage order, `LIST_LIMIT` of them at most. A
/// table without published posts gives an empty list, not an absent one.
pub fn get(conn: &mut PostTable) -> (out: Result<Option<Vec<Post>>, StorageError>)
    ensures
        final(conn)@ == old(conn)@,
        final(conn)@.wf(),
        out matches Ok(Some(posts)) && {
            &&& posts.deep_view() == old(conn)@.listing(LIST_LIMIT as nat)
            &&& posts.len() <= LIST_LIMIT
            &&& forall|i: int| 0 <= i < posts.len() ==> (#[trigger] posts[i]).published
        },
{
    let loaded: Result<Vec<Post>, QueryError> = Ok(conn.load_published(LIST_LIMIT));
    proof {
        conn@.lemma_listing(LIST_LIMIT as nat);
        let posts = loaded->Ok_0;
        assert forall|i: int| 0 <= i < posts.len() implies (#[trigger] posts[i]).published by {
            assert(posts.deep_view()[i] == posts[i]@);
        }
    }
    optional(loaded)
}

/// Looks up the post with the id `post_id`.
pub fn get_one(conn: &mut PostTable, post_id: i32) -> (out: Result<Option<Post>, StorageError>)
    ensures
        final(conn)@ == old(conn)@,
        final(conn)@.wf(),
        match old(conn)@.find(post_id as int) {
            Some(row) => out matches Ok(Some(post)) && post@ == row,
            None => out matches Ok(None),
        },
{
    optional(conn.first(post_id))
}

/// Creates an unpublished post from a title and a body, and hands the two
/// back as they came in: the id that the table gave the post is not part of
/// the answer. Fails with the table's own failure once its sequence has no
/// id left; the table is then as it was.
pub fn post(conn: &mut PostTable, post_title: String, post_body: String) -> (out: Result<
    NewPost,
    StorageError,
>)
    ensures
        final(conn)@.wf(),
        old(conn)@.can_insert() ==> final(conn)@ == old(conn)@.insert(
            NewPostView { title: post_title@, body: post_body@ },
        ) && (out matches Ok(new_post) && new_post.title@ == post_title@ && new_post.body@
            == post_body@),
        !old(conn)@.can_insert() ==> final(conn)@ == old(conn)@ && (out matches Err(error)
            && error.kind == StorageErrorKind::Query && error.message@
            == sequence_exhausted_message()),
{
    let new_post = NewPost { title: post_title, body: post_body };
    match required(conn.insert(&new_post)) {
        Ok(_) => Ok(new_post),
        Err(error) => Err(error),
    }
}

/// Publishes the post with the id `id_to_publish` and yields it as it then
/// stands; absent, and nothing changed, where there is no such post.
pub fn publish(conn: &mut PostTable, id_to_publish: i32) -> (out: Result<
    Option<Post>,
    StorageError,
>)
    ensures
        final(conn)@ == old(conn)@.publish(id_to_publish as int),
        final(conn)@.wf(),
        match old(conn)@.find(id_to_publish as int) {
            Some(row) => out matches Ok(Some(post)) && post@ == row.publish(),
            None => out matches Ok(None),
        },
{
    optional(conn.set_published(id_to_publish))
}

/// Deletes the post with the id `id_to_delete` and yields it as it last
/// stood; absent, and nothing changed, where there is no such post.
pub fn delete(conn: &mut PostTable, id_to_delete: i32) -> (out: Result<Option<Post>, StorageError>)
    ensures
        final(conn)@ == old(conn)@.delete(id_to_delete as int),
        final(conn)@.wf(),
        match old(conn)@.find(id_to_delete as int) {
            Some(row) => out matches Ok(Some(post)) && post@ == row,
            None => out matches Ok(None),
        },
{
    optional(conn.remove(id_to_delete))
}

} // verus!
