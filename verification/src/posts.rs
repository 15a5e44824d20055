//! The posts this system keeps, and the request to bring them up to date.

use crate::ids::{is_hex_text, new_object_id_hex, now_millis};
use crate::redis_pubsub::message::Message;
use crate::sync_post::{PatreonPost, PatreonPostView, PostUpdate, PostUpdateView};
use crate::util::{get_chrono_dt_from_string, millis_or_epoch};
use vstd::prelude::*;

verus! {

/// A post as it is stored. `patreon_post_id` is the feed's name for it, by which
/// a post of the feed finds its record; `_id` is the store's own.
#[derive(Debug, Clone)]
pub struct Post {
    pub _id: String,
    pub title: String,
    pub patreon_post_id: String,
    pub content: String,
    pub images_url: Vec<String>,
    pub file_url: String,
    pub mod_type: String,
    pub created_at: i64,
    pub updated_at: i64,
    pub synced_at: i64,
}

/// A `Post` over plain text; the three times are milliseconds since the Unix epoch.
#[verifier::ext_equal]
pub struct PostView {
    pub id: Seq<char>,
    pub title: Seq<char>,
    pub patreon_post_id: Seq<char>,
    pub content: Seq<char>,
    pub images_url: Seq<Seq<char>>,
    pub file_url: Seq<char>,
    pub mod_type: Seq<char>,
    pub created_at: i64,
    pub updated_at: i64,
    pub synced_at: i64,
}

impl View for Post {
    type V = PostView;

    open spec fn view(&self) -> PostView {
        PostView {
            id: self._id@,
            title: self.title@,
            patreon_post_id: self.patreon_post_id@,
            content: self.content@,
            images_url: Seq::new(self.images_url@.len(), |i: int| self.images_url@[i]@),
            file_url: self.file_url@,
            mod_type: self.mod_type@,
            created_at: self.created_at,
            updated_at: self.updated_at,
            synced_at: self.synced_at,
        }
    }
}

/// The record made at the time `now`, under the identifier `id`, for a post of the
/// feed that matched none: what the feed sent, nothing for what it does not send,
/// and the publication date, or the epoch where it cannot be read, as the time of
/// the last update.
pub open spec fn synced_post(
    id: Seq<char>,
    now: i64,
    patreon_post_id: Seq<char>,
    title: Seq<char>,
    content: Seq<char>,
    date_string: Seq<char>,
) -> PostView {
    PostView {
        id,
        title,
        patreon_post_id,
        content,
        images_url: Seq::empty(),
        file_url: Seq::empty(),
        mod_type: Seq::empty(),
        created_at: now,
        updated_at: millis_or_epoch(date_string),
        synced_at: now,
    }
}

impl Post {
    /// The record for a new post of the feed, given its identifier and the time.
    pub fn for_sync_at(
        id: String,
        now: i64,
        patreon_post_id: &str,
        title: &str,
        content: &str,
        date_string: &str,
    ) -> (post: Post)
        ensures
            post@ == synced_post(id@, now, patreon_post_id@, title@, content@, date_string@),
    {
        let post = Post {
            _id: id,
            patreon_post_id: patreon_post_id.to_owned(),
            title: title.to_owned(),
            content: content.to_owned(),
            images_url: Vec::new(),
            file_url: String::new(),
            mod_type: String::new(),
            created_at: now,
            updated_at: get_chrono_dt_from_string(date_string.to_owned()).timestamp_millis(),
            synced_at: now,
        };
        assert(post@.images_url =~= Seq::empty());
        post
    }

    /// The record for a new post of the feed, with a fresh identifier, made now.
    /// The identifier is 24 hexadecimal digits; the time is one reading of the
    /// clock, which `created_at` and `synced_at` share.
    pub fn new_for_sync(patreon_post_id: &str, title: &str, content: &str, date_string: &str) -> (post:
        Post)
        ensures
            is_hex_text(post@.id, 24),
            post@ == synced_post(
                post@.id,
                post@.created_at,
                patreon_post_id@,
                title@,
                content@,
                date_string@,
            ),
    {
        let now: i64 = now_millis();
        Post::for_sync_at(new_object_id_hex(), now, patreon_post_id, title, content, date_string)
    }
}

/// Whether `record` is what `new_for_sync` makes of `post`.
pub open spec fn is_record_of(record: PostView, post: PatreonPostView) -> bool {
    &&& is_hex_text(record.id, 24)
    &&& record == synced_post(
        record.id,
        record.created_at,
        post.id,
        post.title,
        post.content,
        post.published_at,
    )
}

/// The records to insert for the posts that matched none: one for each, in the
/// same order.
pub fn new_posts_for_sync(patreon_posts: &Vec<PatreonPost>) -> (new_posts: Vec<Post>)
    ensures
        new_posts@.len() == patreon_posts@.len(),
        forall|i: int|
            0 <= i < new_posts@.len() ==> is_record_of(#[trigger] new_posts@[i]@, patreon_posts@[i]@),
{
    let mut new_posts: Vec<Post> = Vec::new();
    let mut i: usize = 0;
    while i < patreon_posts.len()
        invariant
            i <= patreon_posts@.len(),
            new_posts@.len() == i,
            forall|j: int|
                0 <= j < i ==> is_record_of(#[trigger] new_posts@[j]@, patreon_posts@[j]@),
        decreases patreon_posts@.len() - i,
    {
        let post = &patreon_posts[i];
        new_posts.push(
            Post::new_for_sync(
                post.id.as_str(),
                post.title.as_str(),
                post.content.as_str(),
                post.published_at.as_str(),
            ),
        );
        i += 1;
    }
    new_posts
}

/// What a record becomes when `update` is applied to it: title and content are
/// replaced, the time of synchronisation is the one the update names, or the epoch
/// where that cannot be read, and everything else stays.
pub open spec fn updated_post(record: PostView, update: PostUpdateView) -> PostView {
    PostView {
        title: update.title,
        content: update.content,
        synced_at: millis_or_epoch(update.synced_at),
        ..record
    }
}

impl Post {
    /// The record with `update` applied.
    pub fn apply_update(self, update: &PostUpdate) -> (post: Post)
        ensures
            post@ == updated_post(self@, update@),
    {
        let Post {
            _id,
            title: _,
            patreon_post_id,
            content: _,
            images_url,
            file_url,
            mod_type,
            created_at,
            updated_at,
            synced_at: _,
        } = self;
        Post {
            _id,
            title: update.title.clone(),
            patreon_post_id,
            content: update.content.clone(),
            images_url,
            file_url,
            mod_type,
            created_at,
            updated_at,
            synced_at: get_chrono_dt_from_string(update.synced_at.clone()).timestamp_millis(),
        }
    }
}

/// What the request for a run is answered with, given what asking for the lock
/// returned: a message to publish if the lock is known to be free, and nothing if
/// it is held or could not be asked for. The request itself is granted either way.
pub fn sync_posts(job_exists: Result<bool, String>) -> (publish: Option<Message>)
    ensures
        publish is Some <==> job_exists == Ok::<bool, String>(false),
        publish matches Some(message) ==> message@.payload == "Sync"@ && is_hex_text(
            message@.id,
            32,
        ),
{
    match job_exists {
        Ok(false) => Some(Message::new("Sync".to_owned())),
        _ => None,
    }
}

} // verus!
