//! A collection of posts held in memory, and what an update and an insertion do
//! to a collection of posts.

use crate::posts::{is_record_of, updated_post, Post, PostView};
use crate::sync_post::{update_of, PatreonPostView, PostUpdate, PostUpdateView};
use crate::util::{millis_or_epoch, rfc3339_or_default};
use vstd::prelude::*;

verus! {

/// The records of a list, each over plain text.
pub open spec fn records_view(records: Seq<Post>) -> Seq<PostView> {
    Seq::new(records.len(), |i: int| records[i]@)
}

/// Whether some record of `store` carries the feed's identifier `id`.
pub open spec fn has_post(store: Seq<PostView>, id: Seq<char>) -> bool {
    exists|i: int| 0 <= i < store.len() && (#[trigger] store[i]).patreon_post_id == id
}

/// Whether the record at `i` is the first of `store` that carries `id`.
pub open spec fn is_first_match(store: Seq<PostView>, id: Seq<char>, i: int) -> bool {
    &&& 0 <= i < store.len()
    &&& store[i].patreon_post_id == id
    &&& forall|j: int| 0 <= j < i ==> (#[trigger] store[j]).patreon_post_id != id
}

/// The place of the first record of `store` that carries `id`, where there is one.
pub open spec fn first_match(store: Seq<PostView>, id: Seq<char>) -> int {
    choose|i: int| is_first_match(store, id, i)
}

/// The store with `update` applied: the first record that carries the update's
/// identifier is updated in place, and with no such record nothing changes. No
/// record is added either way.
pub open spec fn updated_store(store: Seq<PostView>, update: PostUpdateView) -> Seq<PostView> {
    if has_post(store, update.patreon_post_id) {
        let i = first_match(store, update.patreon_post_id);
        store.update(i, updated_post(store[i], update))
    } else {
        store
    }
}

proof fn lemma_first_match_before(store: Seq<PostView>, id: Seq<char>, i: int)
    requires
        0 <= i < store.len(),
        store[i].patreon_post_id == id,
    ensures
        exists|j: int| 0 <= j <= i && is_first_match(store, id, j),
    decreases i,
{
    if forall|j: int| 0 <= j < i ==> (#[trigger] store[j]).patreon_post_id != id {
        assert(is_first_match(store, id, i));
    } else {
        let k = choose|k: int| 0 <= k < i && (#[trigger] store[k]).patreon_post_id == id;
        lemma_first_match_before(store, id, k);
    }
}

/// Where some record carries `id`, one of them is the first, and only one.
pub proof fn lemma_first_match(store: Seq<PostView>, id: Seq<char>)
    requires
        has_post(store, id),
    ensures
        is_first_match(store, id, first_match(store, id)),
        forall|i: int| is_first_match(store, id, i) ==> i == first_match(store, id),
{
    let some = choose|i: int| 0 <= i < store.len() && (#[trigger] store[i]).patreon_post_id == id;
    lemma_first_match_before(store, id, some);
    let first = first_match(store, id);
    assert(is_first_match(store, id, first));
    assert forall|i: int| is_first_match(store, id, i) implies i == first by {
        if i < first {
            assert(store[i].patreon_post_id == id);
        } else if first < i {
            assert(store[first].patreon_post_id == id);
        }
    }
}

/// A collection of posts held in memory, in the order in which they were inserted.
#[derive(Debug)]
pub struct PostStore {
    posts: Vec<Post>,
}

impl View for PostStore {
    type V = Seq<PostView>;

    closed spec fn view(&self) -> Seq<PostView> {
        records_view(self.posts@)
    }
}

impl PostStore {
    /// An empty collection.
    pub fn new() -> (store: PostStore)
        ensures
            store@ == Seq::<PostView>::empty(),
    {
        let store = PostStore { posts: Vec::new() };
        assert(store@ =~= Seq::<PostView>::empty());
        store
    }

    /// The number of records.
    pub fn len(&self) -> (len: usize)
        ensures
            len == self@.len(),
    {
        self.posts.len()
    }

    /// The record at `index`, if there is one.
    pub fn get(&self, index: usize) -> (post: Option<&Post>)
        ensures
            match post {
                Some(post) => index < self@.len() && post@ == self@[index as int],
                None => index >= self@.len(),
            },
    {
        if index < self.posts.len() {
            Some(&self.posts[index])
        } else {
            None
        }
    }

    /// The first record that carries the feed's identifier `id`, if there is one.
    pub fn find_one(&self, id: &str) -> (post: Option<&Post>)
        ensures
            match post {
                Some(post) => has_post(self@, id@) && post@ == self@[first_match(self@, id@)],
                None => !has_post(self@, id@),
            },
    {
        let wanted = id.to_owned();
        let mut i: usize = 0;
        while i < self.posts.len()
            invariant
                i <= self.posts@.len(),
                wanted@ == id@,
                forall|j: int| 0 <= j < i ==> (#[trigger] self@[j]).patreon_post_id != id@,
            decreases self.posts@.len() - i,
        {
            if self.posts[i].patreon_post_id == wanted {
                proof {
                    assert(is_first_match(self@, id@, i as int));
                    lemma_first_match(self@, id@);
                }
                return Some(&self.posts[i]);
            }
            i += 1;
        }
        None
    }

    /// Applies `update` to the first record that carries its identifier, and says
    /// whether there was one.
    pub fn find_one_and_update(&mut self, update: &PostUpdate) -> (found: bool)
        ensures
            found == has_post(old(self)@, update@.patreon_post_id),
            final(self)@ == updated_store(old(self)@, update@),
    {
        let ghost before = self@;
        let mut i: usize = 0;
        while i < self.posts.len()
            invariant
                i <= self.posts@.len(),
                self@ == before,
                before == old(self)@,
                forall|j: int|
                    0 <= j < i ==> (#[trigger] before[j]).patreon_post_id != update@.patreon_post_id,
            decreases self.posts@.len() - i,
        {
            if self.posts[i].patreon_post_id == update.patreon_post_id {
                proof {
                    assert(before[i as int].patreon_post_id == update@.patreon_post_id);
                    assert(is_first_match(before, update@.patreon_post_id, i as int));
                    lemma_first_match(before, update@.patreon_post_id);
                }
                let record = self.posts.remove(i);
                let record = record.apply_update(update);
                self.posts.insert(i, record);
                assert(self@ =~= before.update(i as int, updated_post(before[i as int], update@)));
                return true;
            }
            i += 1;
        }
        false
    }

    /// Adds `new_posts` at the end, in their order, and says how many were added.
    pub fn insert_many(&mut self, new_posts: Vec<Post>) -> (inserted: usize)
        ensures
            final(self)@ == old(self)@ + records_view(new_posts@),
            inserted == new_posts@.len(),
    {
        let inserted: usize = new_posts.len();
        let ghost before = self@;
        let ghost added = records_view(new_posts@);
        let mut new_posts = new_posts;
        self.posts.append(&mut new_posts);
        assert(self@ =~= before + added);
        inserted
    }
}

/// A post of the feed that the store knows is merged into its record: afterwards
/// the first record with the post's identifier carries the post's title and
/// content and, as the time of synchronisation, the instant that the RFC 3339 form
/// of the publication date names; its own identifier, the time it was created and
/// the rest of it are as before; every other record is as before; and the store
/// holds as many records as before, so none was made a second time.
pub proof fn lemma_known_post_is_updated(store: Seq<PostView>, post: PatreonPostView)
    requires
        has_post(store, post.id),
    ensures
        ({
            let after = updated_store(store, update_of(post));
            let i = first_match(store, post.id);
            &&& after.len() == store.len()
            &&& is_first_match(store, post.id, i)
            &&& after[i].title == post.title
            &&& after[i].content == post.content
            &&& after[i].synced_at == millis_or_epoch(rfc3339_or_default(post.published_at))
            &&& after[i].created_at == store[i].created_at
            &&& after[i].updated_at == store[i].updated_at
            &&& after[i].id == store[i].id
            &&& after[i].patreon_post_id == post.id
            &&& after[i] == updated_post(store[i], update_of(post))
            &&& forall|j: int| 0 <= j < store.len() && j != i ==> after[j] == store[j]
        }),
{
    lemma_first_match(store, post.id);
}

/// A post of the feed that the store does not know gets a record of its own: the
/// update finds nothing and changes nothing, and once the records made for the
/// new posts are inserted, the store holds one with the post's identifier, and
/// as many more records as there were new posts.
pub proof fn lemma_unseen_post_is_inserted(
    store: Seq<PostView>,
    new_posts: Seq<PatreonPostView>,
    records: Seq<PostView>,
    k: int,
)
    requires
        0 <= k < new_posts.len(),
        !has_post(store, new_posts[k].id),
        records.len() == new_posts.len(),
        forall|i: int| 0 <= i < records.len() ==> is_record_of(#[trigger] records[i], new_posts[i]),
    ensures
        updated_store(store, update_of(new_posts[k])) == store,
        has_post(store + records, new_posts[k].id),
        (store + records).len() == store.len() + new_posts.len(),
{
    let after = store + records;
    assert(is_record_of(records[k], new_posts[k]));
    assert(after[store.len() + k] == records[k]);
    assert(after[store.len() + k].patreon_post_id == new_posts[k].id);
}

} // verus!
