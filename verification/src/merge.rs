//! The engine and a store taken together: what merging a page comes to.

use crate::post_store::{has_post, lemma_first_match, updated_store};
use crate::posts::{is_record_of, PostView};
use crate::sync_post::{
    add_count, insert_posts_spec, sync_post_spec, update_of, PageView, PatreonPostView,
    PostUpdateView, SyncActionView, SyncEventView, SyncPhaseView, SyncStateView,
};
use crate::sync_run::held_count;
use vstd::prelude::*;

verus! {

/// How a store answers an update: the post was updated where a record carries its
/// identifier, and was not found where none does.
pub open spec fn update_answer(store: Seq<PostView>, update: PostUpdateView) -> SyncEventView {
    if has_post(store, update.patreon_post_id) {
        SyncEventView::PostUpdated
    } else {
        SyncEventView::PostNotFound
    }
}

/// What merging `posts` into `store` comes to, the last post first: the store
/// with every post that it knew updated, the posts that it did not know, in the
/// order in which they were tried, and the number of posts that it knew.
pub open spec fn page_merged(store: Seq<PostView>, posts: Seq<PatreonPostView>) -> (
    Seq<PostView>,
    Seq<PatreonPostView>,
    nat,
)
    decreases posts.len(),
{
    if posts.len() == 0 {
        (store, Seq::empty(), 0)
    } else {
        let post = posts.last();
        let rest = page_merged(updated_store(store, update_of(post)), posts.drop_last());
        if has_post(store, post.id) {
            (rest.0, rest.1, rest.2 + 1)
        } else {
            (rest.0, seq![post] + rest.1, rest.2)
        }
    }
}

/// The engine and the store taken through the updates of a page: as long as the
/// engine asks for an update, the store applies it and answers. What comes back is
/// where the engine then stands, what it asks for instead, and the store.
pub open spec fn after_updates(state: SyncStateView, action: SyncActionView, store: Seq<PostView>) -> (
    SyncStateView,
    SyncActionView,
    Seq<PostView>,
)
    decreases state.patreon_posts.len() + (if action is UpdatePost && state.phase is Updating {
        1nat
    } else {
        0nat
    }),
{
    match action {
        SyncActionView::UpdatePost(update) => if state.phase is Updating {
            let next = sync_post_spec(state, update_answer(store, update));
            after_updates(next.0, next.1, updated_store(store, update))
        } else {
            (state, action, store)
        },
        _ => (state, action, store),
    }
}

/// A count held at the largest `usize` and then raised is the raised count, held.
proof fn lemma_held_count_adds(count: usize, more: usize, later: nat)
    ensures
        add_count(count, more) == held_count(count as nat + more as nat),
        held_count(held_count(count as nat + more as nat) as nat + later) == held_count(
            count as nat + more as nat + later,
        ),
{
}

/// From any post of a page on, the engine's updates merge what is left of the
/// page: the store ends as `page_merged` says, the posts that it did not know are
/// set aside behind those set aside before, every post that it knew is counted,
/// and the engine goes on to insert what was set aside.
pub proof fn lemma_updates_merge_the_rest(state: SyncStateView, post: PatreonPostView, store: Seq<PostView>)
    requires
        state.phase == SyncPhaseView::Updating(post),
    ensures
        ({
            let merged = page_merged(store, state.patreon_posts.push(post));
            let end = after_updates(state, SyncActionView::UpdatePost(update_of(post)), store);
            &&& end.2 == merged.0
            &&& (end.0, end.1) == insert_posts_spec(
                SyncStateView {
                    sync_count: held_count(state.sync_count as nat + merged.2),
                    patreon_posts: Seq::empty(),
                    new_posts: state.new_posts + merged.1,
                    ..state
                },
            )
        }),
    decreases state.patreon_posts.len(),
{
    let left = state.patreon_posts;
    let posts = left.push(post);
    let update = update_of(post);
    let next = sync_post_spec(state, update_answer(store, update));
    let store1 = updated_store(store, update);
    assert(posts.last() == post);
    assert(posts.drop_last() =~= left);
    let rest = page_merged(store1, left);
    let merged = page_merged(store, posts);
    let end = after_updates(state, SyncActionView::UpdatePost(update), store);
    assert(end == after_updates(next.0, next.1, store1));
    let goal = SyncStateView {
        sync_count: held_count(state.sync_count as nat + merged.2),
        patreon_posts: Seq::empty(),
        new_posts: state.new_posts + merged.1,
        ..state
    };
    if left.len() > 0 {
        let post2 = left.last();
        assert(next.0.patreon_posts.push(post2) =~= left);
        lemma_updates_merge_the_rest(next.0, post2, store1);
        lemma_held_count_adds(state.sync_count, 1, rest.2);
        let reached = SyncStateView {
            sync_count: held_count(next.0.sync_count as nat + rest.2),
            patreon_posts: Seq::empty(),
            new_posts: next.0.new_posts + rest.1,
            ..next.0
        };
        assert(reached.new_posts =~= goal.new_posts);
        assert(insert_posts_spec(reached) == insert_posts_spec(goal));
    } else {
        assert(left =~= Seq::<PatreonPostView>::empty());
        assert(rest.1 =~= Seq::<PatreonPostView>::empty());
        assert(rest.2 == 0);
        lemma_held_count_adds(state.sync_count, 1, 0);
        assert(end == (next.0, next.1, store1));
        let reached = SyncStateView {
            sync_count: if has_post(store, post.id) {
                add_count(state.sync_count, 1)
            } else {
                state.sync_count
            },
            new_posts: if has_post(store, post.id) {
                state.new_posts
            } else {
                state.new_posts.push(post)
            },
            ..state
        };
        assert((next.0, next.1) == insert_posts_spec(reached));
        assert(reached.new_posts =~= goal.new_posts);
        assert(insert_posts_spec(reached) == insert_posts_spec(goal));
    }
}

/// A page that was fetched is merged as `page_merged` says. Once the store has
/// answered every update, it holds the merged records, every post that it knew is
/// counted, and the engine asks for the posts that it did not know to be inserted,
/// or, where there is none, goes on to the next page or ends the run.
pub proof fn lemma_page_is_merged(state: SyncStateView, page: PageView, store: Seq<PostView>)
    requires
        state.phase is Fetching,
    ensures
        ({
            let first = sync_post_spec(state, SyncEventView::PageFetched(page));
            let end = after_updates(first.0, first.1, store);
            let merged = page_merged(store, page.posts);
            &&& end.2 == merged.0
            &&& (end.0, end.1) == insert_posts_spec(
                SyncStateView {
                    sync_count: held_count(state.sync_count as nat + merged.2),
                    patreon_posts: Seq::empty(),
                    new_posts: merged.1,
                    next_link: page.next,
                    ..state
                },
            )
        }),
{
    let first = sync_post_spec(state, SyncEventView::PageFetched(page));
    if page.posts.len() > 0 {
        let post = page.posts.last();
        assert(first.0.patreon_posts.push(post) =~= page.posts);
        lemma_updates_merge_the_rest(first.0, post, store);
        let merged = page_merged(store, page.posts);
        assert(first.0.new_posts + merged.1 =~= merged.1);
    } else {
        assert(page.posts =~= Seq::<PatreonPostView>::empty());
    }
}

/// No two records of `store` carry the same identifier of the feed.
pub open spec fn distinct_records(store: Seq<PostView>) -> bool {
    forall|i: int, j: int|
        0 <= i < j < store.len() ==> (#[trigger] store[i]).patreon_post_id != (
        #[trigger] store[j]).patreon_post_id
}

/// No two posts of `posts` carry the same identifier.
pub open spec fn distinct_posts(posts: Seq<PatreonPostView>) -> bool {
    forall|i: int, j: int|
        0 <= i < j < posts.len() ==> (#[trigger] posts[i]).id != (#[trigger] posts[j]).id
}

/// Whether `after` holds the records of `before` in the same places, each as it
/// was but for its title, its content and the time of its synchronisation.
pub open spec fn same_records(before: Seq<PostView>, after: Seq<PostView>) -> bool {
    &&& after.len() == before.len()
    &&& forall|i: int|
        0 <= i < before.len() ==> (#[trigger] after[i]) == (PostView {
            title: after[i].title,
            content: after[i].content,
            synced_at: after[i].synced_at,
            ..before[i]
        })
}

/// Records that stay in their places under their identifiers answer the same
/// questions: which identifiers are known, and whether any is carried twice.
pub proof fn lemma_same_records_same_posts(before: Seq<PostView>, after: Seq<PostView>)
    requires
        same_records(before, after),
    ensures
        forall|id: Seq<char>| has_post(after, id) == has_post(before, id),
        distinct_records(after) == distinct_records(before),
{
    assert forall|id: Seq<char>| has_post(after, id) == has_post(before, id) by {
        if has_post(before, id) {
            let i = choose|i: int|
                0 <= i < before.len() && (#[trigger] before[i]).patreon_post_id == id;
            assert(after[i].patreon_post_id == id);
        }
        if has_post(after, id) {
            let i = choose|i: int| 0 <= i < after.len() && (#[trigger] after[i]).patreon_post_id == id;
            assert(before[i].patreon_post_id == id);
        }
    }
    if distinct_records(before) {
        assert forall|i: int, j: int| 0 <= i < j < after.len() implies (#[trigger] after[i]).patreon_post_id
            != (#[trigger] after[j]).patreon_post_id by {
            assert(before[i].patreon_post_id != before[j].patreon_post_id);
        }
    }
    if distinct_records(after) {
        assert forall|i: int, j: int| 0 <= i < j < before.len() implies (
        #[trigger] before[i]).patreon_post_id != (#[trigger] before[j]).patreon_post_id by {
            assert(after[i].patreon_post_id != after[j].patreon_post_id);
        }
    }
}

/// An update leaves every record in its place under its identifier.
pub proof fn lemma_update_keeps_records(store: Seq<PostView>, update: PostUpdateView)
    ensures
        same_records(store, updated_store(store, update)),
{
    if has_post(store, update.patreon_post_id) {
        lemma_first_match(store, update.patreon_post_id);
    }
}

/// Merging a page adds no record and removes none, and moves none: every record
/// is where it was, under the identifiers it had, made when it was made. Each post
/// of the page is either counted as known or set aside as new.
pub proof fn lemma_merge_keeps_records(store: Seq<PostView>, posts: Seq<PatreonPostView>)
    ensures
        same_records(store, page_merged(store, posts).0),
        page_merged(store, posts).1.len() + page_merged(store, posts).2 == posts.len(),
    decreases posts.len(),
{
    if posts.len() > 0 {
        let update = update_of(posts.last());
        lemma_update_keeps_records(store, update);
        lemma_merge_keeps_records(updated_store(store, update), posts.drop_last());
    }
}

/// The posts set aside as new are those of the page that the store did not know:
/// each of them is a post of the page whose identifier no record carries, each
/// such post of the page is among them, and where no two posts of the page carry
/// the same identifier, no two of them do.
pub proof fn lemma_new_posts_are_the_unknown(store: Seq<PostView>, posts: Seq<PatreonPostView>)
    ensures
        ({
            let unknown = page_merged(store, posts).1;
            &&& forall|k: int|
                0 <= k < unknown.len() ==> posts.contains(#[trigger] unknown[k]) && !has_post(
                    store,
                    unknown[k].id,
                )
            &&& forall|j: int|
                0 <= j < posts.len() && !has_post(store, (#[trigger] posts[j]).id)
                    ==> unknown.contains(posts[j])
            &&& distinct_posts(posts) ==> distinct_posts(unknown)
        }),
    decreases posts.len(),
{
    let unknown = page_merged(store, posts).1;
    if posts.len() > 0 {
        let post = posts.last();
        let update = update_of(post);
        let store1 = updated_store(store, update);
        let rest = page_merged(store1, posts.drop_last());
        lemma_update_keeps_records(store, update);
        lemma_same_records_same_posts(store, store1);
        lemma_new_posts_are_the_unknown(store1, posts.drop_last());
        let shift: int = if has_post(store, post.id) {
            0
        } else {
            1
        };
        assert forall|k: int| 0 <= k < unknown.len() implies posts.contains(#[trigger] unknown[k])
            && !has_post(store, unknown[k].id) by {
            if k < shift {
                assert(unknown[k] == post);
                assert(posts[posts.len() - 1] == post);
            } else {
                assert(unknown[k] == rest.1[k - shift]);
                assert(posts.drop_last().contains(rest.1[k - shift]));
                let j = choose|j: int|
                    0 <= j < posts.drop_last().len() && posts.drop_last()[j] == rest.1[k - shift];
                assert(posts[j] == unknown[k]);
            }
        }
        assert forall|j: int|
            0 <= j < posts.len() && !has_post(store, (#[trigger] posts[j]).id) implies unknown.contains(
            posts[j],
        ) by {
            if j == posts.len() - 1 {
                assert(unknown[0] == posts[j]);
            } else {
                assert(posts.drop_last()[j] == posts[j]);
                assert(rest.1.contains(posts.drop_last()[j]));
                let k = choose|k: int| 0 <= k < rest.1.len() && rest.1[k] == posts[j];
                assert(unknown[k + shift] == posts[j]);
            }
        }
        if distinct_posts(posts) {
            assert(distinct_posts(posts.drop_last())) by {
                assert forall|i: int, j: int| 0 <= i < j < posts.drop_last().len() implies (
                #[trigger] posts.drop_last()[i]).id != (#[trigger] posts.drop_last()[j]).id by {
                    assert(posts[i].id != posts[j].id);
                }
            }
            assert forall|a: int, b: int| 0 <= a < b < unknown.len() implies (
            #[trigger] unknown[a]).id != (#[trigger] unknown[b]).id by {
                if a < shift {
                    assert(unknown[b] == rest.1[b - shift]);
                    assert(posts.drop_last().contains(rest.1[b - shift]));
                    let j = choose|j: int|
                        0 <= j < posts.drop_last().len() && posts.drop_last()[j] == rest.1[b
                            - shift];
                    assert(posts[j].id != posts[posts.len() - 1].id);
                } else {
                    assert(unknown[a] == rest.1[a - shift]);
                    assert(unknown[b] == rest.1[b - shift]);
                }
            }
        }
    }
}

/// Merging makes no record twice. Where no two records carry the same identifier
/// and no two posts of the page do, the store after the merge, with the records
/// made for the new posts inserted, holds a record for every post of the page, and
/// still no two records with the same identifier.
pub proof fn lemma_merge_makes_no_duplicate(
    store: Seq<PostView>,
    posts: Seq<PatreonPostView>,
    records: Seq<PostView>,
)
    requires
        distinct_records(store),
        distinct_posts(posts),
        records.len() == page_merged(store, posts).1.len(),
        forall|k: int|
            0 <= k < records.len() ==> is_record_of(
                #[trigger] records[k],
                page_merged(store, posts).1[k],
            ),
    ensures
        distinct_records(page_merged(store, posts).0 + records),
        forall|j: int|
            0 <= j < posts.len() ==> has_post(
                page_merged(store, posts).0 + records,
                (#[trigger] posts[j]).id,
            ),
        (page_merged(store, posts).0 + records).len() == store.len() + page_merged(
            store,
            posts,
        ).1.len(),
{
    let merged = page_merged(store, posts);
    let after = merged.0 + records;
    lemma_merge_keeps_records(store, posts);
    lemma_same_records_same_posts(store, merged.0);
    lemma_new_posts_are_the_unknown(store, posts);
    assert forall|i: int, j: int| 0 <= i < j < after.len() implies (#[trigger] after[i]).patreon_post_id
        != (#[trigger] after[j]).patreon_post_id by {
        if j < merged.0.len() {
            assert(merged.0[i].patreon_post_id != merged.0[j].patreon_post_id);
        } else if i < merged.0.len() {
            let k = j - merged.0.len();
            assert(is_record_of(records[k], merged.1[k]));
            assert(!has_post(merged.0, merged.1[k].id));
            assert(merged.0[i].patreon_post_id != merged.1[k].id);
        } else {
            let a = i - merged.0.len();
            let b = j - merged.0.len();
            assert(is_record_of(records[a], merged.1[a]));
            assert(is_record_of(records[b], merged.1[b]));
            assert(merged.1[a].id != merged.1[b].id);
        }
    }
    assert forall|j: int| 0 <= j < posts.len() implies has_post(after, (#[trigger] posts[j]).id) by {
        if has_post(store, posts[j].id) {
            let i = choose|i: int|
                0 <= i < merged.0.len() && (#[trigger] merged.0[i]).patreon_post_id == posts[j].id;
            assert(after[i].patreon_post_id == posts[j].id);
        } else {
            assert(merged.1.contains(posts[j]));
            let k = choose|k: int| 0 <= k < merged.1.len() && merged.1[k] == posts[j];
            assert(is_record_of(records[k], merged.1[k]));
            assert(after[merged.0.len() + k].patreon_post_id == posts[j].id);
        }
    }
}

/// Merging a page again inserts nothing. In a store that holds a record for each
/// post of the page, every post is counted as known and none is set aside.
pub proof fn lemma_known_page_inserts_nothing(store: Seq<PostView>, posts: Seq<PatreonPostView>)
    requires
        forall|j: int| 0 <= j < posts.len() ==> has_post(store, (#[trigger] posts[j]).id),
    ensures
        page_merged(store, posts).1.len() == 0,
        page_merged(store, posts).2 == posts.len(),
        page_merged(store, posts).0.len() == store.len(),
    decreases posts.len(),
{
    lemma_merge_keeps_records(store, posts);
    if posts.len() > 0 {
        let update = update_of(posts.last());
        let store1 = updated_store(store, update);
        lemma_update_keeps_records(store, update);
        lemma_same_records_same_posts(store, store1);
        assert forall|j: int| 0 <= j < posts.drop_last().len() implies has_post(
            store1,
            (#[trigger] posts.drop_last()[j]).id,
        ) by {
            assert(has_post(store, posts[j].id));
        }
        lemma_known_page_inserts_nothing(store1, posts.drop_last());
        assert(has_post(store, posts[posts.len() - 1].id));
    }
}

} // verus!
