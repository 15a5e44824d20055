//! What holds of every run: of any worker, fed any sequence of events.

use crate::sync_post::{
    add_count, dispatch_state_of, sync_post_spec, update_of, DispatchState, PatreonPostView,
    SyncActionView, SyncEventView, SyncPhaseView, SyncStateView,
};
use vstd::prelude::*;

verus! {

/// Where a worker that started in `state` stands after the first `n` of `events`.
pub open spec fn state_after(state: SyncStateView, events: Seq<SyncEventView>, n: nat) -> SyncStateView
    decreases n,
{
    if n == 0 {
        state
    } else {
        sync_post_spec(state_after(state, events, (n - 1) as nat), events[n - 1]).0
    }
}

/// What that worker asks for in answer to the event at index `i`.
pub open spec fn action_at(state: SyncStateView, events: Seq<SyncEventView>, i: int) -> SyncActionView {
    sync_post_spec(state_after(state, events, i as nat), events[i]).1
}

/// The lock is this worker's.
pub open spec fn holds_job(phase: SyncPhaseView) -> bool {
    !(phase is Idle) && !(phase is Requested)
}

/// The lock is this worker's and the record of the run is still to come.
pub open spec fn owes_result(phase: SyncPhaseView) -> bool {
    phase is Fetching || phase is Updating || phase is Inserting
}

/// The action reads the feed or writes to the store.
pub open spec fn is_activity(action: SyncActionView) -> bool {
    action is FetchPage || action is UpdatePost || action is InsertPosts || action is SaveResult
}

/// This step takes the lock: the worker had asked for it and is told it has it.
pub open spec fn takes_job(state: SyncStateView, event: SyncEventView) -> bool {
    state.phase is Requested && event is JobCreated
}

/// This step begins a run: a worker at rest receives a message that could be read.
pub open spec fn begins_run(state: SyncStateView, event: SyncEventView) -> bool {
    state.phase is Idle && event matches SyncEventView::MessageReceived { message: Some(_), .. }
}

/// How often the lock was taken in the first `n` events.
pub open spec fn jobs_created(state: SyncStateView, events: Seq<SyncEventView>, n: nat) -> nat
    decreases n,
{
    if n == 0 {
        0
    } else {
        let before = jobs_created(state, events, (n - 1) as nat);
        if takes_job(state_after(state, events, (n - 1) as nat), events[n - 1]) {
            before + 1
        } else {
            before
        }
    }
}

/// How many records the worker asked to be stored in answer to the first `n` events.
pub open spec fn results_saved(state: SyncStateView, events: Seq<SyncEventView>, n: nat) -> nat
    decreases n,
{
    if n == 0 {
        0
    } else {
        let before = results_saved(state, events, (n - 1) as nat);
        if action_at(state, events, n - 1) is SaveResult {
            before + 1
        } else {
            before
        }
    }
}

/// The posts merged in the run that is under way after the first `n` events:
/// one for each update that found its record, and as many as the store reports
/// for each insertion. A failed update or insertion adds nothing.
pub open spec fn posts_merged(state: SyncStateView, events: Seq<SyncEventView>, n: nat) -> nat
    decreases n,
{
    if n == 0 {
        state.sync_count as nat
    } else {
        let before = posts_merged(state, events, (n - 1) as nat);
        let at = state_after(state, events, (n - 1) as nat);
        match events[n - 1] {
            SyncEventView::PostUpdated => if at.phase is Updating {
                before + 1
            } else {
                before
            },
            SyncEventView::PostsInserted(count) => if at.phase is Inserting {
                before + count as nat
            } else {
                before
            },
            event => if begins_run(at, event) {
                0
            } else {
                before
            },
        }
    }
}

/// A number of posts as the worker holds it: no larger than the largest `usize`.
pub open spec fn held_count(posts: nat) -> usize {
    if posts > usize::MAX {
        usize::MAX
    } else {
        posts as usize
    }
}

/// One step keeps the balance between locks taken and records asked for: taking
/// the lock makes the worker owe a record, and asking for the record settles it.
pub proof fn lemma_step_settles_result(state: SyncStateView, event: SyncEventView)
    ensures
        ({
            let next = sync_post_spec(state, event);
            (if next.1 is SaveResult { 1nat } else { 0nat }) + (if owes_result(next.0.phase) { 1nat } else { 0nat })
                == (if takes_job(state, event) { 1nat } else { 0nat }) + (if owes_result(state.phase) { 1nat } else { 0nat })
        }),
{
}

/// Each run leaves exactly one record. After any events, the records asked for
/// are as many as the locks taken, less the one that a run still under way owes;
/// a worker that began at rest and is at rest again has asked for one record per
/// lock taken, and for none where it did not get the lock.
pub proof fn lemma_one_result_per_run(state: SyncStateView, events: Seq<SyncEventView>, n: nat)
    requires
        n <= events.len(),
    ensures
        results_saved(state, events, n) + (if owes_result(state_after(state, events, n).phase) { 1nat } else { 0nat })
            == jobs_created(state, events, n) + (if owes_result(state.phase) { 1nat } else { 0nat }),
        state.phase is Idle && state_after(state, events, n).phase is Idle
            ==> results_saved(state, events, n) == jobs_created(state, events, n),
    decreases n,
{
    if n > 0 {
        lemma_one_result_per_run(state, events, (n - 1) as nat);
        lemma_step_settles_result(state_after(state, events, (n - 1) as nat), events[n - 1]);
    }
}

/// The count that the worker holds is the number of posts merged in the run so
/// far, held at the largest `usize`.
pub proof fn lemma_count_follows_merges(state: SyncStateView, events: Seq<SyncEventView>, n: nat)
    requires
        n <= events.len(),
    ensures
        state_after(state, events, n).sync_count == held_count(posts_merged(state, events, n)),
    decreases n,
{
    if n > 0 {
        lemma_count_follows_merges(state, events, (n - 1) as nat);
        let before = posts_merged(state, events, (n - 1) as nat);
        assert(add_count(held_count(before), 1) == held_count(before + 1));
        match events[n - 1] {
            SyncEventView::PostsInserted(count) => {
                assert(add_count(held_count(before), count) == held_count(before + count as nat));
            },
            _ => {},
        }
    }
}

/// The count in a record is the number of posts that the run had merged when it
/// ended: those updated and those inserted up to the event that ended it, neither
/// more nor fewer, held at the largest `usize`.
pub proof fn lemma_result_counts_merged_posts(state: SyncStateView, events: Seq<SyncEventView>, i: int)
    requires
        0 <= i < events.len(),
    ensures
        action_at(state, events, i) matches SyncActionView::SaveResult { sync_count, .. }
            ==> sync_count == held_count(posts_merged(state, events, (i + 1) as nat)),
{
    lemma_count_follows_merges(state, events, (i + 1) as nat);
}

/// The feed is read and the store is written only under the lock: an action that
/// does either leaves the worker holding the lock, a worker comes to hold the lock
/// only by being told that it took it, and while it holds the lock or waits for
/// it, a message changes nothing and starts nothing.
pub proof fn lemma_activity_needs_job(state: SyncStateView, event: SyncEventView)
    ensures
        ({
            let next = sync_post_spec(state, event);
            &&& is_activity(next.1) ==> holds_job(next.0.phase)
            &&& holds_job(next.0.phase) && !holds_job(state.phase) ==> takes_job(state, event)
            &&& event is MessageReceived && !(state.phase is Idle) ==> next.0 == state && next.1 is Nothing
            &&& state.phase is Requested && event is JobExists ==> next.0.phase is Idle && next.1 is Nothing
        }),
{
}

/// The lock is given back after the record of the run, and only then: the worker
/// asks for the lock to be given back exactly when it hears that the record was
/// handed to the store.
pub proof fn lemma_job_is_deleted_after_result(state: SyncStateView, event: SyncEventView)
    ensures
        sync_post_spec(state, event).1 is DeleteJob <==> state.phase is Saving && event is ResultSaved,
        sync_post_spec(state, event).1 is SaveResult ==> sync_post_spec(state, event).0.phase is Saving,
{
}

/// A worker that is never given the lock does nothing: whatever else it is told,
/// it asks for no page, no update, no insertion and no record.
pub proof fn lemma_no_job_no_activity(state: SyncStateView, events: Seq<SyncEventView>, n: nat)
    requires
        n <= events.len(),
        !holds_job(state.phase),
        forall|i: int| 0 <= i < events.len() ==> !(#[trigger] events[i] is JobCreated),
    ensures
        !holds_job(state_after(state, events, n).phase),
        forall|i: int| 0 <= i < n ==> !is_activity(#[trigger] action_at(state, events, i)),
        results_saved(state, events, n) == 0,
    decreases n,
{
    if n > 0 {
        lemma_no_job_no_activity(state, events, (n - 1) as nat);
        lemma_activity_needs_job(state_after(state, events, (n - 1) as nat), events[n - 1]);
    }
}

/// A worker goes round one way only: from rest to asked, from asked to running or,
/// where the lock is not to be had, back to rest, and from running to rest. It
/// never runs without having been asked, and is never asked while it runs.
pub proof fn lemma_dispatch_goes_round(state: SyncStateView, event: SyncEventView)
    ensures
        ({
            let before = dispatch_state_of(state.phase);
            let after = dispatch_state_of(sync_post_spec(state, event).0.phase);
            &&& before == DispatchState::Idle ==> after != DispatchState::Running
            &&& before == DispatchState::Running ==> after != DispatchState::Requested
            &&& before == DispatchState::Idle && after == DispatchState::Requested ==> begins_run(
                state,
                event,
            )
            &&& before == DispatchState::Requested && after == DispatchState::Running ==> takes_job(
                state,
                event,
            )
            &&& before == DispatchState::Running && after == DispatchState::Idle
                ==> state.phase is Releasing && event is JobDeleted
        }),
{
}

/// A post whose update found its record is counted once and is not inserted: the
/// count rises by one, and the posts set aside for insertion are as before,
/// whether they are inserted now or later.
pub proof fn lemma_updated_post_is_counted(state: SyncStateView)
    requires
        state.phase is Updating,
    ensures
        ({
            let next = sync_post_spec(state, SyncEventView::PostUpdated);
            &&& next.0.sync_count == add_count(state.sync_count, 1)
            &&& next.1 matches SyncActionView::InsertPosts(posts) ==> posts == state.new_posts
            &&& !(next.1 is InsertPosts) ==> next.0.new_posts == state.new_posts
        }),
{
    let next = sync_post_spec(state, SyncEventView::PostUpdated);
    if !(next.1 is InsertPosts) {
        assert(next.0.new_posts =~= state.new_posts);
    }
}

/// A post whose update found no record is set aside and inserted with the others
/// of its page: it is the last of the posts handed over for insertion, now if it
/// was the last of the page, and otherwise once the page is through. Until then
/// the count is as before.
pub proof fn lemma_unseen_post_is_set_aside(state: SyncStateView, post: PatreonPostView)
    requires
        state.phase == SyncPhaseView::Updating(post),
    ensures
        ({
            let next = sync_post_spec(state, SyncEventView::PostNotFound);
            &&& next.0.sync_count == state.sync_count
            &&& next.1 matches SyncActionView::InsertPosts(posts) ==> posts == state.new_posts.push(
                post,
            )
            &&& !(next.1 is InsertPosts) ==> next.1 is UpdatePost && next.0.new_posts
                == state.new_posts.push(post)
        }),
{
}

/// The next post of a page is tried as an update that names the post's own
/// identifier and carries its title, its content and its date.
pub proof fn lemma_update_names_its_post(state: SyncStateView, event: SyncEventView)
    ensures
        ({
            let next = sync_post_spec(state, event);
            next.1 matches SyncActionView::UpdatePost(update) ==> next.0.phase matches SyncPhaseView::Updating(
                post,
            ) && update == update_of(post)
        }),
{
}

/// An insertion that the store reports done raises the count by the number it
/// reports, and the posts it was asked for are no longer set aside.
pub proof fn lemma_inserted_posts_are_counted(state: SyncStateView, count: usize)
    requires
        state.phase is Inserting,
    ensures
        ({
            let next = sync_post_spec(state, SyncEventView::PostsInserted(count));
            &&& next.0.sync_count == add_count(state.sync_count, count)
            &&& next.1 is FetchPage || next.1 is SaveResult
        }),
{
}

/// A failure ends the run at once: the record carries the error's text and the
/// count as it stood, and nothing is left of the page or of the link to the next.
pub proof fn lemma_failure_is_recorded(state: SyncStateView, error: Seq<char>)
    ensures
        ({
            let recorded = SyncActionView::SaveResult {
                message: error,
                sync_count: state.sync_count,
                start_time: state.start_time,
            };
            &&& state.phase is Fetching ==> sync_post_spec(state, SyncEventView::FetchFailed(error)).1
                == recorded
            &&& state.phase is Updating ==> sync_post_spec(
                state,
                SyncEventView::UpdateFailed(error),
            ).1 == recorded
            &&& state.phase is Inserting ==> sync_post_spec(
                state,
                SyncEventView::InsertFailed(error),
            ).1 == recorded
            &&& state.phase is Fetching ==> {
                let after = sync_post_spec(state, SyncEventView::FetchFailed(error)).0;
                after.phase is Saving && after.next_link is None && after.patreon_posts.len() == 0
            }
        }),
{
}

/// A run ends well only after its last page: where the record carries no error's
/// text because none occurred, the step that asked for it found no link to a
/// further page, no post of the page left to try and none set aside.
pub proof fn lemma_success_needs_last_page(state: SyncStateView, event: SyncEventView)
    requires
        sync_post_spec(state, event).1 is SaveResult,
        !(event is FetchFailed),
        !(event is UpdateFailed),
        !(event is InsertFailed),
    ensures
        sync_post_spec(state, event).1 matches SyncActionView::SaveResult { message, .. }
            && message.len() == 0,
        match event {
            SyncEventView::PageFetched(page) => state.phase is Fetching && page.next is None
                && page.posts.len() == 0,
            SyncEventView::PostUpdated => state.phase is Updating && state.next_link is None
                && state.patreon_posts.len() == 0 && state.new_posts.len() == 0,
            SyncEventView::PostsInserted(_) => state.phase is Inserting && state.next_link is None,
            _ => false,
        },
{
}

/// Once the record of a run is asked for, the run reads and writes no more: until
/// the worker is at rest again, it asks only for the lock to be given back.
pub proof fn lemma_nothing_follows_the_result(state: SyncStateView, event: SyncEventView)
    requires
        state.phase is Saving || state.phase is Releasing,
    ensures
        ({
            let next = sync_post_spec(state, event);
            &&& !is_activity(next.1)
            &&& next.1 is Nothing || next.1 is DeleteJob
            &&& next.0.phase is Saving || next.0.phase is Releasing || next.0.phase is Idle
            &&& next.1 is DeleteJob <==> state.phase is Saving && event is ResultSaved
        }),
{
}

} // verus!
