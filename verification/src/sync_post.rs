//! The synchronisation engine: what the feed sends, how a page is merged, and the
//! record that every run leaves behind.

use crate::ids::{is_hex_text, new_object_id_hex, now_millis};
use crate::redis_pubsub::message::{Message, MessageView};
use crate::util::{convert_to_rfc3999_string, rfc3339_or_default};
use vstd::prelude::*;

verus! {

/// The audit record of one run.
#[derive(Debug, Clone)]
pub struct SyncResult {
    pub _id: String,
    pub is_success: bool,
    pub message: String,
    pub sync_count: usize,
    pub elapsed_time: i64,
    pub synced_at: i64,
}

/// One page of the feed, as the feed sends it.
#[derive(Debug)]
pub struct PatreonPostsApiResult {
    pub data: Vec<PatreonPostsApiPostResult>,
    pub links: Option<PatreonPostsApiLinksResult>,
    pub meta: PatreonPostsApiMetaResult,
}

/// Where the next page is. The last page has no such part.
#[derive(Debug)]
pub struct PatreonPostsApiLinksResult {
    pub next: String,
}

#[derive(Debug)]
pub struct PatreonPostsApiMetaResult {
    pub pagination: PatreonPostsApiPaginationResult,
}

#[derive(Debug)]
pub struct PatreonPostsApiPaginationResult {
    pub cursors: PatreonPostsApiCursorsResult,
    pub total: usize,
}

#[derive(Debug)]
pub struct PatreonPostsApiCursorsResult {
    pub next: Option<String>,
}

/// One post of a page, as the feed sends it.
#[derive(Debug)]
pub struct PatreonPostsApiPostResult {
    pub id: String,
    pub attributes: PatreonPostsApiPostAttributesResult,
}

#[derive(Debug)]
pub struct PatreonPostsApiPostAttributesResult {
    pub content: String,
    pub title: String,
    pub published_at: String,
}

/// A post of the feed, flattened. It lives for one page and is never stored.
#[derive(Debug, Clone)]
pub struct PatreonPost {
    pub id: String,
    pub content: String,
    pub title: String,
    pub published_at: String,
}

/// A `PatreonPost` as plain text.
#[verifier::ext_equal]
pub struct PatreonPostView {
    pub id: Seq<char>,
    pub content: Seq<char>,
    pub title: Seq<char>,
    pub published_at: Seq<char>,
}

impl View for PatreonPost {
    type V = PatreonPostView;

    open spec fn view(&self) -> PatreonPostView {
        PatreonPostView {
            id: self.id@,
            content: self.content@,
            title: self.title@,
            published_at: self.published_at@,
        }
    }
}

/// The posts of a list, each as plain text.
pub open spec fn posts_view(posts: Seq<PatreonPost>) -> Seq<PatreonPostView> {
    Seq::new(posts.len(), |i: int| posts[i]@)
}

/// What a page means to the engine: its posts, in the feed's order, and the link
/// to the page after it, if there is one.
#[verifier::ext_equal]
pub struct PageView {
    pub posts: Seq<PatreonPostView>,
    pub next: Option<Seq<char>>,
}

impl View for PatreonPostsApiPostResult {
    type V = PatreonPostView;

    open spec fn view(&self) -> PatreonPostView {
        PatreonPostView {
            id: self.id@,
            content: self.attributes.content@,
            title: self.attributes.title@,
            published_at: self.attributes.published_at@,
        }
    }
}

impl View for PatreonPostsApiResult {
    type V = PageView;

    open spec fn view(&self) -> PageView {
        PageView {
            posts: Seq::new(self.data@.len(), |i: int| self.data@[i]@),
            next: match self.links {
                Some(links) => Some(links.next@),
                None => None,
            },
        }
    }
}

impl PatreonPostsApiPostResult {
    /// The post, flattened.
    pub fn to_post(&self) -> (post: PatreonPost)
        ensures
            post@ == self@,
    {
        PatreonPost {
            id: self.id.clone(),
            content: self.attributes.content.clone(),
            title: self.attributes.title.clone(),
            published_at: self.attributes.published_at.clone(),
        }
    }
}

impl PatreonPostsApiResult {
    /// The posts of the page, flattened, in the feed's order.
    pub fn posts(&self) -> (posts: Vec<PatreonPost>)
        ensures
            posts_view(posts@) == self@.posts,
    {
        let mut posts: Vec<PatreonPost> = Vec::new();
        let mut i: usize = 0;
        while i < self.data.len()
            invariant
                i <= self.data@.len(),
                posts@.len() == i,
                forall|j: int| 0 <= j < i ==> (#[trigger] posts@[j])@ == self.data@[j]@,
            decreases self.data@.len() - i,
        {
            posts.push(self.data[i].to_post());
            i += 1;
        }
        assert(posts_view(posts@) =~= self@.posts);
        posts
    }
}

/// The change made to a stored post that the feed still carries: three fields are
/// set on the record whose `patreon_post_id` is the one given, and no other.
#[derive(Debug, Clone)]
pub struct PostUpdate {
    pub patreon_post_id: String,
    pub title: String,
    pub content: String,
    pub synced_at: String,
}

/// A `PostUpdate` as plain text.
#[verifier::ext_equal]
pub struct PostUpdateView {
    pub patreon_post_id: Seq<char>,
    pub title: Seq<char>,
    pub content: Seq<char>,
    pub synced_at: Seq<char>,
}

impl View for PostUpdate {
    type V = PostUpdateView;

    open spec fn view(&self) -> PostUpdateView {
        PostUpdateView {
            patreon_post_id: self.patreon_post_id@,
            title: self.title@,
            content: self.content@,
            synced_at: self.synced_at@,
        }
    }
}

/// The update that a post of the feed asks for: title and content as sent, and
/// the publication date in RFC 3339 form as the time of synchronisation.
pub open spec fn update_of(post: PatreonPostView) -> PostUpdateView {
    PostUpdateView {
        patreon_post_id: post.id,
        title: post.title,
        content: post.content,
        synced_at: rfc3339_or_default(post.published_at),
    }
}

impl PostUpdate {
    /// The update that `post` asks for.
    pub fn for_post(post: &PatreonPost) -> (update: PostUpdate)
        ensures
            update@ == update_of(post@),
    {
        PostUpdate {
            patreon_post_id: post.id.clone(),
            title: post.title.clone(),
            content: post.content.clone(),
            synced_at: convert_to_rfc3999_string(post.published_at.clone()),
        }
    }
}

/// The time from `start` to `end` in milliseconds, held within `i64`.
pub open spec fn elapsed_between(start: i64, end: i64) -> i64 {
    if end - start > i64::MAX {
        i64::MAX
    } else if end - start < i64::MIN {
        i64::MIN
    } else {
        (end - start) as i64
    }
}

impl SyncResult {
    /// The record of a run that began at `start_time` and ended at `now` with
    /// `message`. An empty message is what makes a run a success.
    pub fn at(id: String, message: String, sync_count: usize, start_time: i64, now: i64) -> (result:
        SyncResult)
        ensures
            result._id@ == id@,
            result.message@ == message@,
            result.is_success == (message@.len() == 0),
            result.sync_count == sync_count,
            result.elapsed_time == elapsed_between(start_time, now),
            result.synced_at == now,
    {
        let elapsed_time: i64 = match now.checked_sub(start_time) {
            Some(elapsed) => elapsed,
            None => if now >= start_time {
                i64::MAX
            } else {
                i64::MIN
            },
        };
        let is_success = message.as_str().is_empty();
        SyncResult { _id: id, is_success, message, sync_count, elapsed_time, synced_at: now }
    }
}

/// Draws up the record of a run that is over: it reads the clock, takes a fresh
/// identifier, and fills in the rest from what the run reports. Storing the record
/// is the caller's part.
pub fn save_sync_result(message: String, sync_count: usize, start_time: i64) -> (result: SyncResult)
    ensures
        is_hex_text(result._id@, 24),
        result.message@ == message@,
        result.is_success == (message@.len() == 0),
        result.sync_count == sync_count,
        result.elapsed_time == elapsed_between(start_time, result.synced_at),
{
    let now: i64 = now_millis();
    SyncResult::at(new_object_id_hex(), message, sync_count, start_time, now)
}

/// The first page of the feed. Every run starts here.
pub const FIRST_PAGE_URL: &'static str =
    "https://www.patreon.com/api/oauth2/v2/campaigns/8365446/posts?fields%5Bpost%5D=content,title,published_at";

/// Where a worker stands.
#[derive(Debug)]
pub enum SyncPhase {
    /// No run is under way.
    Idle,
    /// A run was asked for and the lock is being taken.
    Requested,
    /// The lock is held and a page is being fetched.
    Fetching,
    /// The update for this post is under way.
    Updating(PatreonPost),
    /// The posts that matched no record are being inserted.
    Inserting,
    /// The record of the run is being stored.
    Saving,
    /// The lock is being given back.
    Releasing,
}

/// A worker: the phase it is in and what it has gathered in the run so far.
#[derive(Debug)]
pub struct SyncState {
    phase: SyncPhase,
    start_time: i64,
    sync_count: usize,
    patreon_posts: Vec<PatreonPost>,
    new_posts: Vec<PatreonPost>,
    next_link: Option<String>,
}

/// What happened outside, told to the worker.
#[derive(Debug)]
pub enum SyncEvent {
    /// Something arrived on the channel at the time `now`; `message` is what could
    /// be read of it.
    MessageReceived { message: Option<Message>, now: i64 },
    /// The lock was free and is now this worker's.
    JobCreated,
    /// The lock is held by another run.
    JobExists,
    /// The lock could not be asked for.
    JobFailed(String),
    /// The page that was asked for.
    PageFetched(PatreonPostsApiResult),
    /// The page could not be had or could not be read, or the wait for it was
    /// given up: the text says why.
    FetchFailed(String),
    /// A record carried the post's identifier and was updated.
    PostUpdated,
    /// No record carries the post's identifier.
    PostNotFound,
    /// The update could not be made.
    UpdateFailed(String),
    /// The new posts were inserted, this many of them.
    PostsInserted(usize),
    /// The new posts could not be inserted.
    InsertFailed(String),
    /// The record of the run was handed to the store, which took it or did not.
    ResultSaved,
    /// The lock was given back, or giving it back failed.
    JobDeleted,
}

/// What the worker asks to be done next.
#[derive(Debug)]
pub enum SyncAction {
    /// Nothing: wait for the next message.
    Nothing,
    /// Take the lock, if and only if nobody holds it.
    CreateJob,
    /// Fetch the page at this address.
    FetchPage(String),
    /// Apply this update to the record with the same `patreon_post_id`.
    UpdatePost(PostUpdate),
    /// Insert a new record for each of these posts, in one operation.
    InsertPosts(Vec<PatreonPost>),
    /// Store the record of the run: see `save_sync_result`.
    SaveResult { message: String, sync_count: usize, start_time: i64 },
    /// Give the lock back.
    DeleteJob,
}

/// A `SyncPhase` over plain text.
#[verifier::ext_equal]
pub enum SyncPhaseView {
    Idle,
    Requested,
    Fetching,
    Updating(PatreonPostView),
    Inserting,
    Saving,
    Releasing,
}

/// A `SyncState` over plain text and sequences.
#[verifier::ext_equal]
pub struct SyncStateView {
    pub phase: SyncPhaseView,
    pub start_time: i64,
    pub sync_count: usize,
    pub patreon_posts: Seq<PatreonPostView>,
    pub new_posts: Seq<PatreonPostView>,
    pub next_link: Option<Seq<char>>,
}

/// A `SyncEvent` over plain text and sequences.
#[verifier::ext_equal]
pub enum SyncEventView {
    MessageReceived { message: Option<MessageView>, now: i64 },
    JobCreated,
    JobExists,
    JobFailed(Seq<char>),
    PageFetched(PageView),
    FetchFailed(Seq<char>),
    PostUpdated,
    PostNotFound,
    UpdateFailed(Seq<char>),
    PostsInserted(usize),
    InsertFailed(Seq<char>),
    ResultSaved,
    JobDeleted,
}

/// A `SyncAction` over plain text and sequences.
#[verifier::ext_equal]
pub enum SyncActionView {
    Nothing,
    CreateJob,
    FetchPage(Seq<char>),
    UpdatePost(PostUpdateView),
    InsertPosts(Seq<PatreonPostView>),
    SaveResult { message: Seq<char>, sync_count: usize, start_time: i64 },
    DeleteJob,
}

impl View for SyncPhase {
    type V = SyncPhaseView;

    open spec fn view(&self) -> SyncPhaseView {
        match self {
            SyncPhase::Idle => SyncPhaseView::Idle,
            SyncPhase::Requested => SyncPhaseView::Requested,
            SyncPhase::Fetching => SyncPhaseView::Fetching,
            SyncPhase::Updating(post) => SyncPhaseView::Updating(post@),
            SyncPhase::Inserting => SyncPhaseView::Inserting,
            SyncPhase::Saving => SyncPhaseView::Saving,
            SyncPhase::Releasing => SyncPhaseView::Releasing,
        }
    }
}

impl View for SyncState {
    type V = SyncStateView;

    closed spec fn view(&self) -> SyncStateView {
        SyncStateView {
            phase: self.phase@,
            start_time: self.start_time,
            sync_count: self.sync_count,
            patreon_posts: posts_view(self.patreon_posts@),
            new_posts: posts_view(self.new_posts@),
            next_link: match self.next_link {
                Some(link) => Some(link@),
                None => None,
            },
        }
    }
}

impl View for SyncEvent {
    type V = SyncEventView;

    open spec fn view(&self) -> SyncEventView {
        match self {
            SyncEvent::MessageReceived { message, now } => SyncEventView::MessageReceived {
                message: match message {
                    Some(message) => Some(message@),
                    None => None,
                },
                now: *now,
            },
            SyncEvent::JobCreated => SyncEventView::JobCreated,
            SyncEvent::JobExists => SyncEventView::JobExists,
            SyncEvent::JobFailed(error) => SyncEventView::JobFailed(error@),
            SyncEvent::PageFetched(page) => SyncEventView::PageFetched(page@),
            SyncEvent::FetchFailed(error) => SyncEventView::FetchFailed(error@),
            SyncEvent::PostUpdated => SyncEventView::PostUpdated,
            SyncEvent::PostNotFound => SyncEventView::PostNotFound,
            SyncEvent::UpdateFailed(error) => SyncEventView::UpdateFailed(error@),
            SyncEvent::PostsInserted(count) => SyncEventView::PostsInserted(*count),
            SyncEvent::InsertFailed(error) => SyncEventView::InsertFailed(error@),
            SyncEvent::ResultSaved => SyncEventView::ResultSaved,
            SyncEvent::JobDeleted => SyncEventView::JobDeleted,
        }
    }
}

impl View for SyncAction {
    type V = SyncActionView;

    open spec fn view(&self) -> SyncActionView {
        match self {
            SyncAction::Nothing => SyncActionView::Nothing,
            SyncAction::CreateJob => SyncActionView::CreateJob,
            SyncAction::FetchPage(link) => SyncActionView::FetchPage(link@),
            SyncAction::UpdatePost(update) => SyncActionView::UpdatePost(update@),
            SyncAction::InsertPosts(posts) => SyncActionView::InsertPosts(posts_view(posts@)),
            SyncAction::SaveResult { message, sync_count, start_time } => SyncActionView::SaveResult {
                message: message@,
                sync_count: *sync_count,
                start_time: *start_time,
            },
            SyncAction::DeleteJob => SyncActionView::DeleteJob,
        }
    }
}

/// A worker as the one who asks for runs sees it: at rest, asked to run, or
/// running under the lock.
#[derive(Debug, Clone, Copy, PartialEq, Eq, Structural)]
pub enum DispatchState {
    Idle,
    Requested,
    Running,
}

/// What a phase looks like from outside.
pub open spec fn dispatch_state_of(phase: SyncPhaseView) -> DispatchState {
    match phase {
        SyncPhaseView::Idle => DispatchState::Idle,
        SyncPhaseView::Requested => DispatchState::Requested,
        _ => DispatchState::Running,
    }
}

/// A count of posts raised by `more`, held at the largest `usize`.
pub open spec fn add_count(count: usize, more: usize) -> usize {
    if count + more > usize::MAX {
        usize::MAX
    } else {
        (count + more) as usize
    }
}

/// A worker at rest, before its first run.
pub open spec fn idle_state() -> SyncStateView {
    SyncStateView {
        phase: SyncPhaseView::Idle,
        start_time: 0,
        sync_count: 0,
        patreon_posts: Seq::empty(),
        new_posts: Seq::empty(),
        next_link: None,
    }
}

/// The run ends here, with `message`: the record is to be stored, and whatever was
/// left of the page is dropped.
pub open spec fn finish_spec(state: SyncStateView, message: Seq<char>) -> (
    SyncStateView,
    SyncActionView,
) {
    (
        SyncStateView {
            phase: SyncPhaseView::Saving,
            patreon_posts: Seq::empty(),
            new_posts: Seq::empty(),
            next_link: None,
            ..state
        },
        SyncActionView::SaveResult {
            message,
            sync_count: state.sync_count,
            start_time: state.start_time,
        },
    )
}

/// A page is done: the next one is fetched, or, after the last, the run ends well.
pub open spec fn next_page_spec(state: SyncStateView) -> (SyncStateView, SyncActionView) {
    match state.next_link {
        Some(link) => (
            SyncStateView { phase: SyncPhaseView::Fetching, next_link: None, ..state },
            SyncActionView::FetchPage(link),
        ),
        None => finish_spec(state, Seq::empty()),
    }
}

/// Every post of the page has been tried: those that matched no record are
/// inserted together, and if there is none the page is done.
pub open spec fn insert_posts_spec(state: SyncStateView) -> (SyncStateView, SyncActionView) {
    if state.new_posts.len() > 0 {
        (
            SyncStateView { phase: SyncPhaseView::Inserting, new_posts: Seq::empty(), ..state },
            SyncActionView::InsertPosts(state.new_posts),
        )
    } else {
        next_page_spec(state)
    }
}

/// The page is merged post by post, from its end: the last post that is left is
/// tried as an update; when none is left, the new posts are inserted.
pub open spec fn upsert_posts_spec(state: SyncStateView) -> (SyncStateView, SyncActionView) {
    if state.patreon_posts.len() > 0 {
        let post = state.patreon_posts.last();
        (
            SyncStateView {
                phase: SyncPhaseView::Updating(post),
                patreon_posts: state.patreon_posts.drop_last(),
                ..state
            },
            SyncActionView::UpdatePost(update_of(post)),
        )
    } else {
        insert_posts_spec(state)
    }
}

/// The engine: from where a worker stands and what happened, to where it stands
/// next and what it asks for. An event that the phase does not wait for changes
/// nothing and asks for nothing.
pub open spec fn sync_post_spec(state: SyncStateView, event: SyncEventView) -> (
    SyncStateView,
    SyncActionView,
) {
    match (state.phase, event) {
        (SyncPhaseView::Idle, SyncEventView::MessageReceived { message: Some(_), now }) => (
            SyncStateView { phase: SyncPhaseView::Requested, start_time: now, ..idle_state() },
            SyncActionView::CreateJob,
        ),
        (SyncPhaseView::Requested, SyncEventView::JobCreated) => (
            SyncStateView { phase: SyncPhaseView::Fetching, ..state },
            SyncActionView::FetchPage(FIRST_PAGE_URL@),
        ),
        (SyncPhaseView::Requested, SyncEventView::JobExists) => (
            SyncStateView { phase: SyncPhaseView::Idle, ..state },
            SyncActionView::Nothing,
        ),
        (SyncPhaseView::Requested, SyncEventView::JobFailed(_)) => (
            SyncStateView { phase: SyncPhaseView::Idle, ..state },
            SyncActionView::Nothing,
        ),
        (SyncPhaseView::Fetching, SyncEventView::PageFetched(page)) => upsert_posts_spec(
            SyncStateView {
                patreon_posts: page.posts,
                new_posts: Seq::empty(),
                next_link: page.next,
                ..state
            },
        ),
        (SyncPhaseView::Fetching, SyncEventView::FetchFailed(error)) => finish_spec(state, error),
        (SyncPhaseView::Updating(_), SyncEventView::PostUpdated) => upsert_posts_spec(
            SyncStateView { sync_count: add_count(state.sync_count, 1), ..state },
        ),
        (SyncPhaseView::Updating(post), SyncEventView::PostNotFound) => upsert_posts_spec(
            SyncStateView { new_posts: state.new_posts.push(post), ..state },
        ),
        (SyncPhaseView::Updating(_), SyncEventView::UpdateFailed(error)) => finish_spec(
            state,
            error,
        ),
        (SyncPhaseView::Inserting, SyncEventView::PostsInserted(count)) => next_page_spec(
            SyncStateView { sync_count: add_count(state.sync_count, count), ..state },
        ),
        (SyncPhaseView::Inserting, SyncEventView::InsertFailed(error)) => finish_spec(
            state,
            error,
        ),
        (SyncPhaseView::Saving, SyncEventView::ResultSaved) => (
            SyncStateView { phase: SyncPhaseView::Releasing, ..state },
            SyncActionView::DeleteJob,
        ),
        (SyncPhaseView::Releasing, SyncEventView::JobDeleted) => (
            SyncStateView { phase: SyncPhaseView::Idle, ..state },
            SyncActionView::Nothing,
        ),
        _ => (state, SyncActionView::Nothing),
    }
}

impl SyncState {
    /// A worker at rest.
    pub fn new() -> (state: SyncState)
        ensures
            state@ == idle_state(),
    {
        SyncState {
            phase: SyncPhase::Idle,
            start_time: 0,
            sync_count: 0,
            patreon_posts: Vec::new(),
            new_posts: Vec::new(),
            next_link: None,
        }
    }

    /// Whether no run is under way.
    pub fn is_idle(&self) -> (idle: bool)
        ensures
            idle == (self@.phase is Idle),
    {
        match self.phase {
            SyncPhase::Idle => true,
            _ => false,
        }
    }

    /// Where the worker stands, as the one who asks for runs sees it.
    pub fn dispatch_state(&self) -> (seen: DispatchState)
        ensures
            seen == dispatch_state_of(self@.phase),
    {
        match self.phase {
            SyncPhase::Idle => DispatchState::Idle,
            SyncPhase::Requested => DispatchState::Requested,
            _ => DispatchState::Running,
        }
    }

    /// The posts counted in the run so far.
    pub fn sync_count(&self) -> (count: usize)
        ensures
            count == self@.sync_count,
    {
        self.sync_count
    }

    /// When the run began.
    pub fn start_time(&self) -> (start: i64)
        ensures
            start == self@.start_time,
    {
        self.start_time
    }
}

fn finish(state: SyncState, message: String) -> (next: (SyncState, SyncAction))
    ensures
        (next.0@, next.1@) == finish_spec(state@, message@),
{
    let action = SyncAction::SaveResult {
        message,
        sync_count: state.sync_count,
        start_time: state.start_time,
    };
    (
        SyncState {
            phase: SyncPhase::Saving,
            start_time: state.start_time,
            sync_count: state.sync_count,
            patreon_posts: Vec::new(),
            new_posts: Vec::new(),
            next_link: None,
        },
        action,
    )
}

fn next_page(state: SyncState) -> (next: (SyncState, SyncAction))
    ensures
        (next.0@, next.1@) == next_page_spec(state@),
{
    let SyncState { phase, start_time, sync_count, patreon_posts, new_posts, next_link } = state;
    match next_link {
        Some(link) => (
            SyncState {
                phase: SyncPhase::Fetching,
                start_time,
                sync_count,
                patreon_posts,
                new_posts,
                next_link: None,
            },
            SyncAction::FetchPage(link),
        ),
        None => finish(
            SyncState { phase, start_time, sync_count, patreon_posts, new_posts, next_link: None },
            String::new(),
        ),
    }
}

fn insert_posts(state: SyncState) -> (next: (SyncState, SyncAction))
    ensures
        (next.0@, next.1@) == insert_posts_spec(state@),
{
    if state.new_posts.len() > 0 {
        let SyncState { phase, start_time, sync_count, patreon_posts, new_posts, next_link } =
            state;
        (
            SyncState {
                phase: SyncPhase::Inserting,
                start_time,
                sync_count,
                patreon_posts,
                new_posts: Vec::new(),
                next_link,
            },
            SyncAction::InsertPosts(new_posts),
        )
    } else {
        next_page(state)
    }
}

fn upsert_posts(state: SyncState) -> (next: (SyncState, SyncAction))
    ensures
        (next.0@, next.1@) == upsert_posts_spec(state@),
{
    let SyncState { phase, start_time, sync_count, mut patreon_posts, new_posts, next_link } =
        state;
    let ghost before = posts_view(patreon_posts@);
    match patreon_posts.pop() {
        Some(post) => {
            let update = PostUpdate::for_post(&post);
            assert(posts_view(patreon_posts@) =~= before.drop_last());
            assert(post@ == before.last());
            (
                SyncState {
                    phase: SyncPhase::Updating(post),
                    start_time,
                    sync_count,
                    patreon_posts,
                    new_posts,
                    next_link,
                },
                SyncAction::UpdatePost(update),
            )
        },
        None => {
            assert(posts_view(patreon_posts@) =~= before);
            insert_posts(
                SyncState { phase, start_time, sync_count, patreon_posts, new_posts, next_link },
            )
        },
    }
}

/// One step of the engine. The caller performs the action that comes back and
/// reports its outcome as the next event.
pub fn sync_post(state: SyncState, event: SyncEvent) -> (next: (SyncState, SyncAction))
    ensures
        (next.0@, next.1@) == sync_post_spec(state@, event@),
{
    let SyncState { phase, start_time, sync_count, patreon_posts, mut new_posts, next_link } =
        state;
    match (phase, event) {
        (SyncPhase::Idle, SyncEvent::MessageReceived { message: Some(_), now }) => (
            SyncState {
                phase: SyncPhase::Requested,
                start_time: now,
                sync_count: 0,
                patreon_posts: Vec::new(),
                new_posts: Vec::new(),
                next_link: None,
            },
            SyncAction::CreateJob,
        ),
        (SyncPhase::Requested, SyncEvent::JobCreated) => (
            SyncState {
                phase: SyncPhase::Fetching,
                start_time,
                sync_count,
                patreon_posts,
                new_posts,
                next_link,
            },
            SyncAction::FetchPage(FIRST_PAGE_URL.to_owned()),
        ),
        (SyncPhase::Requested, SyncEvent::JobExists) => (
            SyncState {
                phase: SyncPhase::Idle,
                start_time,
                sync_count,
                patreon_posts,
                new_posts,
                next_link,
            },
            SyncAction::Nothing,
        ),
        (SyncPhase::Requested, SyncEvent::JobFailed(_)) => (
            SyncState {
                phase: SyncPhase::Idle,
                start_time,
                sync_count,
                patreon_posts,
                new_posts,
                next_link,
            },
            SyncAction::Nothing,
        ),
        (SyncPhase::Fetching, SyncEvent::PageFetched(page)) => {
            let posts = page.posts();
            let next = match page.links {
                Some(links) => Some(links.next),
                None => None,
            };
            upsert_posts(
                SyncState {
                    phase: SyncPhase::Fetching,
                    start_time,
                    sync_count,
                    patreon_posts: posts,
                    new_posts: Vec::new(),
                    next_link: next,
                },
            )
        },
        (SyncPhase::Fetching, SyncEvent::FetchFailed(error)) => finish(
            SyncState {
                phase: SyncPhase::Fetching,
                start_time,
                sync_count,
                patreon_posts,
                new_posts,
                next_link,
            },
            error,
        ),
        (SyncPhase::Updating(post), SyncEvent::PostUpdated) => upsert_posts(
            SyncState {
                phase: SyncPhase::Updating(post),
                start_time,
                sync_count: sync_count.saturating_add(1),
                patreon_posts,
                new_posts,
                next_link,
            },
        ),
        (SyncPhase::Updating(post), SyncEvent::PostNotFound) => {
            let ghost before = posts_view(new_posts@);
            let ghost found = post@;
            new_posts.push(post);
            assert(posts_view(new_posts@) =~= before.push(found));
            // Whichever way `upsert_posts` goes, it sets the phase.
            upsert_posts(
                SyncState {
                    phase: SyncPhase::Fetching,
                    start_time,
                    sync_count,
                    patreon_posts,
                    new_posts,
                    next_link,
                },
            )
        },
        (SyncPhase::Updating(post), SyncEvent::UpdateFailed(error)) => finish(
            SyncState {
                phase: SyncPhase::Updating(post),
                start_time,
                sync_count,
                patreon_posts,
                new_posts,
                next_link,
            },
            error,
        ),
        (SyncPhase::Inserting, SyncEvent::PostsInserted(count)) => next_page(
            SyncState {
                phase: SyncPhase::Inserting,
                start_time,
                sync_count: sync_count.saturating_add(count),
                patreon_posts,
                new_posts,
                next_link,
            },
        ),
        (SyncPhase::Inserting, SyncEvent::InsertFailed(error)) => finish(
            SyncState {
                phase: SyncPhase::Inserting,
                start_time,
                sync_count,
                patreon_posts,
                new_posts,
                next_link,
            },
            error,
        ),
        (SyncPhase::Saving, SyncEvent::ResultSaved) => (
            SyncState {
                phase: SyncPhase::Releasing,
                start_time,
                sync_count,
                patreon_posts,
                new_posts,
                next_link,
            },
            SyncAction::DeleteJob,
        ),
        (SyncPhase::Releasing, SyncEvent::JobDeleted) => (
            SyncState {
                phase: SyncPhase::Idle,
                start_time,
                sync_count,
                patreon_posts,
                new_posts,
                next_link,
            },
            SyncAction::Nothing,
        ),
        (phase, _) => (
            SyncState { phase, start_time, sync_count, patreon_posts, new_posts, next_link },
            SyncAction::Nothing,
        ),
    }
}

} // verus!
