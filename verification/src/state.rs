//! Shared server state: the configured peer URLs and the queue of decoded
//! files waiting to be fetched by ChanNet.

use vstd::prelude::*;
use std::collections::VecDeque;

use crate::models::BroadcastStatusResponse;

verus! {

/// Largest request body the server accepts (10 MiB).
pub const BODY_LIMIT: usize = 10485760;

/// Broadcaster URL used when none is configured.
pub const DEFAULT_BROADCASTER_URL: &'static str = "http://localhost:9090";

/// ChanNet base URL used when none is configured.
pub const DEFAULT_CHANNET_URL: &'static str = "http://localhost:7070";

/// Queue bound applied by `AppState::new`.
pub const DEFAULT_MAX_QUEUE_DEPTH: usize = 64;

/// A decoded file waiting in the incoming queue.
#[derive(Debug)]
pub struct QueuedFile {
    /// The 128-bit value of the UUID the file was queued under.
    pub queued_id: u128,
    pub bytes: Vec<u8>,
}

/// The logical value of a queued file: its id and its bytes.
pub struct QueuedFileView {
    pub queued_id: u128,
    pub bytes: Seq<u8>,
}

impl View for QueuedFile {
    type V = QueuedFileView;

    open spec fn view(&self) -> QueuedFileView {
        QueuedFileView { queued_id: self.queued_id, bytes: self.bytes@ }
    }
}

/// The logical value of an optional queued file.
pub open spec fn opt_view(file: Option<QueuedFile>) -> Option<QueuedFileView> {
    match file {
        Some(f) => Some(f@),
        None => None,
    }
}

/// The queue after `file` is added at its back.
pub open spec fn pushed(queue: Seq<QueuedFileView>, file: QueuedFileView) -> Seq<QueuedFileView> {
    queue.push(file)
}

/// What taking from the front gives: the front file (none when empty) and the rest.
pub open spec fn popped(queue: Seq<QueuedFileView>) -> (Option<QueuedFileView>, Seq<QueuedFileView>) {
    if queue.len() == 0 {
        (None, queue)
    } else {
        (Some(queue[0]), queue.drop_first())
    }
}

/// The queue after a bounded add: unchanged when it already holds `limit`
/// files or more, else with `file` added at its back.
pub open spec fn bounded_push(queue: Seq<QueuedFileView>, file: QueuedFileView, limit: nat) -> Seq<
    QueuedFileView,
> {
    if queue.len() >= limit {
        queue
    } else {
        pushed(queue, file)
    }
}

/// First-in first-out queue of decoded files.
pub struct IncomingQueue {
    items: VecDeque<QueuedFile>,
}

impl View for IncomingQueue {
    type V = Seq<QueuedFileView>;

    closed spec fn view(&self) -> Seq<QueuedFileView> {
        self.items@.map_values(|f: QueuedFile| f@)
    }
}

impl IncomingQueue {
    pub fn new() -> (queue: Self)
        ensures
            queue@ == Seq::<QueuedFileView>::empty(),
    {
        let queue = IncomingQueue { items: VecDeque::new() };
        assert(queue@ =~= Seq::<QueuedFileView>::empty());
        queue
    }

    pub fn len(&self) -> (n: usize)
        ensures
            n == self@.len(),
    {
        self.items.len()
    }

    pub fn push_back(&mut self, file: QueuedFile)
        ensures
            final(self)@ == pushed(old(self)@, file@),
    {
        self.items.push_back(file);
        assert(self@ =~= pushed(old(self)@, file@));
    }

    pub fn pop_front(&mut self) -> (front: Option<QueuedFile>)
        ensures
            opt_view(front) == popped(old(self)@).0,
            final(self)@ == popped(old(self)@).1,
    {
        let front = self.items.pop_front();
        assert(self@ =~= popped(old(self)@).1);
        front
    }
}

/// The value of a configuration setting: the configured text when there is
/// one, the default otherwise.
pub open spec fn setting_or(setting: Option<String>, default: &str) -> Seq<char> {
    match setting {
        Some(s) => s@,
        None => default@,
    }
}

/// Resolves a URL setting, falling back to `default` when it is unset.
pub fn resolve_url(setting: Option<String>, default: &str) -> (url: String)
    ensures
        url@ == setting_or(setting, default),
        setting matches Some(s) ==> url@ == s@,
        setting is None ==> url@ == default@,
{
    match setting {
        Some(s) => s,
        None => default.to_owned(),
    }
}

/// State shared by all handlers.
pub struct AppState {
    pub broadcaster_url: String,
    pub channet_url: String,
    pub wave_routes_enabled: bool,
    pub max_queue_depth: usize,
    pub incoming_queue: IncomingQueue,
}

impl AppState {
    /// Builds the state from the `RUSTWAVE_BROADCASTER_URL` and
    /// `RUSTWAVE_CHANNET_URL` settings (each `None` when unset) with an empty queue.
    pub fn new(
        wave_routes_enabled: bool,
        broadcaster_setting: Option<String>,
        channet_setting: Option<String>,
    ) -> (state: Self)
        ensures
            state.broadcaster_url@ == setting_or(broadcaster_setting, DEFAULT_BROADCASTER_URL),
            state.channet_url@ == setting_or(channet_setting, DEFAULT_CHANNET_URL),
            broadcaster_setting matches Some(s) ==> state.broadcaster_url@ == s@,
            channet_setting matches Some(s) ==> state.channet_url@ == s@,
            broadcaster_setting is None ==> state.broadcaster_url@ == DEFAULT_BROADCASTER_URL@,
            channet_setting is None ==> state.channet_url@ == DEFAULT_CHANNET_URL@,
            state.wave_routes_enabled == wave_routes_enabled,
            state.max_queue_depth == DEFAULT_MAX_QUEUE_DEPTH,
            state.incoming_queue@ == Seq::<QueuedFileView>::empty(),
    {
        AppState {
            broadcaster_url: resolve_url(broadcaster_setting, DEFAULT_BROADCASTER_URL),
            channet_url: resolve_url(channet_setting, DEFAULT_CHANNET_URL),
            wave_routes_enabled,
            max_queue_depth: DEFAULT_MAX_QUEUE_DEPTH,
            incoming_queue: IncomingQueue::new(),
        }
    }

    /// Number of files waiting in the incoming queue.
    pub fn queue_depth(&self) -> (depth: usize)
        ensures
            depth == self.incoming_queue@.len(),
    {
        self.incoming_queue.len()
    }

    /// Adds a file at the back of the incoming queue.
    pub fn enqueue(&mut self, file: QueuedFile)
        ensures
            final(self).incoming_queue@ == pushed(old(self).incoming_queue@, file@),
            final(self).broadcaster_url == old(self).broadcaster_url,
            final(self).channet_url == old(self).channet_url,
            final(self).wave_routes_enabled == old(self).wave_routes_enabled,
            final(self).max_queue_depth == old(self).max_queue_depth,
    {
        self.incoming_queue.push_back(file);
    }

    /// Adds a file at the back of the queue unless the queue already holds
    /// `max_queue_depth` files; a refused file is handed back unchanged.
    pub fn try_enqueue(&mut self, file: QueuedFile) -> (res: Result<(), QueuedFile>)
        ensures
            res is Err <==> old(self).incoming_queue@.len() >= old(self).max_queue_depth,
            res matches Err(back) ==> back == file,
            final(self).incoming_queue@ == bounded_push(
                old(self).incoming_queue@,
                file@,
                old(self).max_queue_depth as nat,
            ),
            final(self).broadcaster_url == old(self).broadcaster_url,
            final(self).channet_url == old(self).channet_url,
            final(self).wave_routes_enabled == old(self).wave_routes_enabled,
            final(self).max_queue_depth == old(self).max_queue_depth,
    {
        if self.incoming_queue.len() >= self.max_queue_depth {
            Err(file)
        } else {
            self.incoming_queue.push_back(file);
            Ok(())
        }
    }

    /// Takes the file at the front of the incoming queue, if any.
    pub fn dequeue(&mut self) -> (front: Option<QueuedFile>)
        ensures
            opt_view(front) == popped(old(self).incoming_queue@).0,
            final(self).incoming_queue@ == popped(old(self).incoming_queue@).1,
            final(self).broadcaster_url == old(self).broadcaster_url,
            final(self).channet_url == old(self).channet_url,
            final(self).wave_routes_enabled == old(self).wave_routes_enabled,
            final(self).max_queue_depth == old(self).max_queue_depth,
    {
        self.incoming_queue.pop_front()
    }

    /// The body of the status endpoint, from the two reachability probes.
    pub fn status_body(&self, broadcaster_connected: bool, channet_connected: bool) -> (body:
        BroadcastStatusResponse)
        ensures
            body.service@ == "rustwave"@,
            body.broadcaster_connected == broadcaster_connected,
            body.channet_connected == channet_connected,
            body.broadcaster_url@ == self.broadcaster_url@,
            body.queue_depth == self.incoming_queue@.len(),
            body.queue_limit == self.max_queue_depth,
    {
        BroadcastStatusResponse {
            service: "rustwave",
            broadcaster_connected,
            channet_connected,
            broadcaster_url: self.broadcaster_url.clone(),
            queue_depth: self.queue_depth(),
            queue_limit: self.max_queue_depth,
        }
    }
}

} // verus!
