use vstd::prelude::*;
use crate::session::{ServerState, handle_sync, handled, auth_error_text};
use crate::types::{SyncRequest, SyncResponse};

verus! {

/// The owner of at most one live sync session. `H` is the handle of the
/// task that serves it; whoever runs the task stops it when `stop` or
/// `install` hands a handle back.
pub struct SyncState<H> {
    server_handle: Option<H>,
    server_state: Option<ServerState>,
}

/// What `stop` does to a manager `pre`: the result `post` is stopped and
/// well formed, the handle `r` of the old task is handed back, and a manager
/// that was already stopped is left as it was.
pub open spec fn stopped_from<H>(pre: SyncState<H>, post: SyncState<H>, r: Option<H>) -> bool {
    &&& r == pre.handle()
    &&& post.wf()
    &&& !post.is_running()
    &&& post.handle() is None
    &&& (!pre.is_running() && pre.wf() ==> post == pre)
}

impl<H> SyncState<H> {
    /// The handle of the serving task, while running.
    pub closed spec fn handle(self) -> Option<H> {
        self.server_handle
    }

    /// The live session, while running.
    pub closed spec fn session(self) -> Option<ServerState> {
        self.server_state
    }

    /// A session and a serving task exist together or not at all.
    pub open spec fn wf(self) -> bool {
        self.handle() is Some <==> self.session() is Some
    }

    /// Whether a server is running.
    pub open spec fn is_running(self) -> bool {
        self.session() is Some
    }

    /// A stopped manager.
    pub fn stopped() -> (r: SyncState<H>)
        ensures
            r.wf(),
            !r.is_running(),
            r.handle() is None,
    {
        SyncState { server_handle: None, server_state: None }
    }

    /// Whether a server is running.
    pub fn running(&self) -> (r: bool)
        ensures
            r == self.is_running(),
    {
        self.server_state.is_some()
    }

    /// Stops the running server, if any: its session is discarded and the
    /// handle of its task is handed back to be cancelled. Stopping a stopped
    /// manager changes nothing and hands back nothing.
    pub fn stop(&mut self) -> (r: Option<H>)
        ensures
            stopped_from(*old(self), *final(self), r),
    {
        let r = self.server_handle.take();
        self.server_state = None;
        r
    }

    /// Makes `session`, served by the task `handle`, the live one. Whatever
    /// ran before is stopped first: its handle is handed back.
    pub fn install(&mut self, handle: H, session: ServerState) -> (r: Option<H>)
        ensures
            r == old(self).handle(),
            final(self).wf(),
            final(self).handle() == Some(handle),
            final(self).session() == Some(session),
    {
        let r = self.stop();
        self.server_handle = Some(handle);
        self.server_state = Some(session);
        r
    }

    /// Answers a request that reached the serving task. With no live session
    /// no token is valid.
    pub fn respond(&mut self, request: SyncRequest) -> (r: SyncResponse)
        ensures
            final(self).handle() == old(self).handle(),
            match old(self).session() {
                Some(s) => final(self).session() matches Some(t) && handled(s, request, t, r),
                None => final(self).session() is None
                    && (r matches SyncResponse::Error { message } && message@ == auth_error_text()),
            },
    {
        match self.server_state.take() {
            Some(mut s) => {
                let r = handle_sync(&mut s, request);
                self.server_state = Some(s);
                r
            },
            None => SyncResponse::Error { message: String::from_str("Invalid authentication token") },
        }
    }

    /// The stories pushed to the live session, in arrival order; none when
    /// stopped.
    pub fn received_stories(&self) -> (r: Vec<String>)
        ensures
            match self.session() {
                Some(s) => r@ == s.received(),
                None => r@ == Seq::<String>::empty(),
            },
    {
        match &self.server_state {
            Some(s) => s.peek_received(),
            None => Vec::new(),
        }
    }

    /// Hands out the stories pushed to the live session and empties that
    /// collection; none when stopped.
    pub fn take_received_stories(&mut self) -> (r: Vec<String>)
        ensures
            final(self).handle() == old(self).handle(),
            match old(self).session() {
                Some(s) => r@ == s.received() && (final(self).session() matches Some(t)
                    && t.token() == s.token() && t.offered() == s.offered()
                    && t.received() == Seq::<String>::empty()),
                None => r@ == Seq::<String>::empty() && final(self).session() is None,
            },
    {
        match self.server_state.take() {
            Some(mut s) => {
                let r = s.drain_received();
                self.server_state = Some(s);
                r
            },
            None => Vec::new(),
        }
    }

    /// Empties the stories pushed to the live session.
    pub fn clear_received_stories(&mut self)
        ensures
            final(self).handle() == old(self).handle(),
            match old(self).session() {
                Some(s) => final(self).session() matches Some(t)
                    && t.token() == s.token() && t.offered() == s.offered()
                    && t.received() == Seq::<String>::empty(),
                None => final(self).session() is None,
            },
    {
        let _ = self.take_received_stories();
    }

    /// The live session, if any.
    pub fn current_session(&self) -> (r: Option<&ServerState>)
        ensures
            match self.session() {
                Some(s) => r == Some(&s),
                None => r is None,
            },
    {
        match &self.server_state {
            Some(s) => Some(s),
            None => None,
        }
    }
}

/// Stopping twice in a row is the same as stopping once: the second stop
/// changes nothing and hands back no task.
pub proof fn lemma_stop_idempotent<H>(
    a: SyncState<H>,
    b: SyncState<H>,
    c: SyncState<H>,
    r1: Option<H>,
    r2: Option<H>,
)
    requires
        stopped_from(a, b, r1),
        stopped_from(b, c, r2),
    ensures
        c == b,
        r2 is None,
{
}

/// Once a session with a new token is installed, a request carrying the
/// token of the session it replaced is refused and changes nothing.
pub proof fn lemma_restart_revokes_token<H>(
    before: SyncState<H>,
    after: SyncState<H>,
    request: SyncRequest,
    post: SyncState<H>,
    r: SyncResponse,
)
    requires
        before.session() is Some,
        after.session() is Some,
        request.token@ == before.session()->Some_0.token()@,
        before.session()->Some_0.token()@ != after.session()->Some_0.token()@,
        after.session() matches Some(s) && (post.session() matches Some(t) && handled(s, request, t, r)),
    ensures
        r matches SyncResponse::Error { message } && message@ == auth_error_text(),
        post.session() == after.session(),
{
}

impl<H> Default for SyncState<H> {
    fn default() -> (r: SyncState<H>)
        ensures
            r.wf(),
            !r.is_running(),
            r.handle() is None,
    {
        SyncState::stopped()
    }
}

} // verus!
