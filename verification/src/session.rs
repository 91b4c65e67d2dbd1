//! The session dispatcher: the state machine that owns one live
//! connection.
//!
//! The dispatcher reads frames in arrival order, spawns one handler
//! invocation per decoded message, and funnels every completed reply
//! through a single bounded response channel, so that concurrent handler
//! results become one sequential outbound stream in completion order.
//! The transport itself lives outside the engine: the caller reads a
//! frame, asks the codec to decode any data payload, feeds the outcome to
//! `on_frame`, and performs the action it is told.

use vstd::prelude::*;

use crate::protocol::{MessageModel, ProtocolMessage};

verus! {

/// One event observed on the connection, with data payloads already put
/// through the message codec (`None` means the codec rejected the bytes).
pub enum FrameEvent {
    /// A binary data frame, decoded by the codec.
    Data(Option<ProtocolMessage>),
    /// A ping control frame carrying this payload.
    Ping(Vec<u8>),
    /// A pong control frame; informational only.
    Pong,
    /// A text frame; this protocol never uses them.
    Text(String),
    /// The peer closed the session.
    Close,
    /// The transport failed while reading.
    ReadError,
    /// The stream ended without a close frame.
    StreamEnd,
}

/// Mathematical model of a frame event.
pub enum FrameEventModel {
    Data(Option<MessageModel>),
    Ping(Seq<u8>),
    Pong,
    Text(Seq<char>),
    Close,
    ReadError,
    StreamEnd,
}

impl View for FrameEvent {
    type V = FrameEventModel;

    open spec fn view(&self) -> FrameEventModel {
        match self {
            FrameEvent::Data(d) => FrameEventModel::Data(
                match d {
                    Some(m) => Some(m@),
                    None => None,
                },
            ),
            FrameEvent::Ping(p) => FrameEventModel::Ping(p@),
            FrameEvent::Pong => FrameEventModel::Pong,
            FrameEvent::Text(t) => FrameEventModel::Text(t@),
            FrameEvent::Close => FrameEventModel::Close,
            FrameEvent::ReadError => FrameEventModel::ReadError,
            FrameEvent::StreamEnd => FrameEventModel::StreamEnd,
        }
    }
}

/// How a session ended.
#[derive(Clone, Copy, Debug, PartialEq, Eq, Structural)]
pub struct SessionEnd {
    /// True when the session ended on a fault (transport error or a
    /// corrupt frame, which signals protocol desync); false for a clean
    /// close.
    pub failed: bool,
    /// True when the supervisor may reconnect without the usual backoff;
    /// only a clean close frame earns this.
    pub reconnect_immediately: bool,
}

/// What the caller must do after handing one frame to the session.
pub enum SessionAction {
    /// Run the handler for this message as a new concurrent task under
    /// the given identifier.
    Spawn { task_id: u64, message: ProtocolMessage },
    /// Answer the ping with the matching pong, outside the handler
    /// pipeline.
    SendPong(Vec<u8>),
    /// Nothing to do.
    Ignore,
    /// The session is over: abort every pending task, then close the
    /// connection.
    End(SessionEnd),
}

/// Mathematical model of a session action.
pub enum SessionActionModel {
    Spawn { task_id: u64, message: MessageModel },
    SendPong(Seq<u8>),
    Ignore,
    End(SessionEnd),
}

impl View for SessionAction {
    type V = SessionActionModel;

    open spec fn view(&self) -> SessionActionModel {
        match self {
            SessionAction::Spawn { task_id, message } => SessionActionModel::Spawn {
                task_id: *task_id,
                message: message@,
            },
            SessionAction::SendPong(p) => SessionActionModel::SendPong(p@),
            SessionAction::Ignore => SessionActionModel::Ignore,
            SessionAction::End(e) => SessionActionModel::End(*e),
        }
    }
}

/// The state of one session: the bounded response channel, the set of
/// in-flight handler tasks, and whether the session has ended.
pub struct Session {
    /// Capacity of the response channel; producers block when it is full.
    pub capacity: usize,
    /// Completed replies waiting to be written out, oldest first.
    pub replies: Vec<ProtocolMessage>,
    /// Identifiers of the handler tasks still in flight.
    pub pending: Vec<u64>,
    /// The identifier the next spawned task will get.
    pub next_task_id: u64,
    /// Set once a terminal event has been seen.
    pub ended: bool,
}

/// Mathematical model of a session.
pub struct SessionModel {
    pub capacity: int,
    pub replies: Seq<MessageModel>,
    pub pending: Seq<u64>,
    pub next_task_id: u64,
    pub ended: bool,
}

impl View for Session {
    type V = SessionModel;

    open spec fn view(&self) -> SessionModel {
        SessionModel {
            capacity: self.capacity as int,
            replies: self.replies@.map_values(|m: ProtocolMessage| m@),
            pending: self.pending@,
            next_task_id: self.next_task_id,
            ended: self.ended,
        }
    }
}

impl SessionModel {
    /// Well-formedness: the channel respects its bound, and every pending
    /// task carries a distinct identifier below the next one to be
    /// handed out.
    pub open spec fn wf(self) -> bool {
        &&& self.capacity >= 1
        &&& self.replies.len() <= self.capacity
        &&& forall|i: int|
            0 <= i < self.pending.len() ==> #[trigger] self.pending[i] < self.next_task_id
        &&& forall|i: int, j: int|
            #![trigger self.pending[i], self.pending[j]]
            0 <= i < j < self.pending.len() ==> self.pending[i] != self.pending[j]
    }

    /// The end state and action that one frame event produces.  Mirrored
    /// by `Session::on_frame`.
    pub open spec fn frame_step(self, ev: FrameEventModel) -> (SessionModel, SessionActionModel) {
        match ev {
            FrameEventModel::Data(Some(m)) => (
                SessionModel {
                    pending: self.pending.push(self.next_task_id),
                    next_task_id: (self.next_task_id + 1) as u64,
                    ..self
                },
                SessionActionModel::Spawn { task_id: self.next_task_id, message: m },
            ),
            FrameEventModel::Data(None) => (
                SessionModel { ended: true, ..self },
                SessionActionModel::End(
                    SessionEnd { failed: true, reconnect_immediately: false },
                ),
            ),
            FrameEventModel::Ping(p) => (self, SessionActionModel::SendPong(p)),
            FrameEventModel::Pong => (self, SessionActionModel::Ignore),
            FrameEventModel::Text(_) => (self, SessionActionModel::Ignore),
            FrameEventModel::Close => (
                SessionModel { ended: true, ..self },
                SessionActionModel::End(
                    SessionEnd { failed: false, reconnect_immediately: true },
                ),
            ),
            FrameEventModel::ReadError => (
                SessionModel { ended: true, ..self },
                SessionActionModel::End(
                    SessionEnd { failed: true, reconnect_immediately: false },
                ),
            ),
            FrameEventModel::StreamEnd => (
                SessionModel { ended: true, ..self },
                SessionActionModel::End(
                    SessionEnd { failed: false, reconnect_immediately: false },
                ),
            ),
        }
    }
}

/// Dropping one pending task keeps a session well-formed: the remaining
/// identifiers only shift left, staying bounded and distinct.
proof fn lemma_remove_preserves_wf(pre: SessionModel, post: SessionModel, i: int)
    requires
        pre.wf(),
        0 <= i < pre.pending.len(),
        post == (SessionModel { pending: pre.pending.remove(i), ..pre }),
    ensures
        post.wf(),
{
    pre.pending.remove_ensures(i);
    let now_ = post.pending;
    assert(forall|q: int| 0 <= q < pre.pending.len() ==> #[trigger] pre.pending[q]
        < pre.next_task_id);
    assert forall|k: int| 0 <= k < now_.len() implies now_[k] < post.next_task_id by {
        if k < i {
            assert(now_[k] == pre.pending[k]);
        } else {
            assert(now_[k] == pre.pending[k + 1]);
        }
    }
    assert forall|k: int, l: int| 0 <= k < l < now_.len() implies now_[k] != now_[l] by {
        if l < i {
            assert(now_[k] == pre.pending[k] && now_[l] == pre.pending[l]);
        } else if k < i {
            assert(now_[k] == pre.pending[k] && now_[l] == pre.pending[l + 1]);
        } else {
            assert(now_[k] == pre.pending[k + 1] && now_[l] == pre.pending[l + 1]);
        }
    }
}

/// Recording one new pending task keeps a session well-formed: the fresh
/// identifier is the one counter value no recorded task carries yet.
proof fn lemma_spawn_preserves_wf(pre: SessionModel, post: SessionModel)
    requires
        pre.wf(),
        pre.next_task_id < u64::MAX,
        post == (SessionModel {
            pending: pre.pending.push(pre.next_task_id),
            next_task_id: (pre.next_task_id + 1) as u64,
            ..pre
        }),
    ensures
        post.wf(),
{
    let now_ = post.pending;
    assert forall|i: int| 0 <= i < now_.len() implies now_[i] < post.next_task_id by {
        if i < pre.pending.len() {
            assert(now_[i] == pre.pending[i]);
        } else {
            assert(now_[i] == pre.next_task_id);
        }
    }
    assert forall|i: int, j: int| 0 <= i < j < now_.len() implies now_[i] != now_[j] by {
        if j < pre.pending.len() {
            assert(now_[i] == pre.pending[i] && now_[j] == pre.pending[j]);
        } else {
            assert(now_[i] == pre.pending[i] && now_[j] == pre.next_task_id);
        }
    }
}

/// Marking a well-formed session as ended touches nothing the
/// well-formedness conditions speak about.
proof fn lemma_end_preserves_wf(pre: SessionModel, post: SessionModel)
    requires
        pre.wf(),
        post == (SessionModel { ended: true, ..pre }),
    ensures
        post.wf(),
{
    assert(post.pending == pre.pending);
    assert(post.next_task_id == pre.next_task_id);
    assert(post.replies == pre.replies);
    assert(post.capacity == pre.capacity);
}

impl Session {
    /// Open a session over a freshly established connection.
    pub fn new(capacity: usize) -> (s: Session)
        requires
            capacity >= 1,
        ensures
            s@.wf(),
            s@.capacity == capacity,
            s@.replies == Seq::<MessageModel>::empty(),
            s@.pending == Seq::<u64>::empty(),
            s@.next_task_id == 0,
            !s@.ended,
    {
        let s = Session {
            capacity,
            replies: Vec::new(),
            pending: Vec::new(),
            next_task_id: 0,
            ended: false,
        };
        proof {
            assert(s@.replies =~= Seq::<MessageModel>::empty());
        }
        s
    }

    /// Feed the next observed frame to the session and learn what to do.
    ///
    /// Frames are fed in strict arrival order.  A decoded data frame
    /// becomes one new pending handler task; a corrupt one ends the
    /// session as a failure; a close frame ends it cleanly.
    pub fn on_frame(&mut self, ev: FrameEvent) -> (a: SessionAction)
        requires
            old(self)@.wf(),
            !old(self)@.ended,
            old(self)@.next_task_id < u64::MAX,
        ensures
            final(self)@.wf(),
            (final(self)@, a@) == old(self)@.frame_step(ev@),
    {
        match ev {
            FrameEvent::Data(Some(m)) => {
                let task_id = self.next_task_id;
                self.pending.push(task_id);
                self.next_task_id = self.next_task_id + 1;
                proof {
                    lemma_spawn_preserves_wf(old(self)@, self@);
                }
                SessionAction::Spawn { task_id, message: m }
            },
            FrameEvent::Data(None) => {
                self.ended = true;
                proof {
                    lemma_end_preserves_wf(old(self)@, self@);
                }
                SessionAction::End(SessionEnd { failed: true, reconnect_immediately: false })
            },
            FrameEvent::Ping(p) => SessionAction::SendPong(p),
            FrameEvent::Pong => SessionAction::Ignore,
            FrameEvent::Text(_) => SessionAction::Ignore,
            FrameEvent::Close => {
                self.ended = true;
                proof {
                    lemma_end_preserves_wf(old(self)@, self@);
                }
                SessionAction::End(SessionEnd { failed: false, reconnect_immediately: true })
            },
            FrameEvent::ReadError => {
                self.ended = true;
                proof {
                    lemma_end_preserves_wf(old(self)@, self@);
                }
                SessionAction::End(SessionEnd { failed: true, reconnect_immediately: false })
            },
            FrameEvent::StreamEnd => {
                self.ended = true;
                proof {
                    lemma_end_preserves_wf(old(self)@, self@);
                }
                SessionAction::End(SessionEnd { failed: false, reconnect_immediately: false })
            },
        }
    }

    /// Record that the handler task `task_id` has finished (or was
    /// aborted), removing it from the pending set.
    pub fn complete_task(&mut self, task_id: u64)
        requires
            old(self)@.wf(),
        ensures
            final(self)@.wf(),
            final(self)@.pending == old(self)@.pending.remove_value(task_id),
            final(self)@ == (SessionModel { pending: final(self)@.pending, ..old(self)@ }),
    {
        let ghost pre = self@.pending;
        let mut i: usize = 0;
        while i < self.pending.len()
            invariant
                i <= self.pending.len(),
                old(self)@.wf(),
                self@ == old(self)@,
                self@.pending == pre,
                forall|j: int| 0 <= j < i ==> pre[j] != task_id,
            decreases self.pending.len() - i,
        {
            if self.pending[i] == task_id {
                self.pending.remove(i);
                proof {
                    pre.index_of_first_ensures(task_id);
                    assert(pre.contains(task_id)) by {
                        assert(pre[i as int] == task_id);
                    }
                    let idx = pre.index_of_first(task_id)->Some_0;
                    assert(pre[idx] == task_id);
                    assert(idx == i as int);
                    lemma_remove_preserves_wf(old(self)@, self@, i as int);
                }
                return ;
            }
            i = i + 1;
        }
        proof {
            pre.index_of_first_ensures(task_id);
            assert(!pre.contains(task_id));
        }
    }

    /// Queue one completed reply on the response channel.  When the
    /// channel is full nothing changes and the reply comes back: the
    /// producer must block and offer it again, never drop it.
    pub fn push_reply(&mut self, m: ProtocolMessage) -> (rejected: Option<ProtocolMessage>)
        requires
            old(self)@.wf(),
        ensures
            final(self)@.wf(),
            rejected is None <==> old(self)@.replies.len() < old(self)@.capacity,
            rejected is None ==> final(self)@ == (SessionModel {
                replies: old(self)@.replies.push(m@),
                ..old(self)@
            }),
            rejected matches Some(back) ==> back@ == m@ && final(self)@ == old(self)@,
    {
        if self.replies.len() < self.capacity {
            self.replies.push(m);
            proof {
                assert(self@.replies =~= old(self)@.replies.push(m@));
            }
            None
        } else {
            Some(m)
        }
    }

    /// Take the oldest queued reply, if any.  Replies leave the channel
    /// in exactly the order they were pushed: completion order, not
    /// arrival order.
    pub fn pop_reply(&mut self) -> (r: Option<ProtocolMessage>)
        requires
            old(self)@.wf(),
        ensures
            final(self)@.wf(),
            old(self)@.replies.len() == 0 ==> r is None && final(self)@ == old(self)@,
            old(self)@.replies.len() > 0 ==> {
                &&& r matches Some(m) && m@ == old(self)@.replies[0]
                &&& final(self)@ == (SessionModel {
                    replies: old(self)@.replies.drop_first(),
                    ..old(self)@
                })
            },
    {
        if self.replies.len() > 0 {
            let m = self.replies.remove(0);
            proof {
                assert(self@.replies =~= old(self)@.replies.drop_first());
            }
            Some(m)
        } else {
            None
        }
    }

    /// Hand out every still-pending handler task so the caller can abort
    /// it.  Afterwards no task is recorded as running: a disconnect drops
    /// in-flight work, it never awaits it.
    pub fn drain_pending(&mut self) -> (aborted: Vec<u64>)
        requires
            old(self)@.wf(),
        ensures
            final(self)@.wf(),
            aborted@ == old(self)@.pending,
            final(self)@.pending == Seq::<u64>::empty(),
            final(self)@ == (SessionModel { pending: Seq::<u64>::empty(), ..old(self)@ }),
    {
        let mut aborted: Vec<u64> = Vec::new();
        core::mem::swap(&mut aborted, &mut self.pending);
        proof {
            assert(self@.pending =~= Seq::<u64>::empty());
        }
        aborted
    }

    /// End the session from outside the frame loop, as orchestrator
    /// shutdown does.
    pub fn abort(&mut self)
        requires
            old(self)@.wf(),
        ensures
            final(self)@.wf(),
            final(self)@ == (SessionModel { ended: true, ..old(self)@ }),
    {
        self.ended = true;
    }
}

/// Completion order wins over arrival order: when the handler spawned
/// second finishes first, its reply is queued first and therefore leaves
/// the channel first.  This is the response channel's serialization
/// guarantee for concurrent handlers.
pub proof fn lemma_replies_leave_in_completion_order(
    s: SessionModel,
    fast: MessageModel,
    slow: MessageModel,
)
    requires
        s.wf(),
        s.replies.len() == 0,
        s.capacity >= 2,
    ensures
        ({
            let queued = SessionModel { replies: s.replies.push(fast).push(slow), ..s };
            queued.replies[0] == fast && queued.replies[1] == slow
        }),
{
}

/// Ending a session leaves no handler task recorded as running: the
/// drained list names every pending task exactly once, and the pending
/// set is empty afterwards.  Stated over the model of
/// `Session::drain_pending`.
pub proof fn lemma_session_abort_cleans_up(s: SessionModel)
    requires
        s.wf(),
    ensures
        ({
            let after = SessionModel { pending: Seq::<u64>::empty(), ..s };
            &&& after.pending.len() == 0
            &&& forall|i: int, j: int|
                0 <= i < j < s.pending.len() ==> s.pending[i] != s.pending[j]
        }),
{
}

} // verus!
