//! The dispatch protocol as a transition system, and its guarantees.
//!
//! The serving loop spawns one task per request, but awaits the request's
//! ordering token before reading the next one, and every handler fires that
//! token only once its capture of shared state is complete.  The net effect
//! is that shared-state captures happen strictly in receipt order, while
//! everything after the capture — replying, waking the renderer, delivering
//! a polled event — runs concurrently.  [`step`] encodes exactly that: a
//! [`ModelLabel::Recv`] transition performs the capture of one request and
//! leaves its post-work as a pending task (or a waiting poller), and the
//! remaining labels interleave freely.
//!
//! The proof functions at the bottom are the laws of the protocol: receipt-
//! order application, exactly one reply per request, clean shutdown,
//! disconnect tolerance, non-blocking independence of pollers, and
//! exactly-once event delivery.

use vstd::prelude::*;
use crate::types::{ClientId, TurtleId, Event, RequestM, ReplyM, Color, DrawingProp,
    DrawingPropValueM};
use crate::state::{app_wf, default_turtle, turtle_exists, forward_target};
use crate::handlers::{SysState, StepRes, step_spec, is_poll, lemma_step_wf};

verus! {

/// The post-capture remainder of one non-poll request: the reply it owes
/// (its renderer wakeup, where one is due, goes out with it).
pub struct Task {
    /// Receipt index of the request being served.
    pub idx: nat,
    pub client: ClientId,
    pub reply: ReplyM,
}

/// A poll request waiting for an event to arrive.
pub struct PollTask {
    /// Receipt index of the poll request.
    pub idx: nat,
    pub client: ClientId,
}

/// Whether the serving loop still accepts requests.
pub enum Phase {
    Running,
    Stopped,
}

/// The whole server at one instant: the shared state, the spawned work still
/// in flight, the replies already sent (keyed by receipt index), and the log
/// of accepted requests in receipt order.
pub struct ServerModel {
    pub phase: Phase,
    pub sys: SysState,
    pub pending: Seq<Task>,
    pub pollers: Seq<PollTask>,
    pub replies: Map<nat, (ClientId, ReplyM)>,
    pub handled: Seq<(ClientId, RequestM)>,
}

/// One observable transition of the server.
pub enum ModelLabel {
    /// The loop reads the next request and the spawned handler captures the
    /// shared state it needs; the loop has awaited the ordering token, so no
    /// later request's capture can precede this one.
    Recv(ClientId, RequestM),
    /// A spawned task finishes its post-capture work: the reply goes out and
    /// the renderer is woken if needed.
    FinishTask(int),
    /// A waiting poller dequeues the oldest event and replies with it.
    FinishPoll(int),
    /// The external event source enqueues a renderer event.
    PushEvent(Event),
    /// The shutdown signal arrives (or its sender is dropped).
    Shutdown,
    /// The peer disconnects.
    Disconnect,
}

/// The server as it starts: running, nothing in flight, nothing handled.
pub open spec fn init(s0: SysState) -> ServerModel {
    ServerModel {
        phase: Phase::Running,
        sys: s0,
        pending: Seq::empty(),
        pollers: Seq::empty(),
        replies: Map::empty(),
        handled: Seq::empty(),
    }
}

/// The completed outcome of a non-poll request (which always has one).
pub open spec fn step_of(r: RequestM, s: SysState) -> StepRes
    recommends
        step_spec(r, s) is Some,
{
    match step_spec(r, s) {
        Some(sr) => sr,
        None => arbitrary(),
    }
}

/// Which labels can fire in state `s`.  New requests are accepted only while
/// running; a task can finish whenever it is pending; a poller can finish
/// only when an event is waiting; the event source and the stop signals are
/// always free to act.
pub open spec fn enabled(s: ServerModel, l: ModelLabel) -> bool {
    match l {
        ModelLabel::Recv(_c, _r) => s.phase is Running,
        ModelLabel::FinishTask(i) => 0 <= i < s.pending.len(),
        ModelLabel::FinishPoll(i) => 0 <= i < s.pollers.len() && s.sys.events.len() > 0,
        ModelLabel::PushEvent(_e) => true,
        ModelLabel::Shutdown => s.phase is Running,
        ModelLabel::Disconnect => s.phase is Running,
    }
}

/// The successor state after label `l` fires (meaningful when enabled).
pub open spec fn step(s: ServerModel, l: ModelLabel) -> ServerModel {
    match l {
        ModelLabel::Recv(c, r) => if is_poll(r) {
            ServerModel {
                pollers: s.pollers.push(PollTask { idx: s.handled.len(), client: c }),
                handled: s.handled.push((c, r)),
                ..s
            }
        } else {
            let sr = step_of(r, s.sys);
            ServerModel {
                sys: sr.sys,
                pending: s.pending.push(Task {
                    idx: s.handled.len(),
                    client: c,
                    reply: sr.reply,
                }),
                handled: s.handled.push((c, r)),
                ..s
            }
        },
        ModelLabel::FinishTask(i) => {
            let t = s.pending[i];
            ServerModel {
                pending: s.pending.remove(i),
                replies: s.replies.insert(t.idx, (t.client, t.reply)),
                ..s
            }
        },
        ModelLabel::FinishPoll(i) => {
            let p = s.pollers[i];
            ServerModel {
                pollers: s.pollers.remove(i),
                sys: SysState { events: s.sys.events.drop_first(), ..s.sys },
                replies: s.replies.insert(p.idx, (p.client, ReplyM::EventPolled(s.sys.events[0]))),
                ..s
            }
        },
        ModelLabel::PushEvent(e) => ServerModel {
            sys: SysState { events: s.sys.events.push(e), ..s.sys },
            ..s
        },
        ModelLabel::Shutdown => ServerModel { phase: Phase::Stopped, ..s },
        ModelLabel::Disconnect => ServerModel { phase: Phase::Stopped, ..s },
    }
}

/// Every label of the trace is enabled when its turn comes.
pub open spec fn trace_enabled(s: ServerModel, tr: Seq<ModelLabel>) -> bool
    decreases tr.len(),
{
    tr.len() == 0 || (enabled(s, tr[0]) && trace_enabled(step(s, tr[0]), tr.drop_first()))
}

/// The state after the whole trace.
pub open spec fn run(s: ServerModel, tr: Seq<ModelLabel>) -> ServerModel
    decreases tr.len(),
{
    if tr.len() == 0 {
        s
    } else {
        run(step(s, tr[0]), tr.drop_first())
    }
}

/// The requests a trace receives, in receipt order.
pub open spec fn recvs(tr: Seq<ModelLabel>) -> Seq<RequestM>
    decreases tr.len(),
{
    if tr.len() == 0 {
        Seq::empty()
    } else {
        match tr[0] {
            ModelLabel::Recv(_c, r) => seq![r] + recvs(tr.drop_first()),
            _ => recvs(tr.drop_first()),
        }
    }
}

/// The shared state after one request applied sequentially; a poll is left
/// to its delivery step and changes nothing here.
pub open spec fn apply_one(s: SysState, r: RequestM) -> SysState {
    if is_poll(r) {
        s
    } else {
        step_of(r, s).sys
    }
}

/// The shared state after a request sequence applied strictly in order.
pub open spec fn apply_all(s: SysState, rs: Seq<RequestM>) -> SysState
    decreases rs.len(),
{
    if rs.len() == 0 {
        s
    } else {
        apply_all(apply_one(s, rs[0]), rs.drop_first())
    }
}

/// A non-poll request always completes.
pub proof fn lemma_step_total(r: RequestM, s: SysState)
    requires
        !is_poll(r),
    ensures
        step_spec(r, s) is Some,
{
}

/// What a non-poll request does to the application state and the display
/// list depends only on those two; and it never touches the event queue.
pub proof fn lemma_step_frame(r: RequestM, s1: SysState, s2: SysState)
    requires
        !is_poll(r),
        s1.app == s2.app,
        s1.dl == s2.dl,
    ensures
        step_of(r, s1).sys.app == step_of(r, s2).sys.app,
        step_of(r, s1).sys.dl == step_of(r, s2).sys.dl,
        step_of(r, s1).sys.events == s1.events,
        step_of(r, s2).sys.events == s2.events,
{
    lemma_step_total(r, s1);
    lemma_step_total(r, s2);
}

/// Receipt-order application, the ordering law: however task completions,
/// event pushes and poll deliveries interleave with the loop, the
/// application state and the display list after any run equal those obtained
/// by applying the received requests strictly in receipt order.
pub proof fn theorem_ordering(s0: SysState, tr: Seq<ModelLabel>)
    requires
        trace_enabled(init(s0), tr),
    ensures
        run(init(s0), tr).sys.app == apply_all(s0, recvs(tr)).app,
        run(init(s0), tr).sys.dl == apply_all(s0, recvs(tr)).dl,
{
    lemma_ordering_aux(init(s0), tr, s0);
}

/// The induction behind [`theorem_ordering`]: `base` tracks the sequential
/// state, which may differ from the run's state in its event queue only.
proof fn lemma_ordering_aux(s: ServerModel, tr: Seq<ModelLabel>, base: SysState)
    requires
        trace_enabled(s, tr),
        base.app == s.sys.app,
        base.dl == s.sys.dl,
    ensures
        run(s, tr).sys.app == apply_all(base, recvs(tr)).app,
        run(s, tr).sys.dl == apply_all(base, recvs(tr)).dl,
    decreases tr.len(),
{
    if tr.len() > 0 {
        let l = tr[0];
        let s1 = step(s, l);
        let rest = tr.drop_first();
        match l {
            ModelLabel::Recv(c, r) => {
                assert(recvs(tr) == seq![r] + recvs(rest));
                assert((seq![r] + recvs(rest))[0] == r);
                assert((seq![r] + recvs(rest)).drop_first() =~= recvs(rest));
                if is_poll(r) {
                    lemma_ordering_aux(s1, rest, base);
                } else {
                    lemma_step_frame(r, s.sys, base);
                    lemma_ordering_aux(s1, rest, apply_one(base, r));
                }
            },
            ModelLabel::FinishTask(_i) => {
                lemma_ordering_aux(s1, rest, base);
            },
            ModelLabel::FinishPoll(_i) => {
                lemma_ordering_aux(s1, rest, base);
            },
            ModelLabel::PushEvent(_e) => {
                lemma_ordering_aux(s1, rest, base);
            },
            ModelLabel::Shutdown => {
                lemma_ordering_aux(s1, rest, base);
            },
            ModelLabel::Disconnect => {
                lemma_ordering_aux(s1, rest, base);
            },
        }
    }
}

/// Whether some pending task serves receipt index `i`.
pub open spec fn pending_has(s: ServerModel, i: nat) -> bool {
    exists|j: int| 0 <= j < s.pending.len() && (#[trigger] s.pending[j]).idx == i
}

/// Whether some waiting poller serves receipt index `i`.
pub open spec fn poller_has(s: ServerModel, i: nat) -> bool {
    exists|j: int| 0 <= j < s.pollers.len() && (#[trigger] s.pollers[j]).idx == i
}

/// Every accepted request has exactly one outcome on the way or delivered.
pub open spec fn has_outcome(s: ServerModel, i: nat) -> bool {
    s.replies.dom().contains(i) || pending_has(s, i) || poller_has(s, i)
}

/// The server's invariant: the shared state is well formed; every piece of
/// in-flight work belongs to exactly one accepted request, addresses that
/// request's client, and has not replied yet; every delivered reply went to
/// the client of the request it answers; and every accepted request has an
/// outcome in flight or delivered.
pub open spec fn inv(s: ServerModel) -> bool {
    &&& app_wf(s.sys.app)
    &&& forall|j: int| 0 <= j < s.pending.len() ==> {
        let t = #[trigger] s.pending[j];
        t.idx < s.handled.len() && t.client == s.handled[t.idx as int].0
            && !s.replies.dom().contains(t.idx)
    }
    &&& forall|j: int| 0 <= j < s.pollers.len() ==> {
        let p = #[trigger] s.pollers[j];
        p.idx < s.handled.len() && p.client == s.handled[p.idx as int].0
            && !s.replies.dom().contains(p.idx)
    }
    &&& forall|j: int, k: int|
        0 <= j < s.pending.len() && 0 <= k < s.pending.len() && j != k
            ==> (#[trigger] s.pending[j]).idx != (#[trigger] s.pending[k]).idx
    &&& forall|j: int, k: int|
        0 <= j < s.pollers.len() && 0 <= k < s.pollers.len() && j != k
            ==> (#[trigger] s.pollers[j]).idx != (#[trigger] s.pollers[k]).idx
    &&& forall|j: int, k: int|
        0 <= j < s.pending.len() && 0 <= k < s.pollers.len()
            ==> (#[trigger] s.pending[j]).idx != (#[trigger] s.pollers[k]).idx
    &&& forall|i: nat| #[trigger] s.replies.dom().contains(i)
        ==> i < s.handled.len() && s.replies[i].0 == s.handled[i as int].0
    &&& forall|i: nat| i < s.handled.len() ==> #[trigger] has_outcome(s, i)
}

/// A fresh server satisfies the invariant.
pub proof fn lemma_init_inv(s0: SysState)
    requires
        app_wf(s0.app),
    ensures
        inv(init(s0)),
{
}

/// Every enabled step preserves the invariant.
pub proof fn lemma_step_inv(s: ServerModel, l: ModelLabel)
    requires
        inv(s),
        enabled(s, l),
    ensures
        inv(step(s, l)),
{
    let s1 = step(s, l);
    match l {
        ModelLabel::Recv(c, r) => {
            if is_poll(r) {
                assert forall|i: nat| i < s1.handled.len() implies #[trigger] has_outcome(s1, i)
                    by {
                    if i < s.handled.len() {
                        assert(has_outcome(s, i));
                        if pending_has(s, i) {
                            let j = choose|j: int|
                                0 <= j < s.pending.len() && (#[trigger] s.pending[j]).idx == i;
                            assert(s1.pending[j].idx == i);
                        } else if poller_has(s, i) {
                            let j = choose|j: int|
                                0 <= j < s.pollers.len() && (#[trigger] s.pollers[j]).idx == i;
                            assert(s1.pollers[j].idx == i);
                        }
                    } else {
                        assert(s1.pollers[s.pollers.len() as int].idx == i);
                    }
                }
            } else {
                lemma_step_wf(r, s.sys);
                assert forall|i: nat| i < s1.handled.len() implies #[trigger] has_outcome(s1, i)
                    by {
                    if i < s.handled.len() {
                        assert(has_outcome(s, i));
                        if pending_has(s, i) {
                            let j = choose|j: int|
                                0 <= j < s.pending.len() && (#[trigger] s.pending[j]).idx == i;
                            assert(s1.pending[j].idx == i);
                        } else if poller_has(s, i) {
                            let j = choose|j: int|
                                0 <= j < s.pollers.len() && (#[trigger] s.pollers[j]).idx == i;
                            assert(s1.pollers[j].idx == i);
                        }
                    } else {
                        assert(s1.pending[s.pending.len() as int].idx == i);
                    }
                }
            }
        },
        ModelLabel::FinishTask(i) => {
            let t = s.pending[i];
            s.pending.remove_ensures(i);
            assert forall|ii: nat| ii < s1.handled.len() implies #[trigger] has_outcome(s1, ii)
                by {
                assert(has_outcome(s, ii));
                if ii == t.idx {
                    assert(s1.replies.dom().contains(ii));
                } else if pending_has(s, ii) {
                    let j = choose|j: int|
                        0 <= j < s.pending.len() && (#[trigger] s.pending[j]).idx == ii;
                    if j < i {
                        assert(s1.pending[j].idx == ii);
                    } else {
                        assert(j != i);
                        assert(s1.pending[j - 1].idx == ii);
                    }
                } else if poller_has(s, ii) {
                    let j = choose|j: int|
                        0 <= j < s.pollers.len() && (#[trigger] s.pollers[j]).idx == ii;
                    assert(s1.pollers[j].idx == ii);
                }
            }
        },
        ModelLabel::FinishPoll(i) => {
            let p = s.pollers[i];
            s.pollers.remove_ensures(i);
            assert forall|ii: nat| ii < s1.handled.len() implies #[trigger] has_outcome(s1, ii)
                by {
                assert(has_outcome(s, ii));
                if ii == p.idx {
                    assert(s1.replies.dom().contains(ii));
                } else if poller_has(s, ii) {
                    let j = choose|j: int|
                        0 <= j < s.pollers.len() && (#[trigger] s.pollers[j]).idx == ii;
                    if j < i {
                        assert(s1.pollers[j].idx == ii);
                    } else {
                        assert(j != i);
                        assert(s1.pollers[j - 1].idx == ii);
                    }
                } else if pending_has(s, ii) {
                    let j = choose|j: int|
                        0 <= j < s.pending.len() && (#[trigger] s.pending[j]).idx == ii;
                    assert(s1.pending[j].idx == ii);
                }
            }
        },
        ModelLabel::PushEvent(_e) => {
            assert forall|i: nat| i < s1.handled.len() implies #[trigger] has_outcome(s1, i) by {
                assert(has_outcome(s, i));
                if pending_has(s, i) {
                    let j = choose|j: int|
                        0 <= j < s.pending.len() && (#[trigger] s.pending[j]).idx == i;
                    assert(s1.pending[j].idx == i);
                } else if poller_has(s, i) {
                    let j = choose|j: int|
                        0 <= j < s.pollers.len() && (#[trigger] s.pollers[j]).idx == i;
                    assert(s1.pollers[j].idx == i);
                }
            }
        },
        ModelLabel::Shutdown => {
            assert forall|i: nat| i < s1.handled.len() implies #[trigger] has_outcome(s1, i) by {
                assert(has_outcome(s, i));
                if pending_has(s, i) {
                    let j = choose|j: int|
                        0 <= j < s.pending.len() && (#[trigger] s.pending[j]).idx == i;
                    assert(s1.pending[j].idx == i);
                } else if poller_has(s, i) {
                    let j = choose|j: int|
                        0 <= j < s.pollers.len() && (#[trigger] s.pollers[j]).idx == i;
                    assert(s1.pollers[j].idx == i);
                }
            }
        },
        ModelLabel::Disconnect => {
            assert forall|i: nat| i < s1.handled.len() implies #[trigger] has_outcome(s1, i) by {
                assert(has_outcome(s, i));
                if pending_has(s, i) {
                    let j = choose|j: int|
                        0 <= j < s.pending.len() && (#[trigger] s.pending[j]).idx == i;
                    assert(s1.pending[j].idx == i);
                } else if poller_has(s, i) {
                    let j = choose|j: int|
                        0 <= j < s.pollers.len() && (#[trigger] s.pollers[j]).idx == i;
                    assert(s1.pollers[j].idx == i);
                }
            }
        },
    }
}

/// The invariant holds along every trace.
pub proof fn lemma_inv_run(s: ServerModel, tr: Seq<ModelLabel>)
    requires
        inv(s),
        trace_enabled(s, tr),
    ensures
        inv(run(s, tr)),
    decreases tr.len(),
{
    if tr.len() > 0 {
        lemma_step_inv(s, tr[0]);
        lemma_inv_run(step(s, tr[0]), tr.drop_first());
    }
}

/// The reply law: along any run from a fresh server, every delivered reply
/// answers an accepted request and goes to that request's client — the
/// reply map is keyed by receipt index, so no request is ever answered
/// twice — and once no work is in flight, every accepted request has been
/// answered exactly once.
pub proof fn theorem_one_reply_per_request(s0: SysState, tr: Seq<ModelLabel>)
    requires
        app_wf(s0.app),
        trace_enabled(init(s0), tr),
    ensures
        ({
            let sf = run(init(s0), tr);
            &&& forall|i: nat| #[trigger] sf.replies.dom().contains(i)
                ==> i < sf.handled.len() && sf.replies[i].0 == sf.handled[i as int].0
            &&& (sf.pending.len() == 0 && sf.pollers.len() == 0)
                ==> forall|i: nat| i < sf.handled.len()
                    ==> #[trigger] sf.replies.dom().contains(i)
                        && sf.replies[i].0 == sf.handled[i as int].0
        }),
{
    lemma_init_inv(s0);
    lemma_inv_run(init(s0), tr);
    let sf = run(init(s0), tr);
    if sf.pending.len() == 0 && sf.pollers.len() == 0 {
        assert forall|i: nat| i < sf.handled.len() implies #[trigger] sf.replies.dom().contains(i)
            && sf.replies[i].0 == sf.handled[i as int].0 by {
            assert(has_outcome(sf, i));
        }
    }
}

/// Once stopped, the server accepts nothing further: along any enabled
/// continuation the log of accepted requests never grows (no handler is
/// invoked for a new request), and the server stays stopped.
pub proof fn lemma_no_requests_after_stop(s: ServerModel, tr: Seq<ModelLabel>)
    requires
        s.phase is Stopped,
        trace_enabled(s, tr),
    ensures
        run(s, tr).handled == s.handled,
        run(s, tr).phase is Stopped,
    decreases tr.len(),
{
    if tr.len() > 0 {
        lemma_no_requests_after_stop(step(s, tr[0]), tr.drop_first());
    }
}

/// The trace that finishes `n` pending tasks, oldest first.
pub open spec fn finish_all(n: nat) -> Seq<ModelLabel>
    decreases n,
{
    if n == 0 {
        Seq::empty()
    } else {
        seq![ModelLabel::FinishTask(0)] + finish_all((n - 1) as nat)
    }
}

/// Every already-spawned task can run to completion, delivering its reply,
/// without any further request being accepted.
pub proof fn lemma_finish_all(s: ServerModel)
    ensures
        ({
            let tr = finish_all(s.pending.len());
            let sf = run(s, tr);
            &&& trace_enabled(s, tr)
            &&& sf.pending.len() == 0
            &&& sf.handled == s.handled
            &&& sf.phase == s.phase
            &&& sf.pollers == s.pollers
            &&& sf.sys == s.sys
            &&& forall|j: int| 0 <= j < s.pending.len()
                ==> sf.replies.dom().contains((#[trigger] s.pending[j]).idx)
            &&& forall|i: nat| #[trigger] s.replies.dom().contains(i)
                ==> sf.replies.dom().contains(i)
        }),
    decreases s.pending.len(),
{
    let tr = finish_all(s.pending.len());
    if s.pending.len() > 0 {
        let s1 = step(s, ModelLabel::FinishTask(0));
        s.pending.remove_ensures(0);
        lemma_finish_all(s1);
        let n = s.pending.len();
        let tr1 = finish_all((n - 1) as nat);
        assert(tr == seq![ModelLabel::FinishTask(0)] + tr1);
        assert(tr[0] == ModelLabel::FinishTask(0));
        assert(tr.drop_first() =~= tr1);
        assert(run(s, tr) == run(s1, tr1));
        assert(trace_enabled(s, tr));
        let sf = run(s, tr);
        assert forall|j: int| 0 <= j < s.pending.len()
            implies sf.replies.dom().contains((#[trigger] s.pending[j]).idx) by {
            if j == 0 {
                assert(s1.replies.dom().contains(s.pending[0].idx));
            } else {
                assert(s1.pending[j - 1] == s.pending[j]);
            }
        }
        assert forall|i: nat| #[trigger] s.replies.dom().contains(i)
            implies sf.replies.dom().contains(i) by {
            assert(s1.replies.dom().contains(i));
        }
    }
}

/// The shutdown law: the shutdown signal stops the loop at once — the set of
/// accepted requests is frozen — while every handler already spawned can
/// still finish and deliver its reply.
pub proof fn theorem_clean_shutdown(s: ServerModel)
    requires
        s.phase is Running,
    ensures
        ({
            let s1 = step(s, ModelLabel::Shutdown);
            let tr = finish_all(s1.pending.len());
            &&& enabled(s, ModelLabel::Shutdown)
            &&& s1.handled == s.handled
            &&& trace_enabled(s1, tr)
            &&& run(s1, tr).pending.len() == 0
            &&& run(s1, tr).handled == s.handled
            &&& forall|j: int| 0 <= j < s.pending.len()
                ==> run(s1, tr).replies.dom().contains((#[trigger] s.pending[j]).idx)
        }),
{
    let s1 = step(s, ModelLabel::Shutdown);
    lemma_finish_all(s1);
}

/// The trace that serves `n` waiting pollers, oldest first.
pub open spec fn finish_polls(n: nat) -> Seq<ModelLabel>
    decreases n,
{
    if n == 0 {
        Seq::empty()
    } else {
        seq![ModelLabel::FinishPoll(0)] + finish_polls((n - 1) as nat)
    }
}

/// Every waiting poller can be served — one event each — provided enough
/// events are queued.
pub proof fn lemma_finish_polls(s: ServerModel)
    requires
        s.sys.events.len() >= s.pollers.len(),
    ensures
        ({
            let tr = finish_polls(s.pollers.len());
            let sf = run(s, tr);
            &&& trace_enabled(s, tr)
            &&& sf.pollers.len() == 0
            &&& sf.handled == s.handled
            &&& sf.phase == s.phase
            &&& sf.pending == s.pending
            &&& forall|j: int| 0 <= j < s.pollers.len()
                ==> sf.replies.dom().contains((#[trigger] s.pollers[j]).idx)
            &&& forall|i: nat| #[trigger] s.replies.dom().contains(i)
                ==> sf.replies.dom().contains(i)
        }),
    decreases s.pollers.len(),
{
    let tr = finish_polls(s.pollers.len());
    if s.pollers.len() > 0 {
        let s1 = step(s, ModelLabel::FinishPoll(0));
        s.pollers.remove_ensures(0);
        lemma_finish_polls(s1);
        let n = s.pollers.len();
        let tr1 = finish_polls((n - 1) as nat);
        assert(tr == seq![ModelLabel::FinishPoll(0)] + tr1);
        assert(tr[0] == ModelLabel::FinishPoll(0));
        assert(tr.drop_first() =~= tr1);
        assert(run(s, tr) == run(s1, tr1));
        assert(trace_enabled(s1, tr1));
        assert(trace_enabled(s, tr));
        let sf = run(s, tr);
        assert forall|j: int| 0 <= j < s.pollers.len()
            implies sf.replies.dom().contains((#[trigger] s.pollers[j]).idx) by {
            if j == 0 {
                assert(s1.replies.dom().contains(s.pollers[0].idx));
            } else {
                assert(s1.pollers[j - 1] == s.pollers[j]);
            }
        }
        assert forall|i: nat| #[trigger] s.replies.dom().contains(i)
            implies sf.replies.dom().contains(i) by {
            assert(s1.replies.dom().contains(i));
        }
    }
}

/// The shutdown law, completed for pollers: with enough queued events the
/// waiting pollers drain too, so after the signal all in-flight work can
/// finish and every accepted request ends up answered.
pub proof fn theorem_shutdown_drains_all(s: ServerModel)
    requires
        inv(s),
        s.phase is Running,
        s.sys.events.len() >= s.pollers.len(),
    ensures
        ({
            let s1 = step(s, ModelLabel::Shutdown);
            let s2 = run(s1, finish_all(s1.pending.len()));
            let s3 = run(s2, finish_polls(s2.pollers.len()));
            &&& trace_enabled(s1, finish_all(s1.pending.len()))
            &&& trace_enabled(s2, finish_polls(s2.pollers.len()))
            &&& s3.pending.len() == 0
            &&& s3.pollers.len() == 0
            &&& s3.handled == s.handled
            &&& forall|i: nat| i < s.handled.len() ==> #[trigger] s3.replies.dom().contains(i)
        }),
{
    let s1 = step(s, ModelLabel::Shutdown);
    lemma_finish_all(s1);
    let s2 = run(s1, finish_all(s1.pending.len()));
    lemma_finish_polls(s2);
    let s3 = run(s2, finish_polls(s2.pollers.len()));
    assert forall|i: nat| i < s.handled.len() implies #[trigger] s3.replies.dom().contains(i)
        by {
        assert(has_outcome(s, i));
        if s.replies.dom().contains(i) {
            assert(s2.replies.dom().contains(i));
        } else if pending_has(s, i) {
            let j = choose|j: int| 0 <= j < s.pending.len() && (#[trigger] s.pending[j]).idx == i;
            assert(s1.pending[j].idx == i);
            assert(s2.replies.dom().contains(i));
        } else {
            let j = choose|j: int| 0 <= j < s.pollers.len() && (#[trigger] s.pollers[j]).idx == i;
            assert(s2.pollers[j].idx == i);
        }
    }
}

/// The disconnect law: a peer disconnect stops the loop cleanly; no further
/// handler is invoked along any continuation.
pub proof fn theorem_disconnect_tolerance(s: ServerModel, tr: Seq<ModelLabel>)
    requires
        s.phase is Running,
        trace_enabled(step(s, ModelLabel::Disconnect), tr),
    ensures
        step(s, ModelLabel::Disconnect).handled == s.handled,
        run(step(s, ModelLabel::Disconnect), tr).handled == s.handled,
        run(step(s, ModelLabel::Disconnect), tr).phase is Stopped,
{
    lemma_no_requests_after_stop(step(s, ModelLabel::Disconnect), tr);
}

/// The independence law: a poll issued right after a slow state-mutating
/// request can deliver its reply while the earlier request's reply is still
/// outstanding — the poll never waits for the mutator's post-work.
pub proof fn theorem_nonblocking_independence(
    s: ServerModel,
    c1: ClientId,
    r1: RequestM,
    c2: ClientId,
)
    requires
        inv(s),
        s.phase is Running,
        !is_poll(r1),
        s.sys.events.len() > 0,
    ensures
        ({
            let n = s.handled.len();
            let s1 = step(s, ModelLabel::Recv(c1, r1));
            let s2 = step(s1, ModelLabel::Recv(c2, RequestM::PollEvent));
            let s3 = step(s2, ModelLabel::FinishPoll(s.pollers.len() as int));
            &&& enabled(s, ModelLabel::Recv(c1, r1))
            &&& enabled(s1, ModelLabel::Recv(c2, RequestM::PollEvent))
            &&& enabled(s2, ModelLabel::FinishPoll(s.pollers.len() as int))
            &&& s3.replies.dom().contains(n + 1)
            &&& s3.replies[n + 1] == (c2, ReplyM::EventPolled(s.sys.events[0]))
            &&& !s3.replies.dom().contains(n)
        }),
{
    let n = s.handled.len();
    lemma_step_frame(r1, s.sys, s.sys);
    let s1 = step(s, ModelLabel::Recv(c1, r1));
    let s2 = step(s1, ModelLabel::Recv(c2, RequestM::PollEvent));
    assert(s2.pollers[s.pollers.len() as int].idx == n + 1);
    assert(!s.replies.dom().contains(n));
}

/// A poll on an empty queue suspends: no delivery is enabled for any waiting
/// poller until an event arrives.
pub proof fn lemma_poll_suspends(s: ServerModel, j: int)
    requires
        s.sys.events.len() == 0,
    ensures
        !enabled(s, ModelLabel::FinishPoll(j)),
{
}

/// Pushing an event wakes a waiting poller, which receives exactly that
/// event.
pub proof fn lemma_poll_wakes(s: ServerModel, j: int, e: Event)
    requires
        s.sys.events.len() == 0,
        0 <= j < s.pollers.len(),
    ensures
        ({
            let s1 = step(s, ModelLabel::PushEvent(e));
            let s2 = step(s1, ModelLabel::FinishPoll(j));
            &&& enabled(s1, ModelLabel::FinishPoll(j))
            &&& s2.replies[s.pollers[j].idx]
                == (s.pollers[j].client, ReplyM::EventPolled(e))
            &&& s2.sys.events.len() == 0
        }),
{
    let s1 = step(s, ModelLabel::PushEvent(e));
    assert(s1.sys.events[0] == e);
    assert(s1.sys.events.drop_first() =~= s.sys.events);
}

/// The exactly-once delivery law: two pollers waiting concurrently receive
/// the two oldest events, one each — distinct receipt indices, distinct
/// queue positions — and both events leave the queue.
pub proof fn theorem_poll_no_duplication(s: ServerModel)
    requires
        inv(s),
        s.pollers.len() >= 2,
        s.sys.events.len() >= 2,
    ensures
        ({
            let p0 = s.pollers[0];
            let p1 = s.pollers[1];
            let s1 = step(s, ModelLabel::FinishPoll(0));
            let s2 = step(s1, ModelLabel::FinishPoll(0));
            &&& enabled(s, ModelLabel::FinishPoll(0))
            &&& enabled(s1, ModelLabel::FinishPoll(0))
            &&& p0.idx != p1.idx
            &&& s2.replies[p0.idx] == (p0.client, ReplyM::EventPolled(s.sys.events[0]))
            &&& s2.replies[p1.idx] == (p1.client, ReplyM::EventPolled(s.sys.events[1]))
            &&& s2.sys.events =~= s.sys.events.subrange(2, s.sys.events.len() as int)
        }),
{
    let p0 = s.pollers[0];
    let p1 = s.pollers[1];
    let s1 = step(s, ModelLabel::FinishPoll(0));
    s.pollers.remove_ensures(0);
    assert(s1.pollers[0] == p1);
    let s2 = step(s1, ModelLabel::FinishPoll(0));
    assert(s1.sys.events[0] == s.sys.events[1]);
    assert(s2.sys.events =~= s.sys.events.subrange(2, s.sys.events.len() as int));
}

/// A created turtle is visible to the very next request: a move of the
/// identifier just returned observes the default pose and never finds the
/// turtle missing.  (The dispatch loop applies captures in receipt order —
/// [`theorem_ordering`] — so consecutive requests compose exactly so.)
pub proof fn lemma_create_then_move(s: SysState, d: i32)
    requires
        app_wf(s.app),
        s.app.turtles.len() < usize::MAX,
    ensures
        ({
            let id = TurtleId(s.app.turtles.len() as usize);
            let sr1 = step_of(RequestM::CreateTurtle, s);
            let sr2 = step_of(RequestM::MoveForward(id, d), sr1.sys);
            &&& sr1.reply == ReplyM::TurtleCreated(id)
            &&& turtle_exists(sr1.sys.app, id)
            &&& sr1.sys.app.turtles[id.0 as int] == default_turtle()
            &&& sr2.reply == ReplyM::Ack
            &&& sr2.sys.app.turtles[id.0 as int].position
                == forward_target(default_turtle(), d as int)
        }),
{
}

/// A property write is visible to the very next read: setting the
/// background and then querying it returns the value just set, never the
/// prior one.
pub proof fn lemma_set_then_query_background(s: SysState, c: Color)
    ensures
        ({
            let sr1 = step_of(RequestM::SetDrawingProp(DrawingPropValueM::Background(c)), s);
            let sr2 = step_of(RequestM::DrawingProp(DrawingProp::Background), sr1.sys);
            sr2.reply == ReplyM::Drawing(DrawingPropValueM::Background(c))
        }),
{
}

} // verus!
