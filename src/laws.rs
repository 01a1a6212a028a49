//! Properties of whole call sequences: what a session does when a device
//! answers a run of calls in a given way.

use crate::device::{CameraError, DeviceCall, Reply};
use crate::format::VideoFormat;
use crate::pool::{BufferState, FrameBuffer, PoolView};
use crate::session::{CameraView, Completion, FrameView, Op, Step};
use vstd::prelude::*;

verus! {

/// The session's state and the steps it names after taking replies `rs` in order.
pub open spec fn run(v: CameraView, rs: Seq<Reply>) -> (CameraView, Seq<Step>)
    decreases rs.len(),
{
    if rs.len() == 0 {
        (v, Seq::empty())
    } else {
        let (v1, s) = v.next(rs[0]);
        let (v2, ss) = run(v1, rs.drop_first());
        (v2, seq![s] + ss)
    }
}

/// The kinds of step that the properties below count.
pub enum StepKind {
    /// A readiness wait.
    Wait,
    /// A readiness wait that first clears the readiness flag.
    ClearedWait,
    /// A DEQUEUE-BUFFER call.
    Dequeue,
    /// A delivered frame.
    Frame,
    /// A mapping of a buffer.
    Mapping,
    /// A QUEUE-BUFFER call.
    Queue,
    /// A failed operation.
    Failure,
}

/// Whether step `s` is of kind `k`.
pub open spec fn is_kind(s: Step, k: StepKind) -> bool {
    match k {
        StepKind::Wait => s matches Step::Call(DeviceCall::WaitReadable { .. }),
        StepKind::ClearedWait => s == Step::Call(DeviceCall::WaitReadable { clear_ready: true }),
        StepKind::Dequeue => s == Step::Call(DeviceCall::DequeueBuffer),
        StepKind::Frame => s matches Step::Finished(Completion::Frame(_)),
        StepKind::Mapping => s matches Step::Call(DeviceCall::MapBuffer { .. }),
        StepKind::Queue => s matches Step::Call(DeviceCall::QueueBuffer { .. }),
        StepKind::Failure => s matches Step::Failed(_),
    }
}

/// How many of `steps` are of kind `k`.
pub open spec fn count(steps: Seq<Step>, k: StepKind) -> nat
    decreases steps.len(),
{
    if steps.len() == 0 {
        0
    } else {
        (if is_kind(steps[0], k) {
            1nat
        } else {
            0nat
        }) + count(steps.drop_first(), k)
    }
}

/// How many mappings `steps` remove in all.
pub open spec fn unmapped(steps: Seq<Step>) -> nat
    decreases steps.len(),
{
    if steps.len() == 0 {
        0
    } else {
        unmapped_by(steps[0]) + unmapped(steps.drop_first())
    }
}

/// The mappings removed by two runs of steps add up.
pub proof fn lemma_unmapped_append(a: Seq<Step>, b: Seq<Step>)
    ensures
        unmapped(a + b) == unmapped(a) + unmapped(b),
    decreases a.len(),
{
    if a.len() == 0 {
        assert(a + b =~= b);
    } else {
        assert((a + b).drop_first() =~= a.drop_first() + b);
        lemma_unmapped_append(a.drop_first(), b);
    }
}

/// How many mappings step `s` removes.
pub open spec fn unmapped_by(s: Step) -> nat {
    match s {
        Step::Call(DeviceCall::UnmapBuffers { count }) => count as nat,
        _ => 0nat,
    }
}

/// The mappings removed by a run of one step.
pub proof fn lemma_unmapped_one(s: Seq<Step>)
    requires
        s.len() == 1,
    ensures
        unmapped(s) == unmapped_by(s[0]),
{
    assert(s.drop_first() =~= Seq::<Step>::empty());
    assert(unmapped(Seq::<Step>::empty()) == 0);
}

/// The mappings removed by a run of two steps.
pub proof fn lemma_unmapped_two(s: Seq<Step>)
    requires
        s.len() == 2,
    ensures
        unmapped(s) == unmapped_by(s[0]) + unmapped_by(s[1]),
{
    assert(s =~= seq![s[0]] + seq![s[1]]);
    lemma_unmapped_append(seq![s[0]], seq![s[1]]);
    lemma_unmapped_one(seq![s[0]]);
    lemma_unmapped_one(seq![s[1]]);
}

/// Counting one step.
pub proof fn lemma_count_one(a: Step, k: StepKind)
    ensures
        count(seq![a], k) == if is_kind(a, k) {
            1nat
        } else {
            0nat
        },
{
    assert(seq![a].drop_first() =~= Seq::<Step>::empty());
    assert(count(Seq::<Step>::empty(), k) == 0);
}

/// Counts over two runs of steps add up.
pub proof fn lemma_count_append(a: Seq<Step>, b: Seq<Step>, k: StepKind)
    ensures
        count(a + b, k) == count(a, k) + count(b, k),
    decreases a.len(),
{
    if a.len() == 0 {
        assert(a + b =~= b);
    } else {
        assert((a + b).drop_first() =~= a.drop_first() + b);
        lemma_count_append(a.drop_first(), b, k);
    }
}

/// Taking two runs of replies one after the other is taking them together.
pub proof fn lemma_run_append(v: CameraView, a: Seq<Reply>, b: Seq<Reply>)
    ensures
        run(v, a + b) == (run(run(v, a).0, b).0, run(v, a).1 + run(run(v, a).0, b).1),
    decreases a.len(),
{
    if a.len() == 0 {
        assert(a + b =~= b);
        assert(run(v, a).1 + run(v, b).1 =~= run(v, b).1);
    } else {
        assert((a + b).drop_first() =~= a.drop_first() + b);
        assert((a + b)[0] == a[0]);
        let v1 = v.next(a[0]).0;
        lemma_run_append(v1, a.drop_first(), b);
        let s = v.next(a[0]).1;
        assert(seq![s] + (run(v1, a.drop_first()).1 + run(run(v1, a.drop_first()).0, b).1) =~= (
        seq![s] + run(v1, a.drop_first()).1) + run(run(v1, a.drop_first()).0, b).1);
    }
}

/// The run of one reply.
pub proof fn lemma_run_one(v: CameraView, r0: Reply)
    ensures
        run(v, seq![r0]) == (v.next(r0).0, seq![v.next(r0).1]),
{
    let rs = seq![r0];
    assert(rs.drop_first() =~= Seq::<Reply>::empty());
    assert(run(v.next(r0).0, rs.drop_first()) == (v.next(r0).0, Seq::<Step>::empty()));
    assert(seq![v.next(r0).1] + Seq::<Step>::empty() =~= seq![v.next(r0).1]);
}

/// The run of two replies.
pub proof fn lemma_run_two(v: CameraView, r0: Reply, r1: Reply)
    ensures
        run(v, seq![r0, r1]) == (
            v.next(r0).0.next(r1).0,
            seq![v.next(r0).1, v.next(r0).0.next(r1).1],
        ),
{
    let rs = seq![r0, r1];
    assert(rs.drop_first() =~= seq![r1]);
    let v1 = v.next(r0).0;
    lemma_run_one(v1, r1);
    assert(seq![v.next(r0).1] + seq![v1.next(r1).1] =~= seq![v.next(r0).1, v1.next(r1).1]);
}

/// Counting a step in front of a run of steps.
pub proof fn lemma_count_cons(a: Step, b: Seq<Step>, k: StepKind)
    ensures
        count(seq![a] + b, k) == (if is_kind(a, k) {
            1nat
        } else {
            0nat
        }) + count(b, k),
{
    assert((seq![a] + b).drop_first() =~= b);
}

/// Counting two steps.
pub proof fn lemma_count_two(a: Step, b: Step, k: StepKind)
    ensures
        count(seq![a, b], k) == (if is_kind(a, k) {
            1nat
        } else {
            0nat
        }) + (if is_kind(b, k) {
            1nat
        } else {
            0nat
        }),
{
    assert(seq![a, b].drop_first() =~= seq![b]);
    assert(seq![b].drop_first() =~= Seq::<Step>::empty());
    assert(count(Seq::<Step>::empty(), k) == 0);
    assert(count(seq![b], k) == (if is_kind(b, k) {
        1nat
    } else {
        0nat
    }) + count(Seq::<Step>::empty(), k));
}

/// The frame a capture delivers when the device hands back buffer `index`
/// holding `bytes_used` bytes.
pub open spec fn captured(index: u32, bytes_used: u32) -> Step {
    Step::Finished(Completion::Frame(FrameView { index, bytes_used }))
}

/// A device that ends `k` readiness waits with nothing to dequeue, then
/// hands back buffer `index` holding `bytes_used` bytes.
pub open spec fn retry_replies(k: nat, index: u32, bytes_used: u32) -> Seq<Reply>
    decreases k,
{
    if k == 0 {
        seq![Reply::Done, Reply::Dequeued { index, bytes_used }]
    } else {
        seq![Reply::Done, Reply::WouldBlock] + retry_replies((k - 1) as nat, index, bytes_used)
    }
}

/// Counts over two runs of steps add up, for every kind.
pub proof fn lemma_counts_append(a: Seq<Step>, b: Seq<Step>)
    ensures
        forall|k: StepKind| #[trigger] count(a + b, k) == count(a, k) + count(b, k),
{
    assert forall|k: StepKind| #[trigger] count(a + b, k) == count(a, k) + count(b, k) by {
        lemma_count_append(a, b, k);
    }
}

/// Counting a run of two steps, for every kind.
pub proof fn lemma_counts_two(s: Seq<Step>)
    requires
        s.len() == 2,
    ensures
        forall|k: StepKind|
            #[trigger] count(s, k) == (if is_kind(s[0], k) {
                1nat
            } else {
                0nat
            }) + (if is_kind(s[1], k) {
                1nat
            } else {
                0nat
            }),
{
    assert forall|k: StepKind|
        #[trigger] count(s, k) == (if is_kind(s[0], k) {
            1nat
        } else {
            0nat
        }) + (if is_kind(s[1], k) {
            1nat
        } else {
            0nat
        }) by {
        assert(s =~= seq![s[0], s[1]]);
        lemma_count_two(s[0], s[1], k);
    }
}

/// Counting a run of one step, for every kind.
pub proof fn lemma_counts_one(s: Seq<Step>)
    requires
        s.len() == 1,
    ensures
        forall|k: StepKind|
            #[trigger] count(s, k) == if is_kind(s[0], k) {
                1nat
            } else {
                0nat
            },
{
    assert forall|k: StepKind|
        #[trigger] count(s, k) == if is_kind(s[0], k) {
            1nat
        } else {
            0nat
        } by {
        assert(s =~= seq![s[0]]);
        lemma_count_one(s[0], k);
    }
}

/// From a capture's wait, `k` would-block replies and then a queued buffer
/// give `k` further waits, each clearing the readiness flag, `k + 1`
/// dequeues, and that buffer's frame.
proof fn lemma_retries(v: CameraView, k: nat, index: u32, bytes_used: u32)
    requires
        v.wf(),
        v.op matches Op::Waiting { draining: false, .. },
        index < v.pool.len(),
        v.pool.buffers[index as int].state == BufferState::Queued,
        bytes_used <= v.pool.buffers[index as int].length,
    ensures
        ({
            let (v2, steps) = run(v, retry_replies(k, index, bytes_used));
            &&& steps.len() > 0
            &&& steps.last() == captured(index, bytes_used)
            &&& count(steps, StepKind::Wait) == k
            &&& count(steps, StepKind::ClearedWait) == k
            &&& count(steps, StepKind::Dequeue) == k + 1
            &&& count(steps, StepKind::Frame) == 1
            &&& count(steps, StepKind::Failure) == 0
            &&& v2.pool == v.pool.delivered(index)
            &&& v2.op == Op::Idle
        }),
    decreases k,
{
    let left = v.op->Waiting_left;
    let d = v.with_op(Op::Dequeuing { draining: false, left });
    if k == 0 {
        lemma_run_two(v, Reply::Done, Reply::Dequeued { index, bytes_used });
        lemma_counts_two(seq![Step::Call(DeviceCall::DequeueBuffer), captured(index, bytes_used)]);
    } else {
        let head = seq![Reply::Done, Reply::WouldBlock];
        let rest = retry_replies((k - 1) as nat, index, bytes_used);
        lemma_run_append(v, head, rest);
        lemma_run_two(v, Reply::Done, Reply::WouldBlock);
        assert(d.next(Reply::WouldBlock).0 == v);
        lemma_retries(v, (k - 1) as nat, index, bytes_used);
        let hs = seq![
            Step::Call(DeviceCall::DequeueBuffer),
            Step::Call(DeviceCall::WaitReadable { clear_ready: true }),
        ];
        let rs = run(v, rest).1;
        lemma_counts_two(hs);
        lemma_counts_append(hs, rs);
        assert((hs + rs).last() == rs.last());
    }
}

/// The replies to the QUEUE-BUFFER calls a capture makes before its first
/// wait, all accepted: one for the exposed buffer if there is one, and one
/// for the cursor's buffer if the device does not have it.
pub open spec fn lead_replies(v: CameraView) -> Seq<Reply> {
    let p = v.pool.released();
    dones(
        (if v.pool.held is Some {
            1nat
        } else {
            0nat
        }) + (if p.buffers[p.cursor as int].state == BufferState::Free {
            1nat
        } else {
            0nat
        }),
    )
}

/// The pool once a capture's QUEUE-BUFFER calls before its first wait are
/// accepted: the exposed buffer is back with the device, and so is the
/// cursor's buffer.
pub open spec fn led(v: CameraView) -> PoolView {
    let p = v.pool.released();
    if p.buffers[p.cursor as int].state == BufferState::Free {
        p.with_state(p.cursor, BufferState::Queued)
    } else {
        p
    }
}

proof fn lemma_dones_one()
    ensures
        dones(1) =~= seq![Reply::Done],
{
}

proof fn lemma_dones_two()
    ensures
        dones(2) =~= seq![Reply::Done, Reply::Done],
{
}

/// A capture from an idle session reaches its first wait once its
/// QUEUE-BUFFER calls are accepted, with no other wait, dequeue or failure.
proof fn lemma_capture_lead(v: CameraView)
    requires
        v.wf(),
        v.op == Op::Idle,
        v.pool.len() > 0,
    ensures
        ({
            let (w, first) = v.begin_capture();
            let (u, ls) = run(w, lead_replies(v));
            let all = seq![first] + ls;
            &&& u == v.with_pool(led(v)).with_op(Op::Waiting { draining: false, left: 0 })
            &&& u.wf()
            &&& count(all, StepKind::Wait) == 1
            &&& count(all, StepKind::ClearedWait) == 0
            &&& count(all, StepKind::Dequeue) == 0
            &&& count(all, StepKind::Failure) == 0
        }),
{
    let (w, first) = v.begin_capture();
    lemma_dones_one();
    lemma_dones_two();
    let p = v.pool.released();
    let prime = p.buffers[p.cursor as int].state == BufferState::Free;
    let all = seq![first] + run(w, lead_replies(v)).1;
    if v.pool.held is Some {
        crate::session::lemma_next_wf(w, Reply::Done);
        let w1 = w.next(Reply::Done);
        if prime {
            lemma_run_two(w, Reply::Done, Reply::Done);
            crate::session::lemma_next_wf(w1.0, Reply::Done);
            let w2 = w1.0.next(Reply::Done);
            assert(all =~= seq![first, w1.1, w2.1]);
            lemma_counts_one(seq![first]);
            lemma_counts_two(seq![w1.1, w2.1]);
            lemma_counts_append(seq![first], seq![w1.1, w2.1]);
            assert(seq![first] + seq![w1.1, w2.1] =~= all);
        } else {
            lemma_run_one(w, Reply::Done);
            lemma_counts_two(seq![first, w1.1]);
            assert(all =~= seq![first, w1.1]);
        }
    } else {
        assert(p == v.pool);
        if prime {
            lemma_run_one(w, Reply::Done);
            crate::session::lemma_next_wf(w, Reply::Done);
            lemma_counts_two(seq![first, w.next(Reply::Done).1]);
            assert(all =~= seq![first, w.next(Reply::Done).1]);
        } else {
            assert(lead_replies(v) =~= Seq::<Reply>::empty());
            assert(all =~= seq![first]);
            lemma_counts_one(seq![first]);
        }
    }
}

/// A capture from any idle session, against a device that accepts its
/// QUEUE-BUFFER calls and whose DEQUEUE-BUFFER would block `k` times before
/// it hands back a queued buffer holding at most its length, delivers that
/// frame with no error, after exactly `k + 1` readiness waits and `k + 1`
/// dequeues, clearing the readiness flag before each of the `k` retries.
pub proof fn lemma_capture_after_retries(v: CameraView, k: nat, index: u32, bytes_used: u32)
    requires
        v.wf(),
        v.op == Op::Idle,
        v.pool.len() > 0,
        index < v.pool.len(),
        led(v).buffers[index as int].state == BufferState::Queued,
        bytes_used <= v.pool.buffers[index as int].length,
    ensures
        ({
            let (w, first) = v.begin_capture();
            let (v2, steps) = run(w, lead_replies(v) + retry_replies(k, index, bytes_used));
            let all = seq![first] + steps;
            &&& count(all, StepKind::Wait) == k + 1
            &&& count(all, StepKind::ClearedWait) == k
            &&& count(all, StepKind::Dequeue) == k + 1
            &&& count(all, StepKind::Failure) == 0
            &&& all.last() == captured(index, bytes_used)
            &&& v2.pool == led(v).delivered(index)
            &&& v2.op == Op::Idle
        }),
{
    let (w, first) = v.begin_capture();
    lemma_capture_lead(v);
    let (u, ls) = run(w, lead_replies(v));
    let rr = retry_replies(k, index, bytes_used);
    lemma_run_append(w, lead_replies(v), rr);
    assert(led(v).buffers[index as int].length == v.pool.buffers[index as int].length);
    lemma_retries(u, k, index, bytes_used);
    let rs = run(u, rr).1;
    lemma_counts_append(seq![first] + ls, rs);
    assert(seq![first] + (ls + rs) =~= (seq![first] + ls) + rs);
    assert((seq![first] + (ls + rs)).last() == rs.last());
}

/// The state of a capture in progress.
pub open spec fn capturing(op: Op) -> bool {
    match op {
        Op::Releasing { stopping } => !stopping,
        Op::Priming => true,
        Op::Waiting { draining, .. } => !draining,
        Op::Dequeuing { draining, .. } => !draining,
        _ => false,
    }
}

/// In a capture, only the step that delivers a frame moves the cursor.
proof fn lemma_capture_cursor(u: CameraView, rs: Seq<Reply>)
    requires
        u.wf(),
        u.pool.len() > 0,
        capturing(u.op) || u.op == Op::Idle,
    ensures
        ({
            let (u2, steps) = run(u, rs);
            let frames = count(steps, StepKind::Frame);
            &&& u2.wf()
            &&& u2.pool.len() == u.pool.len()
            &&& u.op == Op::Idle ==> frames == 0 && u2.pool.cursor == u.pool.cursor && u2.op
                == Op::Idle
            &&& frames == 1 ==> u2.op == Op::Idle
            &&& frames <= 1
            &&& u2.pool.cursor == if frames == 1 {
                u.pool.next_cursor()
            } else {
                u.pool.cursor
            }
        }),
    decreases rs.len(),
{
    if rs.len() > 0 {
        let (u1, s) = u.next(rs[0]);
        crate::session::lemma_next_wf(u, rs[0]);
        let rest = rs.drop_first();
        lemma_capture_cursor(u1, rest);
        lemma_count_cons(s, run(u1, rest).1, StepKind::Frame);
        assert(u1.pool.len() == u.pool.len());
        assert(is_kind(s, StepKind::Frame) ==> u1.op == Op::Idle && u1.pool.cursor == u.pool.next_cursor());
        assert(!is_kind(s, StepKind::Frame) ==> u1.pool.cursor == u.pool.cursor);
        assert(capturing(u1.op) || u1.op == Op::Idle);
        assert(u.op == Op::Idle ==> u1.op == Op::Idle && !is_kind(s, StepKind::Frame));
    }
}

/// The cursor moves round-robin: a capture that delivers a frame moves it
/// from `c` to `(c + 1) mod N`, whatever the device answered on the way,
/// would-block replies included; a capture that delivers none leaves it at `c`.
pub proof fn lemma_cursor_round_robin(v: CameraView, rs: Seq<Reply>)
    requires
        v.wf(),
        v.op == Op::Idle,
        v.pool.len() > 0,
    ensures
        ({
            let (w, first) = v.begin_capture();
            let (v2, steps) = run(w, rs);
            let frames = count(steps, StepKind::Frame);
            &&& frames <= 1
            &&& v2.pool.cursor == if frames == 1 {
                ((v.pool.cursor + 1) % (v.pool.len() as int)) as u32
            } else {
                v.pool.cursor
            }
        }),
{
    let (w, first) = v.begin_capture();
    lemma_capture_cursor(w, rs);
}

/// `m` successful replies with nothing to report.
pub open spec fn dones(m: nat) -> Seq<Reply> {
    Seq::new(m, |i: int| Reply::Done)
}

/// A device that reports buffers `0..k` at `offsets[i]`, `lengths[i]`,
/// each of which then maps without error.
pub open spec fn map_replies(offsets: Seq<u32>, lengths: Seq<u32>, k: nat) -> Seq<Reply>
    decreases k,
{
    if k == 0 {
        Seq::empty()
    } else {
        map_replies(offsets, lengths, (k - 1) as nat) + seq![
            Reply::Queried { offset: offsets[k - 1], length: lengths[k - 1] },
            Reply::Done,
        ]
    }
}

/// Buffers `0..k` as mapped from `offsets` and `lengths`, none yet queued.
pub open spec fn mapped(offsets: Seq<u32>, lengths: Seq<u32>, k: nat) -> Seq<FrameBuffer> {
    Seq::new(
        k,
        |i: int| FrameBuffer { offset: offsets[i], length: lengths[i], state: BufferState::Free },
    )
}

/// `bs` with the first `m` buffers moved to state `st`.
pub open spec fn prefix_in(bs: Seq<FrameBuffer>, m: nat, st: BufferState) -> Seq<FrameBuffer> {
    Seq::new(
        bs.len(),
        |i: int|
            if i < m {
                FrameBuffer { state: st, ..bs[i] }
            } else {
                bs[i]
            },
    )
}

/// After `k` buffers are reported and mapped, the pool holds those `k`.
proof fn lemma_map_prefix(v: CameraView, offsets: Seq<u32>, lengths: Seq<u32>, k: nat)
    requires
        v.wf(),
        v.op matches Op::Querying { index: 0, .. },
        v.pool == PoolView::empty(),
        offsets.len() == v.op->Querying_count,
        lengths.len() == v.op->Querying_count,
        forall|j: int| 0 <= j < lengths.len() ==> #[trigger] lengths[j] > 0,
        k <= v.op->Querying_count,
    ensures
        ({
            let total = v.op->Querying_count;
            let (v2, steps) = run(v, map_replies(offsets, lengths, k));
            &&& v2.wf()
            &&& v2.pool.buffers == mapped(offsets, lengths, k)
            &&& v2.pool.cursor == 0
            &&& v2.pool.held is None
            &&& v2.streaming == v.streaming
            &&& v2.format == v.format
            &&& v2.op == if k < total {
                Op::Querying { index: k as u32, count: total }
            } else {
                Op::Enqueuing { index: 0 }
            }
            &&& count(steps, StepKind::Failure) == 0
            &&& count(steps, StepKind::Mapping) == k
            &&& unmapped(steps) == 0
        }),
    decreases k,
{
    if k == 0 {
        assert(mapped(offsets, lengths, 0) =~= Seq::<FrameBuffer>::empty());
    } else {
        let j = (k - 1) as nat;
        lemma_map_prefix(v, offsets, lengths, j);
        let (u, us) = run(v, map_replies(offsets, lengths, j));
        let r0 = Reply::Queried { offset: offsets[j as int], length: lengths[j as int] };
        lemma_run_append(v, map_replies(offsets, lengths, j), seq![r0, Reply::Done]);
        lemma_run_two(u, r0, Reply::Done);
        crate::session::lemma_next_wf(u, r0);
        crate::session::lemma_next_wf(u.next(r0).0, Reply::Done);
        assert(u.pool.buffers.push(
            FrameBuffer { offset: offsets[j as int], length: lengths[j as int], state: BufferState::Free },
        ) =~= mapped(offsets, lengths, k));
        let ts = seq![u.next(r0).1, u.next(r0).0.next(Reply::Done).1];
        lemma_count_two(ts[0], ts[1], StepKind::Failure);
        lemma_count_append(us, ts, StepKind::Failure);
        lemma_count_two(ts[0], ts[1], StepKind::Mapping);
        lemma_count_append(us, ts, StepKind::Mapping);
        lemma_unmapped_append(us, ts);
        lemma_unmapped_two(ts);
    }
}

/// After `m` accepted QUEUE-BUFFER calls, the first `m` buffers are queued.
proof fn lemma_enqueue_prefix(v: CameraView, m: nat)
    requires
        v.wf(),
        v.op == (Op::Enqueuing { index: 0 }),
        m <= v.pool.len(),
    ensures
        ({
            let (v2, steps) = run(v, dones(m));
            &&& v2.wf()
            &&& v2.pool == PoolView { buffers: prefix_in(v.pool.buffers, m, BufferState::Queued), ..v.pool }
            &&& v2.streaming == v.streaming
            &&& v2.format == v.format
            &&& v2.op == if m < v.pool.len() {
                Op::Enqueuing { index: m as u32 }
            } else {
                Op::StartingStream
            }
            &&& count(steps, StepKind::Failure) == 0
        }),
    decreases m,
{
    if m == 0 {
        assert(dones(0) =~= Seq::<Reply>::empty());
        assert(prefix_in(v.pool.buffers, 0, BufferState::Queued) =~= v.pool.buffers);
    } else {
        let j = (m - 1) as nat;
        lemma_enqueue_prefix(v, j);
        assert(dones(m) =~= dones(j) + seq![Reply::Done]);
        let (u, us) = run(v, dones(j));
        lemma_run_append(v, dones(j), seq![Reply::Done]);
        lemma_run_one(u, Reply::Done);
        crate::session::lemma_next_wf(u, Reply::Done);
        assert(u.pool.with_state(j as u32, BufferState::Queued).buffers =~= prefix_in(
            v.pool.buffers,
            m,
            BufferState::Queued,
        ));
        lemma_count_cons(u.next(Reply::Done).1, Seq::empty(), StepKind::Failure);
        assert(seq![u.next(Reply::Done).1] + Seq::<Step>::empty() =~= seq![u.next(Reply::Done).1]);
        lemma_count_append(us, seq![u.next(Reply::Done).1], StepKind::Failure);
    }
}

/// The replies of a device that settles on format `f`, grants the buffers,
/// reports buffer `i` at `offsets[i]`, `lengths[i]`, and accepts every
/// mapping, every QUEUE-BUFFER and the STREAM-ON. (A buffer reported with
/// length zero is refused; the laws below take non-zero lengths.)
pub open spec fn start_replies(f: VideoFormat, offsets: Seq<u32>, lengths: Seq<u32>) -> Seq<Reply> {
    seq![Reply::Format(f), Reply::Done] + map_replies(offsets, lengths, offsets.len()) + dones(
        offsets.len(),
    ) + seq![Reply::Done]
}

/// A session freshly opened to set up `count` buffers, its format request sent.
pub open spec fn opened(count: u32) -> CameraView {
    CameraView {
        pool: PoolView::empty(),
        streaming: false,
        format: None,
        op: Op::Formatting { count },
    }
}

/// Setting up a pool of `n >= 1` buffers against a device that accepts
/// every call yields a pool of exactly `n` buffers, with the offsets and
/// lengths the device reported, every one of them queued, the cursor at 0,
/// the stream on and the format the driver settled on recorded.
pub proof fn lemma_session_start(
    f: VideoFormat, offsets: Seq<u32>, lengths: Seq<u32>)
    requires
        1 <= offsets.len() <= u32::MAX,
        lengths.len() == offsets.len(),
        forall|j: int| 0 <= j < lengths.len() ==> #[trigger] lengths[j] > 0,
    ensures
        ({
            let n = offsets.len();
            let (v, steps) = run(opened(n as u32), start_replies(f, offsets, lengths));
            &&& v.wf()
            &&& v.pool.len() == n
            &&& forall|i: int|
                0 <= i < n ==> #[trigger] v.pool.buffers[i] == (FrameBuffer {
                    offset: offsets[i],
                    length: lengths[i],
                    state: BufferState::Queued,
                })
            &&& v.pool.all_in(BufferState::Queued)
            &&& v.pool.cursor == 0
            &&& v.pool.held is None
            &&& v.streaming
            &&& v.format == Some(f)
            &&& v.op == Op::Idle
            &&& steps.last() == Step::Finished(Completion::Started)
            &&& count(steps, StepKind::Failure) == 0
        }),
{
    let n = offsets.len();
    let v0 = opened(n as u32);
    let a = seq![Reply::Format(f), Reply::Done];
    let m = map_replies(offsets, lengths, n);
    let d = dones(n);
    let e = seq![Reply::Done];
    lemma_run_append(v0, a + m + d, e);
    lemma_run_append(v0, a + m, d);
    lemma_run_append(v0, a, m);
    lemma_run_two(v0, Reply::Format(f), Reply::Done);
    let (v1, s1) = run(v0, a);
    crate::session::lemma_next_wf(v0, Reply::Format(f));
    crate::session::lemma_next_wf(v0.next(Reply::Format(f)).0, Reply::Done);
    lemma_count_two(s1[0], s1[1], StepKind::Failure);
    lemma_map_prefix(v1, offsets, lengths, n);
    let (v2, s2) = run(v1, m);
    lemma_enqueue_prefix(v2, n);
    let (v3, s3) = run(v2, d);
    lemma_run_one(v3, Reply::Done);
    let (v4, s4) = run(v3, e);
    lemma_count_cons(s4[0], Seq::empty(), StepKind::Failure);
    assert(seq![s4[0]] + Seq::<Step>::empty() =~= s4);
    lemma_count_append(s1, s2, StepKind::Failure);
    lemma_count_append(s1 + s2, s3, StepKind::Failure);
    lemma_count_append(s1 + s2 + s3, s4, StepKind::Failure);
    assert(((s1 + s2) + s3 + s4).last() == s4.last());
    assert forall|i: int| 0 <= i < n implies #[trigger] v4.pool.buffers[i] == (FrameBuffer {
        offset: offsets[i],
        length: lengths[i],
        state: BufferState::Queued,
    }) by {
        assert(v2.pool.buffers[i] == mapped(offsets, lengths, n)[i]);
    }
    assert(v4.pool.all_in(BufferState::Queued)) by {
        assert forall|i: int| 0 <= i < n implies #[trigger] v4.pool.buffers[i].state
            == BufferState::Queued by {
            assert(v4.pool.buffers[i] == prefix_in(v2.pool.buffers, n, BufferState::Queued)[i]);
        }
    }
}

/// A device that hands back buffers `order[0..m]`, in that order, each on
/// its first readiness wait.
pub open spec fn drain_replies(order: Seq<u32>, m: nat) -> Seq<Reply>
    decreases m,
{
    if m == 0 {
        Seq::empty()
    } else {
        drain_replies(order, (m - 1) as nat) + seq![
            Reply::Done,
            Reply::Dequeued { index: order[m - 1], bytes_used: 0 },
        ]
    }
}

/// `order` names each of the buffers `0..n` exactly once.
pub open spec fn is_order_of(order: Seq<u32>, n: nat) -> bool {
    &&& order.len() == n
    &&& order.no_duplicates()
    &&& forall|t: int| 0 <= t < n ==> #[trigger] order[t] < n
    &&& forall|i: u32| i < n ==> #[trigger] order.contains(i)
}

/// `bs` with the buffers named in `order[0..m]` free.
pub open spec fn freed(bs: Seq<FrameBuffer>, order: Seq<u32>, m: nat) -> Seq<FrameBuffer> {
    Seq::new(
        bs.len(),
        |i: int|
            if order.subrange(0, m as int).contains(i as u32) {
                FrameBuffer { state: BufferState::Free, ..bs[i] }
            } else {
                bs[i]
            },
    )
}

/// After the buffers `order[0..m]` are dequeued, those are free and the
/// others still queued.
proof fn lemma_drain_prefix(w: CameraView, order: Seq<u32>, m: nat)
    requires
        w.wf(),
        w.op == (Op::Waiting { draining: true, left: w.pool.len() as u32 }),
        w.pool.all_in(BufferState::Queued),
        is_order_of(order, w.pool.len()),
        m <= w.pool.len(),
    ensures
        ({
            let n = w.pool.len();
            let (w2, steps) = run(w, drain_replies(order, m));
            &&& w2.wf()
            &&& w2.pool == PoolView { buffers: freed(w.pool.buffers, order, m), ..w.pool }
            &&& w2.streaming == w.streaming
            &&& w2.op == if m < n {
                Op::Waiting { draining: true, left: (n - m) as u32 }
            } else {
                Op::StoppingStream
            }
            &&& count(steps, StepKind::Dequeue) == m
            &&& count(steps, StepKind::Queue) == 0
            &&& count(steps, StepKind::Failure) == 0
        }),
    decreases m,
{
    let n = w.pool.len();
    if m == 0 {
        assert(freed(w.pool.buffers, order, 0) =~= w.pool.buffers);
    } else {
        let j = (m - 1) as nat;
        let idx = order[j as int];
        lemma_drain_prefix(w, order, j);
        let (u, us) = run(w, drain_replies(order, j));
        let r1 = Reply::Dequeued { index: idx, bytes_used: 0 };
        lemma_run_append(w, drain_replies(order, j), seq![Reply::Done, r1]);
        lemma_run_two(u, Reply::Done, r1);
        crate::session::lemma_next_wf(u, Reply::Done);
        crate::session::lemma_next_wf(u.next(Reply::Done).0, r1);
        let before = order.subrange(0, j as int);
        let after = order.subrange(0, m as int);
        assert(!before.contains(idx)) by {
            if before.contains(idx) {
                let t = choose|t: int| 0 <= t < before.len() && before[t] == idx;
                assert(order[t] == order[j as int]);
            }
        }
        assert(u.pool.buffers[idx as int].state == BufferState::Queued);
        assert forall|i: int| 0 <= i < n implies (#[trigger] after.contains(i as u32) <==> (
        before.contains(i as u32) || idx == i as u32)) by {
            if after.contains(i as u32) {
                let t = choose|t: int| 0 <= t < after.len() && after[t] == i as u32;
                if t < j {
                    assert(before[t] == i as u32);
                }
            }
            if before.contains(i as u32) {
                let t = choose|t: int| 0 <= t < before.len() && before[t] == i as u32;
                assert(after[t] == i as u32);
            }
            if idx == i as u32 {
                assert(after[j as int] == i as u32);
            }
        }
        assert(u.pool.with_state(idx, BufferState::Free).buffers =~= freed(
            w.pool.buffers,
            order,
            m,
        ));
        let ts = seq![u.next(Reply::Done).1, u.next(Reply::Done).0.next(r1).1];
        lemma_counts_two(ts);
        lemma_counts_append(us, ts);
    }
}

/// Enqueue-all followed by drain: a session started against a device that
/// accepts every call, then stopped against a device that hands back each
/// of its `n` buffers exactly once, in any order, dequeues exactly `n`
/// buffers, queues none, and ends with every buffer free and the stream off.
pub proof fn lemma_start_then_drain(
    f: VideoFormat,
    offsets: Seq<u32>,
    lengths: Seq<u32>,
    order: Seq<u32>,
)
    requires
        1 <= offsets.len() <= u32::MAX,
        lengths.len() == offsets.len(),
        forall|j: int| 0 <= j < lengths.len() ==> #[trigger] lengths[j] > 0,
        is_order_of(order, offsets.len()),
    ensures
        ({
            let n = offsets.len();
            let v = run(opened(n as u32), start_replies(f, offsets, lengths)).0;
            let (w, first) = v.begin_stop();
            let (v2, steps) = run(w, drain_replies(order, n) + seq![Reply::Done]);
            let all = seq![first] + steps;
            &&& count(all, StepKind::Dequeue) == n
            &&& count(all, StepKind::Queue) == 0
            &&& count(all, StepKind::Failure) == 0
            &&& all.last() == Step::Finished(Completion::Stopped)
            &&& v2.pool.len() == n
            &&& v2.pool.all_in(BufferState::Free)
            &&& !v2.streaming
            &&& v2.op == Op::Idle
        }),
{
    let n = offsets.len();
    lemma_session_start(f, offsets, lengths);
    let v = run(opened(n as u32), start_replies(f, offsets, lengths)).0;
    let (w, first) = v.begin_stop();
    lemma_drain_prefix(w, order, n);
    let (u, us) = run(w, drain_replies(order, n));
    lemma_run_append(w, drain_replies(order, n), seq![Reply::Done]);
    lemma_run_one(u, Reply::Done);
    let ts = seq![u.next(Reply::Done).1];
    lemma_counts_one(ts);
    lemma_counts_one(seq![first]);
    lemma_counts_append(us, ts);
    lemma_counts_append(seq![first], us + ts);
    assert((seq![first] + (us + ts)).last() == ts.last());
    assert(u.next(Reply::Done).0.pool.all_in(BufferState::Free)) by {
        assert(order.subrange(0, n as int) =~= order);
        assert forall|i: int| 0 <= i < n implies #[trigger] u.pool.buffers[i].state
            == BufferState::Free by {
            assert(order.contains(i as u32));
            assert(u.pool.buffers[i] == freed(w.pool.buffers, order, n)[i]);
        }
    }
}

/// The session after captures from `v`, the `i`-th of which takes the
/// replies `runs[i]`.
pub open spec fn captures(v: CameraView, runs: Seq<Seq<Reply>>) -> CameraView
    decreases runs.len(),
{
    if runs.len() == 0 {
        v
    } else {
        captures(run(v.begin_capture().0, runs[0]).0, runs.drop_first())
    }
}

/// Whether each of the captures from `v` that take the replies `runs`
/// delivers a frame.
pub open spec fn all_deliver(v: CameraView, runs: Seq<Seq<Reply>>) -> bool
    decreases runs.len(),
{
    runs.len() == 0 || {
        let (u, steps) = run(v.begin_capture().0, runs[0]);
        count(steps, StepKind::Frame) == 1 && all_deliver(u, runs.drop_first())
    }
}

/// Round-robin over many captures: after `k` captures that each deliver a
/// frame, however many would-block replies each met, the cursor stands at
/// `(c + k) mod N`.
pub proof fn lemma_cursor_after_captures(v: CameraView, runs: Seq<Seq<Reply>>)
    requires
        v.wf(),
        v.op == Op::Idle,
        v.pool.len() > 0,
        all_deliver(v, runs),
    ensures
        captures(v, runs).pool.cursor == (v.pool.cursor + runs.len()) % (v.pool.len() as int),
        captures(v, runs).pool.len() == v.pool.len(),
    decreases runs.len(),
{
    let n = v.pool.len() as int;
    if runs.len() == 0 {
        vstd::arithmetic::div_mod::lemma_small_mod(v.pool.cursor as nat, n as nat);
    } else {
        let w = v.begin_capture().0;
        lemma_capture_cursor(w, runs[0]);
        let u = run(w, runs[0]).0;
        lemma_cursor_after_captures(u, runs.drop_first());
        let c = v.pool.cursor as int;
        let k = runs.len() as int;
        assert(u.pool.cursor == (c + 1) % n);
        vstd::arithmetic::div_mod::lemma_add_mod_noop_right(k - 1, c + 1, n);
        assert(((c + 1) % n + (k - 1)) % n == (c + k) % n);
    }
}

/// From a freshly started session of `n` buffers, `k` captures that each
/// deliver a frame leave the cursor at `k mod n`: the slots are served
/// `0, 1, ..., n - 1, 0, ...` whichever buffers the device filled.
pub proof fn lemma_cursor_from_start(
    f: VideoFormat,
    offsets: Seq<u32>,
    lengths: Seq<u32>,
    runs: Seq<Seq<Reply>>,
)
    requires
        1 <= offsets.len() <= u32::MAX,
        lengths.len() == offsets.len(),
        forall|j: int| 0 <= j < lengths.len() ==> #[trigger] lengths[j] > 0,
        all_deliver(run(opened(offsets.len() as u32), start_replies(f, offsets, lengths)).0, runs),
    ensures
        ({
            let v = run(opened(offsets.len() as u32), start_replies(f, offsets, lengths)).0;
            captures(v, runs).pool.cursor == (runs.len() as int) % (offsets.len() as int)
        }),
{
    lemma_session_start(f, offsets, lengths);
    let v = run(opened(offsets.len() as u32), start_replies(f, offsets, lengths)).0;
    lemma_cursor_after_captures(v, runs);
}

/// What a device answers after a mapping fails with no mapping made
/// before: nothing; otherwise, to the unmapping: nothing looked at.
pub open spec fn rollback_tail(i: nat) -> Seq<Reply> {
    if i == 0 {
        Seq::empty()
    } else {
        seq![Reply::Done]
    }
}

/// A device that sets up like a good one for buffers `0..i`, then reports
/// buffer `i` but fails its mapping with code `e`.
pub open spec fn failed_map_replies(
    f: VideoFormat,
    offsets: Seq<u32>,
    lengths: Seq<u32>,
    i: nat,
    e: i32,
) -> Seq<Reply> {
    seq![Reply::Format(f), Reply::Done] + map_replies(offsets, lengths, i) + seq![
        Reply::Queried { offset: offsets[i as int], length: lengths[i as int] },
        Reply::Failed(e),
    ] + rollback_tail(i)
}

/// All-or-nothing pool setup: when the mapping of buffer `i` of `n` fails,
/// after `i` mappings were made (every buffer reported with a non-zero length), the session unmaps exactly `i` mappings,
/// keeps no buffer, and reports the failure as a buffer allocation failure
/// with the device's error code.
pub proof fn lemma_rollback_on_map_failure(
    f: VideoFormat,
    offsets: Seq<u32>,
    lengths: Seq<u32>,
    i: nat,
    e: i32,
)
    requires
        offsets.len() <= u32::MAX,
        lengths.len() == offsets.len(),
        forall|j: int| 0 <= j < lengths.len() ==> #[trigger] lengths[j] > 0,
        i < offsets.len(),
    ensures
        ({
            let n = offsets.len();
            let (v, steps) = run(opened(n as u32), failed_map_replies(f, offsets, lengths, i, e));
            &&& count(steps, StepKind::Mapping) == i + 1
            &&& unmapped(steps) == i
            &&& v.pool == PoolView::empty()
            &&& v.op == Op::Idle
            &&& steps.last() == Step::Failed(CameraError::BufferAllocationFailure(e))
        }),
{
    let n = offsets.len();
    let v0 = opened(n as u32);
    let a = seq![Reply::Format(f), Reply::Done];
    let m = map_replies(offsets, lengths, i);
    let q = Reply::Queried { offset: offsets[i as int], length: lengths[i as int] };
    let b = seq![q, Reply::Failed(e)];
    let t = rollback_tail(i);
    lemma_run_append(v0, a + m + b, t);
    lemma_run_append(v0, a + m, b);
    lemma_run_append(v0, a, m);
    lemma_run_two(v0, Reply::Format(f), Reply::Done);
    let (v1, s1) = run(v0, a);
    crate::session::lemma_next_wf(v0, Reply::Format(f));
    crate::session::lemma_next_wf(v0.next(Reply::Format(f)).0, Reply::Done);
    lemma_count_two(s1[0], s1[1], StepKind::Mapping);
    lemma_unmapped_two(s1);
    lemma_map_prefix(v1, offsets, lengths, i);
    let (v2, s2) = run(v1, m);
    lemma_run_two(v2, q, Reply::Failed(e));
    let (v3, s3) = run(v2, b);
    lemma_count_two(s3[0], s3[1], StepKind::Mapping);
    lemma_unmapped_two(s3);
    let (v4, s4) = run(v3, t);
    if i == 0 {
        assert(t =~= Seq::<Reply>::empty());
        assert(s4 =~= Seq::<Step>::empty());
        assert(unmapped(s3) == 0);
    } else {
        lemma_run_one(v3, Reply::Done);
        lemma_count_one(s4[0], StepKind::Mapping);
        lemma_unmapped_one(s4);
        assert(s4 =~= seq![s4[0]]);
        assert(unmapped(s3) == i);
    }
    lemma_count_append(s1, s2, StepKind::Mapping);
    lemma_count_append(s1 + s2, s3, StepKind::Mapping);
    lemma_count_append(s1 + s2 + s3, s4, StepKind::Mapping);
    lemma_unmapped_append(s1, s2);
    lemma_unmapped_append(s1 + s2, s3);
    lemma_unmapped_append(s1 + s2 + s3, s4);
    if i == 0 {
        assert(s1 + s2 + s3 + s4 =~= s1 + s2 + s3);
    }
    assert((s1 + s2 + s3 + s4).last() == (if i == 0 { s3.last() } else { s4.last() }));
}

/// A frame's buffer stays exposed only until the next capture or stop: the
/// first call that either one makes hands that buffer back to the device; once
/// the device takes it, it is queued and no buffer is exposed.
pub proof fn lemma_frame_released(v: CameraView, stopping: bool)
    requires
        v.wf(),
        v.op == Op::Idle,
        v.pool.held is Some,
    ensures
        ({
            let h = v.pool.held->Some_0;
            let (w, first) = if stopping {
                v.begin_stop()
            } else {
                v.begin_capture()
            };
            let u = w.next(Reply::Done).0;
            &&& first == Step::Call(DeviceCall::QueueBuffer { index: h })
            &&& u.pool.buffers[h as int].state == BufferState::Queued
            &&& u.pool.held is None
        }),
{
}

} // verus!
