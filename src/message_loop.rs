use vstd::prelude::*;
use crate::dispatch::{Action, WM_DESTROY, action_of, ends_loop, window_proc};

verus! {

/// Whether the loop goes on after a retrieval that returned `status`: a
/// positive status carries a message to dispatch, zero is the quit
/// condition and a negative one a failed retrieval.
pub open spec fn continues(status: i32) -> bool {
    status > 0
}

/// The loop's decision after one retrieval.
pub fn handle_message(status: i32) -> (go: bool)
    ensures
        go == continues(status),
{
    status > 0
}

/// The status that retrieval returns: the quit condition once a quit was
/// posted, a message otherwise.
pub open spec fn retrieval_status(quit_posted: bool) -> i32 {
    if quit_posted {
        0
    } else {
        1
    }
}

/// The loop run on the messages `queue`, with a quit already posted or not:
/// the actions dispatched, and whether the loop ended (rather than waiting
/// for more messages once `queue` is drained).
pub open spec fn run_from(queue: Seq<u32>, quit_posted: bool) -> (Seq<Action>, bool)
    decreases queue.len(),
{
    if !continues(retrieval_status(quit_posted)) {
        (seq![], true)
    } else if queue.len() == 0 {
        (seq![], false)
    } else {
        let a = action_of(queue[0]);
        let rest = run_from(queue.drop_first(), ends_loop(a));
        (seq![a] + rest.0, rest.1)
    }
}

/// One run of the message loop over a queue of messages.
#[derive(Debug)]
pub struct LoopRun {
    /// The actions of the dispatched messages, in order.
    pub dispatched: Vec<Action>,
    /// Whether the loop ended.
    pub exited: bool,
}

/// Runs the message loop over `queue`, from a fresh start, until it ends or
/// the queue is drained.
pub fn run_loop(queue: &Vec<u32>) -> (r: LoopRun)
    ensures
        (r.dispatched@, r.exited) == run_from(queue@, false),
{
    let ghost q = queue@;
    let ghost n = queue@.len() as int;
    let mut out: Vec<Action> = Vec::new();
    let mut quit_posted = false;
    let mut exited = false;
    let mut i: usize = 0;
    assert(q.subrange(0, n) =~= q);
    while !exited && (quit_posted || i < queue.len())
        invariant
            q == queue@,
            n == q.len(),
            0 <= i <= n,
            exited ==> run_from(q, false) == (out@, true),
            !exited ==> run_from(q, false) == (
                out@ + run_from(q.subrange(i as int, n), quit_posted).0,
                run_from(q.subrange(i as int, n), quit_posted).1,
            ),
        decreases 2 * (n - i) + (if exited { 0int } else { 1int }),
    {
        let status: i32 = if quit_posted { 0 } else { 1 };
        if !handle_message(status) {
            exited = true;
            assert(out@ + seq![] =~= out@);
        } else {
            let ghost rest = q.subrange(i as int, n);
            let ghost before = out@;
            let a = window_proc(queue[i]);
            quit_posted = match a {
                Action::PostQuit(_) => true,
                _ => false,
            };
            out.push(a);
            i = i + 1;
            proof {
                assert(rest.drop_first() =~= q.subrange(i as int, n));
                let r2 = run_from(q.subrange(i as int, n), quit_posted);
                assert(out@ + r2.0 =~= before + (seq![a] + r2.0));
            }
        }
    }
    proof {
        if !exited {
            assert(q.subrange(i as int, n) =~= Seq::<u32>::empty());
            assert(out@ + seq![] =~= out@);
        }
    }
    LoopRun { dispatched: out, exited }
}

/// The loop ends exactly when the messages it is given hold a destroy
/// message: no other message makes retrieval report the quit condition.
pub proof fn lemma_ends_iff_destroy(queue: Seq<u32>)
    ensures
        run_from(queue, false).1 <==> queue.contains(WM_DESTROY),
    decreases queue.len(),
{
    if queue.len() > 0 {
        crate::dispatch::lemma_only_destroy_ends_loop(queue[0]);
        lemma_ends_iff_destroy(queue.drop_first());
        assert(run_from(queue.drop_first(), true).1);
        if queue.drop_first().contains(WM_DESTROY) {
            let j = choose|j: int| 0 <= j < queue.drop_first().len() && queue.drop_first()[j] == WM_DESTROY;
            assert(queue[j + 1] == WM_DESTROY);
        }
        if queue.contains(WM_DESTROY) && queue[0] != WM_DESTROY {
            let j = choose|j: int| 0 <= j < queue.len() && queue[j] == WM_DESTROY;
            assert(queue.drop_first()[j - 1] == WM_DESTROY);
        }
    }
}

/// Once a destroy message is dispatched the loop has ended: the actions
/// dispatched are those of the messages up to that one, in order, and no
/// later message (a paint, a timer tick or any other) is dispatched.
pub proof fn lemma_nothing_after_destroy(queue: Seq<u32>, i: int)
    requires
        0 <= i < queue.len(),
        queue[i] == WM_DESTROY,
    ensures
        run_from(queue, false).0.len() <= i + 1,
        forall|k: int|
            0 <= k < run_from(queue, false).0.len() ==> #[trigger] run_from(queue, false).0[k]
                == action_of(queue[k]),
    decreases queue.len(),
{
    crate::dispatch::lemma_only_destroy_ends_loop(queue[0]);
    let rest_after = run_from(queue.drop_first(), ends_loop(action_of(queue[0])));
    if queue[0] == WM_DESTROY {
        assert(rest_after.0 =~= Seq::<Action>::empty());
        assert(run_from(queue, false).0 =~= seq![action_of(queue[0])]);
    } else {
        lemma_nothing_after_destroy(queue.drop_first(), i - 1);
        let rest = run_from(queue.drop_first(), false).0;
        assert forall|k: int| 0 <= k < run_from(queue, false).0.len() implies #[trigger] run_from(
            queue,
            false,
        ).0[k] == action_of(queue[k]) by {
            if k > 0 {
                assert(run_from(queue, false).0[k] == rest[k - 1]);
            }
        }
    }
}

} // verus!
