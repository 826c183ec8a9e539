//! The protocol the worker pool follows, and proofs about it.
//!
//! The executable layer shares its state across threads, so what an atomic
//! counter reads at any instant is not visible to a single function's
//! contract. This module states the pool's behaviour as a transition system
//! instead: one phase per worker, the active-thread counter, and the
//! shutdown flag. Each transition is exactly one of the moves
//! [`crate::worker_cycle`] makes — waking and reading the flag, finishing a
//! scan pass — plus the one move teardown makes, setting the flag. The
//! theorems then pin down the lifecycle guarantees: the counter always reads
//! between zero and the worker count and returns to zero whenever no worker
//! is mid-scan; a worker that wakes after shutdown was requested exits
//! without scanning; an exited worker stays exited; and the shutdown flag,
//! once set, never reverts.

use vstd::prelude::*;
use vstd::arithmetic::div_mod::lemma_fundamental_div_mod;
use vstd::arithmetic::div_mod::lemma_mod_multiples_vanish;
use vstd::arithmetic::div_mod::lemma_small_mod;

verus! {

/// The phase a single background worker is in.
pub enum WorkerPhase {
    /// Blocked in the bounded wait on the wake signal.
    Waiting,
    /// Inside a scan pass over the bins.
    Scanning,
    /// Returned from its loop; terminal.
    Exited,
}

/// The pool's shared state, as the protocol sees it.
pub struct PoolState {
    /// One phase per worker.
    pub workers: Seq<WorkerPhase>,
    /// The active-thread counter.
    pub active: nat,
    /// The shutdown flag.
    pub exit: bool,
}

/// How many workers of `ws` are mid-scan.
pub open spec fn n_scanning(ws: Seq<WorkerPhase>) -> nat
    decreases ws.len(),
{
    if ws.len() == 0 {
        0
    } else {
        n_scanning(ws.drop_last()) + if ws.last() is Scanning {
            1nat
        } else {
            0nat
        }
    }
}

/// Construction: every worker starts out waiting, the counter at zero, the
/// flag clear.
pub open spec fn init(s: PoolState, n: nat) -> bool {
    &&& s.workers.len() == n
    &&& forall|i: int| 0 <= i < s.workers.len() ==> s.workers[i] is Waiting
    &&& s.active == 0
    &&& !s.exit
}

/// Worker `i` wakes from its bounded wait and reads the shutdown flag once:
/// when the flag is set it exits without scanning and without touching the
/// counter; otherwise it raises the counter and begins a scan pass.
pub open spec fn wake(s: PoolState, s2: PoolState, i: int) -> bool {
    &&& 0 <= i < s.workers.len()
    &&& s.workers[i] is Waiting
    &&& s2.exit == s.exit
    &&& if s.exit {
        s2.workers == s.workers.update(i, WorkerPhase::Exited) && s2.active == s.active
    } else {
        s2.workers == s.workers.update(i, WorkerPhase::Scanning) && s2.active == s.active + 1
    }
}

/// Worker `i` completes its scan pass: it lowers the counter and returns to
/// its bounded wait. The shutdown flag is not consulted here: a scan in
/// progress always runs to completion.
pub open spec fn finish_scan(s: PoolState, s2: PoolState, i: int) -> bool {
    &&& 0 <= i < s.workers.len()
    &&& s.workers[i] is Scanning
    &&& s2.exit == s.exit
    &&& s2.workers == s.workers.update(i, WorkerPhase::Waiting)
    &&& s.active == s2.active + 1
}

/// Teardown sets the shutdown flag. It does so exactly once — the
/// transition is enabled only while the flag is clear — and no transition
/// ever clears it again.
pub open spec fn set_exit(s: PoolState, s2: PoolState) -> bool {
    &&& !s.exit
    &&& s2.exit
    &&& s2.workers == s.workers
    &&& s2.active == s.active
}

/// One step of the protocol.
pub open spec fn next(s: PoolState, s2: PoolState) -> bool {
    ||| exists|i: int| wake(s, s2, i)
    ||| exists|i: int| finish_scan(s, s2, i)
    ||| set_exit(s, s2)
}

/// The inductive invariant: the counter equals the number of workers
/// mid-scan.
pub open spec fn inv(s: PoolState) -> bool {
    s.active == n_scanning(s.workers)
}

proof fn lemma_n_scanning_le_len(ws: Seq<WorkerPhase>)
    ensures
        n_scanning(ws) <= ws.len(),
    decreases ws.len(),
{
    if ws.len() > 0 {
        lemma_n_scanning_le_len(ws.drop_last());
    }
}

proof fn lemma_n_scanning_zero_when_none(ws: Seq<WorkerPhase>)
    requires
        forall|i: int| 0 <= i < ws.len() ==> !((#[trigger] ws[i]) is Scanning),
    ensures
        n_scanning(ws) == 0,
    decreases ws.len(),
{
    if ws.len() > 0 {
        assert(forall|i: int|
            0 <= i < ws.drop_last().len() ==> (#[trigger] ws.drop_last()[i]) == ws[i]);
        lemma_n_scanning_zero_when_none(ws.drop_last());
        assert(!(ws.last() is Scanning));
    }
}

proof fn lemma_n_scanning_update(ws: Seq<WorkerPhase>, i: int, p: WorkerPhase)
    requires
        0 <= i < ws.len(),
    ensures
        n_scanning(ws.update(i, p)) + (if ws[i] is Scanning {
            1nat
        } else {
            0nat
        }) == n_scanning(ws) + (if p is Scanning {
            1nat
        } else {
            0nat
        }),
    decreases ws.len(),
{
    let ws2 = ws.update(i, p);
    if i == ws.len() - 1 {
        assert(ws2.drop_last() =~= ws.drop_last());
        assert(ws2.last() == p);
        assert(ws.last() == ws[i]);
    } else {
        assert(ws2.drop_last() =~= ws.drop_last().update(i, p));
        lemma_n_scanning_update(ws.drop_last(), i, p);
        assert(ws2.last() == ws.last());
    }
}

/// The invariant holds at construction.
pub proof fn theorem_inv_init(s: PoolState, n: nat)
    requires
        init(s, n),
    ensures
        inv(s),
{
    lemma_n_scanning_zero_when_none(s.workers);
}

/// The invariant is preserved by every step of the protocol.
pub proof fn theorem_inv_next(s: PoolState, s2: PoolState)
    requires
        inv(s),
        next(s, s2),
    ensures
        inv(s2),
{
    if exists|i: int| wake(s, s2, i) {
        let i = choose|i: int| wake(s, s2, i);
        if s.exit {
            lemma_n_scanning_update(s.workers, i, WorkerPhase::Exited);
        } else {
            lemma_n_scanning_update(s.workers, i, WorkerPhase::Scanning);
        }
    } else if exists|i: int| finish_scan(s, s2, i) {
        let i = choose|i: int| finish_scan(s, s2, i);
        lemma_n_scanning_update(s.workers, i, WorkerPhase::Waiting);
    } else {
        assert(set_exit(s, s2));
    }
}

/// The active-thread counter never reads above the worker count (and, being
/// a count, never below zero) in any state the protocol can reach.
pub proof fn theorem_active_counter_bounded(s: PoolState)
    requires
        inv(s),
    ensures
        s.active <= s.workers.len(),
{
    lemma_n_scanning_le_len(s.workers);
}

/// The active-thread counter returns to zero whenever no worker is mid-scan.
pub proof fn theorem_counter_zero_when_idle(s: PoolState)
    requires
        inv(s),
        forall|i: int| 0 <= i < s.workers.len() ==> !((#[trigger] s.workers[i]) is Scanning),
    ensures
        s.active == 0,
{
    lemma_n_scanning_zero_when_none(s.workers);
}

/// Shutdown is observed at the next wake: a worker that wakes while the
/// shutdown flag is set exits — it neither scans nor touches the counter.
/// Together with the bounded wait, this is why a broadcast after setting the
/// flag stops a sleeping worker well before the wait timeout.
pub proof fn theorem_shutdown_observed_on_wake(s: PoolState, s2: PoolState, i: int)
    requires
        s.exit,
        wake(s, s2, i),
    ensures
        s2.workers[i] is Exited,
        s2.active == s.active,
{
}

/// A worker that has exited stays exited: no step of the protocol makes it
/// run, scan, or touch shared state again.
pub proof fn theorem_exited_is_terminal(s: PoolState, s2: PoolState, j: int)
    requires
        next(s, s2),
        0 <= j < s.workers.len(),
        s.workers[j] is Exited,
    ensures
        s2.workers[j] is Exited,
{
    if exists|i: int| wake(s, s2, i) {
        let i = choose|i: int| wake(s, s2, i);
        assert(i != j);
    } else if exists|i: int| finish_scan(s, s2, i) {
        let i = choose|i: int| finish_scan(s, s2, i);
        assert(i != j);
    }
}

/// After teardown has completed — the shutdown flag is set and every worker
/// has exited — the protocol is quiescent: no step is enabled at all, so no
/// worker runs, scans, or touches the shared state ever again, and the
/// shared state is safe to release.
pub proof fn theorem_teardown_quiescent(s: PoolState, s2: PoolState)
    requires
        s.exit,
        forall|i: int| 0 <= i < s.workers.len() ==> (#[trigger] s.workers[i]) is Exited,
    ensures
        !next(s, s2),
{
    if next(s, s2) {
        if exists|i: int| wake(s, s2, i) {
            let i = choose|i: int| wake(s, s2, i);
            assert(s.workers[i] is Waiting);
        } else if exists|i: int| finish_scan(s, s2, i) {
            let i = choose|i: int| finish_scan(s, s2, i);
            assert(s.workers[i] is Scanning);
        } else {
            assert(set_exit(s, s2));
        }
    }
}

/// The shutdown flag never reverts: once set, every later state has it set.
pub proof fn theorem_exit_flag_monotone(s: PoolState, s2: PoolState)
    requires
        next(s, s2),
        s.exit,
    ensures
        s2.exit,
{
}

proof fn lemma_next_preserves_len(s: PoolState, s2: PoolState)
    requires
        next(s, s2),
    ensures
        s2.workers.len() == s.workers.len(),
{
    if exists|i: int| wake(s, s2, i) {
        let i = choose|i: int| wake(s, s2, i);
        assert(s2.workers.len() == s.workers.len());
    } else if exists|i: int| finish_scan(s, s2, i) {
        let i = choose|i: int| finish_scan(s, s2, i);
        assert(s2.workers.len() == s.workers.len());
    }
}

proof fn lemma_trace_inv(trace: Seq<PoolState>, n: nat, k: int)
    requires
        trace.len() > 0,
        init(trace[0], n),
        forall|j: int| 0 <= j < trace.len() - 1 ==> #[trigger] next(trace[j], trace[j + 1]),
        0 <= k < trace.len(),
    ensures
        inv(trace[k]),
        trace[k].workers.len() == n,
    decreases k,
{
    if k == 0 {
        theorem_inv_init(trace[0], n);
    } else {
        lemma_trace_inv(trace, n, k - 1);
        assert(next(trace[k - 1], trace[k - 1 + 1]));
        theorem_inv_next(trace[k - 1], trace[k]);
        lemma_next_preserves_len(trace[k - 1], trace[k]);
    }
}

/// The counter bound over whole executions: along any run that starts at
/// construction and moves only by protocol steps, the active-thread counter
/// stays between zero and the worker count in every state, and reads exactly
/// zero in every state where no worker is mid-scan.
pub proof fn theorem_run_counter_in_range(trace: Seq<PoolState>, n: nat)
    requires
        trace.len() > 0,
        init(trace[0], n),
        forall|j: int| 0 <= j < trace.len() - 1 ==> #[trigger] next(trace[j], trace[j + 1]),
    ensures
        forall|k: int| 0 <= k < trace.len() ==> (#[trigger] trace[k]).active <= n,
        forall|k: int|
            0 <= k < trace.len() && (forall|i: int|
                0 <= i < trace[k].workers.len() ==> !((#[trigger] trace[k].workers[i]) is Scanning))
                ==> (#[trigger] trace[k]).active == 0,
{
    assert forall|k: int| 0 <= k < trace.len() implies (#[trigger] trace[k]).active <= n by {
        lemma_trace_inv(trace, n, k);
        theorem_active_counter_bounded(trace[k]);
    }
    assert forall|k: int|
        0 <= k < trace.len() && (forall|i: int|
            0 <= i < trace[k].workers.len() ==> !((#[trigger] trace[k].workers[i]) is Scanning))
            implies (#[trigger] trace[k]).active == 0 by {
        lemma_trace_inv(trace, n, k);
        theorem_counter_zero_when_idle(trace[k]);
    }
}

/// The bin the rotating selection policy hands out on tick `tick` of a pool
/// with `bins` bins.
pub open spec fn select_bin(tick: nat, bins: nat) -> nat
    recommends
        bins > 0,
{
    tick % bins
}

/// Selection liveness: from any cursor position, within `bins` consecutive
/// selections the rotating policy hands out every bin at least once — so as
/// long as scan passes keep running, no bin is starved of flushes.
pub proof fn lemma_rotation_covers_every_bin(start: nat, bins: nat, b: nat)
    requires
        bins > 0,
        b < bins,
    ensures
        exists|k: nat| k < bins && #[trigger] select_bin(start + k, bins) == b,
{
    let r = start % bins;
    let k: nat = if b >= r {
        (b - r) as nat
    } else {
        (b + bins - r) as nat
    };
    assert(k < bins);
    assert((start + k) % bins == b) by {
        lemma_fundamental_div_mod(start as int, bins as int);
        let q = start as int / bins as int;
        assert(start + k == bins * q + (r + k)) by {
            assert(start as int == bins as int * q + r as int);
        }
        lemma_mod_multiples_vanish(q, r as int + k as int, bins as int);
        if b >= r {
            assert(r + k == b);
            lemma_small_mod(b, bins);
        } else {
            assert(r + k == b + bins);
            lemma_mod_multiples_vanish(1, b as int, bins as int);
            lemma_small_mod(b, bins);
        }
    }
    assert(select_bin(start + k, bins) == b);
}

} // verus!
