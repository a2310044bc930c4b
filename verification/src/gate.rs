//! A gate that lets changes flow in one direction (settings to sway, or
//! sway back to settings) and can be closed while the other direction is
//! writing, so that a write is not echoed back.
//!
//! A gate is open when it is requested open and no suppression is active.
//! Suppressions nest: each `begin_suppression` is undone by one
//! `end_suppression`, and an `end_suppression` without a matching begin
//! changes nothing.
use vstd::prelude::*;

verus! {

/// The state of a gate: whether it is requested open, and how many
/// suppressions are active.
#[derive(Debug)]
pub struct GateState {
    requested: bool,
    suppressions: usize,
}

impl View for GateState {
    /// (requested open, active suppressions)
    type V = (bool, nat);

    closed spec fn view(&self) -> (bool, nat) {
        (self.requested, self.suppressions as nat)
    }
}

/// Whether a gate in state `g` is open.
pub open spec fn gate_open(g: (bool, nat)) -> bool {
    g.0 && g.1 == 0
}

/// The state after one more suppression begins. The counter is a machine
/// word: past its largest value it wraps to zero.
pub open spec fn after_begin(g: (bool, nat)) -> (bool, nat) {
    (g.0, if g.1 < usize::MAX { g.1 + 1 } else { 0 })
}

/// The state after one suppression ends; with none active, nothing changes.
pub open spec fn after_end(g: (bool, nat)) -> (bool, nat) {
    (g.0, if g.1 > 0 { (g.1 - 1) as nat } else { 0 })
}

/// The state after `k` suppressions begin.
pub open spec fn after_begins(g: (bool, nat), k: nat) -> (bool, nat)
    decreases k,
{
    if k == 0 {
        g
    } else {
        after_begin(after_begins(g, (k - 1) as nat))
    }
}

/// The state after `k` suppressions end.
pub open spec fn after_ends(g: (bool, nat), k: nat) -> (bool, nat)
    decreases k,
{
    if k == 0 {
        g
    } else {
        after_end(after_ends(g, (k - 1) as nat))
    }
}

/// One operation on a gate: a request to open or close it, or the start or
/// end of a suppression.
pub ghost enum GateOp {
    SetRequested(bool),
    BeginSuppression,
    EndSuppression,
}

/// The state after one operation, as the methods of [`GateState`] do it.
pub open spec fn after_op(g: (bool, nat), op: GateOp) -> (bool, nat) {
    match op {
        GateOp::SetRequested(enabled) => (enabled, g.1),
        GateOp::BeginSuppression => after_begin(g),
        GateOp::EndSuppression => after_end(g),
    }
}

/// The state after `ops`, in order.
pub open spec fn after_ops(g: (bool, nat), ops: Seq<GateOp>) -> (bool, nat)
    decreases ops.len(),
{
    if ops.len() == 0 {
        g
    } else {
        after_op(after_ops(g, ops.drop_last()), ops.last())
    }
}

/// What the last request among `ops` asked for; `requested` when there is
/// none.
pub open spec fn last_requested(requested: bool, ops: Seq<GateOp>) -> bool
    decreases ops.len(),
{
    if ops.len() == 0 {
        requested
    } else {
        match ops.last() {
            GateOp::SetRequested(enabled) => enabled,
            _ => last_requested(requested, ops.drop_last()),
        }
    }
}

/// `n` plus the suppressions begun in `ops`, minus the releases that found
/// one active.
pub open spec fn active_suppressions(n: nat, ops: Seq<GateOp>) -> nat
    decreases ops.len(),
{
    if ops.len() == 0 {
        n
    } else {
        let m = active_suppressions(n, ops.drop_last());
        match ops.last() {
            GateOp::BeginSuppression => m + 1,
            GateOp::EndSuppression => if m > 0 {
                (m - 1) as nat
            } else {
                0
            },
            GateOp::SetRequested(_) => m,
        }
    }
}

impl GateState {
    /// A gate requested open (or not) with no suppression active.
    pub fn new(enabled: bool) -> (r: Self)
        ensures
            r@ == (enabled, 0nat),
    {
        GateState { requested: enabled, suppressions: 0 }
    }

    /// Whether this gate is open: requested open and not suppressed.
    pub fn is_enabled(&self) -> (r: bool)
        ensures
            r == gate_open(self@),
    {
        self.requested && self.suppressions == 0
    }

    /// Requests this gate open or closed; suppressions are kept.
    pub fn set_requested(&mut self, enabled: bool)
        ensures
            final(self)@ == (enabled, old(self)@.1),
    {
        self.requested = enabled;
    }

    /// Begins a suppression.
    pub fn begin_suppression(&mut self)
        ensures
            final(self)@ == after_begin(old(self)@),
    {
        self.suppressions = self.suppressions.wrapping_add(1);
    }

    /// Ends a suppression; a release without a matching begin is ignored.
    /// Returns whether a suppression was active to be ended.
    pub fn end_suppression(&mut self) -> (released: bool)
        ensures
            final(self)@ == after_end(old(self)@),
            released == (old(self)@.1 > 0),
    {
        match self.suppressions.checked_sub(1) {
            Some(count) => {
                self.suppressions = count;
                true
            },
            None => false,
        }
    }
}

/// Runs `action` with `gate` suppressed and ends the suppression afterwards,
/// whatever `action` returned. The action receives the suppressed gate:
/// one suppression more than before, hence closed unless the counter
/// wrapped. The result is the action's.
pub fn with_gate_suppressed<T, E, F>(gate: &mut GateState, action: F) -> (r: Result<T, E>) where
    F: FnOnce(&GateState) -> Result<T, E>,

    requires
        forall|g: GateState| g@ == after_begin(old(gate)@) ==> call_requires(action, (&g,)),
    ensures
        exists|g: GateState| g@ == after_begin(old(gate)@) && call_ensures(action, (&g,), r),
        final(gate)@ == after_end(after_begin(old(gate)@)),
{
    gate.begin_suppression();
    let result = action(&*gate);
    gate.end_suppression();
    result
}

// ---------------------------------------------------------------------------
// Laws
// ---------------------------------------------------------------------------

/// Ending a suppression undoes beginning one (while the counter has room).
pub proof fn lemma_suppression_restores(g: (bool, nat))
    requires
        g.1 < usize::MAX,
    ensures
        after_end(after_begin(g)) == g,
{
}

/// A gate with an active suppression is closed, whatever was requested.
pub proof fn lemma_suppressed_gate_is_closed(g: (bool, nat))
    requires
        g.1 < usize::MAX,
    ensures
        !gate_open(after_begin(g)),
{
}

/// A release without a matching begin changes nothing: the
/// counter does not wrap below zero.
pub proof fn lemma_unmatched_release_is_ignored(requested: bool)
    ensures
        after_end((requested, 0nat)) == (requested, 0nat),
{
}

/// `k` nested suppressions on top of `g` count up to `g.1 + k`.
pub proof fn lemma_begins_count(g: (bool, nat), k: nat)
    requires
        g.1 + k <= usize::MAX,
    ensures
        after_begins(g, k) == (g.0, g.1 + k),
    decreases k,
{
    if k > 0 {
        lemma_begins_count(g, (k - 1) as nat);
    }
}

/// `j` releases on a gate with `n >= j` suppressions leave `n - j`.
pub proof fn lemma_ends_count(g: (bool, nat), j: nat)
    requires
        j <= g.1,
    ensures
        after_ends(g, j) == (g.0, (g.1 - j) as nat),
    decreases j,
{
    if j > 0 {
        lemma_ends_count(g, (j - 1) as nat);
    }
}

/// Overlapping suppressions keep a gate closed until the last one ends,
/// and the last release restores the state from before the first begin.
pub proof fn lemma_nested_suppressions(g: (bool, nat), k: nat, j: nat)
    requires
        g.1 + k <= usize::MAX,
        j <= k,
    ensures
        j < k ==> !gate_open(after_ends(after_begins(g, k), j)),
        after_ends(after_begins(g, k), k) == g,
{
    lemma_begins_count(g, k);
    lemma_ends_count(after_begins(g, k), j);
    lemma_ends_count(after_begins(g, k), k);
}

/// Over any sequence of operations, a gate's request and its suppressions
/// do not interfere: it is requested open exactly when its last request
/// asked for that (or, with no request among them, when it was at first);
/// it has as many active suppressions as were begun less the releases that
/// found one active; and it is open just when it is requested open with
/// none active. This holds while no suppression begins
/// at the counter's largest value.
pub proof fn lemma_gate_after_ops(g: (bool, nat), ops: Seq<GateOp>)
    requires
        forall|i: int|
            0 <= i < ops.len() && ops[i] is BeginSuppression ==> active_suppressions(
                g.1,
                #[trigger] ops.take(i),
            ) < usize::MAX,
    ensures
        after_ops(g, ops) == (last_requested(g.0, ops), active_suppressions(g.1, ops)),
        gate_open(after_ops(g, ops)) == (last_requested(g.0, ops) && active_suppressions(g.1, ops)
            == 0),
    decreases ops.len(),
{
    if ops.len() > 0 {
        let init = ops.drop_last();
        assert forall|i: int|
            0 <= i < init.len() && init[i] is BeginSuppression implies active_suppressions(
            g.1,
            #[trigger] init.take(i),
        ) < usize::MAX by {
            assert(init.take(i) =~= ops.take(i));
            assert(init[i] == ops[i]);
        }
        lemma_gate_after_ops(g, init);
        assert(ops.take(ops.len() - 1) =~= init);
    }
}

} // verus!
