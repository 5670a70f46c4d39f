//! The shared counter that the counter commands read and change.
//!
//! Every operation takes the counter by exclusive reference, so callers that
//! share it across threads hold it behind one lock: no two operations interleave.
use vstd::prelude::*;

verus! {

/// One operation on the counter.
#[derive(Clone, Copy, Debug, PartialEq, Eq, Structural)]
pub enum CounterOp {
    Increment,
    Reset,
    Read,
}

/// The counter's value after `op` on `value`.
pub open spec fn step(value: int, op: CounterOp) -> int {
    match op {
        CounterOp::Increment => value + 1,
        CounterOp::Reset => 0,
        CounterOp::Read => value,
    }
}

/// The counter's value after the operations of `ops`, in order, from `value`.
pub open spec fn run_ops(value: int, ops: Seq<CounterOp>) -> int
    decreases ops.len(),
{
    if ops.len() == 0 {
        value
    } else {
        run_ops(step(value, ops[0]), ops.drop_first())
    }
}

/// A counter, starting at zero.
#[derive(Debug)]
pub struct SharedCounter {
    value: i32,
}

impl View for SharedCounter {
    type V = int;

    closed spec fn view(&self) -> int {
        self.value as int
    }
}

impl SharedCounter {
    /// A counter at zero.
    pub fn new() -> (r: SharedCounter)
        ensures
            r@ == 0,
    {
        SharedCounter { value: 0 }
    }

    /// Whether one more increment fits.
    pub fn can_increment(&self) -> (r: bool)
        ensures
            r == (self@ < i32::MAX),
    {
        self.value < i32::MAX
    }

    /// Adds one and returns the new value.
    pub fn increment(&mut self) -> (r: i32)
        requires
            old(self)@ < i32::MAX,
        ensures
            final(self)@ == step(old(self)@, CounterOp::Increment),
            r as int == final(self)@,
    {
        self.value = self.value + 1;
        self.value
    }

    /// Sets the value to zero and returns it.
    pub fn reset(&mut self) -> (r: i32)
        ensures
            final(self)@ == step(old(self)@, CounterOp::Reset),
            r == 0,
    {
        self.value = 0;
        self.value
    }

    /// The current value.
    pub fn read(&self) -> (r: i32)
        ensures
            r as int == self@,
    {
        self.value
    }

    /// Performs `op` and returns the value that it reports.
    pub fn apply(&mut self, op: CounterOp) -> (r: i32)
        requires
            op == CounterOp::Increment ==> old(self)@ < i32::MAX,
        ensures
            final(self)@ == step(old(self)@, op),
            r as int == final(self)@,
    {
        match op {
            CounterOp::Increment => self.increment(),
            CounterOp::Reset => self.reset(),
            CounterOp::Read => self.read(),
        }
    }
}

/// `n` increments in a row.
pub open spec fn increments(n: nat) -> Seq<CounterOp> {
    Seq::new(n, |i: int| CounterOp::Increment)
}

/// A reset followed by `k` reads.
pub open spec fn reset_then_reads(k: nat) -> Seq<CounterOp> {
    seq![CounterOp::Reset] + Seq::new(k, |i: int| CounterOp::Read)
}

/// No increment is lost: from a reset counter, `n` increments, in whatever
/// order the lock admits them, leave the counter at exactly `n`.
pub proof fn increments_are_not_lost(n: nat)
    ensures
        run_ops(0, increments(n)) == n,
    decreases n,
{
    if n > 0 {
        increments_are_not_lost((n - 1) as nat);
        run_ops_split(0, increments((n - 1) as nat), seq![CounterOp::Increment]);
        assert(increments((n - 1) as nat) + seq![CounterOp::Increment] =~= increments(n));
        reveal_with_fuel(run_ops, 2);
    } else {
        assert(increments(n).len() == 0);
    }
}

/// Running `a` then `b` is running `a + b`.
pub proof fn run_ops_split(value: int, a: Seq<CounterOp>, b: Seq<CounterOp>)
    ensures
        run_ops(value, a + b) == run_ops(run_ops(value, a), b),
    decreases a.len(),
{
    if a.len() > 0 {
        assert((a + b).drop_first() =~= a.drop_first() + b);
        run_ops_split(step(value, a[0]), a.drop_first(), b);
    } else {
        assert(a + b =~= b);
    }
}

/// After a reset, every read that follows reports zero, whatever the value was.
pub proof fn reads_after_reset_see_zero(value: int, k: nat, j: nat)
    requires
        j <= k,
    ensures
        run_ops(value, reset_then_reads(k).take(j as int + 1)) == 0,
    decreases j,
{
    let s = reset_then_reads(k).take(j as int + 1);
    if j == 0 {
        assert(s[0] == CounterOp::Reset);
        assert(s.drop_first().len() == 0);
        reveal_with_fuel(run_ops, 2);
    } else {
        reads_after_reset_see_zero(value, k, (j - 1) as nat);
        let p = reset_then_reads(k).take(j as int);
        assert(s =~= p + seq![CounterOp::Read]);
        run_ops_split(value, p, seq![CounterOp::Read]);
        assert(seq![CounterOp::Read].drop_first().len() == 0);
        reveal_with_fuel(run_ops, 2);
    }
}

} // verus!
