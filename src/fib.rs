use vstd::prelude::*;

verus! {

/// The Fibonacci sequence with `fib(1) == fib(2) == 1`.
pub open spec fn fib(n: nat) -> nat
    decreases n,
{
    if n <= 2 {
        1
    } else {
        fib((n - 1) as nat) + fib((n - 2) as nat)
    }
}

/// The sequence grows with its index.
pub proof fn lemma_fib_monotone(i: nat, j: nat)
    requires
        i <= j,
    ensures
        fib(i) <= fib(j),
    decreases j,
{
    if i < j {
        lemma_fib_monotone(i, (j - 1) as nat);
    }
}

/// The largest Fibonacci number that a `u32` holds.
pub proof fn lemma_fib_47()
    ensures
        fib(47) == 2971215073,
{
    assert(fib(1) == 1);
    assert(fib(2) == 1);
    assert(fib(3) == 2);
    assert(fib(4) == 3);
    assert(fib(5) == 5);
    assert(fib(6) == 8);
    assert(fib(7) == 13);
    assert(fib(8) == 21);
    assert(fib(9) == 34);
    assert(fib(10) == 55);
    assert(fib(11) == 89);
    assert(fib(12) == 144);
    assert(fib(13) == 233);
    assert(fib(14) == 377);
    assert(fib(15) == 610);
    assert(fib(16) == 987);
    assert(fib(17) == 1597);
    assert(fib(18) == 2584);
    assert(fib(19) == 4181);
    assert(fib(20) == 6765);
    assert(fib(21) == 10946);
    assert(fib(22) == 17711);
    assert(fib(23) == 28657);
    assert(fib(24) == 46368);
    assert(fib(25) == 75025);
    assert(fib(26) == 121393);
    assert(fib(27) == 196418);
    assert(fib(28) == 317811);
    assert(fib(29) == 514229);
    assert(fib(30) == 832040);
    assert(fib(31) == 1346269);
    assert(fib(32) == 2178309);
    assert(fib(33) == 3524578);
    assert(fib(34) == 5702887);
    assert(fib(35) == 9227465);
    assert(fib(36) == 14930352);
    assert(fib(37) == 24157817);
    assert(fib(38) == 39088169);
    assert(fib(39) == 63245986);
    assert(fib(40) == 102334155);
    assert(fib(41) == 165580141);
    assert(fib(42) == 267914296);
    assert(fib(43) == 433494437);
    assert(fib(44) == 701408733);
    assert(fib(45) == 1134903170);
    assert(fib(46) == 1836311903);
    assert(fib(47) == 2971215073);
}

/// The largest index whose Fibonacci number fits in a `u32`.
pub const FIB_MAX_INDEX: u32 = 47;

/// Computes the `n`-th Fibonacci number by the defining recursion.
pub fn fibonacci_native(n: u32) -> (r: u32)
    requires
        1 <= n <= FIB_MAX_INDEX,
    ensures
        r == fib(n as nat),
    decreases n,
{
    if n <= 2 {
        1
    } else {
        proof {
            lemma_fib_47();
            lemma_fib_monotone(n as nat, 47);
        }
        fibonacci_native(n - 1) + fibonacci_native(n - 2)
    }
}

/// A unit of work that computes one Fibonacci number off the host's main thread.
pub struct ComputeFib {
    pub n: u32,
}

impl ComputeFib {
    pub fn new(n: u32) -> (r: ComputeFib)
        ensures
            r.n == n,
    {
        ComputeFib { n }
    }

    /// The result that the work hands back to the host.
    pub fn compute(&self) -> (r: u32)
        requires
            1 <= self.n <= FIB_MAX_INDEX,
        ensures
            r == fib(self.n as nat),
    {
        fibonacci_native(self.n)
    }
}

} // verus!
