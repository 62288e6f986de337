//! Integer sequences that the colour modes draw on.

use vstd::prelude::*;

verus! {

/// The product of the numbers from 1 to `n`.
pub open spec fn factorial_of(n: nat) -> nat
    decreases n,
{
    if n == 0 {
        1
    } else {
        n * factorial_of((n - 1) as nat)
    }
}

/// The largest argument whose factorial fits in 64 bits.
pub const FACTORIAL_LIMIT: u64 = 20;

/// Factorials grow with their argument.
pub proof fn lemma_factorial_grows(a: nat, b: nat)
    requires
        a <= b,
    ensures
        1 <= factorial_of(a) <= factorial_of(b),
    decreases b,
{
    if b == 0 {
    } else if a == b {
        lemma_factorial_grows((b - 1) as nat, (b - 1) as nat);
        assert(factorial_of((b - 1) as nat) <= b * factorial_of((b - 1) as nat))
            by (nonlinear_arith)
            requires
                b >= 1,
        ;
    } else {
        lemma_factorial_grows(a, (b - 1) as nat);
        assert(factorial_of((b - 1) as nat) <= b * factorial_of((b - 1) as nat))
            by (nonlinear_arith)
            requires
                b >= 1,
        ;
    }
}

/// The factorial of 20, which still fits in 64 bits.
pub proof fn lemma_factorial_of_limit()
    ensures
        factorial_of(20) == 2432902008176640000,
{
    assert(factorial_of(0) == 1);
    assert(factorial_of(1) == 1);
    assert(factorial_of(2) == 2);
    assert(factorial_of(3) == 6);
    assert(factorial_of(4) == 24);
    assert(factorial_of(5) == 120);
    assert(factorial_of(6) == 720);
    assert(factorial_of(7) == 5040);
    assert(factorial_of(8) == 40320);
    assert(factorial_of(9) == 362880);
    assert(factorial_of(10) == 3628800);
    assert(factorial_of(11) == 39916800);
    assert(factorial_of(12) == 479001600);
    assert(factorial_of(13) == 6227020800);
    assert(factorial_of(14) == 87178291200);
    assert(factorial_of(15) == 1307674368000);
    assert(factorial_of(16) == 20922789888000);
    assert(factorial_of(17) == 355687428096000);
    assert(factorial_of(18) == 6402373705728000);
    assert(factorial_of(19) == 121645100408832000);
}

/// The factorial of `x`, for an `x` whose factorial fits in 64 bits.
pub fn factorial(x: u64) -> (result: u64)
    requires
        x <= FACTORIAL_LIMIT,
    ensures
        result == factorial_of(x as nat),
{
    let mut result: u64 = 1;
    let mut i: u64 = 1;
    while i <= x
        invariant
            x <= FACTORIAL_LIMIT,
            1 <= i <= x + 1,
            result == factorial_of((i - 1) as nat),
        decreases x + 1 - i,
    {
        proof {
            lemma_factorial_grows(i as nat, 20);
            lemma_factorial_of_limit();
            assert(factorial_of(i as nat) == i * factorial_of((i - 1) as nat));
            assert(result * i == factorial_of(i as nat)) by (nonlinear_arith)
                requires
                    result == factorial_of((i - 1) as nat),
                    factorial_of(i as nat) == i * factorial_of((i - 1) as nat),
            ;
            assert(result * i <= u64::MAX);
        }
        result *= i;
        i += 1;
    }
    result
}

/// The Fibonacci numbers: 0, 1, 1, 2, 3, 5, ...
pub open spec fn fibonacci(n: nat) -> nat
    decreases n,
{
    if n == 0 {
        0
    } else if n == 1 {
        1
    } else {
        fibonacci((n - 1) as nat) + fibonacci((n - 2) as nat)
    }
}

/// The sum of two terms, kept to eight bits.
pub open spec fn wrapped_sum(a: u8, b: u8) -> u8 {
    ((a + b) % 256) as u8
}

/// The pair of terms that a sequence holds after one more term is taken.
pub open spec fn fib_advanced(pair: (u8, u8)) -> (u8, u8) {
    (pair.1, wrapped_sum(pair.0, pair.1))
}

/// The pair of terms that a new sequence holds after `n` terms are taken.
pub open spec fn fib_after(n: nat) -> (u8, u8)
    decreases n,
{
    if n == 0 {
        (0u8, 1u8)
    } else {
        fib_advanced(fib_after((n - 1) as nat))
    }
}

/// After `n` terms are taken from a new sequence it holds the Fibonacci
/// numbers `n` and `n + 1`, each kept to eight bits. So the term taken next is
/// Fibonacci number `n + 2`, kept to eight bits.
pub proof fn lemma_fib_after(n: nat)
    ensures
        fib_after(n).0 == fibonacci(n) % 256,
        fib_after(n).1 == fibonacci(n + 1) % 256,
        wrapped_sum(fib_after(n).0, fib_after(n).1) == fibonacci(n + 2) % 256,
    decreases n,
{
    if n > 0 {
        lemma_fib_after((n - 1) as nat);
    }
    let a = fibonacci(n);
    let b = fibonacci(n + 1);
    assert(fibonacci(n + 2) == a + b);
    assert(((a % 256) + (b % 256)) % 256 == (a + b) % 256) by (nonlinear_arith);
}

/// Fibonacci with values represented as u8s.
#[derive(Clone, Copy, Debug)]
pub struct FibonacciWrapped {
    num1: u8,
    num2: u8,
}

impl View for FibonacciWrapped {
    type V = (u8, u8);

    closed spec fn view(&self) -> (u8, u8) {
        (self.num1, self.num2)
    }
}

impl Default for FibonacciWrapped {
    fn default() -> (out: FibonacciWrapped)
        ensures
            out@ == fib_after(0),
    {
        FibonacciWrapped::new()
    }
}

impl FibonacciWrapped {
    /// A sequence that has given no term yet.
    pub fn new() -> (out: FibonacciWrapped)
        ensures
            out@ == fib_after(0),
    {
        FibonacciWrapped { num1: 0, num2: 1 }
    }

    /// Takes the next term: the sum of the two terms held, kept to eight bits.
    pub fn next(&mut self) -> (term: u8)
        ensures
            term == wrapped_sum(old(self)@.0, old(self)@.1),
            final(self)@ == fib_advanced(old(self)@),
    {
        let next = self.num1.wrapping_add(self.num2);
        self.num1 = self.num2;
        self.num2 = next;
        next
    }
}

} // verus!
