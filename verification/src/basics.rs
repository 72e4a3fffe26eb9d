//! Small arithmetic functions: a constant, a successor, and a factorial.

use vstd::prelude::*;

verus! {

/// The factorial of `n`, as a mathematical integer.
pub open spec fn fact(n: int) -> int
    decreases n,
{
    if n <= 0 {
        1
    } else {
        n * fact(n - 1)
    }
}

/// The largest argument for which the factorial still fits in an `i32`.
pub const MAX_FACTORIAL_ARG: i32 = 12;

proof fn lemma_fact_bounded(n: int)
    requires
        0 <= n <= 12,
    ensures
        1 <= fact(n) <= 479001600,
    decreases n,
{
    reveal_with_fuel(fact, 13);
    assert(fact(0) == 1);
    assert(fact(1) == 1);
    assert(fact(2) == 2);
    assert(fact(3) == 6);
    assert(fact(4) == 24);
    assert(fact(5) == 120);
    assert(fact(6) == 720);
    assert(fact(7) == 5040);
    assert(fact(8) == 40320);
    assert(fact(9) == 362880);
    assert(fact(10) == 3628800);
    assert(fact(11) == 39916800);
    assert(fact(12) == 479001600);
}

/// Returns the number five.
pub fn five() -> (r: i32)
    ensures
        r == 5,
{
    5
}

/// Returns its argument plus one.
pub fn plus_one(number: i32) -> (r: i32)
    requires
        number < i32::MAX,
    ensures
        r == number + 1,
{
    number + 1
}

/// The factorial, computed recursively; the bound on the argument keeps the
/// result within `i32`.
pub fn factorial(number: i32) -> (r: i32)
    requires
        0 <= number <= MAX_FACTORIAL_ARG,
    ensures
        r == fact(number as int),
    decreases number,
{
    proof {
        lemma_fact_bounded(number as int);
        if number > 0 {
            lemma_fact_bounded(number - 1);
        }
    }
    match number {
        0 => 1,
        _ => number * factorial(number - 1),
    }
}

} // verus!
