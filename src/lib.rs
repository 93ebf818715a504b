use vstd::prelude::*;

verus! {

/// The number of distinct `u32` values.
pub open spec fn u32_modulus() -> int {
    0x1_0000_0000
}

/// The successor of `x` on the ring of `u32` values: `x + 1`, wrapping from
/// `u32::MAX` back to `0`.
pub open spec fn incremented(x: u32) -> u32 {
    ((x + 1) % u32_modulus()) as u32
}

/// Adds one to `x`.
///
/// Overflow wraps around: `add_one(u32::MAX)` is `0`.
pub fn add_one(x: u32) -> (r: u32)
    ensures
        r == incremented(x),
        x < u32::MAX ==> r == x + 1,
        x == u32::MAX ==> r == 0,
{
    x.wrapping_add(1)
}

/// `n` applications of `incremented` to `x`.
pub open spec fn incremented_times(x: u32, n: nat) -> u32
    decreases n,
{
    if n == 0 {
        x
    } else {
        incremented(incremented_times(x, (n - 1) as nat))
    }
}

/// Applying the increment `n` times adds `n` modulo `2^32`: repeated
/// application accumulates, and no value is left unchanged by one step.
pub proof fn lemma_increments_accumulate(x: u32, n: nat)
    ensures
        incremented_times(x, n) == (x + n) % u32_modulus(),
        incremented(x) != x,
    decreases n,
{
    if n > 0 {
        lemma_increments_accumulate(x, (n - 1) as nat);
        let m = u32_modulus();
        let prev = incremented_times(x, (n - 1) as nat);
        assert((prev + 1) % m == (x + n) % m) by {
            vstd::arithmetic::div_mod::lemma_add_mod_noop(x + n - 1, 1, m);
            vstd::arithmetic::div_mod::lemma_add_mod_noop(prev as int, 1, m);
        };
    }
}

/// Two successive calls of `add_one`, the second on the first's result, add
/// two modulo `2^32`, and the second result differs from the first.
pub proof fn lemma_add_one_twice(x: u32, r1: u32, r2: u32)
    requires
        call_ensures(add_one, (x,), r1),
        call_ensures(add_one, (r1,), r2),
    ensures
        r2 == (x + 2) % u32_modulus(),
        r2 != r1,
        x < u32::MAX - 1 ==> r2 == x + 2,
{
    lemma_increments_accumulate(x, 2);
}

/// `add_one` holds no state: any two calls on the same input, whatever ran
/// between them, return the same value.
pub proof fn lemma_add_one_deterministic(x: u32, r1: u32, r2: u32)
    requires
        call_ensures(add_one, (x,), r1),
        call_ensures(add_one, (x,), r2),
    ensures
        r1 == r2,
{
}

} // verus!
