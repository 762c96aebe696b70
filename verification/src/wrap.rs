//! Cursors that wrap: a step of any size, forwards or backwards, through a list of `len` places.
use vstd::prelude::*;
use vstd::arithmetic::div_mod::{lemma_fundamental_div_mod, lemma_fundamental_div_mod_converse};

verus! {

/// The place `delta` steps from `current` in a ring of `len` places.
pub open spec fn wrapped(current: int, delta: int, len: int) -> int {
    (current + delta) % len
}

/// The place `delta` steps from `current` in a ring of `len` places, computed without any
/// intermediate value leaving the machine's range.
pub fn wrap_index(current: usize, delta: isize, len: usize) -> (r: usize)
    requires
        current < len,
    ensures
        r == wrapped(current as int, delta as int, len as int),
        r < len,
{
    let ghost d: int = delta as int;
    let ghost n: int = len as int;
    let s: usize = if delta >= 0 {
        (delta as usize) % len
    } else {
        let back = ((-(delta + 1)) as usize) % len;
        len - 1 - back
    };
    proof {
        if delta < 0 {
            let k: int = -(d + 1);
            let kr = k % n;
            let qk = k / n;
            lemma_fundamental_div_mod(k, n);
            assert(d == (-qk - 1) * n + (n - 1 - kr)) by (nonlinear_arith)
                requires k == n * qk + kr, d == -(k + 1);
            lemma_fundamental_div_mod_converse(d, n, -qk - 1, n - 1 - kr);
        }
        assert(s as int == d % n);
    }
    let r = if current >= len - s { current - (len - s) } else { current + s };
    proof {
        let q = d / n;
        lemma_fundamental_div_mod(d, n);
        if current + s < n {
            assert(current + d == q * n + (current + s)) by (nonlinear_arith)
                requires d == n * q + s;
            lemma_fundamental_div_mod_converse(current + d, n, q, current + s);
        } else {
            assert(current + d == (q + 1) * n + (current + s - n)) by (nonlinear_arith)
                requires d == n * q + s;
            lemma_fundamental_div_mod_converse(current + d, n, q + 1, current + s - n);
        }
    }
    r
}

/// A step back undoes a step forward: from any place in the ring, `delta` steps and then
/// `-delta` steps land where they started.
pub proof fn stepping_back_undoes_a_step(current: int, delta: int, len: int)
    requires
        0 <= current < len,
    ensures
        0 <= wrapped(current, delta, len) < len,
        wrapped(wrapped(current, delta, len), -delta, len) == current,
{
    let i = wrapped(current, delta, len);
    let q = (current + delta) / len;
    lemma_fundamental_div_mod(current + delta, len);
    assert(i - delta == (-q) * len + current) by (nonlinear_arith)
        requires current + delta == len * q + i;
    lemma_fundamental_div_mod_converse(i - delta, len, -q, current);
}

/// Going once round the ring, in either direction, lands on the place it started from.
pub proof fn a_full_turn_is_no_turn(current: int, len: int)
    requires
        0 <= current < len,
    ensures
        wrapped(current, len, len) == current,
        wrapped(current, -len, len) == current,
{
    lemma_fundamental_div_mod_converse(current + len, len, 1, current);
    lemma_fundamental_div_mod_converse(current - len, len, -1, current);
}

/// Wrapping from a place outside the ring is wrapping from that place reduced into the ring.
pub proof fn lemma_wrap_from_any(current: int, delta: int, len: int)
    requires
        0 <= current,
        len > 0,
    ensures
        wrapped(current % len, delta, len) == wrapped(current, delta, len),
        0 <= current % len < len,
{
    let q = current / len;
    lemma_fundamental_div_mod(current, len);
    let r = current % len;
    let q2 = (r + delta) / len;
    lemma_fundamental_div_mod(r + delta, len);
    assert(current + delta == (q + q2) * len + (r + delta) % len) by (nonlinear_arith)
        requires current == len * q + r, r + delta == len * q2 + (r + delta) % len;
    vstd::arithmetic::div_mod::lemma_mod_bound(r + delta, len);
    lemma_fundamental_div_mod_converse(current + delta, len, q + q2, (r + delta) % len);
}

/// Milliseconds per step of the frame counter the animations run on.
pub const TICK_MS: u64 = 80;

/// How many steps a frame drawn `elapsed_ms` after the last one moves the counter: one per
/// [`TICK_MS`] elapsed, and at least one, so every frame moves the animations.
pub open spec fn tick_steps(elapsed_ms: u64) -> int {
    if elapsed_ms / TICK_MS >= 1 { (elapsed_ms / TICK_MS) as int } else { 1 }
}

/// The frame counter after a frame drawn `elapsed_ms` after the last one: `tick` moved by
/// [`tick_steps`], going round past `u64::MAX`.
pub fn next_tick(tick: u64, elapsed_ms: u64) -> (r: u64)
    ensures
        r == (tick + tick_steps(elapsed_ms)) % 0x1_0000_0000_0000_0000,
{
    let quotient = elapsed_ms / TICK_MS;
    let steps: u64 = if quotient >= 1 { quotient } else { 1 };
    let r = tick.wrapping_add(steps);
    proof {
        let total = tick + steps;
        if total > u64::MAX {
            vstd::arithmetic::div_mod::lemma_fundamental_div_mod_converse(total, 0x1_0000_0000_0000_0000, 1, total - 0x1_0000_0000_0000_0000);
        } else {
            vstd::arithmetic::div_mod::lemma_fundamental_div_mod_converse(total, 0x1_0000_0000_0000_0000, 0, total);
        }
    }
    r
}

} // verus!
