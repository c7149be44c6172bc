use vstd::prelude::*;

use core::sync::atomic::Ordering;
use portable_atomic::AtomicU128;

use crate::order::cas_orders_ok;
use crate::order::load_order_ok;
use crate::order::read_ordering;
use crate::order::store_order_ok;
use crate::word::DoubleWord;

verus! {

#[verifier::external_type_specification]
#[verifier::external_body]
pub struct ExAtomicU128(AtomicU128);

/// 2 to the 128th power: the modulus of the word's arithmetic.
pub open spec fn word_modulus() -> int {
    u128::MAX as int + 1
}

/// What a compare-exchange returns when the word held `prior` at the instant
/// it took effect: `Ok(prior)` when `prior` is `current`, else `Err(prior)`.
pub open spec fn cas_outcome(prior: u128, current: u128, new: u128) -> Result<u128, u128> {
    if prior == current {
        Ok(prior)
    } else {
        Err(prior)
    }
}

/// What the word holds after a compare-exchange that found `prior` in it.
pub open spec fn cas_next(prior: u128, current: u128, new: u128) -> u128 {
    if prior == current {
        new
    } else {
        prior
    }
}

/// The word that a compare-exchange result reports, on either branch.
pub open spec fn observed(r: Result<u128, u128>) -> u128 {
    match r {
        Ok(v) => v,
        Err(v) => v,
    }
}

/// The value a read-modify-write computes from the word it found.
#[derive(Clone, Copy, Debug, PartialEq, Eq)]
pub enum Step {
    /// Replace the word by a fixed pattern.
    Replace(u128),
    /// Add a pattern, wrapping around at 2^128.
    Add(u128),
    /// Subtract a pattern, wrapping around at 2^128.
    Sub(u128),
}

/// The word that `step` writes over `x`.
pub open spec fn step_value(step: Step, x: u128) -> u128 {
    match step {
        Step::Replace(v) => v,
        Step::Add(d) => ((x as int + d as int) % word_modulus()) as u128,
        Step::Sub(d) => ((x as int - d as int) % word_modulus()) as u128,
    }
}

impl Step {
    pub fn apply(&self, x: u128) -> (r: u128)
        ensures
            r == step_value(*self, x),
    {
        match *self {
            Step::Replace(v) => v,
            Step::Add(d) => {
                let r = x.wrapping_add(d);
                assert(r == step_value(*self, x)) by {
                    let m = word_modulus();
                    let s = x as int + d as int;
                    if s >= m {
                        assert(s % m == s - m) by (nonlinear_arith)
                            requires m <= s < 2 * m;
                    } else {
                        assert(s % m == s) by (nonlinear_arith)
                            requires 0 <= s < m;
                    }
                }
                r
            },
            Step::Sub(d) => {
                let r = x.wrapping_sub(d);
                assert(r == step_value(*self, x)) by {
                    let m = word_modulus();
                    let s = x as int - d as int;
                    if s < 0 {
                        assert(s % m == s + m) by (nonlinear_arith)
                            requires -m < s < 0, m > 0;
                    } else {
                        assert(s % m == s) by (nonlinear_arith)
                            requires 0 <= s < m;
                    }
                }
                r
            },
        }
    }
}

/// Relies on portable_atomic::AtomicU128::compare_exchange: one atomic
/// compare-and-swap of the whole word, `Ok` with `current` when the word held
/// it, else `Err` with the word found. It panics on a failure ordering of
/// `Release` or `AcqRel`.
#[verifier::external_body]
fn cas_word(
    dst: &AtomicU128,
    current: u128,
    new: u128,
    success: Ordering,
    failure: Ordering,
) -> (r: Result<u128, u128>)
    requires
        load_order_ok(failure),
    ensures
        r == cas_outcome(observed(r), current, new),
{
    dst.compare_exchange(current, new, success, failure)
}

/// Relies on portable_atomic::AtomicU128::fetch_update: it reads the word,
/// then retries a compare-exchange of it against `step` until one succeeds.
/// The closure always returns `Some`, so the result is `Ok`. It panics on a
/// read ordering of `Release` or `AcqRel`.
#[verifier::external_body]
fn update_word(dst: &AtomicU128, step: Step, set_order: Ordering, fetch_order: Ordering) -> (r:
    Result<u128, u128>)
    requires
        load_order_ok(fetch_order),
    ensures
        r is Ok,
{
    dst.fetch_update(set_order, fetch_order, |x| Some(step.apply(x)))
}

/// Relies on portable_atomic::AtomicU128::is_lock_free: whether the target
/// has a double-word compare-and-swap instruction that the word's
/// operations use.
#[verifier::external_body]
fn word_is_lock_free() -> (r: bool) {
    AtomicU128::is_lock_free()
}

/// Relies on portable_atomic::AtomicU128::new: a word holding `v`.
#[verifier::external_body]
pub(crate) fn new_word(v: u128) -> (r: AtomicU128) {
    AtomicU128::new(v)
}

/// Relies on portable_atomic::AtomicU128::into_inner: the word's value, read
/// with the word owned.
#[verifier::external_body]
pub(crate) fn word_into_inner(w: AtomicU128) -> (r: u128) {
    w.into_inner()
}

/// Cells of a type are lock-free exactly when the type takes 16 bytes and the
/// hardware offers a double-word compare-and-swap.
pub open spec fn lock_free_rule(size: nat, hardware: bool) -> bool {
    size == 16 && hardware
}

pub fn lock_free_for(size: usize, hardware: bool) -> (r: bool)
    ensures
        r == lock_free_rule(size as nat, hardware),
{
    size == 16 && hardware
}

/// Whether cells of `T` are lock-free: `T` takes 16 bytes and the hardware
/// compare-and-swap is there. Other types still work, behind a lock.
pub fn atomic_is_lock_free<T>() -> (r: bool)
    ensures
        r ==> size_of::<T>() == 16,
        size_of::<T>() != 16 ==> !r,
{
    let hardware = word_is_lock_free();
    lock_free_for(core::mem::size_of::<T>(), hardware)
}

/// One compare-exchange of the word. On a failed comparison the word is read
/// with the read part of `failure`.
pub fn compare_exchange_raw(
    dst: &AtomicU128,
    current: u128,
    new: u128,
    success: Ordering,
    failure: Ordering,
) -> (r: Result<u128, u128>)
    requires
        cas_orders_ok(success, failure),
    ensures
        r == cas_outcome(observed(r), current, new),
{
    cas_word(dst, current, new, success, read_ordering(failure))
}

/// Reads the word by a compare-exchange of zero for zero: where the word is
/// zero it is rewritten with zero, elsewhere it is left alone, and either
/// branch reports the word. The result is the value `T` reads from it
/// (`observed_value`); the word depends on other threads, so no contract
/// names it.
pub fn atomic_load<T: DoubleWord>(dst: &AtomicU128, order: Ordering) -> (r: T)
    requires
        load_order_ok(order),
{
    let res = cas_word(dst, 0, 0, order, read_ordering(order));
    observed_value(res)
}

/// Writes the pattern of `val` over the word, whatever it held.
pub fn atomic_store<T: DoubleWord>(dst: &AtomicU128, val: T, order: Ordering)
    requires
        store_order_ok(order),
{
    let bits = val.to_bits();
    let _ = update_word(dst, Step::Replace(bits), order, read_ordering(order));
}

/// One compare-exchange of the patterns of `current` and `new`; the result
/// holds the value `T` reads from the word found.
pub fn atomic_compare_exchange<T: DoubleWord>(
    dst: &AtomicU128,
    current: T,
    new: T,
    success: Ordering,
    failure: Ordering,
) -> (r: Result<T, T>)
    requires
        cas_orders_ok(success, failure),
    ensures
        exists|w: u128|
            r == typed_outcome::<T>(#[trigger] cas_outcome(w, current.bits_of(), new.bits_of())),
        r is Ok ==> r == Ok::<T, T>(current),
        r is Err ==> r->Err_0.bits_of() != current.bits_of(),
{
    let c = current.to_bits();
    let n = new.to_bits();
    let res = compare_exchange_raw(dst, c, n, success, failure);
    proof {
        T::lemma_value_of_bits(current);
        T::lemma_bits_of_value(observed(res));
    }
    map_result(res)
}

/// The value of `T` in the word that a compare-exchange reports, on either
/// branch.
pub fn observed_value<T: DoubleWord>(res: Result<u128, u128>) -> (r: T)
    ensures
        r == T::value_of(observed(res)),
{
    match res {
        Ok(v) => T::from_bits(v),
        Err(v) => T::from_bits(v),
    }
}

/// A result over words read as a result over values of `T`.
pub open spec fn typed_outcome<T: DoubleWord>(r: Result<u128, u128>) -> Result<T, T> {
    match r {
        Ok(v) => Ok(T::value_of(v)),
        Err(v) => Err(T::value_of(v)),
    }
}

pub fn map_result<T: DoubleWord>(r: Result<u128, u128>) -> (m: Result<T, T>)
    ensures
        m == typed_outcome::<T>(r),
{
    match r {
        Ok(v) => Ok(T::from_bits(v)),
        Err(v) => Err(T::from_bits(v)),
    }
}

/// Adds the pattern of `val` to the word, wrapping at 2^128, and returns the
/// value `T` reads from the word before the addition (`observed_value`); the
/// word depends on other threads, so no contract names it.
pub fn atomic_add<T: DoubleWord>(dst: &AtomicU128, val: T, order: Ordering) -> (r: T)
{
    let d = val.to_bits();
    let res = update_word(dst, Step::Add(d), order, read_ordering(order));
    observed_value(res)
}

/// Subtracts the pattern of `val` from the word, wrapping at 2^128, and
/// returns the value `T` reads from the word before the subtraction
/// (`observed_value`); the word depends on other threads, so no contract
/// names it.
pub fn atomic_sub<T: DoubleWord>(dst: &AtomicU128, val: T, order: Ordering) -> (r: T)
{
    let d = val.to_bits();
    let res = update_word(dst, Step::Sub(d), order, read_ordering(order));
    observed_value(res)
}

/// The probe that `atomic_load` makes, a compare-exchange of zero for zero,
/// leaves every word as it found it and reports it on whichever branch it
/// takes: where the word is zero it is rewritten with zero, elsewhere it is
/// left alone.
pub proof fn lemma_probe_keeps_word(w: u128)
    ensures
        cas_next(w, 0, 0) == w,
        observed(cas_outcome(w, 0, 0)) == w,
{
}

/// The word after a read-modify-write whose compare-exchange found `w`:
/// it compared `w` with itself and wrote what `step` makes of it.
///
/// This and the lemmas below model the word as a run of whole operations, one
/// after another, as each compare-exchange takes effect at one instant. No
/// contract of a function on a shared word speaks of them: what such a word
/// holds between two calls is not visible to a caller.
pub open spec fn update_next(step: Step, w: u128) -> u128 {
    cas_next(w, w, step_value(step, w))
}

/// In that model: a compare-exchange on a word that holds the pattern of `v` returns `Ok(v)`
/// and leaves `new` behind when `current` has the same pattern; otherwise it
/// returns `Err(v)` and leaves the word as it was.
pub proof fn lemma_compare_exchange_split<T: DoubleWord>(v: T, current: T, new: T)
    ensures
        v.bits_of() == current.bits_of() ==> typed_outcome::<T>(
            cas_outcome(v.bits_of(), current.bits_of(), new.bits_of()),
        ) == Ok::<T, T>(v) && T::value_of(cas_next(v.bits_of(), current.bits_of(), new.bits_of()))
            == new,
        v.bits_of() != current.bits_of() ==> typed_outcome::<T>(
            cas_outcome(v.bits_of(), current.bits_of(), new.bits_of()),
        ) == Err::<T, T>(v) && cas_next(v.bits_of(), current.bits_of(), new.bits_of())
            == v.bits_of(),
{
    T::lemma_value_of_bits(v);
    T::lemma_value_of_bits(new);
}

/// In that model: a load right after a store of `v` reads `v`, whatever the
/// word held before the store, and the load leaves the word as the store left
/// it.
pub proof fn lemma_store_then_load<T: DoubleWord>(w: u128, v: T)
    ensures
        T::value_of(observed(cas_outcome(update_next(Step::Replace(v.bits_of()), w), 0, 0))) == v,
        cas_next(update_next(Step::Replace(v.bits_of()), w), 0, 0) == update_next(
            Step::Replace(v.bits_of()),
            w,
        ),
{
    T::lemma_value_of_bits(v);
}

/// In that model: the values that `n` fetch-adds of `d` return one after
/// another, starting on the word `w`.
pub open spec fn fetch_add_returns(w: u128, d: u128, n: nat) -> Seq<u128>
    decreases n,
{
    if n == 0 {
        Seq::empty()
    } else {
        seq![w] + fetch_add_returns(update_next(Step::Add(d), w), d, (n - 1) as nat)
    }
}

/// In that model: the word after `n` fetch-adds of `d`, starting on the word
/// `w`.
pub open spec fn after_fetch_adds(w: u128, d: u128, n: nat) -> u128
    decreases n,
{
    if n == 0 {
        w
    } else {
        after_fetch_adds(update_next(Step::Add(d), w), d, (n - 1) as nat)
    }
}

/// In that model: increments from `w` that do not wrap return
/// `w, w + 1, ..., w + n - 1`, each once, and leave `w + n`; since each
/// increment is one compare-exchange taking effect at one instant, this is
/// what `n` increments from any threads return, in some order.
pub proof fn lemma_increments(w: u128, n: nat)
    requires
        w as int + n <= u128::MAX as int,
    ensures
        fetch_add_returns(w, 1, n) == Seq::new(n, |i: int| (w as int + i) as u128),
        after_fetch_adds(w, 1, n) as int == w as int + n,
    decreases n,
{
    if n > 0 {
        let next = update_next(Step::Add(1), w);
        assert(next as int == w as int + 1) by {
            assert((w as int + 1) % word_modulus() == w as int + 1);
        }
        lemma_increments(next, (n - 1) as nat);
        assert(fetch_add_returns(w, 1, n) =~= Seq::new(n, |i: int| (w as int + i) as u128));
    }
}

} // verus!
