//! A 128-bit atomic cell, `AtomicDouble<T>`, for lock-free algorithms that must
//! update two machine words as one (a pointer and a tag, against the ABA
//! problem).
//!
//! A value of `T` is held as its bit pattern in one 128-bit word. Every
//! operation goes through a compare-and-swap of that word: the hardware
//! double-word instruction where the target has it, a lock elsewhere.
//! Comparison is by bit pattern, and `fetch_add` / `fetch_sub` are wrapping
//! arithmetic on the pattern read as an unsigned 128-bit integer.
//!
//! The contracts do not depend on which of the two paths runs: the orderings
//! an operation refuses are refused by its `requires` on either path, and a
//! compare-exchange reports its outcome in the same terms on either path.
use vstd::prelude::*;

pub use core::sync::atomic::{fence, Ordering};

pub mod ops;
pub mod order;
pub mod word;

use core::marker::PhantomData;
use portable_atomic::AtomicU128;
use vstd::string::StringExecFns;

use crate::ops::cas_outcome;
use crate::ops::typed_outcome;
use crate::order::cas_orders_ok;
use crate::order::load_order_ok;
use crate::order::store_order_ok;
use crate::word::DoubleWord;

verus! {

/// A cell holding one value of `T` as a 128-bit word, read and written
/// atomically as a whole.
pub struct AtomicDouble<T> {
    v: AtomicU128,
    marker: PhantomData<T>,
}

impl<T> AtomicDouble<T> {
    /// Whether cells of `T` are lock-free: only a 16-byte `T` on hardware with
    /// a double-word compare-and-swap is. Other cells work behind a lock.
    pub fn is_lock_free() -> (r: bool)
        ensures
            r ==> size_of::<T>() == 16,
            size_of::<T>() != 16 ==> !r,
    {
        ops::atomic_is_lock_free::<T>()
    }
}

impl<T: DoubleWord> AtomicDouble<T> {
    /// A cell holding the pattern of `v`.
    pub fn new(v: T) -> (r: AtomicDouble<T>) {
        AtomicDouble { v: ops::new_word(v.to_bits()), marker: PhantomData }
    }

    /// Consumes the cell and returns the value it holds; owning the cell,
    /// nothing else can touch it. What the cell holds is not visible to Verus
    /// (other threads may have changed it through `&self`), so no contract
    /// names the value.
    pub fn into_inner(self) -> (r: T) {
        T::from_bits(ops::word_into_inner(self.v))
    }

    /// Reads the value. `Release` and `AcqRel` are not read orderings.
    /// The value is whatever the cell holds at that instant, which other
    /// threads may set, so no contract names it.
    pub fn load(&self, order: Ordering) -> (r: T)
        requires
            load_order_ok(order),
    {
        ops::atomic_load(&self.v, order)
    }

    /// Writes `val`. `Acquire` and `AcqRel` are not write orderings.
    pub fn store(&self, val: T, order: Ordering)
        requires
            store_order_ok(order),
    {
        ops::atomic_store(&self.v, val, order)
    }

    /// Replaces the value by `new` if its pattern is that of `current`, and
    /// returns `Ok` with the value found; otherwise leaves it and returns
    /// `Err` with the value found. The failure ordering can be neither
    /// `Acquire` nor `AcqRel`, nor stronger than the success ordering.
    pub fn compare_exchange(&self, current: T, new: T, success: Ordering, failure: Ordering) -> (r:
        Result<T, T>)
        requires
            cas_orders_ok(success, failure),
        ensures
            exists|w: u128|
                r == typed_outcome::<T>(
                    #[trigger] cas_outcome(w, current.bits_of(), new.bits_of()),
                ),
            r is Ok ==> r == Ok::<T, T>(current),
            r is Err ==> r->Err_0.bits_of() != current.bits_of(),
    {
        ops::atomic_compare_exchange(&self.v, current, new, success, failure)
    }

    /// Adds the pattern of `val`, wrapping at 2^128, and returns the value
    /// held before; the word written is `Step::Add` applied to it (see
    /// `Step::apply`). What was held depends on other threads, so no contract
    /// names it.
    pub fn fetch_add(&self, val: T, order: Ordering) -> (r: T) {
        ops::atomic_add(&self.v, val, order)
    }

    /// Subtracts the pattern of `val`, wrapping at 2^128, and returns the
    /// value held before; the word written is `Step::Sub` applied to it. What
    /// was held depends on other threads, so no contract names it.
    pub fn fetch_sub(&self, val: T, order: Ordering) -> (r: T) {
        ops::atomic_sub(&self.v, val, order)
    }
}

impl<T: DoubleWord + Default> Default for AtomicDouble<T> {
    /// A cell holding `T`'s default value.
    fn default() -> (r: AtomicDouble<T>) {
        AtomicDouble::new(T::default())
    }
}

impl<T: DoubleWord + core::fmt::Debug> AtomicDouble<T> {
    /// The cell's text form: `AtomicDouble(` and `)` around the `Debug` text
    /// of the value loaded with `SeqCst`.
    pub fn to_debug_string(&self) -> (r: String)
        ensures
            exists|d: Seq<char>| r@ == "AtomicDouble("@ + d + ")"@,
    {
        let v = self.load(Ordering::SeqCst);
        let inner = debug_of(&v);
        let mut text = String::from_str("AtomicDouble(");
        text.append(inner.as_str());
        text.append(")");
        proof {
            assert(text@ == "AtomicDouble("@ + inner@ + ")"@);
        }
        text
    }
}

/// Relies on std's `format!` with `T`'s `Debug`: the `Debug` text of `v`.
#[verifier::external_body]
fn debug_of<T: core::fmt::Debug>(v: &T) -> (r: String) {
    format!("{:?}", v)
}

} // verus!
