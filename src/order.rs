use vstd::prelude::*;

use core::sync::atomic::Ordering;

verus! {

/// Strength of a memory ordering: `Relaxed` is weakest, `SeqCst` strongest,
/// `Acquire` and `Release` stand level with each other.
pub open spec fn strength(o: Ordering) -> int {
    match o {
        Ordering::Relaxed => 0,
        Ordering::Release => 1,
        Ordering::Acquire => 1,
        Ordering::AcqRel => 2,
        _ => 3,
    }
}

/// A pure read accepts every ordering but `Release` and `AcqRel`.
pub open spec fn load_order_ok(o: Ordering) -> bool {
    o != Ordering::Release && o != Ordering::AcqRel
}

/// A pure write accepts every ordering but `Acquire` and `AcqRel`.
pub open spec fn store_order_ok(o: Ordering) -> bool {
    o != Ordering::Acquire && o != Ordering::AcqRel
}

/// A compare-exchange accepts a failure ordering that is neither `Acquire` nor
/// `AcqRel` and no stronger than the success ordering.
pub open spec fn cas_orders_ok(success: Ordering, failure: Ordering) -> bool {
    failure != Ordering::Acquire && failure != Ordering::AcqRel && strength(failure) <= strength(
        success,
    )
}

/// The ordering of the read that a read-modify-write performs with `o`:
/// the release half is dropped, since a read cannot release.
pub open spec fn read_part(o: Ordering) -> Ordering {
    match o {
        Ordering::Release => Ordering::Relaxed,
        Ordering::AcqRel => Ordering::Acquire,
        _ => o,
    }
}

/// `a` is strictly stronger than `b` in the order of memory orderings:
/// `Relaxed` below `Acquire` and `Release`, both below `AcqRel`, below
/// `SeqCst`; `Acquire` and `Release` are not comparable.
pub open spec fn strictly_stronger(a: Ordering, b: Ordering) -> bool {
    a != b && (b == Ordering::Relaxed || a == Ordering::SeqCst || (a == Ordering::AcqRel && (b
        == Ordering::Acquire || b == Ordering::Release)))
}

/// Which orderings each operation refuses: a read refuses exactly `Release`
/// and `AcqRel`, a write exactly `Acquire` and `AcqRel`, and a
/// compare-exchange exactly a failure ordering that is `Acquire` or `AcqRel`
/// or strictly stronger than its success ordering.
pub proof fn lemma_refused_orderings(o: Ordering, success: Ordering, failure: Ordering)
    ensures
        !load_order_ok(o) <==> (o == Ordering::Release || o == Ordering::AcqRel),
        !store_order_ok(o) <==> (o == Ordering::Acquire || o == Ordering::AcqRel),
        !cas_orders_ok(success, failure) <==> (failure == Ordering::Acquire || failure
            == Ordering::AcqRel || strictly_stronger(failure, success)),
{
}

pub fn strength_of(o: Ordering) -> (r: u8)
    ensures
        r as int == strength(o),
{
    match o {
        Ordering::Relaxed => 0,
        Ordering::Release => 1,
        Ordering::Acquire => 1,
        Ordering::AcqRel => 2,
        _ => 3,
    }
}

/// Whether `load` accepts `o`.
pub fn is_valid_load_order(o: Ordering) -> (r: bool)
    ensures
        r == load_order_ok(o),
{
    match o {
        Ordering::Release => false,
        Ordering::AcqRel => false,
        _ => true,
    }
}

/// Whether `store` accepts `o`.
pub fn is_valid_store_order(o: Ordering) -> (r: bool)
    ensures
        r == store_order_ok(o),
{
    match o {
        Ordering::Acquire => false,
        Ordering::AcqRel => false,
        _ => true,
    }
}

/// Whether `compare_exchange` accepts the pair `(success, failure)`.
pub fn is_valid_cas_orders(success: Ordering, failure: Ordering) -> (r: bool)
    ensures
        r == cas_orders_ok(success, failure),
{
    match failure {
        Ordering::Acquire => false,
        Ordering::AcqRel => false,
        _ => strength_of(failure) <= strength_of(success),
    }
}

/// The ordering for the read half of a read-modify-write with ordering `o`.
pub fn read_ordering(o: Ordering) -> (r: Ordering)
    ensures
        r == read_part(o),
        load_order_ok(r),
        strength(r) <= strength(o),
{
    match o {
        Ordering::Release => Ordering::Relaxed,
        Ordering::AcqRel => Ordering::Acquire,
        _ => o,
    }
}

} // verus!
