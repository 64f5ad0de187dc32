//! Size accounting for a bounded cache: strategies that weigh cache entries
//! and accumulators that maintain the running total of those weights.

use vstd::prelude::*;

verus! {

/// The canonical accumulation step for scalar weights: plain addition.
pub open spec fn scalar_add(current: usize, amount: usize) -> usize {
    (current + amount) as usize
}

/// The canonical removal step for scalar weights: plain subtraction.
pub open spec fn scalar_sub(current: usize, amount: usize) -> usize {
    (current - amount) as usize
}

/// A scalar total always renders as a standard size, widened to `u64`.
pub open spec fn scalar_size(current: usize) -> Option<u64> {
    Some(current as u64)
}

/// Adding `amount` to `current` stays within the scalar range.
pub open spec fn scalar_add_fits(current: usize, amount: usize) -> bool {
    current + amount <= usize::MAX
}

/// `amount` was previously added to `current` and not yet removed, so
/// subtracting it cannot underflow.
pub open spec fn scalar_sub_covered(current: usize, amount: usize) -> bool {
    amount <= current
}

/// The metric a cache compares against its configured limit: the running
/// total rendered as a standard size where the meter reports one, and the
/// live number of resident entries otherwise.
pub open spec fn spec_capacity_metric(rendered: Option<u64>, entries: u64) -> u64 {
    match rendered {
        Some(size) => size,
        None => entries,
    }
}

/// Pick the capacity metric from a rendered total and the live entry count.
///
/// Falling back to the entry count is a designed branch, never an error: a
/// meter whose total has no standard size simply makes the cache count its
/// entries instead.
pub fn capacity_metric(rendered: Option<u64>, entries: u64) -> (metric: u64)
    ensures
        metric == spec_capacity_metric(rendered, entries),
{
    match rendered {
        Some(size) => size,
        None => entries,
    }
}

/// A strategy for weighing one cache entry.
///
/// An implementation with `Measure = usize` gets the accumulation operations
/// of [`CountableMeter`] for free; any other `Measure` type must implement
/// [`CountableMeterWithMeasure`] as well.
pub trait Meter<K, V> {
    /// The type used to store measurements.
    type Measure: Default + Copy;

    /// What the strategy guarantees of every weight it hands out for `value`.
    spec fn measured(&self, value: &V, m: Self::Measure) -> bool;

    /// Calculate the weight of `key` and `value`.
    fn measure<Q: ?Sized>(&self, key: &Q, value: &V) -> (m: Self::Measure) where
        K: core::borrow::Borrow<Q>,

        ensures
            self.measured(value, m),
    ;
}

/// The measurement of the counting strategy: a value that carries no
/// information, so the compiler can erase the running total entirely.
#[derive(Clone, Copy, Debug, Default, PartialEq, Eq, Structural)]
pub struct Unit;

/// Size limit based on a simple count of cache items.
pub struct Count;

impl<K, V> Meter<K, V> for Count {
    /// Don't store anything, the measurement can be derived from the map.
    type Measure = Unit;

    open spec fn measured(&self, value: &V, m: Unit) -> bool {
        true
    }

    /// Don't actually count anything either.
    fn measure<Q: ?Sized>(&self, _key: &Q, _value: &V) -> Unit where K: core::borrow::Borrow<Q> {
        Unit
    }
}

/// The accumulation operations for a given measurement type `M`: how a fresh
/// weight joins the running total, how a removed weight leaves it, and how the
/// total renders as a standard size.
///
/// Implementations exist for every meter whose `M` is `usize` (plain
/// arithmetic) and for [`Count`] with `M = ()` (all no-ops); a meter with any
/// other measurement type supplies its own.
pub trait CountableMeterWithMeasure<K, V, M> {
    /// When `meter_add` may be called: the sum must be representable.
    spec fn meter_add_req(&self, current: M, amount: M) -> bool;

    /// When `meter_sub` may be called: only a weight still contained in the
    /// total may be removed.
    spec fn meter_sub_req(&self, current: M, amount: M) -> bool;

    /// The total after `amount` is added to `current`.
    spec fn spec_meter_add(&self, current: M, amount: M) -> M;

    /// The total after `amount` is removed from `current`.
    spec fn spec_meter_sub(&self, current: M, amount: M) -> M;

    /// How `current` renders as a standard size, if it does at all.
    spec fn spec_meter_size(&self, current: M) -> Option<u64>;

    /// Add `amount` to `current` and return the sum.
    fn meter_add(&self, current: M, amount: M) -> (r: M)
        requires
            self.meter_add_req(current, amount),
        ensures
            r == self.spec_meter_add(current, amount),
    ;

    /// Subtract `amount` from `current` and return the difference.
    fn meter_sub(&self, current: M, amount: M) -> (r: M)
        requires
            self.meter_sub_req(current, amount),
        ensures
            r == self.spec_meter_sub(current, amount),
    ;

    /// Return `current` as a `u64` if possible, otherwise return `None`.
    ///
    /// If this method returns `None` the cache will use the number of cache
    /// entries as its size.
    fn meter_size(&self, current: M) -> (r: Option<u64>)
        ensures
            r == self.spec_meter_size(current),
    ;
}

/// The interface the cache drives: a meter together with the accumulation
/// operations for its own measurement type.
///
/// It exists so that the default [`Count`] measurement does not have to store
/// an extraneous counter; every meter that implements
/// [`CountableMeterWithMeasure`] for its measurement type gets it for free.
pub trait CountableMeter<K, V>: Meter<K, V> {
    /// When `add` may be called.
    spec fn add_req(&self, current: Self::Measure, amount: Self::Measure) -> bool;

    /// When `sub` may be called.
    spec fn sub_req(&self, current: Self::Measure, amount: Self::Measure) -> bool;

    /// The total after `amount` is added to `current`.
    spec fn spec_add(&self, current: Self::Measure, amount: Self::Measure) -> Self::Measure;

    /// The total after `amount` is removed from `current`.
    spec fn spec_sub(&self, current: Self::Measure, amount: Self::Measure) -> Self::Measure;

    /// How `current` renders as a standard size, if it does at all.
    spec fn spec_size(&self, current: Self::Measure) -> Option<u64>;

    /// Add `amount` to `current` and return the sum.
    fn add(&self, current: Self::Measure, amount: Self::Measure) -> (r: Self::Measure)
        requires
            self.add_req(current, amount),
        ensures
            r == self.spec_add(current, amount),
    ;

    /// Subtract `amount` from `current` and return the difference.
    fn sub(&self, current: Self::Measure, amount: Self::Measure) -> (r: Self::Measure)
        requires
            self.sub_req(current, amount),
        ensures
            r == self.spec_sub(current, amount),
    ;

    /// Return `current` as a `u64` if possible, otherwise return `None`.
    ///
    /// If this method returns `None` the cache will use the number of cache
    /// entries as its size.
    fn size(&self, current: Self::Measure) -> (r: Option<u64>)
        ensures
            r == self.spec_size(current),
    ;
}

/// Every meter inherits the accumulation operations defined for its own
/// measurement type.
impl<K, V, T: Meter<K, V>> CountableMeter<K, V> for T where
    T: CountableMeterWithMeasure<K, V, <T as Meter<K, V>>::Measure>,
{
    open spec fn add_req(&self, current: Self::Measure, amount: Self::Measure) -> bool {
        self.meter_add_req(current, amount)
    }

    open spec fn sub_req(&self, current: Self::Measure, amount: Self::Measure) -> bool {
        self.meter_sub_req(current, amount)
    }

    open spec fn spec_add(&self, current: Self::Measure, amount: Self::Measure) -> Self::Measure {
        self.spec_meter_add(current, amount)
    }

    open spec fn spec_sub(&self, current: Self::Measure, amount: Self::Measure) -> Self::Measure {
        self.spec_meter_sub(current, amount)
    }

    open spec fn spec_size(&self, current: Self::Measure) -> Option<u64> {
        self.spec_meter_size(current)
    }

    fn add(&self, current: Self::Measure, amount: Self::Measure) -> Self::Measure {
        CountableMeterWithMeasure::meter_add(self, current, amount)
    }

    fn sub(&self, current: Self::Measure, amount: Self::Measure) -> Self::Measure {
        CountableMeterWithMeasure::meter_sub(self, current, amount)
    }

    fn size(&self, current: Self::Measure) -> Option<u64> {
        CountableMeterWithMeasure::meter_size(self, current)
    }
}

/// For any `Meter` with `Measure = usize`, just do the simple math.
impl<K, V, T> CountableMeterWithMeasure<K, V, usize> for T where T: Meter<K, V> {
    open spec fn meter_add_req(&self, current: usize, amount: usize) -> bool {
        scalar_add_fits(current, amount)
    }

    open spec fn meter_sub_req(&self, current: usize, amount: usize) -> bool {
        scalar_sub_covered(current, amount)
    }

    open spec fn spec_meter_add(&self, current: usize, amount: usize) -> usize {
        scalar_add(current, amount)
    }

    open spec fn spec_meter_sub(&self, current: usize, amount: usize) -> usize {
        scalar_sub(current, amount)
    }

    open spec fn spec_meter_size(&self, current: usize) -> Option<u64> {
        scalar_size(current)
    }

    fn meter_add(&self, current: usize, amount: usize) -> usize {
        current + amount
    }

    fn meter_sub(&self, current: usize, amount: usize) -> usize {
        current - amount
    }

    fn meter_size(&self, current: usize) -> Option<u64> {
        Some(current as u64)
    }
}

/// `Count` stores no total at all: every operation is a no-op and no standard
/// size is ever reported, so the cache falls back to its entry count.
impl<K, V> CountableMeterWithMeasure<K, V, Unit> for Count {
    open spec fn meter_add_req(&self, current: Unit, amount: Unit) -> bool {
        true
    }

    open spec fn meter_sub_req(&self, current: Unit, amount: Unit) -> bool {
        true
    }

    open spec fn spec_meter_add(&self, current: Unit, amount: Unit) -> Unit {
        Unit
    }

    open spec fn spec_meter_sub(&self, current: Unit, amount: Unit) -> Unit {
        Unit
    }

    open spec fn spec_meter_size(&self, current: Unit) -> Option<u64> {
        None
    }

    fn meter_add(&self, current: Unit, amount: Unit) -> Unit {
        Unit
    }

    fn meter_sub(&self, current: Unit, amount: Unit) -> Unit {
        Unit
    }

    fn meter_size(&self, current: Unit) -> Option<u64> {
        None
    }
}

/// The capability a value type must offer so that [`HeapSize`] can weigh it:
/// report the total heap memory the value owns, not counting the space taken
/// up by the value itself.
///
/// The reported number usually comes from the allocator, so nothing is
/// promised of it; the [`HeapSize`] meter copes with any result.
pub trait SizeOf {
    /// The number of bytes of heap memory owned by `self`.
    fn owned_bytes(&self) -> usize;
}

/// Relies on `heapsize::HeapSizeOf::heap_size_of_children` for `String`: the
/// allocator's measurement of the string's buffer. The result depends on the
/// allocator, so nothing is promised of it.
#[verifier::external_body]
fn string_owned_heap_size(value: &String) -> usize {
    heapsize::HeapSizeOf::heap_size_of_children(value)
}

/// A string owns its character buffer, as the allocator measures it.
impl SizeOf for String {
    fn owned_bytes(&self) -> usize {
        string_owned_heap_size(self)
    }
}

/// Relies on `heapsize::HeapSizeOf::heap_size_of_children` for `Vec<u8>`: the
/// allocator's measurement of the vector's buffer (its byte elements own
/// nothing further). The result depends on the allocator, so nothing is
/// promised of it.
#[verifier::external_body]
fn byte_vec_owned_heap_size(value: &Vec<u8>) -> usize {
    heapsize::HeapSizeOf::heap_size_of_children(value)
}

/// A byte vector owns its buffer, as the allocator measures it.
impl SizeOf for Vec<u8> {
    fn owned_bytes(&self) -> usize {
        byte_vec_owned_heap_size(self)
    }
}

/// The weight of a value for the byte-size strategy, once its owned heap
/// footprint is in hand as a plain number: the footprint plus the shallow
/// size of the value's type, saturating at the top of the scalar range.
pub open spec fn spec_weigh(owned: usize, shallow: usize) -> usize {
    if owned + shallow <= usize::MAX {
        (owned + shallow) as usize
    } else {
        usize::MAX
    }
}

/// Combine an owned heap footprint, as a [`SizeOf`] implementation reported
/// it, with the shallow size of the value's type.
pub fn weigh(owned: usize, shallow: usize) -> (m: usize)
    ensures
        m == spec_weigh(owned, shallow),
{
    if owned <= usize::MAX - shallow {
        owned + shallow
    } else {
        usize::MAX
    }
}

/// Size limit based on the heap size of each cache item.
///
/// Requires cache entries that implement [`SizeOf`].
pub struct HeapSize;

impl<K, V: SizeOf> Meter<K, V> for HeapSize {
    type Measure = usize;

    /// A value weighs at least the shallow size of its type.
    open spec fn measured(&self, value: &V, m: usize) -> bool {
        m as nat >= vstd::layout::size_of::<V>()
    }

    /// Exactly [`weigh`] applied to the owned heap footprint of `value` and
    /// the shallow size of its type.
    fn measure<Q: ?Sized>(&self, _key: &Q, value: &V) -> usize where K: core::borrow::Borrow<Q> {
        weigh(value.owned_bytes(), core::mem::size_of::<V>())
    }
}

} // verus!
