use cache_meter::meter::{capacity_metric, weigh, Count, CountableMeter, HeapSize, Meter, SizeOf, Unit};

/// A value of fixed shallow size 16 bytes that owns no heap data.
struct Sixteen {
    bytes: [u8; 16],
}

impl heapsize::HeapSizeOf for Sixteen {
    fn heap_size_of_children(&self) -> usize {
        0
    }
}

impl SizeOf for Sixteen {
    fn owned_bytes(&self) -> usize {
        heapsize::HeapSizeOf::heap_size_of_children(self)
    }
}

#[test]
fn count_fallback_uses_entry_count() {
    let meter = Count;
    let mut total: Unit = Unit::default();
    let mut entries: usize = 0;
    for i in 0..5u32 {
        let value = format!("value {i}");
        let weight: Unit = Meter::<u32, String>::measure(&meter, &i, &value);
        total = CountableMeter::<u32, String>::add(&meter, total, weight);
        entries += 1;
    }
    let rendered = CountableMeter::<u32, String>::size(&meter, total);
    assert_eq!(rendered, None);
    assert_eq!(capacity_metric(rendered, entries as u64), 5);
}

#[test]
fn count_total_stays_unit_for_three_entries() {
    let meter = Count;
    let mut total: Unit = Unit::default();
    let mut entries: usize = 0;
    for i in 0..3u64 {
        let weight: Unit = Meter::<u64, u64>::measure(&meter, &i, &(i * 10));
        total = CountableMeter::<u64, u64>::add(&meter, total, weight);
        entries += 1;
    }
    assert_eq!(total, Unit);
    let rendered = CountableMeter::<u64, u64>::size(&meter, total);
    assert_eq!(rendered, None);
    assert_eq!(capacity_metric(rendered, entries as u64), 3);
    total = CountableMeter::<u64, u64>::sub(&meter, total, Unit);
    assert_eq!(total, Unit);
}

#[test]
fn scalar_render_round_trip() {
    let meter = HeapSize;
    for w in [0usize, 1, 16, 4096, 123456] {
        let total = CountableMeter::<u32, String>::add(&meter, usize::default(), w);
        assert_eq!(CountableMeter::<u32, String>::size(&meter, total), Some(w as u64));
    }
}

#[test]
fn scalar_subtracting_same_multiset_restores_total() {
    let meter = HeapSize;
    let start: usize = 7;
    let adds = [3usize, 5, 7, 5];
    let subs = [5usize, 7, 3, 5];
    let mut total = start;
    for w in adds {
        total = CountableMeter::<u32, String>::add(&meter, total, w);
    }
    assert_eq!(total, 27);
    for w in subs {
        total = CountableMeter::<u32, String>::sub(&meter, total, w);
    }
    assert_eq!(total, start);
}

#[test]
fn scalar_drain_to_zero() {
    let meter = HeapSize;
    let total = CountableMeter::<u32, String>::add(&meter, 0, 42);
    let drained = CountableMeter::<u32, String>::sub(&meter, total, total);
    assert_eq!(drained, 0);
    assert_eq!(CountableMeter::<u32, String>::size(&meter, drained), Some(0));
}

#[test]
fn byte_size_weighs_shallow_values() {
    let meter = HeapSize;
    assert_eq!(std::mem::size_of::<Sixteen>(), 16);
    let mut total: usize = 0;
    for i in 0..10u32 {
        let value = Sixteen { bytes: [7; 16] };
        let weight = Meter::<u32, Sixteen>::measure(&meter, &i, &value);
        assert_eq!(weight, 16);
        total = CountableMeter::<u32, Sixteen>::add(&meter, total, weight);
    }
    assert_eq!(CountableMeter::<u32, Sixteen>::size(&meter, total), Some(160));
    for _ in 0..3 {
        total = CountableMeter::<u32, Sixteen>::sub(&meter, total, 16);
    }
    assert_eq!(CountableMeter::<u32, Sixteen>::size(&meter, total), Some(112));
}

#[test]
fn string_measure_counts_shallow_and_heap() {
    let meter = HeapSize;
    let empty = String::new();
    let w_empty = Meter::<String, String>::measure(&meter, "no allocation", &empty);
    assert_eq!(w_empty, std::mem::size_of::<String>());
    let filled = String::with_capacity(1024);
    let w_filled = Meter::<String, String>::measure(&meter, "big buffer", &filled);
    assert!(w_filled >= std::mem::size_of::<String>() + 1024);
}

#[test]
fn weigh_adds_footprint_and_shallow_size() {
    assert_eq!(weigh(0, 16), 16);
    assert_eq!(weigh(100, 24), 124);
    assert_eq!(weigh(usize::MAX - 5, 5), usize::MAX);
    assert_eq!(weigh(usize::MAX, 1), usize::MAX);
}

#[test]
fn byte_vec_measure_counts_shallow_and_heap() {
    let meter = HeapSize;
    let empty: Vec<u8> = Vec::new();
    let w_empty = Meter::<String, Vec<u8>>::measure(&meter, "no allocation", &empty);
    assert_eq!(w_empty, std::mem::size_of::<Vec<u8>>());
    let filled: Vec<u8> = Vec::with_capacity(1024);
    let w_filled = Meter::<String, Vec<u8>>::measure(&meter, "big buffer", &filled);
    assert!(w_filled >= std::mem::size_of::<Vec<u8>>() + 1024);
}
