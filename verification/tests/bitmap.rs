use a10::bitmap::{is_unset, AtomicBitMap};

fn setting_and_unsetting(entries: usize) {
    let mut map = AtomicBitMap::new(entries);
    assert_eq!(map.capacity(), entries);

    // Ask for all indices.
    for n in 0..entries {
        assert!(matches!(map.next_available(), Some(i) if i == n));
    }
    // All bits should be set.
    for data in map.words() {
        assert!(*data == usize::MAX as u64);
    }
    // No more indices left.
    assert!(matches!(map.next_available(), None));

    // Test unsetting an index not in order.
    map.make_available(63);
    map.make_available(0);
    assert!(matches!(map.next_available(), Some(i) if i == 0));
    assert!(matches!(map.next_available(), Some(i) if i == 63));

    // Unset all indices again.
    for n in (0..entries).into_iter().rev() {
        map.make_available(n);
    }
    // Bitmap should be zeroed.
    for data in map.words() {
        assert!(*data == 0);
    }
    // Next avaiable index should be 0 again.
    assert!(matches!(map.next_available(), Some(i) if i == 0));
}

#[test]
fn setting_and_unsetting_one() {
    setting_and_unsetting(64)
}

#[test]
fn setting_and_unsetting_two() {
    setting_and_unsetting(128)
}

#[test]
fn setting_and_unsetting_three() {
    setting_and_unsetting(192)
}

#[test]
fn setting_and_unsetting_four() {
    setting_and_unsetting(256)
}

#[test]
fn setting_and_unsetting_eight() {
    setting_and_unsetting(512)
}

#[test]
fn setting_and_unsetting_sixteen() {
    setting_and_unsetting(1024)
}

#[test]
fn capacity_rounds_up_to_whole_words() {
    assert_eq!(AtomicBitMap::new(0).capacity(), 0);
    assert_eq!(AtomicBitMap::new(1).capacity(), 64);
    assert_eq!(AtomicBitMap::new(65).capacity(), 128);
}

#[test]
fn empty_bitmap_has_nothing_available() {
    let mut map = AtomicBitMap::new(0);
    assert_eq!(map.next_available(), None);
}

#[test]
fn released_index_is_handed_out_again() {
    let mut map = AtomicBitMap::new(128);
    for _ in 0..100 {
        map.next_available();
    }
    map.make_available(70);
    assert_eq!(map.next_available(), Some(70));
    assert_eq!(map.next_available(), Some(100));
    assert_eq!(map.words()[1], (1u64 << 37) - 1);
}

#[test]
fn is_unset_reads_single_bits() {
    assert!(is_unset(0, 0));
    assert!(!is_unset(1, 0));
    assert!(is_unset(0b10, 0));
    assert!(!is_unset(1 << 63, 63));
    assert!(is_unset(u64::MAX >> 1, 63));
}

#[test]
fn setting_and_unsetting_interleaved() {
    const N: usize = 4;
    const M: usize = 1024;
    let mut map = AtomicBitMap::new(N * M);
    let mut held = Vec::new();
    for i in 0..N {
        if i % 2 == 0 {
            for _ in 0..M {
                held.push(map.next_available().expect("failed to get index"));
            }
        } else {
            for _ in 0..M {
                let idx = map.next_available().expect("failed to get index");
                map.make_available(idx);
            }
        }
    }
    for idx in held {
        map.make_available(idx);
    }
    for data in map.words() {
        assert!(*data == 0);
    }
}
