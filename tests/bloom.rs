use aabel_bloom_rs::{BloomFilter, HashFamily, DEFAULT_HASH_COUNT, DEFAULT_WORDS, WORD_BITS};
use aabel_multihash_rs::{BuildHasherExt, BuildPairHasher};

fn ones(filter: &BloomFilter) -> usize {
    (0..filter.num_bits()).filter(|&i| filter.bit(i)).count()
}

fn bits(filter: &BloomFilter) -> Vec<bool> {
    (0..filter.num_bits()).map(|i| filter.bit(i)).collect()
}

#[test]
fn insert_contains() {
    let keys1 = (0, 0);
    let keys2 = (1, 1);
    let builder = HashFamily::new_with_keys(keys1, keys2);

    let mut filter = BloomFilter::new(builder);

    // Insert an item in the bloom filter.
    let item = "Hello world!";
    filter.insert(item);

    // Check if the item is in the filter
    let res = filter.contains(item);
    assert!(res)
}

#[test]
fn bloom_filter() {
    let keys1 = (0, 0);
    let keys2 = (1, 1);
    let builder = HashFamily::new_with_keys(keys1, keys2);

    let mut filter = BloomFilter::new(builder);

    let item = "Hello world!";

    // Insert an item in the bloom filter.
    filter.insert(item);
    filter.insert("Tessting testing");
    filter.insert("Rust rocks");
    filter.insert("In Rust we trust");

    // Check if the item is in the filter
    let res = filter.contains(item);
    assert!(res)
}

#[test]
fn default_shape() {
    let filter = BloomFilter::new(HashFamily::new_with_keys((0, 0), (1, 1)));
    assert_eq!(filter.num_bits(), 6400);
    assert_eq!(filter.num_bits(), DEFAULT_WORDS * WORD_BITS);
    assert_eq!(filter.hash_count(), 10);
    assert_eq!(filter.hash_count(), DEFAULT_HASH_COUNT);
    assert_eq!(ones(&filter), 0);
    let family = filter.family();
    assert_eq!(family.keys1, (0, 0));
    assert_eq!(family.keys2, (1, 1));
}

#[test]
fn scenario_four_items() {
    let mut filter = BloomFilter::new(HashFamily::new_with_keys((0, 0), (1, 1)));
    filter.insert("Hello world!");
    filter.insert("Testing testing");
    filter.insert("Rust rocks");
    filter.insert("In Rust we trust");
    assert!(filter.contains("Hello world!"));
    assert!(filter.contains("Testing testing"));
    assert!(filter.contains("Rust rocks"));
    assert!(filter.contains("In Rust we trust"));
    assert!(!filter.contains("unseen-item-xyz"));
    let set = ones(&filter);
    assert!(set > 0 && set <= 40);
}

#[test]
fn empty_filter_reports_absent() {
    let filter = BloomFilter::new(HashFamily::new_with_keys((3, 4), (5, 6)));
    for item in ["", "a", "Hello world!", "unseen-item-xyz", "In Rust we trust"] {
        assert!(!filter.contains(item));
    }
}

#[test]
fn no_false_negatives_after_more_inserts() {
    let mut filter = BloomFilter::with_params(HashFamily::new_with_keys((0, 0), (1, 1)), 2, 5);
    filter.insert("first");
    assert!(filter.contains("first"));
    for i in 0..100 {
        filter.insert(&format!("other-{}", i));
        assert!(filter.contains("first"));
    }
}

#[test]
fn insert_twice_is_idempotent() {
    let family = HashFamily::new_with_keys((7, 8), (9, 10));
    let mut once = BloomFilter::new(family);
    let mut twice = BloomFilter::new(family);
    once.insert("Rust rocks");
    twice.insert("Rust rocks");
    let after_first = bits(&twice);
    twice.insert("Rust rocks");
    assert_eq!(bits(&twice), after_first);
    assert_eq!(bits(&once), bits(&twice));
}

#[test]
fn same_keys_same_filter() {
    let mut a = BloomFilter::with_params(HashFamily::new_with_keys((0, 0), (1, 1)), 3, 7);
    let mut b = BloomFilter::with_params(HashFamily::new_with_keys((0, 0), (1, 1)), 3, 7);
    for item in ["x", "y", "z", "Hello world!"] {
        a.insert(item);
        b.insert(item);
    }
    assert_eq!(bits(&a), bits(&b));
    for item in ["x", "w", "Hello world!", "nothing"] {
        assert_eq!(a.contains(item), b.contains(item));
    }
}

#[test]
fn other_keys_other_bits() {
    let mut a = BloomFilter::new(HashFamily::new_with_keys((0, 0), (1, 1)));
    let mut b = BloomFilter::new(HashFamily::new_with_keys((2, 2), (3, 3)));
    a.insert("Hello world!");
    b.insert("Hello world!");
    assert_ne!(bits(&a), bits(&b));
}

#[test]
fn set_bits_never_decrease() {
    let mut filter = BloomFilter::with_params(HashFamily::new_with_keys((1, 2), (3, 4)), 1, 4);
    let mut before = bits(&filter);
    for i in 0..50 {
        filter.insert(&format!("item {}", i));
        let after = bits(&filter);
        for j in 0..after.len() {
            assert!(!before[j] || after[j]);
        }
        before = after;
    }
}

#[test]
fn single_hash_sets_one_bit() {
    let mut filter = BloomFilter::with_params(HashFamily::new_with_keys((0, 0), (1, 1)), 1, 1);
    filter.insert("Hello world!");
    assert_eq!(ones(&filter), 1);
    assert!(filter.contains("Hello world!"));
}

#[test]
fn saturation_reports_everything() {
    let mut a = BloomFilter::with_params(HashFamily::new_with_keys((0, 0), (1, 1)), 1, 64);
    let mut b = BloomFilter::with_params(HashFamily::new_with_keys((0, 0), (1, 1)), 1, 64);
    let mut counts = Vec::new();
    for i in 0..200 {
        let item = format!("item {}", i);
        a.insert(&item);
        b.insert(&item);
        counts.push(ones(&a));
    }
    assert!(counts.windows(2).all(|w| w[0] <= w[1]));
    assert_eq!(bits(&a), bits(&b));
    assert_eq!(ones(&a), 64);
    assert!(a.contains("never inserted"));
    assert!(a.contains(""));
}

#[test]
fn hash_values_select_bits_modulo_size() {
    let mut filter = BloomFilter::with_params(HashFamily::new_with_keys((0, 0), (1, 1)), 1, 3);
    filter.insert_hashes(&vec![0, 65, 127]);
    assert_eq!(ones(&filter), 3);
    assert!(filter.bit(0));
    assert!(filter.bit(1));
    assert!(filter.bit(63));
    assert!(filter.contains_hashes(&vec![64, 63, 129]));
    assert!(!filter.contains_hashes(&vec![64, 2]));
    assert!(filter.contains_hashes(&vec![]));
    filter.insert_hashes(&vec![u64::MAX]);
    assert!(filter.bit(63));
    assert_eq!(ones(&filter), 3);
}

#[test]
fn item_bits_follow_pair_hasher() {
    let mut filter = BloomFilter::with_params(HashFamily::new_with_keys((0, 0), (1, 1)), 2, 6);
    filter.insert("Rust rocks");
    let hashes: Vec<u64> = BuildPairHasher::new_with_keys((0, 0), (1, 1))
        .hashes_one("Rust rocks")
        .take(6)
        .map(u64::from)
        .collect();
    assert_eq!(hashes.len(), 6);
    let mut expected = vec![false; 128];
    for h in &hashes {
        expected[(h % 128) as usize] = true;
    }
    assert_eq!(bits(&filter), expected);
    assert!(filter.contains_hashes(&hashes));
}

#[test]
fn zero_hash_count_reports_everything() {
    let filter = BloomFilter::with_params(HashFamily::new_with_keys((0, 0), (1, 1)), 1, 0);
    assert!(filter.contains("anything"));
}
