use krb5kdc_sampler::stat::{resolve, StatisticDescriptor};
use krb5kdc_sampler::table::{
    decode_count, materialize, normalize_key, CounterEntry, CounterTable, CounterTableSnapshot,
    RawEntry,
};

fn descriptor(table: &str, key: &str, identity: u64) -> StatisticDescriptor {
    StatisticDescriptor::new(table.to_string(), key.to_string(), identity)
}

fn example_snapshot() -> CounterTableSnapshot {
    let mut a = CounterTable::new("counts_A".to_string());
    a.insert("x".to_string(), 5);
    let b = CounterTable::new("counts_B".to_string());
    let mut snapshot = CounterTableSnapshot::new();
    snapshot.insert(a);
    snapshot.insert(b);
    snapshot
}

#[test]
fn resolve_example_gives_five_zero_zero() {
    let snapshot = example_snapshot();
    let stats = vec![
        descriptor("counts_A", "x", 1),
        descriptor("counts_B", "x", 2),
        descriptor("counts_C", "x", 3),
    ];
    let resolved = resolve(&snapshot, &stats);
    let values: Vec<u64> = resolved.iter().map(|pair| pair.1).collect();
    assert_eq!(values, vec![5, 0, 0]);
}

#[test]
fn resolve_keeps_length_and_order() {
    let snapshot = example_snapshot();
    let stats = vec![
        descriptor("counts_C", "x", 30),
        descriptor("counts_A", "y", 11),
        descriptor("counts_A", "x", 10),
        descriptor("counts_A", "x", 12),
    ];
    let resolved = resolve(&snapshot, &stats);
    assert_eq!(resolved.len(), stats.len());
    for i in 0..stats.len() {
        assert_eq!(resolved[i].0.table_name, stats[i].table_name);
        assert_eq!(resolved[i].0.entry_key, stats[i].entry_key);
        assert_eq!(resolved[i].0.external_identity, stats[i].external_identity);
    }
    let values: Vec<u64> = resolved.iter().map(|pair| pair.1).collect();
    assert_eq!(values, vec![0, 0, 5, 5]);
}

#[test]
fn resolve_of_no_descriptors_is_empty() {
    let snapshot = example_snapshot();
    let resolved = resolve(&snapshot, &Vec::new());
    assert!(resolved.is_empty());
}

#[test]
fn resolve_on_empty_snapshot_is_all_zero() {
    let snapshot = CounterTableSnapshot::new();
    let stats = vec![descriptor("counts_A", "x", 1), descriptor("counts_B", "x", 2)];
    let values: Vec<u64> = resolve(&snapshot, &stats).iter().map(|pair| pair.1).collect();
    assert_eq!(values, vec![0, 0]);
}

#[test]
fn resolve_twice_gives_the_same() {
    let snapshot = example_snapshot();
    let stats = vec![
        descriptor("counts_A", "x", 1),
        descriptor("counts_B", "x", 2),
        descriptor("counts_C", "x", 3),
    ];
    let first = resolve(&snapshot, &stats);
    let second = resolve(&snapshot, &stats);
    assert_eq!(first.len(), second.len());
    for i in 0..first.len() {
        assert_eq!(first[i].0.table_name, second[i].0.table_name);
        assert_eq!(first[i].0.entry_key, second[i].0.entry_key);
        assert_eq!(first[i].0.external_identity, second[i].0.external_identity);
        assert_eq!(first[i].1, second[i].1);
    }
    assert_eq!(snapshot.tables.len(), 2);
    assert_eq!(snapshot.tables[0].entries.len(), 1);
}

#[test]
fn duplicate_descriptor_copies_every_field() {
    let original = descriptor("counts_A", "x", 77);
    let copy = original.duplicate();
    assert_eq!(copy.table_name, "counts_A");
    assert_eq!(copy.entry_key, "x");
    assert_eq!(copy.external_identity, 77);
}

#[test]
fn later_entry_replaces_earlier_one() {
    let mut table = CounterTable::new("t".to_string());
    table.insert("k".to_string(), 1);
    table.insert("other".to_string(), 9);
    table.insert("k".to_string(), 2);
    assert_eq!(table.get(&"k".to_string()), Some(2));
    assert_eq!(table.get(&"other".to_string()), Some(9));
    assert_eq!(table.get(&"missing".to_string()), None);
}

#[test]
fn later_table_replaces_earlier_one() {
    let mut first = CounterTable::new("t".to_string());
    first.insert("k".to_string(), 1);
    first.insert("only_first".to_string(), 4);
    let mut second = CounterTable::new("t".to_string());
    second.insert("k".to_string(), 2);
    let mut snapshot = CounterTableSnapshot::new();
    snapshot.insert(first);
    snapshot.insert(second);
    assert_eq!(snapshot.lookup(&"t".to_string(), &"k".to_string()), 2);
    assert_eq!(snapshot.lookup(&"t".to_string(), &"only_first".to_string()), 0);
    assert_eq!(snapshot.lookup(&"u".to_string(), &"k".to_string()), 0);
}

#[test]
fn lookup_of_stored_zero_is_zero() {
    let mut table = CounterTable::new("t".to_string());
    table.insert("k".to_string(), 0);
    assert_eq!(table.get(&"k".to_string()), Some(0));
    let mut snapshot = CounterTableSnapshot::new();
    snapshot.insert(table);
    assert_eq!(snapshot.lookup(&"t".to_string(), &"k".to_string()), 0);
}

#[test]
fn key_ends_at_first_zero_byte() {
    assert_eq!(normalize_key(b"x\0\0\0"), "x");
    assert_eq!(normalize_key(b"ab\0cd\0"), "ab");
    assert_eq!(normalize_key(b"\0abc"), "");
    assert_eq!(normalize_key(b""), "");
}

#[test]
fn key_without_zero_byte_is_kept_whole() {
    assert_eq!(normalize_key(b"abc"), "abc");
    assert_eq!(normalize_key("gr\u{fc}n".as_bytes()), "gr\u{fc}n");
}

#[test]
fn key_of_invalid_bytes_gets_replacement_character() {
    assert_eq!(normalize_key(&[b'a', 0xff, b'b', 0, b'c']), "a\u{fffd}b");
}

#[test]
fn count_is_little_endian() {
    assert_eq!(decode_count(&[5, 0, 0, 0, 0, 0, 0, 0]), 5);
    assert_eq!(decode_count(&[0, 1, 0, 0, 0, 0, 0, 0]), 256);
    assert_eq!(decode_count(&[0x08, 0x07, 0x06, 0x05, 0x04, 0x03, 0x02, 0x01]), 0x0102030405060708);
    assert_eq!(decode_count(&[0xff; 8]), u64::MAX);
}

#[test]
fn count_of_short_value_pads_with_zero() {
    assert_eq!(decode_count(&[]), 0);
    assert_eq!(decode_count(&[7]), 7);
    assert_eq!(decode_count(&[1, 2, 3, 4]), 0x04030201);
}

#[test]
fn count_of_long_value_takes_first_eight_bytes() {
    assert_eq!(decode_count(&[1, 0, 0, 0, 0, 0, 0, 0, 9, 9]), 1);
    assert_eq!(decode_count(&[0xff; 12]), u64::MAX);
}

#[test]
fn entry_from_raw_normalizes_key_and_decodes_count() {
    let entry = CounterEntry::from_raw(b"x\0\0\0\0\0\0\0", &[5, 0, 0, 0, 0, 0, 0, 0]);
    assert_eq!(entry.key, "x");
    assert_eq!(entry.count, 5);
}

#[test]
fn materialize_keeps_order() {
    let raw = vec![
        RawEntry { key: b"b\0".to_vec(), value: vec![2, 0, 0, 0, 0, 0, 0, 0] },
        RawEntry { key: b"a\0".to_vec(), value: vec![1, 1, 0, 0, 0, 0, 0, 0] },
    ];
    let entries = materialize(&raw);
    assert_eq!(entries.len(), 2);
    assert_eq!(entries[0].key, "b");
    assert_eq!(entries[0].count, 2);
    assert_eq!(entries[1].key, "a");
    assert_eq!(entries[1].count, 257);
    assert!(materialize(&Vec::new()).is_empty());
}
