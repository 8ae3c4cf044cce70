//! Counter tables: named collections of integer counters, keyed by short
//! strings, as they are read from the instrumentation program on each tick.

use vstd::prelude::*;
use vstd::utf8::{decode_utf8, valid_utf8};

verus! {

/// The text that the standard library's lossy conversion makes of a byte
/// string: the decoded characters where the bytes are valid UTF-8, and
/// otherwise the same with a replacement character for each invalid part.
pub uninterp spec fn lossy_text(bytes: Seq<u8>) -> Seq<char>;

/// Calls `String::from_utf8_lossy`. The result is named `lossy_text`; of
/// valid UTF-8, the documentation says that it is the decoded text.
#[verifier::external_body]
fn text_of(bytes: &[u8]) -> (text: String)
    ensures
        text@ == lossy_text(bytes@),
        valid_utf8(bytes@) ==> text@ == decode_utf8(bytes@),
{
    String::from_utf8_lossy(bytes).into_owned()
}

/// The bytes of a raw key that come before its first zero byte: all of them
/// where there is none.
pub open spec fn key_bytes(raw: Seq<u8>) -> Seq<u8>
    decreases raw.len(),
{
    if raw.len() == 0 || raw[0] == 0 {
        Seq::empty()
    } else {
        seq![raw[0]] + key_bytes(raw.drop_first())
    }
}

/// The number that a byte string stands for when its first byte counts
/// least.
pub open spec fn little_endian(bytes: Seq<u8>) -> nat
    decreases bytes.len(),
{
    if bytes.len() == 0 {
        0
    } else {
        bytes[0] as nat + 256 * little_endian(bytes.drop_first())
    }
}

/// The count that a raw value stands for: its first eight bytes, the first
/// counting least, and all of them where it has fewer.
pub open spec fn count_value(raw: Seq<u8>) -> nat {
    if raw.len() <= 8 {
        little_endian(raw)
    } else {
        little_endian(raw.take(8))
    }
}

/// The bound below which every number of `width` bytes lies.
pub open spec fn byte_limit(width: nat) -> nat
    decreases width,
{
    if width == 0 {
        1
    } else {
        256 * byte_limit((width - 1) as nat)
    }
}

/// A number of `bytes.len()` bytes lies below the limit of that width.
proof fn little_endian_is_bounded(bytes: Seq<u8>)
    ensures
        little_endian(bytes) < byte_limit(bytes.len()),
    decreases bytes.len(),
{
    if bytes.len() > 0 {
        little_endian_is_bounded(bytes.drop_first());
    }
}

/// Eight bytes hold every count of 64 bits and no other.
proof fn eight_bytes_fit()
    ensures
        byte_limit(8) == 0x1_0000_0000_0000_0000,
        forall|w: nat| w <= 8 ==> #[trigger] byte_limit(w) <= byte_limit(8),
{
    reveal_with_fuel(byte_limit, 9);
}

/// The short string form of a raw table key: the text of the bytes before
/// the first zero byte.
pub fn normalize_key(raw: &[u8]) -> (key: String)
    ensures
        key@ == lossy_text(key_bytes(raw@)),
        valid_utf8(key_bytes(raw@)) ==> key@ == decode_utf8(key_bytes(raw@)),
{
    let mut prefix: Vec<u8> = Vec::new();
    let mut i: usize = 0;
    proof {
        assert(raw@.skip(0) =~= raw@);
        assert(prefix@ + key_bytes(raw@) =~= key_bytes(raw@));
    }
    while i < raw.len() && raw[i] != 0
        invariant
            i <= raw@.len(),
            key_bytes(raw@) == prefix@ + key_bytes(raw@.skip(i as int)),
        decreases raw@.len() - i,
    {
        proof {
            assert(raw@.skip(i as int).drop_first() =~= raw@.skip(i + 1));
            assert(prefix@.push(raw@[i as int]) + key_bytes(raw@.skip(i + 1)) =~= prefix@ + (
            seq![raw@[i as int]] + key_bytes(raw@.skip(i + 1))));
        }
        prefix.push(raw[i]);
        i += 1;
    }
    proof {
        assert(key_bytes(raw@.skip(i as int)) =~= Seq::<u8>::empty());
        assert(prefix@ + Seq::<u8>::empty() =~= prefix@);
    }
    text_of(prefix.as_slice())
}

/// The count that a raw table value holds.
pub fn decode_count(raw: &[u8]) -> (count: u64)
    ensures
        count == count_value(raw@),
{
    let width: usize = if raw.len() <= 8 {
        raw.len()
    } else {
        8
    };
    let ghost bytes = raw@.take(width as int);
    proof {
        assert(raw@.len() <= 8 ==> bytes =~= raw@);
        eight_bytes_fit();
    }
    let mut count: u64 = 0;
    let mut i: usize = width;
    while i > 0
        invariant
            i <= width <= 8,
            width <= raw@.len(),
            bytes == raw@.take(width as int),
            count == little_endian(bytes.skip(i as int)),
        decreases i,
    {
        i -= 1;
        proof {
            assert(bytes.skip(i as int).drop_first() =~= bytes.skip(i + 1));
            little_endian_is_bounded(bytes.skip(i as int));
            eight_bytes_fit();
            assert(bytes.skip(i as int).len() <= 8);
            assert(bytes.skip(i as int)[0] == raw@[i as int]);
        }
        count = count * 256 + raw[i] as u64;
    }
    proof {
        assert(bytes.skip(0) =~= bytes);
    }
    count
}

/// One counter of a table: its key and its count.
#[derive(Debug)]
pub struct CounterEntry {
    pub key: String,
    pub count: u64,
}

/// One entry of a table as the instrumentation program holds it: a key and
/// a value, each a byte string.
#[derive(Debug)]
pub struct RawEntry {
    pub key: Vec<u8>,
    pub value: Vec<u8>,
}

/// A named table of counters in the order in which its entries were read.
///
/// An entry that comes later replaces an earlier one with the same key.
#[derive(Debug)]
pub struct CounterTable {
    pub name: String,
    pub entries: Vec<CounterEntry>,
}

/// The counter tables read on one tick.
///
/// A table that comes later replaces an earlier one with the same name.
#[derive(Debug)]
pub struct CounterTableSnapshot {
    pub tables: Vec<CounterTable>,
}

/// The mapping from key to count that a sequence of entries stands for.
pub open spec fn entries_map(entries: Seq<CounterEntry>) -> Map<Seq<char>, u64>
    decreases entries.len(),
{
    if entries.len() == 0 {
        Map::empty()
    } else {
        entries_map(entries.drop_last()).insert(entries.last().key@, entries.last().count)
    }
}

/// The mapping from table name to table contents that a sequence of tables
/// stands for.
pub open spec fn tables_map(tables: Seq<CounterTable>) -> Map<Seq<char>, Map<Seq<char>, u64>>
    decreases tables.len(),
{
    if tables.len() == 0 {
        Map::empty()
    } else {
        tables_map(tables.drop_last()).insert(tables.last().name@, tables.last()@)
    }
}

/// The count stored under `key` in table `table`, or zero where the table or
/// the key is missing.
pub open spec fn count_or_zero(
    snapshot: Map<Seq<char>, Map<Seq<char>, u64>>,
    table: Seq<char>,
    key: Seq<char>,
) -> u64 {
    if snapshot.contains_key(table) && snapshot[table].contains_key(key) {
        snapshot[table][key]
    } else {
        0
    }
}

impl View for CounterTable {
    type V = Map<Seq<char>, u64>;

    open spec fn view(&self) -> Map<Seq<char>, u64> {
        entries_map(self.entries@)
    }
}

impl View for CounterTableSnapshot {
    type V = Map<Seq<char>, Map<Seq<char>, u64>>;

    open spec fn view(&self) -> Map<Seq<char>, Map<Seq<char>, u64>> {
        tables_map(self.tables@)
    }
}

impl CounterEntry {
    /// The entry that a raw key and a raw value of a table stand for.
    pub fn from_raw(key: &[u8], value: &[u8]) -> (entry: CounterEntry)
        ensures
            entry.key@ == lossy_text(key_bytes(key@)),
            valid_utf8(key_bytes(key@)) ==> entry.key@ == decode_utf8(key_bytes(key@)),
            entry.count == count_value(value@),
    {
        CounterEntry { key: normalize_key(key), count: decode_count(value) }
    }
}

/// The entries that the raw entries of a table stand for, in the same
/// order: each key in its short string form, each value as a count.
pub fn materialize(raw: &Vec<RawEntry>) -> (entries: Vec<CounterEntry>)
    ensures
        entries@.len() == raw@.len(),
        forall|i: int|
            0 <= i < raw@.len() ==> {
                &&& (#[trigger] entries@[i]).key@ == lossy_text(key_bytes(raw@[i].key@))
                &&& valid_utf8(key_bytes(raw@[i].key@)) ==> entries@[i].key@ == decode_utf8(
                    key_bytes(raw@[i].key@),
                )
                &&& entries@[i].count == count_value(raw@[i].value@)
            },
{
    let mut entries: Vec<CounterEntry> = Vec::new();
    let mut i: usize = 0;
    while i < raw.len()
        invariant
            i <= raw@.len(),
            entries@.len() == i,
            forall|j: int|
                0 <= j < i ==> {
                    &&& (#[trigger] entries@[j]).key@ == lossy_text(key_bytes(raw@[j].key@))
                    &&& valid_utf8(key_bytes(raw@[j].key@)) ==> entries@[j].key@ == decode_utf8(
                        key_bytes(raw@[j].key@),
                    )
                    &&& entries@[j].count == count_value(raw@[j].value@)
                },
        decreases raw@.len() - i,
    {
        entries.push(CounterEntry::from_raw(raw[i].key.as_slice(), raw[i].value.as_slice()));
        i += 1;
    }
    entries
}

impl CounterTable {
    /// A table of the given name without entries.
    pub fn new(name: String) -> (table: CounterTable)
        ensures
            table.name == name,
            table.entries@.len() == 0,
            table@ == Map::<Seq<char>, u64>::empty(),
    {
        CounterTable { name, entries: Vec::new() }
    }

    /// Stores `count` under `key`, replacing what was stored there.
    pub fn insert(&mut self, key: String, count: u64)
        ensures
            final(self).name == old(self).name,
            final(self).entries@ == old(self).entries@.push(CounterEntry { key, count }),
            final(self)@ == old(self)@.insert(key@, count),
    {
        let ghost before = self.entries@;
        self.entries.push(CounterEntry { key, count });
        proof {
            assert(self.entries@.drop_last() =~= before);
        }
    }

    /// The count stored under `key`, if there is one.
    pub fn get(&self, key: &String) -> (count: Option<u64>)
        ensures
            count == (if self@.contains_key(key@) {
                Some(self@[key@])
            } else {
                None
            }),
    {
        let mut found: Option<u64> = None;
        let mut i: usize = 0;
        while i < self.entries.len()
            invariant
                i <= self.entries@.len(),
                found == (if entries_map(self.entries@.take(i as int)).contains_key(key@) {
                    Some(entries_map(self.entries@.take(i as int))[key@])
                } else {
                    None
                }),
            decreases self.entries@.len() - i,
        {
            proof {
                assert(self.entries@.take(i + 1).drop_last() =~= self.entries@.take(i as int));
            }
            if self.entries[i].key == *key {
                found = Some(self.entries[i].count);
            }
            i += 1;
        }
        proof {
            assert(self.entries@.take(i as int) =~= self.entries@);
        }
        found
    }
}

impl CounterTableSnapshot {
    /// A snapshot without tables.
    pub fn new() -> (snapshot: CounterTableSnapshot)
        ensures
            snapshot.tables@.len() == 0,
            snapshot@ == Map::<Seq<char>, Map<Seq<char>, u64>>::empty(),
    {
        CounterTableSnapshot { tables: Vec::new() }
    }

    /// Adds a table, replacing one of the same name.
    pub fn insert(&mut self, table: CounterTable)
        ensures
            final(self).tables@ == old(self).tables@.push(table),
            final(self)@ == old(self)@.insert(table.name@, table@),
    {
        let ghost before = self.tables@;
        self.tables.push(table);
        proof {
            assert(self.tables@.drop_last() =~= before);
        }
    }

    /// The count stored under `key` in the table named `table`, or zero where
    /// the snapshot has no such table or the table has no such key.
    pub fn lookup(&self, table: &String, key: &String) -> (count: u64)
        ensures
            count == count_or_zero(self@, table@, key@),
    {
        let mut found: u64 = 0;
        let mut i: usize = 0;
        while i < self.tables.len()
            invariant
                i <= self.tables@.len(),
                found == count_or_zero(tables_map(self.tables@.take(i as int)), table@, key@),
            decreases self.tables@.len() - i,
        {
            proof {
                assert(self.tables@.take(i + 1).drop_last() =~= self.tables@.take(i as int));
            }
            if self.tables[i].name == *table {
                found = match self.tables[i].get(key) {
                    Some(count) => count,
                    None => 0,
                };
            }
            i += 1;
        }
        proof {
            assert(self.tables@.take(i as int) =~= self.tables@);
        }
        found
    }
}

} // verus!
