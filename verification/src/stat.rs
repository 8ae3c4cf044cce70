//! Statistics: which counter each published metric is taken from, and how a
//! list of them is resolved against the tables read on a tick.

use vstd::prelude::*;
use crate::table::{count_or_zero, CounterTableSnapshot};

verus! {

/// An externally defined statistic: the table and key that hold its counter,
/// and the identity under which it is published.
#[derive(Debug)]
pub struct StatisticDescriptor {
    pub table_name: String,
    pub entry_key: String,
    pub external_identity: u64,
}

/// A statistic descriptor as a mathematical value.
pub struct DescriptorView {
    pub table_name: Seq<char>,
    pub entry_key: Seq<char>,
    pub external_identity: u64,
}

impl View for StatisticDescriptor {
    type V = DescriptorView;

    open spec fn view(&self) -> DescriptorView {
        DescriptorView {
            table_name: self.table_name@,
            entry_key: self.entry_key@,
            external_identity: self.external_identity,
        }
    }
}

impl StatisticDescriptor {
    /// A descriptor of the counter stored under `entry_key` in `table_name`.
    pub fn new(table_name: String, entry_key: String, external_identity: u64) -> (descriptor:
        StatisticDescriptor)
        ensures
            descriptor.table_name == table_name,
            descriptor.entry_key == entry_key,
            descriptor.external_identity == external_identity,
    {
        StatisticDescriptor { table_name, entry_key, external_identity }
    }

    /// A copy of this descriptor.
    pub fn duplicate(&self) -> (copy: StatisticDescriptor)
        ensures
            copy@ == self@,
    {
        StatisticDescriptor {
            table_name: self.table_name.clone(),
            entry_key: self.entry_key.clone(),
            external_identity: self.external_identity,
        }
    }
}

/// The value of one statistic on a snapshot: the count stored under its key
/// in its table, or zero where either is missing.
pub open spec fn resolved_value(
    snapshot: Map<Seq<char>, Map<Seq<char>, u64>>,
    descriptor: DescriptorView,
) -> u64 {
    count_or_zero(snapshot, descriptor.table_name, descriptor.entry_key)
}

/// A list of descriptors as a mathematical value.
pub open spec fn descriptors(stats: Seq<StatisticDescriptor>) -> Seq<DescriptorView> {
    Seq::new(stats.len(), |i: int| stats[i]@)
}

/// The values of a list of statistics on a snapshot, in the order of the list.
pub open spec fn resolution(
    snapshot: Map<Seq<char>, Map<Seq<char>, u64>>,
    stats: Seq<DescriptorView>,
) -> Seq<(DescriptorView, u64)> {
    Seq::new(stats.len(), |i: int| (stats[i], resolved_value(snapshot, stats[i])))
}

/// A list of resolved statistics as a mathematical value.
pub open spec fn resolved_view(resolved: Seq<(StatisticDescriptor, u64)>) -> Seq<
    (DescriptorView, u64),
> {
    Seq::new(resolved.len(), |i: int| (resolved[i].0@, resolved[i].1))
}

/// Resolves every statistic of `stats` against `snapshot`.
///
/// The result has one pair for each descriptor, in the order of `stats`: the
/// descriptor and the count found for it, zero where the snapshot lacks the
/// table or the table lacks the key.
pub fn resolve(snapshot: &CounterTableSnapshot, stats: &Vec<StatisticDescriptor>) -> (resolved:
    Vec<(StatisticDescriptor, u64)>)
    ensures
        resolved@.len() == stats@.len(),
        forall|i: int|
            0 <= i < stats@.len() ==> (#[trigger] resolved@[i]).0@ == stats@[i]@
                && resolved@[i].1 == resolved_value(snapshot@, stats@[i]@),
        resolved_view(resolved@) == resolution(snapshot@, descriptors(stats@)),
{
    let mut resolved: Vec<(StatisticDescriptor, u64)> = Vec::new();
    let mut i: usize = 0;
    while i < stats.len()
        invariant
            i <= stats@.len(),
            resolved@.len() == i,
            forall|j: int|
                0 <= j < i ==> (#[trigger] resolved@[j]).0@ == stats@[j]@ && resolved@[j].1
                    == resolved_value(snapshot@, stats@[j]@),
        decreases stats@.len() - i,
    {
        let value = snapshot.lookup(&stats[i].table_name, &stats[i].entry_key);
        resolved.push((stats[i].duplicate(), value));
        i += 1;
    }
    proof {
        assert(resolved_view(resolved@) =~= resolution(snapshot@, descriptors(stats@)));
    }
    resolved
}

/// Resolving is a function of what the snapshot and the descriptors hold:
/// equal snapshots and equal descriptor lists give equal results, so a
/// second resolution of the same inputs repeats the first.
pub proof fn resolve_is_repeatable(
    first: CounterTableSnapshot,
    second: CounterTableSnapshot,
    stats: Seq<StatisticDescriptor>,
    again: Seq<StatisticDescriptor>,
)
    requires
        first@ == second@,
        stats.len() == again.len(),
        forall|i: int| 0 <= i < stats.len() ==> stats[i]@ == again[i]@,
    ensures
        resolution(first@, descriptors(stats)) == resolution(second@, descriptors(again)),
{
    assert(descriptors(stats) =~= descriptors(again));
}

} // verus!
