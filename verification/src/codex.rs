//! The codex: how often each species has been caught.

use crate::common::same_text;
use vstd::prelude::*;
use vstd::string::StringExecFns;

verus! {

/// One line of the codex.
#[derive(Debug)]
pub struct Record {
    pub id: String,
    pub count: u32,
}

impl Clone for Record {
    fn clone(&self) -> (r: Self)
        ensures
            r == *self,
    {
        Record { id: self.id.clone(), count: self.count }
    }
}

/// Captures recorded for a species in a list of records: the count of the
/// first record with that id, and zero where there is none.
pub open spec fn count_in(records: Seq<Record>, id: Seq<char>) -> nat
    decreases records.len(),
{
    if records.len() == 0 {
        0
    } else if records[0].id@ == id {
        records[0].count as nat
    } else {
        count_in(records.drop_first(), id)
    }
}

/// Captures recorded in a list of records, all species together.
pub open spec fn sum_of(records: Seq<Record>) -> nat
    decreases records.len(),
{
    if records.len() == 0 {
        0
    } else {
        records.last().count as nat + sum_of(records.drop_last())
    }
}

/// The records as plain values: species and count of each, in order.
#[verifier::opaque]
pub open spec fn ledger_of(records: Seq<Record>) -> Seq<(Seq<char>, u32)> {
    Seq::new(records.len(), |i: int| (records[i].id@, records[i].count))
}

/// A ledger after the count of a species was set: in the place of the
/// first entry about the species, or at the end where there is none.
#[verifier::opaque]
pub open spec fn put(ledger: Seq<(Seq<char>, u32)>, id: Seq<char>, count: u32) -> Seq<
    (Seq<char>, u32),
>
    decreases ledger.len(),
{
    if ledger.len() == 0 {
        seq![(id, count)]
    } else if ledger[0].0 == id {
        ledger.update(0, (id, count))
    } else {
        seq![ledger[0]] + put(ledger.drop_first(), id, count)
    }
}

/// Setting the count of a species whose first entry is at `at` changes
/// that entry.
pub proof fn lemma_put_at(ledger: Seq<(Seq<char>, u32)>, id: Seq<char>, count: u32, at: int)
    requires
        0 <= at < ledger.len(),
        ledger[at].0 == id,
        forall|k: int| 0 <= k < at ==> ledger[k].0 != id,
    ensures
        put(ledger, id, count) == ledger.update(at, (id, count)),
    decreases at,
{
    reveal(put);
    if at > 0 {
        let rest = ledger.drop_first();
        assert forall|k: int| 0 <= k < at - 1 implies rest[k].0 != id by {
            assert(rest[k] == ledger[k + 1]);
        }
        lemma_put_at(rest, id, count, at - 1);
        assert(seq![ledger[0]] + rest.update(at - 1, (id, count)) =~= ledger.update(
            at,
            (id, count),
        ));
    }
}

/// Setting the count of a species without an entry adds one at the end.
pub proof fn lemma_put_absent(ledger: Seq<(Seq<char>, u32)>, id: Seq<char>, count: u32)
    requires
        forall|k: int| 0 <= k < ledger.len() ==> ledger[k].0 != id,
    ensures
        put(ledger, id, count) == ledger.push((id, count)),
    decreases ledger.len(),
{
    reveal(put);
    if ledger.len() > 0 {
        let rest = ledger.drop_first();
        assert forall|k: int| 0 <= k < rest.len() implies rest[k].0 != id by {
            assert(rest[k] == ledger[k + 1]);
        }
        lemma_put_absent(rest, id, count);
        assert(seq![ledger[0]] + rest.push((id, count)) =~= ledger.push((id, count)));
    }
}

/// Whether no two records are about the same species.
pub open spec fn distinct_ids(records: Seq<Record>) -> bool {
    forall|a: int, b: int| 0 <= a < b < records.len() ==> records[a].id@ != records[b].id@
}

/// Where species `id` has its record, if it has one.
pub open spec fn position_of(records: Seq<Record>, id: Seq<char>, at: int) -> bool {
    0 <= at < records.len() && records[at].id@ == id
}

/// The count of a species with a record at `at` is the count of that record.
pub proof fn lemma_count_at(records: Seq<Record>, id: Seq<char>, at: int)
    requires
        distinct_ids(records),
        position_of(records, id, at),
    ensures
        count_in(records, id) == records[at].count,
    decreases records.len(),
{
    if at > 0 {
        let rest = records.drop_first();
        assert(records[0].id@ != records[at].id@);
        assert forall|a: int, b: int| 0 <= a < b < rest.len() implies rest[a].id@ != rest[b].id@ by {
            assert(rest[a] == records[a + 1]);
            assert(rest[b] == records[b + 1]);
        }
        lemma_count_at(rest, id, at - 1);
    }
}

/// A species without a record has count zero.
pub proof fn lemma_count_absent(records: Seq<Record>, id: Seq<char>)
    requires
        forall|a: int| 0 <= a < records.len() ==> records[a].id@ != id,
    ensures
        count_in(records, id) == 0,
    decreases records.len(),
{
    if records.len() > 0 {
        let rest = records.drop_first();
        assert forall|a: int| 0 <= a < rest.len() implies rest[a].id@ != id by {
            assert(rest[a] == records[a + 1]);
        }
        lemma_count_absent(rest, id);
    }
}

/// Appending a record for a species leaves the counts of all others as
/// they were, and gives a species that had no record the new count.
pub proof fn lemma_count_push(records: Seq<Record>, added: Record, id: Seq<char>)
    ensures
        added.id@ != id ==> count_in(records.push(added), id) == count_in(records, id),
        (forall|a: int| 0 <= a < records.len() ==> records[a].id@ != id) && added.id@ == id
            ==> count_in(records.push(added), id) == added.count,
    decreases records.len(),
{
    let longer = records.push(added);
    if records.len() == 0 {
        assert(longer.drop_first() =~= Seq::<Record>::empty());
        assert(count_in(longer.drop_first(), id) == 0);
        assert(longer[0] == added);
    } else {
        assert(longer[0] == records[0]);
        assert(longer.drop_first() =~= records.drop_first().push(added));
        if records[0].id@ != id {
            let rest = records.drop_first();
            if forall|a: int| 0 <= a < records.len() ==> records[a].id@ != id {
                assert forall|a: int| 0 <= a < rest.len() implies rest[a].id@ != id by {
                    assert(rest[a] == records[a + 1]);
                }
            }
            lemma_count_push(rest, added, id);
        }
    }
}

/// Changing the count of one record changes the count of its species and
/// of no other.
pub proof fn lemma_count_update(records: Seq<Record>, at: int, changed: Record, id: Seq<char>)
    requires
        0 <= at < records.len(),
        changed.id@ == records[at].id@,
    ensures
        changed.id@ != id ==> count_in(records.update(at, changed), id) == count_in(records, id),
    decreases records.len(),
{
    let updated = records.update(at, changed);
    if at == 0 {
        assert(updated.drop_first() =~= records.drop_first());
    } else {
        assert(updated[0] == records[0]);
        assert(updated.drop_first() =~= records.drop_first().update(at - 1, changed));
        if records[0].id@ != id {
            lemma_count_update(records.drop_first(), at - 1, changed, id);
        }
    }
}

/// Changing the count of one record changes the sum by the difference.
pub proof fn lemma_sum_update(records: Seq<Record>, at: int, changed: Record)
    requires
        0 <= at < records.len(),
    ensures
        sum_of(records.update(at, changed)) == sum_of(records) - records[at].count + changed.count,
    decreases records.len(),
{
    let updated = records.update(at, changed);
    if at == records.len() - 1 {
        assert(updated.drop_last() =~= records.drop_last());
    } else {
        assert(updated.last() == records.last());
        assert(updated.drop_last() =~= records.drop_last().update(at, changed));
        lemma_sum_update(records.drop_last(), at, changed);
    }
}

/// Appending a record adds its count to the sum.
pub proof fn lemma_sum_push(records: Seq<Record>, added: Record)
    ensures
        sum_of(records.push(added)) == sum_of(records) + added.count,
{
    assert(records.push(added).drop_last() =~= records);
}

/// No record counts more than all records together.
pub proof fn lemma_sum_bounds(records: Seq<Record>, at: int)
    requires
        0 <= at < records.len(),
    ensures
        records[at].count <= sum_of(records),
    decreases records.len(),
{
    if at < records.len() - 1 {
        lemma_sum_bounds(records.drop_last(), at);
    }
}

/// Capture counts by species id. A species that was never caught counts
/// zero. All counts together never exceed `u32::MAX`.
#[derive(Debug)]
pub struct Codex {
    records: Vec<Record>,
}

impl Codex {
    /// The records of the codex, one per species that was ever entered.
    pub closed spec fn records(self) -> Seq<Record> {
        self.records@
    }

    /// The codex as plain values: species and count of each record, in
    /// the order in which the species were first entered.
    pub open spec fn ledger(self) -> Seq<(Seq<char>, u32)> {
        ledger_of(self.records())
    }

    /// Captures recorded for a species.
    pub open spec fn count_of(self, id: Seq<char>) -> nat {
        count_in(self.records(), id)
    }

    /// Captures recorded for all species together.
    pub open spec fn total(self) -> nat {
        sum_of(self.records())
    }

    /// No species has two records, and all counts together fit in `u32`.
    pub closed spec fn wf(self) -> bool {
        distinct_ids(self.records@) && sum_of(self.records@) <= u32::MAX
    }

    /// Whether `self` is `before` with one more capture of species `id`
    /// recorded.
    pub open spec fn recorded(self, before: Codex, id: Seq<char>) -> bool {
        &&& self.wf()
        &&& self.ledger() == put(before.ledger(), id, (before.count_of(id) + 1) as u32)
        &&& self.count_of(id) == before.count_of(id) + 1
        &&& forall|other: Seq<char>| other != id ==> self.count_of(other) == before.count_of(other)
        &&& self.total() == before.total() + 1
    }

    /// An empty codex.
    pub fn new() -> (c: Self)
        ensures
            c.wf(),
            c.records() == Seq::<Record>::empty(),
            c.total() == 0,
            forall|id: Seq<char>| c.count_of(id) == 0,
    {
        Self { records: Vec::new() }
    }

    /// Index of the record of a species, if it has one.
    fn find(&self, id: &str) -> (r: Option<usize>)
        ensures
            match r {
                Some(at) => position_of(self.records(), id@, at as int),
                None => forall|a: int| 0 <= a < self.records().len() ==> self.records()[a].id@ != id@,
            },
    {
        let n = self.records.len();
        let mut a: usize = 0;
        while a < n
            invariant
                a <= n,
                n == self.records@.len(),
                forall|b: int| 0 <= b < a ==> self.records@[b].id@ != id@,
            decreases n - a,
        {
            if same_text(self.records[a].id.as_str(), id) {
                return Some(a);
            }
            a += 1;
        }
        None
    }

    /// Records one more capture of a species.
    pub fn record_capture(&mut self, id: &str)
        requires
            old(self).wf(),
            old(self).total() < u32::MAX,
        ensures
            final(self).recorded(*old(self), id@),
    {
        let ghost before = self.records@;
        match self.find(id) {
            Some(at) => {
                let count = self.records[at].count;
                proof {
                    lemma_sum_bounds(before, at as int);
                    lemma_count_at(before, id@, at as int);
                }
                let changed = Record { id: self.records[at].id.clone(), count: count + 1 };
                self.records.set(at, changed);
                proof {
                    reveal(ledger_of);
                    lemma_put_at(ledger_of(before), id@, changed.count, at as int);
                    assert(ledger_of(self.records@) =~= ledger_of(before).update(
                        at as int,
                        (id@, changed.count),
                    ));
                    lemma_sum_update(before, at as int, changed);
                    lemma_count_at(self.records@, id@, at as int);
                    assert forall|other: Seq<char>| other != id@ implies count_in(
                        self.records@,
                        other,
                    ) == count_in(before, other) by {
                        lemma_count_update(before, at as int, changed, other);
                    }
                }
            },
            None => {
                let added = Record { id: String::from_str(id), count: 1 };
                self.records.push(added);
                proof {
                    reveal(ledger_of);
                    lemma_put_absent(ledger_of(before), id@, 1);
                    assert(ledger_of(self.records@) =~= ledger_of(before).push((id@, 1u32)));
                    lemma_sum_push(before, added);
                    lemma_count_absent(before, id@);
                    lemma_count_push(before, added, id@);
                    assert forall|other: Seq<char>| other != id@ implies count_in(
                        self.records@,
                        other,
                    ) == count_in(before, other) by {
                        lemma_count_push(before, added, other);
                    }
                }
            },
        }
    }

    /// Captures recorded for a species.
    pub fn count(&self, id: &str) -> (n: u32)
        requires
            self.wf(),
        ensures
            n == self.count_of(id@),
            n <= self.total(),
    {
        match self.find(id) {
            Some(at) => {
                proof {
                    lemma_count_at(self.records@, id@, at as int);
                    lemma_sum_bounds(self.records@, at as int);
                }
                self.records[at].count
            },
            None => {
                proof {
                    assert(self.records() == self.records@);
                    lemma_count_absent(self.records@, id@);
                }
                0
            },
        }
    }

    /// Captures recorded for all species together.
    pub fn total_captures(&self) -> (n: u32)
        requires
            self.wf(),
        ensures
            n == self.total(),
    {
        let len = self.records.len();
        let mut sum: u32 = 0;
        let mut a: usize = 0;
        while a < len
            invariant
                a <= len,
                len == self.records@.len(),
                sum == sum_of(self.records@.subrange(0, a as int)),
                sum_of(self.records@) <= u32::MAX,
            decreases len - a,
        {
            proof {
                let upto = self.records@.subrange(0, a + 1);
                assert(upto.drop_last() =~= self.records@.subrange(0, a as int));
                lemma_sum_prefix(self.records@, a + 1);
            }
            sum = sum + self.records[a].count;
            a += 1;
        }
        assert(self.records@.subrange(0, len as int) =~= self.records@);
        sum
    }

    /// Sets the capture count of a species.
    pub fn set_count(&mut self, id: &str, count: u32)
        requires
            old(self).wf(),
            old(self).total() - old(self).count_of(id@) + count <= u32::MAX,
        ensures
            final(self).wf(),
            final(self).ledger() == put(old(self).ledger(), id@, count),
            final(self).count_of(id@) == count,
            forall|other: Seq<char>| other != id@ ==> final(self).count_of(other) == old(self).count_of(other),
            final(self).total() == old(self).total() - old(self).count_of(id@) + count,
    {
        let ghost before = self.records@;
        match self.find(id) {
            Some(at) => {
                proof {
                    lemma_count_at(before, id@, at as int);
                }
                let changed = Record { id: self.records[at].id.clone(), count };
                self.records.set(at, changed);
                proof {
                    reveal(ledger_of);
                    lemma_put_at(ledger_of(before), id@, count, at as int);
                    assert(ledger_of(self.records@) =~= ledger_of(before).update(
                        at as int,
                        (id@, count),
                    ));
                    lemma_sum_update(before, at as int, changed);
                    lemma_count_at(self.records@, id@, at as int);
                    assert forall|other: Seq<char>| other != id@ implies count_in(
                        self.records@,
                        other,
                    ) == count_in(before, other) by {
                        lemma_count_update(before, at as int, changed, other);
                    }
                }
            },
            None => {
                let added = Record { id: String::from_str(id), count };
                self.records.push(added);
                proof {
                    reveal(ledger_of);
                    lemma_put_absent(ledger_of(before), id@, count);
                    assert(ledger_of(self.records@) =~= ledger_of(before).push((id@, count)));
                    lemma_sum_push(before, added);
                    lemma_count_absent(before, id@);
                    lemma_count_push(before, added, id@);
                    assert forall|other: Seq<char>| other != id@ implies count_in(
                        self.records@,
                        other,
                    ) == count_in(before, other) by {
                        lemma_count_push(before, added, other);
                    }
                }
            },
        }
    }

    /// The records of the codex, for writing them out.
    pub fn entries(&self) -> (out: Vec<Record>)
        ensures
            out@ == self.records(),
    {
        let n = self.records.len();
        let mut out: Vec<Record> = Vec::new();
        let mut a: usize = 0;
        while a < n
            invariant
                a <= n,
                n == self.records@.len(),
                out@ == self.records@.subrange(0, a as int),
            decreases n - a,
        {
            out.push(self.records[a].clone());
            assert(out@ =~= self.records@.subrange(0, a + 1));
            a += 1;
        }
        assert(self.records@.subrange(0, n as int) =~= self.records@);
        out
    }
}

/// The records up to some point never count more than all of them.
pub proof fn lemma_sum_prefix(records: Seq<Record>, n: int)
    requires
        0 <= n <= records.len(),
    ensures
        sum_of(records.subrange(0, n)) <= sum_of(records),
    decreases records.len() - n,
{
    if n < records.len() {
        lemma_sum_prefix(records, n + 1);
        assert(records.subrange(0, n + 1).drop_last() =~= records.subrange(0, n));
    } else {
        assert(records.subrange(0, n) =~= records);
    }
}

impl Default for Codex {
    fn default() -> (c: Self)
        ensures
            c.wf(),
            c.records() == Seq::<Record>::empty(),
    {
        Codex::new()
    }
}

} // verus!
