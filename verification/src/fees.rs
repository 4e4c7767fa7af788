//! A table of fees by denomination.

use vstd::prelude::*;

verus! {

/// The table that holds the pairs of `entries`; of two pairs with one key the
/// later stands.
pub open spec fn table_of(entries: Seq<(Seq<char>, u128)>) -> Map<Seq<char>, u128>
    decreases entries.len(),
{
    if entries.len() == 0 {
        Map::empty()
    } else {
        table_of(entries.drop_last()).insert(entries.last().0, entries.last().1)
    }
}

/// No key occurs twice.
pub open spec fn distinct_keys(entries: Seq<(Seq<char>, u128)>) -> bool {
    forall|i: int, j: int| 0 <= i < j < entries.len() ==> entries[i].0 != entries[j].0
}

pub open spec fn pairs_of(entries: Seq<(String, u128)>) -> Seq<(Seq<char>, u128)> {
    entries.map_values(|entry: (String, u128)| (entry.0@, entry.1))
}

/// The table holds exactly the keys of its pairs.
pub proof fn lemma_table_keys(entries: Seq<(Seq<char>, u128)>, key: Seq<char>)
    ensures
        table_of(entries).contains_key(key) <==> exists|i: int|
            0 <= i < entries.len() && #[trigger] entries[i].0 == key,
    decreases entries.len(),
{
    if entries.len() > 0 {
        let rest = entries.drop_last();
        lemma_table_keys(rest, key);
        if table_of(entries).contains_key(key) {
            if entries.last().0 == key {
                assert(entries[entries.len() - 1].0 == key);
            } else {
                let i = choose|i: int| 0 <= i < rest.len() && #[trigger] rest[i].0 == key;
                assert(entries[i].0 == key);
            }
        }
        if exists|i: int| 0 <= i < entries.len() && #[trigger] entries[i].0 == key {
            let i = choose|i: int| 0 <= i < entries.len() && #[trigger] entries[i].0 == key;
            if i < rest.len() {
                assert(rest[i].0 == key);
            }
        }
    }
}

/// Where no key occurs twice, the table gives each key the value of its pair.
pub proof fn lemma_table_value(entries: Seq<(Seq<char>, u128)>, i: int)
    requires
        distinct_keys(entries),
        0 <= i < entries.len(),
    ensures
        table_of(entries).contains_key(entries[i].0),
        table_of(entries)[entries[i].0] == entries[i].1,
    decreases entries.len(),
{
    let rest = entries.drop_last();
    if i < entries.len() - 1 {
        assert(distinct_keys(rest)) by {
            assert forall|a: int, b: int| 0 <= a < b < rest.len() implies rest[a].0 != rest[b].0 by {
                assert(rest[a] == entries[a] && rest[b] == entries[b]);
            }
        }
        lemma_table_value(rest, i);
        assert(rest[i] == entries[i]);
        assert(entries[i].0 != entries[entries.len() - 1].0);
    }
}

/// Where no key occurs twice, taking a pair out takes its key out of the
/// table and leaves the rest.
pub proof fn lemma_table_remove(entries: Seq<(Seq<char>, u128)>, i: int)
    requires
        distinct_keys(entries),
        0 <= i < entries.len(),
    ensures
        table_of(entries.remove(i)) == table_of(entries).remove(entries[i].0),
        distinct_keys(entries.remove(i)),
    decreases entries.len(),
{
    let rest = entries.drop_last();
    let last = entries.len() - 1;
    let cut = entries.remove(i);
    assert(distinct_keys(cut)) by {
        assert forall|a: int, b: int| 0 <= a < b < cut.len() implies cut[a].0 != cut[b].0 by {
            let a2 = if a < i { a } else { a + 1 };
            let b2 = if b < i { b } else { b + 1 };
            assert(cut[a] == entries[a2] && cut[b] == entries[b2]);
        }
    }
    assert(distinct_keys(rest)) by {
        assert forall|a: int, b: int| 0 <= a < b < rest.len() implies rest[a].0 != rest[b].0 by {
            assert(rest[a] == entries[a] && rest[b] == entries[b]);
        }
    }
    if i == last {
        assert(cut =~= rest);
        lemma_table_keys(rest, entries[i].0);
        if table_of(rest).contains_key(entries[i].0) {
            let j = choose|j: int| 0 <= j < rest.len() && #[trigger] rest[j].0 == entries[i].0;
            assert(entries[j].0 == entries[last].0);
        }
        assert(table_of(rest) =~= table_of(entries).remove(entries[i].0));
    } else {
        lemma_table_remove(rest, i);
        assert(cut.drop_last() =~= rest.remove(i));
        assert(cut.last() == entries.last());
        assert(rest[i] == entries[i]);
        assert(entries[i].0 != entries[last].0);
        assert(table_of(cut) =~= table_of(entries).remove(entries[i].0));
    }
}

/// Fees by denomination: each denomination at most once.
#[derive(Debug)]
pub struct FeeTable {
    entries: Vec<(String, u128)>,
}

impl View for FeeTable {
    type V = Map<Seq<char>, u128>;

    closed spec fn view(&self) -> Map<Seq<char>, u128> {
        table_of(pairs_of(self.entries@))
    }
}

impl FeeTable {
    #[verifier::type_invariant]
    spec fn distinct(self) -> bool {
        distinct_keys(pairs_of(self.entries@))
    }

    /// The table without fees.
    pub fn new() -> (r: Self)
        ensures
            r@ == Map::<Seq<char>, u128>::empty(),
    {
        let r = FeeTable { entries: Vec::new() };
        assert(pairs_of(r.entries@) =~= Seq::empty());
        r
    }

    /// Where the denomination stands among the entries, if it does.
    fn position(&self, denom: &String) -> (r: Option<usize>)
        ensures
            match r {
                Some(i) => i < self.entries@.len() && self.entries@[i as int].0@ == denom@,
                None => !self@.contains_key(denom@),
            },
    {
        let mut i: usize = 0;
        while i < self.entries.len()
            invariant
                i <= self.entries@.len(),
                forall|j: int| 0 <= j < i ==> self.entries@[j].0@ != denom@,
            decreases self.entries.len() - i,
        {
            if self.entries[i].0 == *denom {
                return Some(i);
            }
            i = i + 1;
        }
        proof {
            let pairs = pairs_of(self.entries@);
            lemma_table_keys(pairs, denom@);
            if table_of(pairs).contains_key(denom@) {
                let j = choose|j: int| 0 <= j < pairs.len() && #[trigger] pairs[j].0 == denom@;
                assert(self.entries@[j].0@ == denom@);
            }
        }
        None
    }

    /// The fee of a denomination, if the table has one.
    pub fn get(&self, denom: &String) -> (r: Option<u128>)
        ensures
            r == if self@.contains_key(denom@) {
                Some(self@[denom@])
            } else {
                None
            },
    {
        match self.position(denom) {
            Some(i) => {
                proof {
                    use_type_invariant(self);
                    lemma_table_value(pairs_of(self.entries@), i as int);
                }
                Some(self.entries[i].1)
            },
            None => None,
        }
    }

    /// The denominations with their fees, each once.
    pub fn entries(&self) -> (r: Vec<(String, u128)>)
        ensures
            table_of(pairs_of(r@)) == self@,
            distinct_keys(pairs_of(r@)),
    {
        proof {
            use_type_invariant(self);
        }
        let mut r: Vec<(String, u128)> = Vec::new();
        let mut i: usize = 0;
        while i < self.entries.len()
            invariant
                i <= self.entries@.len(),
                pairs_of(r@) == pairs_of(self.entries@.take(i as int)),
            decreases self.entries.len() - i,
        {
            let entry = (self.entries[i].0.clone(), self.entries[i].1);
            proof {
                assert(self.entries@.take(i as int + 1) =~= self.entries@.take(i as int).push(
                    self.entries@[i as int],
                ));
                assert(pairs_of(r@.push(entry)) =~= pairs_of(r@).push((entry.0@, entry.1)));
                assert(pairs_of(self.entries@.take(i as int + 1)) =~= pairs_of(
                    self.entries@.take(i as int),
                ).push((entry.0@, entry.1)));
            }
            r.push(entry);
            i = i + 1;
        }
        assert(self.entries@.take(i as int) =~= self.entries@);
        r
    }

    /// Takes the fee of a denomination out of the table and returns it, if
    /// the table has one.
    pub fn remove(&mut self, denom: &String) -> (r: Option<u128>)
        ensures
            final(self)@ == old(self)@.remove(denom@),
            r == if old(self)@.contains_key(denom@) {
                Some(old(self)@[denom@])
            } else {
                None
            },
    {
        match self.position(denom) {
            Some(i) => {
                let mut taken = FeeTable::new();
                core::mem::swap(self, &mut taken);
                proof {
                    use_type_invariant(&taken);
                    let pairs = pairs_of(taken.entries@);
                    lemma_table_value(pairs, i as int);
                    lemma_table_remove(pairs, i as int);
                    assert(pairs_of(taken.entries@.remove(i as int)) =~= pairs.remove(i as int));
                }
                let mut entries = taken.entries;
                let entry = entries.remove(i);
                *self = FeeTable { entries };
                Some(entry.1)
            },
            None => {
                assert(self@.remove(denom@) =~= self@);
                None
            },
        }
    }

    /// Sets the fee of a denomination, in place of the one it had.
    pub fn insert(&mut self, denom: String, fee: u128)
        ensures
            final(self)@ == old(self)@.insert(denom@, fee),
    {
        let _ = self.remove(&denom);
        let mut taken = FeeTable::new();
        core::mem::swap(self, &mut taken);
        proof {
            use_type_invariant(&taken);
            let pairs = pairs_of(taken.entries@);
            let entry = (denom@, fee);
            assert(pairs_of(taken.entries@.push((denom, fee))) =~= pairs.push(entry));
            assert(pairs.push(entry).drop_last() =~= pairs);
            assert(old(self)@.remove(denom@).insert(denom@, fee) =~= old(self)@.insert(denom@, fee));
            lemma_table_keys(pairs, denom@);
            assert forall|a: int, b: int| 0 <= a < b < pairs.push(entry).len() implies pairs.push(
                entry,
            )[a].0 != pairs.push(entry)[b].0 by {
                if b == pairs.len() {
                    assert(pairs[a].0 != denom@);
                }
            }
        }
        let mut entries = taken.entries;
        entries.push((denom, fee));
        *self = FeeTable { entries };
    }
}

} // verus!
