//! The table of scores: each address at most once, with its score.

use vstd::prelude::*;

verus! {

/// One listed address and its score.
pub struct Entry {
    pub address: String,
    pub score: i32,
}

/// A table from addresses to scores.
///
/// The entries are kept in a vector, in the order in which they were listed;
/// a table that is well formed lists no address twice. A hash map keyed by
/// `String` would do the same work, but Verus has no model of `String` as a
/// key, so nothing could be proved of what such a map holds.
pub struct Scores {
    pub(crate) entries: Vec<Entry>,
}

/// The addresses of `entries`, in order.
pub open spec fn addresses(entries: Seq<Entry>) -> Seq<Seq<char>> {
    Seq::new(entries.len(), |i: int| entries[i].address@)
}

/// The map that `entries` stand for: each address with its score. Where an
/// address occurs twice, the later entry counts.
pub open spec fn table_of(entries: Seq<Entry>) -> Map<Seq<char>, i32>
    decreases entries.len(),
{
    if entries.len() == 0 {
        Map::empty()
    } else {
        table_of(entries.drop_last()).insert(entries.last().address@, entries.last().score)
    }
}

/// An address is in the table exactly if some entry has it.
pub proof fn lemma_table_domain(entries: Seq<Entry>, address: Seq<char>)
    ensures
        table_of(entries).contains_key(address) <==> exists|j: int|
            0 <= j < entries.len() && #[trigger] entries[j].address@ == address,
    decreases entries.len(),
{
    if entries.len() > 0 {
        let front = entries.drop_last();
        lemma_table_domain(front, address);
        if table_of(entries).contains_key(address) {
            if entries.last().address@ == address {
                assert(entries[entries.len() - 1].address@ == address);
            } else {
                let j = choose|j: int| 0 <= j < front.len() && #[trigger] front[j].address@ == address;
                assert(entries[j].address@ == address);
            }
        }
        if exists|j: int| 0 <= j < entries.len() && #[trigger] entries[j].address@ == address {
            let j = choose|j: int| 0 <= j < entries.len() && #[trigger] entries[j].address@ == address;
            if j < entries.len() - 1 {
                assert(front[j].address@ == address);
            }
        }
    }
}

/// Where no address occurs twice, the table gives each entry's own score.
pub proof fn lemma_table_value(entries: Seq<Entry>, i: int)
    requires
        addresses(entries).no_duplicates(),
        0 <= i < entries.len(),
    ensures
        table_of(entries).contains_key(entries[i].address@),
        table_of(entries)[entries[i].address@] == entries[i].score,
    decreases entries.len(),
{
    let last = entries.len() - 1;
    if i < last {
        let front = entries.drop_last();
        assert(addresses(front) =~= addresses(entries).drop_last());
        assert(addresses(entries)[i] != addresses(entries)[last]);
        lemma_table_value(front, i);
    }
}

/// Where no address occurs twice, a new score for the entry at `i` changes
/// the table at that entry's address and nowhere else.
pub proof fn lemma_table_update(entries: Seq<Entry>, i: int, entry: Entry)
    requires
        addresses(entries).no_duplicates(),
        0 <= i < entries.len(),
        entry.address@ == entries[i].address@,
    ensures
        addresses(entries.update(i, entry)) == addresses(entries),
        table_of(entries.update(i, entry)) == table_of(entries).insert(
            entry.address@,
            entry.score,
        ),
    decreases entries.len(),
{
    let changed = entries.update(i, entry);
    let last = entries.len() - 1;
    assert(addresses(changed) =~= addresses(entries));
    if i < last {
        let front = entries.drop_last();
        assert(addresses(front) =~= addresses(entries).drop_last());
        assert(addresses(entries)[i] != addresses(entries)[last]);
        lemma_table_update(front, i, entry);
        assert(changed.drop_last() =~= front.update(i, entry));
        assert(table_of(changed) =~= table_of(entries).insert(entry.address@, entry.score));
    } else {
        assert(changed.drop_last() =~= entries.drop_last());
        assert(table_of(changed) =~= table_of(entries).insert(entry.address@, entry.score));
    }
}

impl View for Scores {
    type V = Map<Seq<char>, i32>;

    /// The table as a map from addresses to scores.
    closed spec fn view(&self) -> Map<Seq<char>, i32> {
        table_of(self.entries@)
    }
}

impl Scores {
    /// No address is listed twice.
    pub closed spec fn wf(&self) -> bool {
        addresses(self.entries@).no_duplicates()
    }

    /// The empty table.
    pub fn new() -> (table: Scores)
        ensures
            table.wf(),
            table@ == Map::<Seq<char>, i32>::empty(),
    {
        Scores { entries: Vec::new() }
    }

    /// Where `address` stands among the entries, if it is listed.
    fn position(&self, address: &String) -> (found: Option<usize>)
        ensures
            match found {
                Some(i) => i < self.entries@.len() && self.entries@[i as int].address@
                    == address@,
                None => forall|j: int|
                    0 <= j < self.entries@.len() ==> #[trigger] self.entries@[j].address@
                        != address@,
            },
    {
        let mut i: usize = 0;
        while i < self.entries.len()
            invariant
                i <= self.entries@.len(),
                forall|j: int| 0 <= j < i ==> #[trigger] self.entries@[j].address@ != address@,
            decreases self.entries@.len() - i,
        {
            if self.entries[i].address == *address {
                return Some(i);
            }
            i += 1;
        }
        None
    }

    /// Whether `address` is listed.
    pub fn contains_key(&self, address: &String) -> (listed: bool)
        ensures
            listed == self@.contains_key(address@),
    {
        let found = self.position(address);
        proof {
            lemma_table_domain(self.entries@, address@);
        }
        found.is_some()
    }

    /// The score of `address`, if it is listed.
    pub fn get(&self, address: &String) -> (score: Option<i32>)
        requires
            self.wf(),
        ensures
            score == if self@.contains_key(address@) {
                Some(self@[address@])
            } else {
                None
            },
    {
        proof {
            lemma_table_domain(self.entries@, address@);
        }
        match self.position(address) {
            Some(i) => {
                proof {
                    lemma_table_value(self.entries@, i as int);
                }
                Some(self.entries[i].score)
            },
            None => None,
        }
    }

    /// Lists `address` with `score`; if it is listed already, `score` takes
    /// the place of its old score.
    pub fn insert(&mut self, address: String, score: i32)
        requires
            old(self).wf(),
        ensures
            final(self).wf(),
            final(self)@ == old(self)@.insert(address@, score),
    {
        let entry = Entry { address, score };
        match self.position(&entry.address) {
            Some(i) => {
                proof {
                    lemma_table_update(self.entries@, i as int, entry);
                }
                self.entries.set(i, entry);
            },
            None => {
                proof {
                    let before = self.entries@;
                    let after = before.push(entry);
                    assert(after.drop_last() =~= before);
                    assert(addresses(after) =~= addresses(before).push(entry.address@));
                    assert forall|j: int, k: int|
                        0 <= j < after.len() && 0 <= k < after.len() && j != k implies addresses(
                        after,
                    )[j] != addresses(after)[k] by {
                        if j < before.len() && k < before.len() {
                            assert(addresses(before)[j] != addresses(before)[k]);
                        } else if j < before.len() {
                            assert(before[j].address@ != entry.address@);
                        } else {
                            assert(before[k].address@ != entry.address@);
                        }
                    }
                }
                self.entries.push(entry);
            },
        }
    }
}

} // verus!
