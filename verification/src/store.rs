use vstd::prelude::*;
use crate::record::Address;
use crate::record::TokenRecord;

verus! {

/// The storage layer's record table, as the manager sees it: at most
/// one record per derived address, and a second allocation at an
/// address already taken is refused.
pub struct RecordStore {
    entries: Vec<(Address, TokenRecord)>,
}

/// The table a sequence of allocations denotes: later entries shadow
/// earlier ones, though a well-formed store never holds two entries
/// with one address.
pub open spec fn table_of(s: Seq<(Address, TokenRecord)>) -> Map<Seq<u8>, TokenRecord>
    decreases s.len(),
{
    if s.len() == 0 {
        Map::empty()
    } else {
        table_of(s.drop_last()).insert(s.last().0@, s.last().1)
    }
}

/// An address is in the table exactly when some entry carries it.
proof fn lemma_table_of_domain(s: Seq<(Address, TokenRecord)>, k: Seq<u8>)
    ensures
        table_of(s).contains_key(k) <==> exists|i: int| 0 <= i < s.len() && s[i].0@ == k,
    decreases s.len(),
{
    if s.len() > 0 {
        lemma_table_of_domain(s.drop_last(), k);
        if exists|i: int| 0 <= i < s.len() && s[i].0@ == k {
            let i = choose|i: int| 0 <= i < s.len() && s[i].0@ == k;
            if i < s.len() - 1 {
                assert(s.drop_last()[i].0@ == k);
            }
        }
    }
}

/// With no address repeated, each entry's record is what the table
/// holds at that entry's address.
proof fn lemma_table_of_index(s: Seq<(Address, TokenRecord)>, i: int)
    requires
        forall|p: int, q: int| 0 <= p < q < s.len() ==> s[p].0@ != s[q].0@,
        0 <= i < s.len(),
    ensures
        table_of(s).contains_key(s[i].0@),
        table_of(s)[s[i].0@] == s[i].1,
    decreases s.len(),
{
    if i < s.len() - 1 {
        lemma_table_of_index(s.drop_last(), i);
        assert(s.drop_last()[i] == s[i]);
        assert(s.last().0@ != s[i].0@);
    }
}

/// The table built from allocations is finite, with one address per
/// entry when no address repeats.
proof fn lemma_table_of_len(s: Seq<(Address, TokenRecord)>)
    requires
        forall|p: int, q: int| 0 <= p < q < s.len() ==> s[p].0@ != s[q].0@,
    ensures
        table_of(s).dom().finite(),
        table_of(s).dom().len() == s.len(),
    decreases s.len(),
{
    if s.len() > 0 {
        lemma_table_of_len(s.drop_last());
        lemma_table_of_domain(s.drop_last(), s.last().0@);
    }
}

/// Compares two addresses byte by byte.
pub fn addr_eq(a: &Address, b: &Address) -> (r: bool)
    ensures
        r == (a@ == b@),
{
    let mut i: usize = 0;
    while i < 32
        invariant
            i <= 32,
            forall|j: int| 0 <= j < i ==> a@[j] == b@[j],
        decreases 32 - i,
    {
        if a[i] != b[i] {
            return false;
        }
        i += 1;
    }
    proof {
        assert(a@ =~= b@);
    }
    true
}

impl RecordStore {
    /// No two entries claim the same address.
    pub closed spec fn wf(self) -> bool {
        forall|p: int, q: int|
            0 <= p < q < self.entries@.len() ==> self.entries@[p].0@ != self.entries@[q].0@
    }

    /// An empty store: no record exists yet.
    pub fn new() -> (r: RecordStore)
        ensures
            r.wf(),
            r@ == Map::<Seq<u8>, TokenRecord>::empty(),
    {
        RecordStore { entries: Vec::new() }
    }

    /// Whether a record already sits at the given address.
    pub fn contains(&self, address: &Address) -> (r: bool)
        ensures
            r == self@.contains_key(address@),
    {
        let n = self.entries.len();
        let mut i: usize = 0;
        while i < n
            invariant
                n == self.entries@.len(),
                i <= n,
                forall|j: int| 0 <= j < i ==> self.entries@[j].0@ != address@,
            decreases n - i,
        {
            if addr_eq(&self.entries[i].0, address) {
                proof {
                    lemma_table_of_domain(self.entries@, address@);
                }
                return true;
            }
            i += 1;
        }
        proof {
            lemma_table_of_domain(self.entries@, address@);
        }
        false
    }

    /// The record stored at an address, if one exists.
    pub fn get(&self, address: &Address) -> (r: Option<&TokenRecord>)
        requires
            self.wf(),
        ensures
            match r {
                Some(rec) => self@.contains_key(address@) && *rec == self@[address@],
                None => !self@.contains_key(address@),
            },
    {
        let n = self.entries.len();
        let mut i: usize = 0;
        while i < n
            invariant
                self.wf(),
                n == self.entries@.len(),
                i <= n,
                forall|j: int| 0 <= j < i ==> self.entries@[j].0@ != address@,
            decreases n - i,
        {
            if addr_eq(&self.entries[i].0, address) {
                proof {
                    lemma_table_of_index(self.entries@, i as int);
                }
                return Some(&self.entries[i].1);
            }
            i += 1;
        }
        proof {
            lemma_table_of_domain(self.entries@, address@);
        }
        None
    }

    /// Allocates `record` at `address`. Refuses the allocation, leaving
    /// the store unchanged, when the address is already taken — the
    /// storage layer's duplicate-creation guard.
    pub fn insert(&mut self, address: Address, record: TokenRecord) -> (r: bool)
        requires
            old(self).wf(),
        ensures
            final(self).wf(),
            r == !old(self)@.contains_key(address@),
            r ==> final(self)@ == old(self)@.insert(address@, record),
            !r ==> *final(self) == *old(self),
    {
        if self.contains(&address) {
            false
        } else {
            proof {
                lemma_table_of_domain(self.entries@, address@);
            }
            self.entries.push((address, record));
            proof {
                assert(self.entries@.drop_last() =~= old(self).entries@);
                assert forall|p: int, q: int|
                    0 <= p < q < self.entries@.len() implies self.entries@[p].0@
                    != self.entries@[q].0@ by {
                    if q == self.entries@.len() - 1 {
                        lemma_table_of_domain(old(self).entries@, self.entries@[p].0@);
                    }
                }
            }
            true
        }
    }

    /// How many records exist.
    pub fn len(&self) -> (r: usize)
        requires
            self.wf(),
        ensures
            r == self@.dom().len(),
            self@.dom().finite(),
    {
        proof {
            lemma_table_of_len(self.entries@);
        }
        self.entries.len()
    }
}

impl View for RecordStore {
    type V = Map<Seq<u8>, TokenRecord>;

    closed spec fn view(&self) -> Map<Seq<u8>, TokenRecord> {
        table_of(self.entries@)
    }
}

} // verus!
