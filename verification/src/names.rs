//! The table that gives each identifier spelling one number.

use vstd::prelude::*;
use vstd::slice::slice_to_vec;

verus! {

/// The first position at or after `from` at which `names` holds `word`; the
/// length of `names` if there is none.
pub open spec fn index_of(names: Seq<Seq<u8>>, word: Seq<u8>, from: int) -> int
    decreases names.len() - from,
{
    if from < 0 || from >= names.len() {
        names.len() as int
    } else if names[from] == word {
        from
    } else {
        index_of(names, word, from + 1)
    }
}

/// The number that interning gives a spelling: that of its first entry in
/// the table, or the next free number.
pub open spec fn interned_id(names: Seq<Seq<u8>>, word: Seq<u8>) -> int {
    index_of(names, word, 0)
}

/// The table after interning a spelling: unchanged if it holds the spelling,
/// else with the spelling added at the end.
pub open spec fn interned_names(names: Seq<Seq<u8>>, word: Seq<u8>) -> Seq<Seq<u8>> {
    if index_of(names, word, 0) < names.len() {
        names
    } else {
        names.push(word)
    }
}

/// Whether two byte strings are equal.
pub fn bytes_equal(a: &[u8], b: &[u8]) -> (r: bool)
    ensures
        r == (a@ == b@),
{
    if a.len() != b.len() {
        return false;
    }
    let mut i: usize = 0;
    while i < a.len()
        invariant
            i <= a@.len(),
            a@.len() == b@.len(),
            forall|k: int| 0 <= k < i ==> a@[k] == b@[k],
        decreases a@.len() - i,
    {
        if a[i] != b[i] {
            return false;
        }
        i = i + 1;
    }
    assert(a@ =~= b@);
    true
}

/// The spellings of the identifiers seen so far, each at the position that
/// is its number.
pub struct NameTable {
    names: Vec<Vec<u8>>,
}

impl View for NameTable {
    type V = Seq<Seq<u8>>;

    closed spec fn view(&self) -> Seq<Seq<u8>> {
        Seq::new(self.names@.len(), |i: int| self.names@[i]@)
    }
}

impl NameTable {
    pub fn new() -> (t: NameTable)
        ensures
            t@ == Seq::<Seq<u8>>::empty(),
    {
        let t = NameTable { names: Vec::new() };
        assert(t@ =~= Seq::<Seq<u8>>::empty());
        t
    }

    pub fn len(&self) -> (n: usize)
        ensures
            n == self@.len(),
    {
        self.names.len()
    }

    /// The spelling with the given number.
    pub fn spelling(&self, id: usize) -> (word: &Vec<u8>)
        requires
            id < self@.len(),
        ensures
            word@ == self@[id as int],
    {
        &self.names[id]
    }

    /// The number of a spelling, adding the spelling if it is new.
    pub fn intern(&mut self, word: &[u8]) -> (id: usize)
        ensures
            id == interned_id(old(self)@, word@),
            final(self)@ == interned_names(old(self)@, word@),
            id < final(self)@.len(),
            final(self)@[id as int] == word@,
    {
        let mut i: usize = 0;
        while i < self.names.len()
            invariant
                i <= self.names@.len(),
                index_of(self@, word@, i as int) == index_of(self@, word@, 0),
            decreases self.names@.len() - i,
        {
            if bytes_equal(self.names[i].as_slice(), word) {
                return i;
            }
            i = i + 1;
        }
        let ghost before = self@;
        self.names.push(slice_to_vec(word));
        assert(self@ =~= before.push(word@));
        i
    }
}

} // verus!
