use vstd::prelude::*;

verus! {

/// A table of distinct strings; a string's position is its id.
#[derive(Debug, Default)]
pub struct StringTable {
    items: Vec<String>,
}

impl View for StringTable {
    type V = Seq<Seq<char>>;

    closed spec fn view(&self) -> Seq<Seq<char>> {
        self.items@.map_values(|s: String| s@)
    }
}

/// No string occurs twice.
pub open spec fn distinct_strings(s: Seq<Seq<char>>) -> bool {
    forall|i: int, j: int| 0 <= i < s.len() && 0 <= j < s.len() && i != j ==> s[i] != s[j]
}

/// The id that `s` has in `table`: its position, or the next free id when absent.
pub open spec fn id_in(table: Seq<Seq<char>>, s: Seq<char>) -> int {
    if table.contains(s) {
        choose|i: int| 0 <= i < table.len() && table[i] == s
    } else {
        table.len() as int
    }
}

/// The table after `s` is interned.
pub open spec fn interned(table: Seq<Seq<char>>, s: Seq<char>) -> Seq<Seq<char>> {
    if table.contains(s) {
        table
    } else {
        table.push(s)
    }
}

impl StringTable {
    pub fn new() -> (r: Self)
        ensures
            r@ == Seq::<Seq<char>>::empty(),
    {
        let r = StringTable { items: Vec::new() };
        assert(r@ =~= Seq::<Seq<char>>::empty());
        r
    }

    pub fn len(&self) -> (r: usize)
        ensures
            r == self@.len(),
    {
        self.items.len()
    }

    /// The id of `s`, if it is in the table.
    pub fn find(&self, s: &str) -> (r: Option<usize>)
        requires
            distinct_strings(self@),
        ensures
            r is None <==> !self@.contains(s@),
            r matches Some(i) ==> i < self@.len() && self@[i as int] == s@ && i == id_in(self@, s@),
    {
        let owned = s.to_owned();
        let mut i: usize = 0;
        while i < self.items.len()
            invariant
                i <= self.items.len(),
                owned@ == s@,
                distinct_strings(self@),
                forall|j: int| 0 <= j < i ==> self@[j] != s@,
            decreases self.items.len() - i,
        {
            if self.items[i] == owned {
                assert(self@[i as int] == s@);
                assert(self@.contains(s@));
                let ghost k = id_in(self@, s@);
                assert(self@[k] == s@);
                return Some(i);
            }
            i += 1;
        }
        assert forall|j: int| 0 <= j < self@.len() implies self@[j] != s@ by {}
        None
    }

    /// The id of `s`, after adding it to the table when it is absent.
    pub fn intern(&mut self, s: &str) -> (r: usize)
        requires
            distinct_strings(old(self)@),
        ensures
            distinct_strings(final(self)@),
            final(self)@ == interned(old(self)@, s@),
            r == id_in(old(self)@, s@),
            r < final(self)@.len(),
            final(self)@[r as int] == s@,
    {
        match self.find(s) {
            Some(i) => i,
            None => {
                let i = self.items.len();
                self.items.push(s.to_owned());
                assert(final_view_push(old(self)@, self@, s@));
                i
            },
        }
    }

    pub fn get(&self, i: usize) -> (r: &str)
        requires
            i < self@.len(),
        ensures
            r@ == self@[i as int],
    {
        self.items[i].as_str()
    }
}

/// Interning a string keeps the ids of all strings already in the table, and
/// gives the string the id it was due.
pub proof fn lemma_interned_ids(table: Seq<Seq<char>>, s: Seq<char>, t: Seq<char>)
    requires
        distinct_strings(table),
    ensures
        distinct_strings(interned(table, s)),
        interned(table, s).contains(s),
        id_in(interned(table, s), s) == id_in(table, s),
        table.contains(t) ==> id_in(interned(table, s), t) == id_in(table, t),
{
    let after = interned(table, s);
    if !table.contains(s) {
        assert(after[table.len() as int] == s);
        assert(after.contains(s));
        let i = id_in(after, s);
        if i < table.len() {
            assert(table[i] == s);
            assert(table.contains(s));
        }
        if table.contains(t) {
            let j = id_in(table, t);
            assert(after[j] == t);
            let k = id_in(after, t);
            if k == table.len() {
                assert(after[k] == s);
                assert(table[j] == t);
            }
            if k != j && k < table.len() {
                assert(table[k] == t && table[j] == t);
            }
        }
    }
}

spec fn final_view_push(before: Seq<Seq<char>>, after: Seq<Seq<char>>, s: Seq<char>) -> bool {
    after =~= before.push(s)
}

} // verus!
