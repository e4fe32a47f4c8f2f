use vstd::prelude::*;
use crate::assoc::{keys_unique, lemma_pairs_domain, lemma_pairs_push, lemma_pairs_update, lemma_pairs_value, pairs_to_map};
use crate::text::same_text;

verus! {

/// A table keyed by board identifier, holding at most one value per board.
pub struct NamedTable<V> {
    entries: Vec<(String, V)>,
}

pub open spec fn entry_view<V>(e: (String, V)) -> (Seq<char>, V) {
    (e.0@, e.1)
}

impl<V> View for NamedTable<V> {
    type V = Map<Seq<char>, V>;

    closed spec fn view(&self) -> Map<Seq<char>, V> {
        pairs_to_map(self.entries@.map_values(|e: (String, V)| entry_view(e)))
    }
}

impl<V: Copy> NamedTable<V> {
    pub closed spec fn wf(&self) -> bool {
        keys_unique(self.entries@.map_values(|e: (String, V)| entry_view(e)))
    }

    closed spec fn keyed(&self) -> Seq<(Seq<char>, V)> {
        self.entries@.map_values(|e: (String, V)| entry_view(e))
    }

    pub fn new() -> (r: NamedTable<V>)
        ensures
            r.wf(),
            r@ == Map::<Seq<char>, V>::empty(),
    {
        let r = NamedTable { entries: Vec::new() };
        assert(r.keyed() =~= Seq::<(Seq<char>, V)>::empty());
        r
    }

    fn position(&self, board_id: &str) -> (r: Option<usize>)
        requires
            self.wf(),
        ensures
            match r {
                Some(i) => i < self.entries@.len() && self.entries@[i as int].0@ == board_id@,
                None => !self@.contains_key(board_id@),
            },
    {
        let mut i: usize = 0;
        while i < self.entries.len()
            invariant
                i <= self.entries@.len(),
                forall|j: int| 0 <= j < i ==> self.entries@[j].0@ != board_id@,
            decreases self.entries@.len() - i,
        {
            if same_text(self.entries[i].0.as_str(), board_id) {
                return Some(i);
            }
            i = i + 1;
        }
        proof {
            lemma_pairs_domain(self.keyed(), board_id@);
            if self@.contains_key(board_id@) {
                let j = choose|j: int| 0 <= j < self.keyed().len() && self.keyed()[j].0 == board_id@;
                assert(self.entries@[j].0@ == board_id@);
            }
        }
        None
    }

    /// The value held for board `board_id`, if there is one.
    pub fn lookup(&self, board_id: &str) -> (r: Option<V>)
        requires
            self.wf(),
        ensures
            r == (if self@.contains_key(board_id@) {
                Some(self@[board_id@])
            } else {
                None
            }),
    {
        match self.position(board_id) {
            Some(i) => {
                proof {
                    lemma_pairs_value(self.keyed(), i as int);
                }
                Some(self.entries[i].1)
            },
            None => None,
        }
    }

    /// The table's entries, each board once.
    pub fn to_vec(&self) -> (r: Vec<(String, V)>)
        requires
            self.wf(),
        ensures
            keys_unique(r@.map_values(|e: (String, V)| entry_view(e))),
            pairs_to_map(r@.map_values(|e: (String, V)| entry_view(e))) == self@,
    {
        let mut r: Vec<(String, V)> = Vec::new();
        let mut i: usize = 0;
        while i < self.entries.len()
            invariant
                i <= self.entries@.len(),
                r@.len() == i,
                r@.map_values(|e: (String, V)| entry_view(e)) == self.keyed().take(i as int),
            decreases self.entries@.len() - i,
        {
            let name = self.entries[i].0.clone();
            let ghost before = r@;
            r.push((name, self.entries[i].1));
            assert(r@ == before.push((name, self.entries@[i as int].1)));
            assert(entry_view(r@[i as int]) == entry_view(self.entries@[i as int]));
            assert(r@.map_values(|e: (String, V)| entry_view(e)) =~= self.keyed().take(i as int + 1));
            i = i + 1;
        }
        assert(self.keyed().take(i as int) =~= self.keyed());
        r
    }

    /// Sets the value of board `board_id`, replacing any value it had.
    pub fn insert(&mut self, board_id: String, value: V)
        requires
            old(self).wf(),
        ensures
            final(self).wf(),
            final(self)@ == old(self)@.insert(board_id@, value),
    {
        match self.position(board_id.as_str()) {
            Some(i) => {
                proof {
                    lemma_pairs_update(self.keyed(), i as int, value);
                }
                let ghost before = self.keyed();
                self.entries.set(i, (board_id, value));
                assert(self.keyed() =~= before.update(i as int, (before[i as int].0, value)));
            },
            None => {
                proof {
                    lemma_pairs_push(self.keyed(), board_id@, value);
                }
                let ghost before = self.keyed();
                self.entries.push((board_id, value));
                assert(self.keyed() =~= before.push((board_id@, value)));
            },
        }
    }
}

} // verus!
