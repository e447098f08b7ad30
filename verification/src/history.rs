//! Navigation history: the paths of at most the two most recent activations.
//!
//! Index 0 is the "previous" activation and the last index is the current
//! one. On the first activation the history is seeded with two copies of
//! that path, so asking for the previous activation is always answered once
//! any activation has occurred.

use vstd::prelude::*;

use crate::bytes::copy_bytes;

verus! {

pub struct NavigationHistory {
    paths: Vec<Vec<u8>>,
}

impl View for NavigationHistory {
    type V = Seq<Seq<u8>>;

    closed spec fn view(&self) -> Seq<Seq<u8>> {
        self.paths@.map_values(|p: Vec<u8>| p@)
    }
}

impl NavigationHistory {
    /// The history never remembers more than the two most recent activations.
    pub open spec fn wf(&self) -> bool {
        self@.len() <= 2
    }

    pub fn new() -> (r: Self)
        ensures
            r@ == Seq::<Seq<u8>>::empty(),
            r.wf(),
    {
        let h = NavigationHistory { paths: Vec::new() };
        proof {
            assert(h@ =~= Seq::<Seq<u8>>::empty());
        }
        h
    }

    /// Records the first activation: the history is replaced by two copies of
    /// `path`, so the previous and the current activation coincide.
    pub fn seed(&mut self, path: Vec<u8>)
        ensures
            final(self)@ =~= seq![path@, path@],
            final(self).wf(),
    {
        let copy = copy_bytes(&path);
        self.paths = Vec::new();
        self.paths.push(copy);
        self.paths.push(path);
    }

    /// Appends an activation, evicting the oldest entry once more than two
    /// are held.
    pub fn push(&mut self, path: Vec<u8>)
        requires
            old(self).wf(),
        ensures
            final(self)@ == if old(self)@.len() < 2 {
                old(self)@.push(path@)
            } else {
                old(self)@.drop_first().push(path@)
            },
            final(self).wf(),
    {
        let ghost before = self@;
        self.paths.push(path);
        if self.paths.len() > 2 {
            self.paths.remove(0);
            proof {
                assert(self@ =~= before.drop_first().push(path@));
            }
        } else {
            proof {
                assert(self@ =~= before.push(path@));
            }
        }
    }

    /// The previous activation: always the entry at index 0.
    pub fn previous(&self) -> (r: &Vec<u8>)
        requires
            self@.len() > 0,
        ensures
            r@ == self@[0],
    {
        &self.paths[0]
    }

    /// The current activation: always the last entry.
    pub fn current(&self) -> (r: &Vec<u8>)
        requires
            self@.len() > 0,
        ensures
            r@ == self@.last(),
    {
        &self.paths[self.paths.len() - 1]
    }

    pub fn len(&self) -> (r: usize)
        ensures
            r == self@.len(),
    {
        self.paths.len()
    }

    /// Whether escaping cancels the whole program: only before any
    /// activation has been recorded.
    pub fn cancel_quits(&self) -> (r: bool)
        ensures
            r == (self@.len() == 0),
    {
        self.paths.len() == 0
    }
}

} // verus!
