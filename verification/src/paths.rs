//! Path arithmetic on byte strings: removing the last component of a path,
//! and finding the directory a catalog ascends to.

use vstd::prelude::*;

use crate::bytes::{copy_bytes, copy_prefix};

verus! {

/// The path separator.
pub const SEP: u8 = 47;

/// Index of the last separator of `p`, or -1 when there is none.
pub open spec fn last_sep(p: Seq<u8>) -> int
    decreases p.len(),
{
    if p.len() == 0 {
        -1
    } else if p.last() == SEP {
        p.len() - 1
    } else {
        last_sep(p.drop_last())
    }
}

pub proof fn lemma_last_sep_bounds(p: Seq<u8>)
    ensures
        -1 <= last_sep(p) < p.len(),
    decreases p.len(),
{
    if p.len() > 0 && p.last() != SEP {
        lemma_last_sep_bounds(p.drop_last());
    }
}

/// The path with its last component removed: everything before the last
/// separator; a top-level entry keeps the leading separator alone; a path
/// without a separator stays as it is.
pub open spec fn pop_path(p: Seq<u8>) -> Seq<u8> {
    let i = last_sep(p);
    if i < 0 {
        p
    } else if i == 0 {
        p.take(1)
    } else {
        p.take(i)
    }
}

/// The directory that browsing ascends to from an entry at `p`: the entry's
/// own directory and then, unless that directory is the search root `root`,
/// one more segment up.
pub open spec fn parent_dir(p: Seq<u8>, root: Seq<u8>) -> Seq<u8> {
    let d = pop_path(p);
    if d == root {
        d
    } else {
        pop_path(d)
    }
}

/// Removes the last path component of `p`.
pub fn pop_component(p: &Vec<u8>) -> (r: Vec<u8>)
    ensures
        r@ == pop_path(p@),
{
    let mut i: usize = p.len();
    proof {
        assert(p@.take(p@.len() as int) =~= p@);
    }
    while i > 0 && p[i - 1] != SEP
        invariant
            i <= p@.len(),
            last_sep(p@) == last_sep(p@.take(i as int)),
        decreases i,
    {
        proof {
            let t = p@.take(i as int);
            assert(t.last() == p@[i - 1]);
            assert(t.drop_last() =~= p@.take(i - 1));
        }
        i = i - 1;
    }
    if i == 0 {
        proof {
            assert(p@.take(0int) =~= Seq::<u8>::empty());
            assert(last_sep(p@) == -1);
        }
        copy_bytes(p)
    } else {
        proof {
            let t = p@.take(i as int);
            assert(t.last() == p@[i - 1]);
            assert(last_sep(p@) == i - 1);
        }
        if i == 1 {
            copy_prefix(p, 1)
        } else {
            copy_prefix(p, i - 1)
        }
    }
}

} // verus!
