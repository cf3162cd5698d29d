use vstd::pervasive::VecAdditionalExecFns;
use vstd::prelude::*;
use vstd::seq_lib::group_to_multiset_ensures;

use crate::rtweekend::random_int_bounded;
use crate::vec_bits::Vec3Bits;

verus! {

/// How many entries each permutation table (and the gradient table) has.
pub const POINT_COUNT: usize = 256;

/// The identity table `0, 1, .., n-1`.
pub open spec fn identity_table(n: nat) -> Seq<i64> {
    Seq::new(n, |i: int| i as i64)
}

/// `s` rearranges the values `0 .. n`: same length, same entries counted
/// with multiplicity.
pub open spec fn is_permutation_of(s: Seq<i64>, n: nat) -> bool {
    s.to_multiset() == identity_table(n).to_multiset()
}

/// Shuffle the first `n` entries of `p` in place (Fisher-Yates, walking
/// down from the top), leaving the rest untouched.  Whatever the random
/// draws were, the entries are only rearranged.
pub fn permute(p: &mut Vec<i64>, n: usize)
    requires
        1 <= n <= old(p)@.len(),
        n <= i64::MAX,
    ensures
        final(p)@.len() == old(p)@.len(),
        final(p)@.to_multiset() == old(p)@.to_multiset(),
        forall|j: int| n <= j < final(p)@.len() ==> final(p)@[j] == old(p)@[j],
{
    let mut i: usize = n - 1;
    while i > 0
        invariant
            i < n <= p@.len(),
            n <= i64::MAX,
            p@.len() == old(p)@.len(),
            p@.to_multiset() == old(p)@.to_multiset(),
            forall|j: int| n <= j < p@.len() ==> p@[j] == old(p)@[j],
        decreases i,
    {
        let target = random_int_bounded(0, i as i64) as usize;
        let a = p[i];
        let b = p[target];
        let ghost before = p@;
        p.set(i, b);
        p.set(target, a);
        proof {
            broadcast use group_to_multiset_ensures;

            if target == i as int {
                assert(p@ =~= before);
            } else {
                assert(p@ == before.update(i as int, b).update(target as int, a));
                assert(before.update(i as int, b)[target as int] == b);
                assert(p@.to_multiset() =~= before.to_multiset());
            }
        }
        i = i - 1;
    }
}

/// A freshly shuffled permutation of `0 .. 255`, as the noise generator
/// builds for each axis.
pub fn perlin_generate_perm() -> (r: Vec<i64>)
    ensures
        r@.len() == POINT_COUNT,
        is_permutation_of(r@, POINT_COUNT as nat),
{
    let mut p: Vec<i64> = Vec::new();
    let mut i: usize = 0;
    while i < POINT_COUNT
        invariant
            i <= POINT_COUNT,
            p@.len() == i,
            forall|j: int| 0 <= j < i ==> p@[j] == j as i64,
        decreases POINT_COUNT - i,
    {
        p.push(i as i64);
        i = i + 1;
    }
    proof {
        assert(p@ =~= identity_table(POINT_COUNT as nat));
    }
    permute(&mut p, POINT_COUNT);
    p
}

/// The tables behind the gradient-noise generator: one random gradient per
/// lattice cell and a shuffled permutation of `0 .. 255` for each axis, used
/// to hash lattice coordinates into the gradient table.  The gradients are
/// unit vectors the rendering layer draws and interprets; the permutation
/// tables are built and shuffled here.
#[derive(Clone, Debug)]
pub struct Perlin {
    ranvec: Vec<Vec3Bits>,
    perm_x: Vec<i64>,
    perm_y: Vec<i64>,
    perm_z: Vec<i64>,
}

impl Perlin {
    /// All four tables have one entry per lattice cell, and each axis table
    /// is a permutation of `0 .. 255`.
    pub open spec fn wf(&self) -> bool {
        &&& self.spec_ranvec().len() == POINT_COUNT
        &&& self.spec_perm_x().len() == POINT_COUNT
        &&& self.spec_perm_y().len() == POINT_COUNT
        &&& self.spec_perm_z().len() == POINT_COUNT
        &&& is_permutation_of(self.spec_perm_x(), POINT_COUNT as nat)
        &&& is_permutation_of(self.spec_perm_y(), POINT_COUNT as nat)
        &&& is_permutation_of(self.spec_perm_z(), POINT_COUNT as nat)
    }

    pub closed spec fn spec_ranvec(&self) -> Seq<Vec3Bits> {
        self.ranvec@
    }

    pub closed spec fn spec_perm_x(&self) -> Seq<i64> {
        self.perm_x@
    }

    pub closed spec fn spec_perm_y(&self) -> Seq<i64> {
        self.perm_y@
    }

    pub closed spec fn spec_perm_z(&self) -> Seq<i64> {
        self.perm_z@
    }

    /// Build the tables from the given gradients, shuffling a fresh
    /// permutation for each axis.
    pub fn new(ranvec: Vec<Vec3Bits>) -> (r: Perlin)
        requires
            ranvec@.len() == POINT_COUNT,
        ensures
            r.wf(),
            r.spec_ranvec() == ranvec@,
    {
        let perm_x = perlin_generate_perm();
        let perm_y = perlin_generate_perm();
        let perm_z = perlin_generate_perm();
        Perlin { ranvec, perm_x, perm_y, perm_z }
    }

    pub fn ranvec(&self) -> (r: &Vec<Vec3Bits>)
        ensures
            r@ == self.spec_ranvec(),
    {
        &self.ranvec
    }

    pub fn perm_x(&self) -> (r: &Vec<i64>)
        ensures
            r@ == self.spec_perm_x(),
    {
        &self.perm_x
    }

    pub fn perm_y(&self) -> (r: &Vec<i64>)
        ensures
            r@ == self.spec_perm_y(),
    {
        &self.perm_y
    }

    pub fn perm_z(&self) -> (r: &Vec<i64>)
        ensures
            r@ == self.spec_perm_z(),
    {
        &self.perm_z
    }
}

} // verus!
