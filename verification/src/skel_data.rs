//! The skeleton transform resolver's bookkeeping: locating a bone by name
//! and following its parent chain to the root.
//!
//! Accumulating the chain's transforms is 32-bit floating-point matrix
//! arithmetic, which lives outside the codec; the resolver here pins down
//! which bones take part and in what order.  The chain starts at the named
//! bone and ends at the first bone without a parent, so composition in
//! chain order is parent-after-child.

use crate::vectors::Matrix4x4;
use vstd::prelude::*;

verus! {

/// One bone of a decoded skeleton: its name, its local and world transforms
/// as row-major matrices of 32-bit floating-point bit patterns, and the
/// position of its parent in the bone list.
#[derive(Debug, PartialEq, Eq, Clone)]
pub struct BoneData {
    /// The bone's name.
    pub name: Vec<u8>,
    /// The bone's transform relative to its parent, row-major.
    pub transform: Matrix4x4,
    /// The bone's transform in world space, row-major.
    pub world_transform: Matrix4x4,
    /// The position of the parent bone, or `None` for a root bone.
    pub parent_index: Option<usize>,
}

/// An ordered list of bones; positions double as bone indices.
#[derive(Debug, PartialEq, Eq, Clone)]
pub struct SkelData {
    pub bones: Vec<BoneData>,
}

/// The first position at or after `i` whose bone carries `name`.
pub open spec fn find_bone_from(bones: Seq<BoneData>, name: Seq<u8>, i: int) -> Option<int>
    decreases bones.len() - i,
{
    if i < 0 || i >= bones.len() {
        None
    } else if bones[i].name@ == name {
        Some(i)
    } else {
        find_bone_from(bones, name, i + 1)
    }
}

/// The first position whose bone carries `name`.
pub open spec fn find_bone(bones: Seq<BoneData>, name: Seq<u8>) -> Option<int> {
    find_bone_from(bones, name, 0)
}

/// The parent chain that starts at bone `i`: the bone itself, then each
/// ancestor in turn, ending at the first bone without a parent.  `None`
/// when an index leaves the bone list or when `fuel` steps do not reach a
/// root, which on a well-formed acyclic forest cannot happen with fuel
/// above the bone count.
pub open spec fn chain_from(bones: Seq<BoneData>, i: int, fuel: nat) -> Option<Seq<int>>
    decreases fuel,
{
    if fuel == 0 {
        None
    } else if i < 0 || i >= bones.len() {
        None
    } else {
        match bones[i].parent_index {
            None => Some(seq![i]),
            Some(p) => match chain_from(bones, p as int, (fuel - 1) as nat) {
                Some(rest) => Some(seq![i] + rest),
                None => None,
            },
        }
    }
}

/// Compares two byte strings for equality.
fn bytes_eq(a: &Vec<u8>, b: &Vec<u8>) -> (r: bool)
    ensures
        r <==> a@ == b@,
{
    if a.len() != b.len() {
        proof {
            assert(a@.len() != b@.len());
        }
        return false;
    }
    let n = a.len();
    let mut i: usize = 0;
    while i < n
        invariant
            n == a@.len(),
            n == b@.len(),
            i <= n,
            forall|j: int| 0 <= j < i ==> a@[j] == b@[j],
        decreases n - i,
    {
        if a[i] != b[i] {
            return false;
        }
        i = i + 1;
    }
    proof {
        assert(a@ =~= b@);
    }
    true
}

impl SkelData {
    /// Locates the first bone with the given name.
    fn find_bone_index(&self, name: &Vec<u8>) -> (r: Option<usize>)
        ensures
            match r {
                Some(i) => i < self.bones@.len() && find_bone(self.bones@, name@) == Some(
                    i as int,
                ),
                None => find_bone(self.bones@, name@) is None,
            },
    {
        let n = self.bones.len();
        let mut i: usize = 0;
        while i < n
            invariant
                n == self.bones@.len(),
                i <= n,
                find_bone(self.bones@, name@) == find_bone_from(self.bones@, name@, i as int),
            decreases n - i,
        {
            if bytes_eq(&self.bones[i].name, name) {
                return Some(i);
            }
            i = i + 1;
        }
        None
    }

    /// The parent chain of the bone with the given name: the bone's own
    /// position, then each ancestor's, ending at the first bone without a
    /// parent.  `None` when no bone carries the name, when a parent
    /// position leaves the bone list, or when the parent relation has a
    /// cycle, which a well-formed skeleton never has.
    pub fn single_bind_chain(&self, parent_bone_name: &Vec<u8>) -> (r: Option<Vec<usize>>)
        ensures
            match r {
                Some(chain) => {
                    &&& find_bone(self.bones@, parent_bone_name@) is Some
                    &&& chain_from(
                        self.bones@,
                        find_bone(self.bones@, parent_bone_name@)->Some_0,
                        self.bones@.len() as nat,
                    ) == Some(chain@.map_values(|u: usize| u as int))
                },
                None => find_bone(self.bones@, parent_bone_name@) is None || chain_from(
                    self.bones@,
                    find_bone(self.bones@, parent_bone_name@)->Some_0,
                    self.bones@.len() as nat,
                ) is None,
            },
    {
        let idx = match self.find_bone_index(parent_bone_name) {
            Some(i) => i,
            None => {
                return None;
            },
        };
        let n = self.bones.len();
        let mut chain: Vec<usize> = Vec::new();
        let mut cur = idx;
        let mut fuel: u64 = n as u64;
        loop
            invariant
                n == self.bones@.len(),
                cur < n,
                fuel <= n,
                find_bone(self.bones@, parent_bone_name@) == Some(idx as int),
                chain_from(self.bones@, idx as int, n as nat) == (match chain_from(
                    self.bones@,
                    cur as int,
                    fuel as nat,
                ) {
                    Some(rest) => Some(chain@.map_values(|u: usize| u as int) + rest),
                    None => None::<Seq<int>>,
                }),
            decreases fuel,
        {
            if fuel == 0 {
                return None;
            }
            let ghost pre_chain = chain@;
            match self.bones[cur].parent_index {
                None => {
                    chain.push(cur);
                    proof {
                        assert(chain@.map_values(|u: usize| u as int) =~= pre_chain.map_values(
                            |u: usize| u as int,
                        ) + seq![cur as int]);
                    }
                    return Some(chain);
                },
                Some(p) => {
                    if p >= n {
                        proof {
                            assert(chain_from(self.bones@, p as int, (fuel - 1) as nat) is None);
                            assert(chain_from(self.bones@, cur as int, fuel as nat) is None);
                        }
                        return None;
                    }
                    chain.push(cur);
                    proof {
                        assert(chain@.map_values(|u: usize| u as int) =~= pre_chain.map_values(
                            |u: usize| u as int,
                        ) + seq![cur as int]);
                    }
                    cur = p;
                    fuel = fuel - 1;
                },
            }
        }
    }
}

} // verus!
