//! Strategy paths as the client and the protocol see them: a list of nodes
//! that a piece follows in order. An empty path is "unlinked": the piece does
//! not move at all. Following a path never clears its last node (the endcap).
//! Coordinates and angles are carried as the bits of their `f32` values
//! (`f32::to_bits`); nothing here computes with them.
use vstd::prelude::*;
use std::collections::VecDeque;
use crate::ids::PieceId;

verus! {

/// One node of a path.
#[derive(Copy, Clone, Debug, PartialEq, Eq, Structural)]
pub enum PathNode {
    /// Go straight to the point (x, y).
    StraightTo(u32, u32),
    /// Go for a piece.
    Target(PieceId),
    /// Turn to the angle, then hold for the duration (in ticks).
    Rotation(u32, u16),
}

/// A path.
pub struct PathFollower {
    pub nodes: VecDeque<PathNode>,
}

impl View for PathFollower {
    type V = Seq<PathNode>;

    open spec fn view(&self) -> Seq<PathNode> {
        self.nodes@
    }
}

impl PathFollower {
    /// The node being worked towards, if the path is linked.
    pub fn get_next(&self) -> (r: Option<PathNode>)
        ensures
            r == (if self@.len() > 0 {
                Some(self@[0])
            } else {
                None
            }),
    {
        if self.nodes.len() > 0 {
            Some(self.nodes[0])
        } else {
            None
        }
    }

    /// The number of nodes, when it fits in 16 bits.
    pub fn len(&self) -> (r: Result<u16, std::num::TryFromIntError>)
        ensures
            r is Ok <==> self@.len() <= u16::MAX,
            r matches Ok(n) ==> n == self@.len(),
    {
        u16::try_from(self.nodes.len())
    }

    /// The index at which a node appended to the path goes: its length, when
    /// that fits in 16 bits.
    pub fn endex(&self) -> (r: Result<u16, std::num::TryFromIntError>)
        ensures
            r is Ok <==> self@.len() <= u16::MAX,
            r matches Ok(n) ==> n == self@.len(),
    {
        u16::try_from(self.nodes.len())
    }

    /// A goal was reached: go on to the next node, unless that would unlink
    /// the piece (the last node is never removed). Says whether the path
    /// moved on.
    pub fn bump(&mut self) -> (r: Result<bool, std::num::TryFromIntError>)
        ensures
            old(self)@.len() > u16::MAX ==> r is Err && final(self)@ == old(self)@,
            old(self)@.len() <= u16::MAX && old(self)@.len() > 1 ==> r == Ok::<
                bool,
                std::num::TryFromIntError,
            >(true) && final(self)@ == old(self)@.drop_first(),
            old(self)@.len() <= 1 ==> r == Ok::<bool, std::num::TryFromIntError>(false)
                && final(self)@ == old(self)@,
            old(self)@.len() > 0 ==> final(self)@.len() > 0 && final(self)@.last() == old(
                self,
            )@.last(),
    {
        let n = match self.len() {
            Ok(v) => v,
            Err(e) => {
                return Err(e);
            },
        };
        if n > 1 {
            self.nodes.pop_front();
            Ok(true)
        } else {
            Ok(false)
        }
    }

    /// `bump` as the server follows paths: a rotation node with time left
    /// holds the piece one tick more (its duration counts down) instead of
    /// being left.
    pub fn bump_with_rotation(&mut self) -> (r: Result<bool, std::num::TryFromIntError>)
        ensures
            old(self)@.len() > u16::MAX ==> r is Err && final(self)@ == old(self)@,
            old(self)@.len() <= u16::MAX && old(self)@.len() > 1 ==> match old(self)@[0] {
                PathNode::Rotation(a, d) if d > 0 => r == Ok::<
                    bool,
                    std::num::TryFromIntError,
                >(false) && final(self)@ == old(self)@.update(
                    0,
                    PathNode::Rotation(a, (d - 1) as u16),
                ),
                _ => r == Ok::<bool, std::num::TryFromIntError>(true) && final(self)@ == old(
                    self,
                )@.drop_first(),
            },
            old(self)@.len() <= 1 ==> r == Ok::<bool, std::num::TryFromIntError>(false)
                && final(self)@ == old(self)@,
            old(self)@.len() > 0 ==> final(self)@.len() > 0 && final(self)@.last() == old(
                self,
            )@.last(),
    {
        let n = match self.len() {
            Ok(v) => v,
            Err(e) => {
                return Err(e);
            },
        };
        if n > 1 {
            if let PathNode::Rotation(a, dur) = self.nodes[0] {
                if dur > 0 {
                    self.nodes.remove(0);
                    self.nodes.push_front(PathNode::Rotation(a, dur - 1));
                    assert(self@ =~= old(self)@.update(0, PathNode::Rotation(a, (dur - 1) as u16)));
                    return Ok(false);
                }
            }
            self.nodes.pop_front();
            Ok(true)
        } else {
            Ok(false)
        }
    }

    /// A path with a single node: go straight to (x, y).
    pub fn start(x: u32, y: u32) -> (r: Self)
        ensures
            r@ == seq![PathNode::StraightTo(x, y)],
    {
        let mut nodes = VecDeque::new();
        nodes.push_back(PathNode::StraightTo(x, y));
        Self { nodes }
    }

    /// Insert a node before position `index`; an index past the end is
    /// ignored.
    pub fn insert_node(&mut self, index: u16, node: PathNode)
        ensures
            index <= old(self)@.len() ==> final(self)@ == old(self)@.insert(index as int, node),
            index > old(self)@.len() ==> final(self)@ == old(self)@,
    {
        let index = index as usize;
        if index <= self.nodes.len() {
            self.nodes.insert(index, node);
        }
    }

    /// Replace the node at `index`; an index past the end is ignored. (An
    /// index equal to the length is out of bounds.)
    pub fn update_node(&mut self, index: u16, node: PathNode)
        requires
            index != old(self)@.len(),
        ensures
            index < old(self)@.len() ==> final(self)@ == old(self)@.update(index as int, node),
            index > old(self)@.len() ==> final(self)@ == old(self)@,
    {
        let index = index as usize;
        if index <= self.nodes.len() {
            self.nodes.remove(index);
            self.nodes.insert(index, node);
            assert(self@ =~= old(self)@.update(index as int, node));
        }
    }

    /// Unlink the piece.
    pub fn clear(&mut self)
        ensures
            final(self)@ == Seq::<PathNode>::empty(),
    {
        self.nodes.clear();
    }

    /// Remove the node at `index`, if there is one.
    pub fn remove_node(&mut self, index: u16)
        ensures
            index < old(self)@.len() ==> final(self)@ == old(self)@.remove(index as int),
            index >= old(self)@.len() ==> final(self)@ == old(self)@,
    {
        if (index as usize) < self.nodes.len() {
            self.nodes.remove(index as usize);
        }
    }

    /// Walk the nodes from the first.
    pub fn iter<'a>(&'a self) -> (r: PathIter<'a>)
        ensures
            r.path@ == self@,
            r.index == 0,
    {
        PathIter { path: self, index: 0 }
    }

    /// The node at `ind`, if there is one.
    pub fn get(&self, ind: usize) -> (r: Option<PathNode>)
        ensures
            r == (if ind < self@.len() {
                Some(self@[ind as int])
            } else {
                None
            }),
    {
        if ind < self.nodes.len() {
            Some(self.nodes[ind])
        } else {
            None
        }
    }

    /// The last node (the endcap). The path must not be empty.
    pub fn get_last(&self) -> (r: Option<PathNode>)
        requires
            self@.len() > 0,
        ensures
            r == Some(self@.last()),
    {
        self.get(self.nodes.len() - 1)
    }
}

/// A walk over the nodes of a path.
pub struct PathIter<'a> {
    pub path: &'a PathFollower,
    pub index: usize,
}

impl<'a> PathIter<'a> {
    /// The next node, if any.
    pub fn next(&mut self) -> (r: Option<PathNode>)
        requires
            old(self).index < usize::MAX,
        ensures
            final(self).path == old(self).path,
            final(self).index == old(self).index + 1,
            r == (if old(self).index < old(self).path@.len() {
                Some(old(self).path@[old(self).index as int])
            } else {
                None
            }),
    {
        self.index += 1;
        self.path.get(self.index - 1)
    }
}

/// Following a path never unlinks a piece: a path that has nodes still has
/// them after `bump`, and its last node (the endcap) is the same.
pub proof fn law_bump_keeps_endcap(before: Seq<PathNode>, after: Seq<PathNode>)
    requires
        before.len() > 1,
        after == before.drop_first(),
    ensures
        after.len() > 0,
        after.last() == before.last(),
{
}

/// A node inserted at a position is what reading that position gives.
pub proof fn law_inserted_node_is_read_back(path: Seq<PathNode>, index: int, node: PathNode)
    requires
        0 <= index <= path.len(),
    ensures
        path.insert(index, node)[index] == node,
        path.insert(index, node).len() == path.len() + 1,
{
}

} // verus!
