//! Strategy paths as the server follows them: straight-line points and
//! tracked pieces, with an optional final rotation (the endcap). Following a
//! path never clears its last node. Coordinates and angles are carried as the
//! bits of their `f32` values.
use vstd::prelude::*;
use std::collections::VecDeque;
use crate::ids::PieceId;

verus! {

/// One node of a server path.
#[derive(Copy, Clone, Debug, PartialEq, Eq, Structural)]
pub enum PathNode {
    StraightTo(u32, u32),
    Target(PieceId),
}

/// What happens after the last node.
#[derive(Copy, Clone, Debug, PartialEq, Eq, Structural)]
pub enum EndNode {
    /// No endcap.
    Unset,
    Rotation(u32),
}

/// A server path.
pub struct PathFollower {
    pub nodes: VecDeque<PathNode>,
    pub end: EndNode,
    /// Whether this path may track a piece on the board.
    pub can_track: bool,
}

impl PathFollower {
    /// The node being worked towards, if any.
    pub fn get_next(&self) -> (r: Option<PathNode>)
        ensures
            r == (if self.nodes@.len() > 0 {
                Some(self.nodes@[0])
            } else {
                None
            }),
    {
        if self.nodes.len() > 0 {
            Some(self.nodes[0])
        } else {
            None
        }
    }

    pub fn get_endcap(&self) -> (r: EndNode)
        ensures
            r == self.end,
    {
        self.end
    }

    /// A goal was reached: go on to the next node, unless it is the last.
    pub fn bump(&mut self) -> (r: bool)
        ensures
            r == (old(self).nodes@.len() > 1),
            r ==> final(self).nodes@ == old(self).nodes@.drop_first(),
            !r ==> final(self).nodes@ == old(self).nodes@,
            final(self).end == old(self).end,
            final(self).can_track == old(self).can_track,
            old(self).nodes@.len() > 0 ==> final(self).nodes@.len() > 0 && final(self).nodes@.last()
                == old(self).nodes@.last(),
    {
        if self.nodes.len() > 1 {
            self.nodes.pop_front();
            true
        } else {
            false
        }
    }

    /// A path with one point, no endcap, that cannot track.
    pub fn start(x: u32, y: u32) -> (r: Self)
        ensures
            r.nodes@ == seq![PathNode::StraightTo(x, y)],
            r.end == EndNode::Unset,
            !r.can_track,
    {
        let mut nodes = VecDeque::new();
        nodes.push_back(PathNode::StraightTo(x, y));
        Self { nodes, end: EndNode::Unset, can_track: false }
    }

    /// The same path, allowed to track pieces.
    pub fn with_tracking(self) -> (r: Self)
        ensures
            r.nodes@ == self.nodes@,
            r.end == self.end,
            r.can_track,
    {
        let mut s = self;
        s.can_track = true;
        s
    }

    /// Insert a point before position `index`; an index past the end is
    /// ignored.
    pub fn insert_point(&mut self, index: u16, x: u32, y: u32)
        ensures
            index <= old(self).nodes@.len() ==> final(self).nodes@ == old(self).nodes@.insert(
                index as int,
                PathNode::StraightTo(x, y),
            ),
            index > old(self).nodes@.len() ==> final(self).nodes@ == old(self).nodes@,
            final(self).end == old(self).end,
            final(self).can_track == old(self).can_track,
    {
        let index: usize = index as usize;
        if index <= self.nodes.len() {
            self.nodes.insert(index, PathNode::StraightTo(x, y));
        }
    }

    /// Insert a piece to track before position `index`, if this path may
    /// track; an index past the end is ignored.
    pub fn insert_target(&mut self, index: u16, t: PieceId)
        ensures
            old(self).can_track && index <= old(self).nodes@.len() ==> final(self).nodes@ == old(
                self,
            ).nodes@.insert(index as int, PathNode::Target(t)),
            !old(self).can_track || index > old(self).nodes@.len() ==> final(self).nodes@ == old(
                self,
            ).nodes@,
            final(self).end == old(self).end,
            final(self).can_track == old(self).can_track,
    {
        if self.can_track {
            let index: usize = index as usize;
            if index <= self.nodes.len() {
                self.nodes.insert(index, PathNode::Target(t));
            }
        }
    }

    /// Move the point at `index`; a node that is not a point, or an index
    /// past the end, is left alone.
    pub fn update_point(&mut self, index: u16, x: u32, y: u32)
        ensures
            index < old(self).nodes@.len() && old(self).nodes@[index as int] is StraightTo
                ==> final(self).nodes@ == old(self).nodes@.update(
                index as int,
                PathNode::StraightTo(x, y),
            ),
            !(index < old(self).nodes@.len() && old(self).nodes@[index as int] is StraightTo)
                ==> final(self).nodes@ == old(self).nodes@,
            final(self).end == old(self).end,
            final(self).can_track == old(self).can_track,
    {
        let index: usize = index as usize;
        if index <= self.nodes.len() {
            if index < self.nodes.len() {
                if let PathNode::StraightTo(_, _) = self.nodes[index] {
                    self.nodes.remove(index);
                    self.nodes.insert(index, PathNode::StraightTo(x, y));
                    assert(self.nodes@ =~= old(self).nodes@.update(
                        index as int,
                        PathNode::StraightTo(x, y),
                    ));
                }
            }
        }
    }

    /// The number of nodes; a path never grows past 16 bits.
    pub fn len(&self) -> (r: u16)
        requires
            self.nodes@.len() <= u16::MAX,
        ensures
            r == self.nodes@.len(),
    {
        self.nodes.len() as u16
    }

    pub fn clear(&mut self)
        ensures
            final(self).nodes@ == Seq::<PathNode>::empty(),
            final(self).end == old(self).end,
            final(self).can_track == old(self).can_track,
    {
        self.nodes.clear()
    }

    /// Remove the node at `index`, if there is one.
    pub fn remove_node(&mut self, index: u16)
        ensures
            index < old(self).nodes@.len() ==> final(self).nodes@ == old(self).nodes@.remove(
                index as int,
            ),
            index >= old(self).nodes@.len() ==> final(self).nodes@ == old(self).nodes@,
            final(self).end == old(self).end,
            final(self).can_track == old(self).can_track,
    {
        if (index as usize) < self.nodes.len() {
            self.nodes.remove(index as usize);
        }
    }

    /// Turn to the angle after the last node.
    pub fn set_endcap_rotation(&mut self, r: u32)
        ensures
            final(self).end == EndNode::Rotation(r),
            final(self).nodes@ == old(self).nodes@,
            final(self).can_track == old(self).can_track,
    {
        self.end = EndNode::Rotation(r);
    }
}

} // verus!
