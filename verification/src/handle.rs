//! Handles: the named connection points on the boundary of a node.

use vstd::prelude::*;
use crate::geometry::Point;

verus! {

/// Width of every node, in graph space.
pub const NODE_WIDTH: i64 = 150;

/// Height of every node, in graph space.
pub const NODE_HEIGHT: i64 = 80;

/// Width and height of the marker that shows a handle.
pub const HANDLE_SIZE: i64 = 10;

/// Whether edges are meant to leave a handle or to arrive at it. Advisory:
/// nothing checks an edge's direction against it.
#[derive(Clone, Copy, Debug, PartialEq, Eq, Structural)]
pub enum HandleType {
    Source,
    Target,
}

/// The side of the node on which a handle sits.
#[derive(Clone, Copy, Debug, PartialEq, Eq, Structural)]
pub enum Position {
    Top,
    Bottom,
    Left,
    Right,
}

impl Position {
    /// The middle of the side, relative to the node's origin, for a node
    /// of 150 by 80.
    pub open spec fn spec_anchor(self) -> Point {
        match self {
            Position::Top => Point { x: 75, y: 0 },
            Position::Bottom => Point { x: 75, y: 80 },
            Position::Left => Point { x: 0, y: 40 },
            Position::Right => Point { x: 150, y: 40 },
        }
    }

    /// The top-left corner of the handle's marker, relative to the node's
    /// origin: the marker is centred on the anchor.
    pub open spec fn spec_marker_origin(self) -> Point {
        Point { x: (self.spec_anchor().x - 5) as i64, y: (self.spec_anchor().y - 5) as i64 }
    }

    #[verifier::when_used_as_spec(spec_marker_origin)]
    pub fn marker_origin(self) -> (p: Point)
        ensures
            p == self.spec_marker_origin(),
    {
        let anchor = self.anchor();
        Point { x: anchor.x - HANDLE_SIZE / 2, y: anchor.y - HANDLE_SIZE / 2 }
    }

    #[verifier::when_used_as_spec(spec_anchor)]
    pub fn anchor(self) -> (p: Point)
        ensures
            p == self.spec_anchor(),
    {
        match self {
            Position::Top => Point { x: NODE_WIDTH / 2, y: 0 },
            Position::Bottom => Point { x: NODE_WIDTH / 2, y: NODE_HEIGHT },
            Position::Left => Point { x: 0, y: NODE_HEIGHT / 2 },
            Position::Right => Point { x: NODE_WIDTH, y: NODE_HEIGHT / 2 },
        }
    }
}

/// Where an edge leaves its source node when it names no handle of that
/// node: the middle of the bottom side.
pub open spec fn spec_source_default_anchor() -> Point {
    Position::Bottom.spec_anchor()
}

/// Where an edge reaches its target node when it names no handle of that
/// node: the middle of the top side.
pub open spec fn spec_target_default_anchor() -> Point {
    Position::Top.spec_anchor()
}

#[verifier::when_used_as_spec(spec_source_default_anchor)]
pub fn source_default_anchor() -> (p: Point)
    ensures
        p == spec_source_default_anchor(),
{
    Position::Bottom.anchor()
}

#[verifier::when_used_as_spec(spec_target_default_anchor)]
pub fn target_default_anchor() -> (p: Point)
    ensures
        p == spec_target_default_anchor(),
{
    Position::Top.anchor()
}

/// A connection point of a node. Its id is meant to be unique within the node.
#[derive(Clone, Debug)]
pub struct Handle {
    pub id: String,
    pub handle_type: HandleType,
    pub position: Position,
    /// Reserved: a position along the side, in thousandths of its length.
    /// Anchors do not depend on it.
    pub offset: Option<u32>,
}

impl Handle {
    pub fn new(id: &str, handle_type: HandleType, position: Position) -> (h: Handle)
        ensures
            h.id@ == id@,
            h.handle_type == handle_type,
            h.position == position,
            h.offset is None,
    {
        Handle { id: id.to_owned(), handle_type, position, offset: None }
    }
}

/// Whether `i` is the first place in `handles` that holds the id `id`.
pub open spec fn is_first_handle(handles: Seq<Handle>, id: Seq<char>, i: int) -> bool {
    &&& 0 <= i < handles.len()
    &&& handles[i].id@ == id
    &&& forall|j: int| 0 <= j < i ==> (#[trigger] handles[j]).id@ != id
}

/// Whether some handle in `handles` has the id `id`.
pub open spec fn has_handle(handles: Seq<Handle>, id: Seq<char>) -> bool {
    exists|i: int| 0 <= i < handles.len() && (#[trigger] handles[i]).id@ == id
}

/// Whether `p` is the anchor for the handle id `id` among `handles`: the
/// middle of the side of the first handle with that id, and `fallback`
/// where no handle has it.
pub open spec fn is_anchor_of(handles: Seq<Handle>, id: Seq<char>, fallback: Point, p: Point) -> bool {
    ||| exists|i: int| #[trigger]
        is_first_handle(handles, id, i) && p == handles[i].position.spec_anchor()
    ||| p == fallback && forall|i: int|
        0 <= i < handles.len() ==> (#[trigger] handles[i]).id@ != id
}

/// Whether `p` is the anchor for an optional handle id among `handles`:
/// `fallback` where no id is given.
pub open spec fn is_anchor(
    handles: Seq<Handle>,
    handle_id: Option<Seq<char>>,
    fallback: Point,
    p: Point,
) -> bool {
    match handle_id {
        Some(id) => is_anchor_of(handles, id, fallback, p),
        None => p == fallback,
    }
}

/// The place of the first handle with the id `id`, where there is one.
pub open spec fn first_handle(handles: Seq<Handle>, id: Seq<char>) -> int {
    choose|i: int| is_first_handle(handles, id, i)
}

/// The anchor, relative to the node's origin, for an optional handle id:
/// the middle of the side of the first handle with that id, and `fallback`
/// where no id is given or no handle has it.
pub open spec fn resolve_anchor(
    handles: Seq<Handle>,
    handle_id: Option<Seq<char>>,
    fallback: Point,
) -> Point {
    match handle_id {
        Some(id) => if has_handle(handles, id) {
            handles[first_handle(handles, id)].position.spec_anchor()
        } else {
            fallback
        },
        None => fallback,
    }
}

/// What an optional handle id stands for in contracts.
pub open spec fn handle_id_view(handle_id: Option<&String>) -> Option<Seq<char>> {
    match handle_id {
        Some(id) => Some(id@),
        None => None,
    }
}

/// A first place is the only first place.
pub proof fn lemma_first_handle(handles: Seq<Handle>, id: Seq<char>, i: int)
    requires
        is_first_handle(handles, id, i),
    ensures
        has_handle(handles, id),
        first_handle(handles, id) == i,
{
    let k = first_handle(handles, id);
    assert(is_first_handle(handles, id, k));
    if k < i {
        assert(handles[k].id@ != id);
    } else if i < k {
        assert(handles[i].id@ != id);
    }
}

/// Resolves an optional handle id against a list of handles.
pub fn anchor_among(handles: &Vec<Handle>, handle_id: Option<&String>, fallback: Point) -> (p:
    Point)
    ensures
        p == resolve_anchor(handles@, handle_id_view(handle_id), fallback),
        is_anchor(handles@, handle_id_view(handle_id), fallback, p),
{
    match handle_id {
        None => fallback,
        Some(id) => {
            let mut i: usize = 0;
            while i < handles.len()
                invariant
                    0 <= i <= handles.len(),
                    handle_id == Some(id),
                    forall|j: int| 0 <= j < i ==> handles@[j].id@ != id@,
                decreases handles.len() - i,
            {
                if handles[i].id == *id {
                    proof {
                        lemma_first_handle(handles@, id@, i as int);
                        assert(is_first_handle(handles@, id@, i as int));
                    }
                    return handles[i].position.anchor();
                }
                i += 1;
            }
            fallback
        },
    }
}

} // verus!
