//! What the compositor reports of a window: where it is, how large it is,
//! and the working area around it.
use crate::geometry::{aspect_ratio, ratio_of, Ratio, Rect};
use crate::numeric::{clamp, clamp_i64, round_div, round_quotient, wide_product};
use crate::unit::AbsolutePercentage;
use vstd::prelude::*;

verus! {

/// The size of a window in pixels.
#[derive(Debug, Clone, Copy, PartialEq, Eq, Structural)]
pub struct WindowDimension {
    pub width: i32,
    pub height: i32,
}

impl WindowDimension {
    /// The window's aspect ratio; the zero ratio where it has no height.
    pub fn ratio(&self) -> (r: Ratio)
        ensures
            r == ratio_of(self.width, self.height),
    {
        aspect_ratio(self.width, self.height)
    }
}

/// A point in compositor coordinates.
#[derive(Debug, Clone, Copy, PartialEq, Eq, Structural)]
pub struct Coordinate {
    pub x: i32,
    pub y: i32,
}

impl Coordinate {
    /// The point at `x`, `y`.
    pub fn new(x: i32, y: i32) -> (r: Coordinate)
        ensures
            r == (Coordinate { x, y }),
    {
        Coordinate { x, y }
    }
}

/// One node of the compositor's tree, as far as placement reads it.
#[derive(Debug, Clone, Copy, PartialEq, Eq, Structural)]
pub struct WindowNode {
    /// The handle by which commands name the window.
    pub id: i64,
    /// Whether the node is a floating window.
    pub floating: bool,
    /// Whether the node has the focus.
    pub focused: bool,
    /// The window's rectangle.
    pub rect: Rect,
    /// The rectangle of the window's decoration.
    pub deco_rect: Rect,
    /// The rectangle that the window's content asked for.
    pub geometry: Rect,
}

/// A window with the working area that holds it.
#[derive(Debug, Clone, Copy, PartialEq, Eq, Structural)]
pub struct Window {
    pub position: Coordinate,
    pub dimensions: WindowDimension,
    pub natural_dimensions: Option<WindowDimension>,
    pub working_area: Rect,
}

/// A workspace: the nodes it holds, by id, and its rectangle.
#[derive(Debug, Clone, PartialEq, Eq)]
pub struct Workspace {
    pub focus: Vec<i64>,
    pub rect: Rect,
}

/// Whether `workspace` holds the node `node_id`.
pub open spec fn holds(workspace: Workspace, node_id: i64) -> bool {
    workspace.focus@.contains(node_id)
}

/// Whether workspace `i` is the first of `workspaces` that holds `node_id`.
pub open spec fn first_holder(workspaces: Seq<Workspace>, node_id: i64, i: int) -> bool {
    &&& 0 <= i < workspaces.len()
    &&& holds(workspaces[i], node_id)
    &&& forall|j: int| 0 <= j < i ==> !holds(#[trigger] workspaces[j], node_id)
}

fn has_node(workspace: &Workspace, node_id: i64) -> (b: bool)
    ensures
        b == holds(*workspace, node_id),
{
    let mut i: usize = 0;
    while i < workspace.focus.len()
        invariant
            i <= workspace.focus@.len(),
            forall|j: int| 0 <= j < i ==> workspace.focus@[j] != node_id,
        decreases workspace.focus@.len() - i,
    {
        if workspace.focus[i] == node_id {
            return true;
        }
        i = i + 1;
    }
    false
}

/// The rectangle of the first workspace that holds the node `node_id`, or
/// none where no workspace holds it.
pub fn find_working_area_for(workspaces: &Vec<Workspace>, node_id: i64) -> (r: Option<Rect>)
    ensures
        match r {
            Some(rect) => exists|i: int|
                first_holder(workspaces@, node_id, i) && rect == workspaces@[i].rect,
            None => forall|i: int|
                0 <= i < workspaces@.len() ==> !holds(#[trigger] workspaces@[i], node_id),
        },
{
    let mut i: usize = 0;
    while i < workspaces.len()
        invariant
            i <= workspaces@.len(),
            forall|j: int| 0 <= j < i ==> !holds(#[trigger] workspaces@[j], node_id),
        decreases workspaces@.len() - i,
    {
        if has_node(&workspaces[i], node_id) {
            assert(first_holder(workspaces@, node_id, i as int));
            return Some(workspaces[i].rect);
        }
        i = i + 1;
    }
    None
}

/// The exact share that `extent` is of `parent`, to the nearest millionth
/// of a percent and kept within the range of a share; 0 for an empty parent.
pub open spec fn share_of(extent: int, parent: int) -> int {
    clamp(round_quotient(extent * 100_000_000, parent), i64::MIN as int, i64::MAX as int)
}

fn share(extent: i32, parent: i32) -> (r: AbsolutePercentage)
    ensures
        r.0 == share_of(extent as int, parent as int),
{
    AbsolutePercentage(clamp_i64(round_div(wide_product(100_000_000, extent), parent as i128)))
}

impl Window {
    /// The snapshot of `node` in the working area `working_area`.
    pub open spec fn snapshot(node: WindowNode, working_area: Rect) -> Window {
        Window {
            position: Coordinate { x: node.rect.x, y: node.rect.y },
            dimensions: WindowDimension { width: node.rect.width, height: node.rect.height },
            natural_dimensions: Some(
                WindowDimension { width: node.geometry.width, height: node.geometry.height },
            ),
            working_area,
        }
    }

    /// Takes the facts of `node` that placement reads.
    pub fn from_node(node: &WindowNode, working_area: Rect) -> (r: Window)
        ensures
            r == Window::snapshot(*node, working_area),
    {
        Window {
            position: Coordinate::new(node.rect.x, node.rect.y),
            dimensions: WindowDimension { width: node.rect.width, height: node.rect.height },
            natural_dimensions: Some(
                WindowDimension { width: node.geometry.width, height: node.geometry.height },
            ),
            working_area,
        }
    }

    /// The window's width as a share of the working area's.
    pub fn width_in_parent_percentage(&self) -> (r: AbsolutePercentage)
        ensures
            r.0 == share_of(self.dimensions.width as int, self.working_area.width as int),
    {
        share(self.dimensions.width, self.working_area.width)
    }

    /// The window's height as a share of the working area's.
    pub fn height_in_parent_percentage(&self) -> (r: AbsolutePercentage)
        ensures
            r.0 == share_of(self.dimensions.height as int, self.working_area.height as int),
    {
        share(self.dimensions.height, self.working_area.height)
    }
}

} // verus!
