//! The compositor's tree as `swayipc` hands it over.
use crate::daemon::{select_target, target_of};
use crate::geometry::Rect;
use crate::state::StateUpdateError;
use crate::window::WindowNode;
use vstd::prelude::*;

verus! {

/// A node of the compositor's tree together with the nodes below it, as
/// `swayipc` holds it. Nothing inside it is visible to a proof.
#[verifier::external_type_specification]
#[verifier::external_body]
pub struct ExTree(swayipc::Node);

/// The nodes of `tree`, itself and all below it, in the order in which
/// `swayipc::Node::iter` visits them, each as the facts that placement reads.
pub uninterp spec fn tree_nodes(tree: swayipc::Node) -> Seq<WindowNode>;

/// Walks the tree with `swayipc::Node::iter` and takes from each node that
/// it yields the id, whether its type is `FloatingCon`, whether it has the
/// focus, and its three rectangles. Believed, not proved: the walk visits
/// the same nodes in the same order whenever it is given the same tree.
#[verifier::external_body]
fn walk(tree: &swayipc::Node) -> (nodes: Vec<WindowNode>)
    ensures
        nodes@ == tree_nodes(*tree),
{
    let rect = |r: &swayipc::Rect| Rect { x: r.x, y: r.y, width: r.width, height: r.height };
    tree.iter().map(|n| WindowNode {
        id: n.id,
        floating: matches!(n.node_type, swayipc::NodeType::FloatingCon),
        focused: n.focused,
        rect: rect(&n.rect),
        deco_rect: rect(&n.deco_rect),
        geometry: rect(&n.geometry),
    }).collect()
}

/// Picks the window that a pass is about in the compositor's tree.
pub fn find_target_node(tree: &swayipc::Node) -> (r: Result<WindowNode, StateUpdateError>)
    ensures
        r == target_of(tree_nodes(*tree)),
{
    let nodes = walk(tree);
    select_target(&nodes)
}

} // verus!
