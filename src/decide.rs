//! Eligibility of the focused node and the choice of a layout command.
use vstd::prelude::*;
use crate::config::AutotileConfig;
use crate::geometry::{calculate_optimal_split, desired_split};
use crate::tree::{focus_of, parent_of_focus, Layout, Node, NodeKind, Workspace};

verus! {

/// The share, in millionths, above which a node counts as fullscreen.
pub const FULL_SHARE_PPM: u64 = 1_000_000;

/// A command for the window manager.
#[derive(Clone, Copy, Debug, PartialEq, Eq, Structural)]
pub enum LayoutCommand {
    SplitHorizontal,
    SplitVertical,
    Balance,
    NoOp,
}

/// The number of the first focused workspace of the list, if any.
pub open spec fn focused_workspace_spec(ws: Seq<Workspace>) -> Option<i32>
    decreases ws.len(),
{
    if ws.len() == 0 {
        None
    } else if ws[0].focused {
        Some(ws[0].num)
    } else {
        focused_workspace_spec(ws.drop_first())
    }
}

/// Whether the workspace filter lets autotiling act: the allow-list is empty,
/// or a workspace is focused and its number is on the list.
pub open spec fn workspace_allowed_spec(ws: Seq<Workspace>, allowed: Seq<i32>) -> bool {
    allowed.len() == 0 || match focused_workspace_spec(ws) {
        Some(n) => allowed.contains(n),
        None => false,
    }
}

/// Whether a node is outside normal tiling: its share exceeds the whole.
pub open spec fn is_fullscreen_spec(node: Node) -> bool {
    match node.percent_ppm {
        Some(p) => p > FULL_SHARE_PPM,
        None => false,
    }
}

/// Whether autotiling may act for this focused node.
pub open spec fn eligible_spec(focused: Node, ws: Seq<Workspace>, config: AutotileConfig) -> bool {
    &&& workspace_allowed_spec(ws, config.workspaces@)
    &&& focused.kind != NodeKind::FloatingCon
    &&& focused.layout != Layout::Stacked
    &&& focused.layout != Layout::Tabbed
    &&& !is_fullscreen_spec(focused)
}

/// The command that sets a split layout.
pub open spec fn split_command(layout: Layout) -> LayoutCommand {
    if layout == Layout::SplitV {
        LayoutCommand::SplitVertical
    } else {
        LayoutCommand::SplitHorizontal
    }
}

/// The layout that a split command sets.
pub open spec fn layout_of_command(cmd: LayoutCommand) -> Layout {
    if cmd == LayoutCommand::SplitVertical {
        Layout::SplitV
    } else {
        Layout::SplitH
    }
}

/// The decision for one snapshot of the tree and the workspaces.
pub open spec fn decide_spec(tree: Node, ws: Seq<Workspace>, config: AutotileConfig) -> LayoutCommand {
    match focus_of(tree) {
        None => LayoutCommand::NoOp,
        Some(f) => if !eligible_spec(f, ws, config) {
            LayoutCommand::NoOp
        } else {
            match parent_of_focus(tree) {
                None => LayoutCommand::NoOp,
                Some(p) => if p.layout == desired_split(p.rect) {
                    LayoutCommand::NoOp
                } else {
                    split_command(desired_split(p.rect))
                },
            }
        },
    }
}

/// The number of the first focused workspace of the list, if any.
pub fn focused_workspace(ws: &Vec<Workspace>) -> (r: Option<i32>)
    ensures
        r == focused_workspace_spec(ws@),
{
    let mut i: usize = 0;
    assert(ws@.subrange(0, ws@.len() as int) =~= ws@);
    while i < ws.len()
        invariant
            i <= ws@.len(),
            focused_workspace_spec(ws@.subrange(i as int, ws@.len() as int)) == focused_workspace_spec(ws@),
        decreases ws@.len() - i,
    {
        assert(ws@.subrange(i as int, ws@.len() as int).drop_first() =~= ws@.subrange(i + 1, ws@.len() as int));
        if ws[i].focused {
            return Some(ws[i].num);
        }
        i = i + 1;
    }
    assert(ws@.subrange(i as int, ws@.len() as int).len() == 0);
    None
}

/// Whether the workspace filter lets autotiling act.
pub fn workspace_allowed(ws: &Vec<Workspace>, config: &AutotileConfig) -> (r: bool)
    ensures
        r == workspace_allowed_spec(ws@, config.workspaces@),
{
    if config.workspaces.len() == 0 {
        return true;
    }
    match focused_workspace(ws) {
        Some(n) => {
            let mut i: usize = 0;
            while i < config.workspaces.len()
                invariant
                    i <= config.workspaces@.len(),
                    focused_workspace_spec(ws@) == Some(n),
                    forall|j: int| 0 <= j < i ==> config.workspaces@[j] != n,
                decreases config.workspaces@.len() - i,
            {
                if config.workspaces[i] == n {
                    assert(config.workspaces@[i as int] == n);
                    return true;
                }
                i = i + 1;
            }
            false
        },
        None => false,
    }
}

/// Whether a node is fullscreen: its share of the parent exceeds the whole.
pub fn is_fullscreen(node: &Node) -> (r: bool)
    ensures
        r == is_fullscreen_spec(*node),
{
    match node.percent_ppm {
        Some(p) => p > FULL_SHARE_PPM,
        None => false,
    }
}

/// Whether autotiling may act for the focused node: the focused workspace
/// passes the filter, and the node is neither floating, stacked, tabbed nor
/// fullscreen.
pub fn is_eligible(focused: &Node, ws: &Vec<Workspace>, config: &AutotileConfig) -> (r: bool)
    ensures
        r == eligible_spec(*focused, ws@, *config),
{
    if !workspace_allowed(ws, config) {
        return false;
    }
    if focused.kind == NodeKind::FloatingCon {
        return false;
    }
    if focused.layout == Layout::Stacked || focused.layout == Layout::Tabbed {
        return false;
    }
    !is_fullscreen(focused)
}

/// The layout to give a node on its way down a spiral of splits: none for
/// floating, stacked or tabbed nodes, which are left alone; else `target`.
pub fn apply_spiral_autotile(node: &Node, target: Layout) -> (r: Option<Layout>)
    ensures
        (node.kind == NodeKind::FloatingCon || node.layout == Layout::Stacked || node.layout
            == Layout::Tabbed) ==> r is None,
        !(node.kind == NodeKind::FloatingCon || node.layout == Layout::Stacked || node.layout
            == Layout::Tabbed) ==> r == Some(target),
{
    if node.kind == NodeKind::FloatingCon || node.layout == Layout::Stacked || node.layout
        == Layout::Tabbed {
        None
    } else {
        Some(target)
    }
}

/// Decides the layout command for a snapshot of the tree and the workspaces.
///
/// Nothing is done when no node is focused, when the focused node is not
/// eligible, when it has no parent, or when the parent already has the split
/// that keeps it square; else the command sets that split.
pub fn decide(tree: &Node, ws: &Vec<Workspace>, config: &AutotileConfig) -> (r: LayoutCommand)
    ensures
        r == decide_spec(*tree, ws@, *config),
        r != LayoutCommand::Balance,
{
    let focused = match tree.find_focused() {
        Some(f) => f,
        None => return LayoutCommand::NoOp,
    };
    if !is_eligible(focused, ws, config) {
        return LayoutCommand::NoOp;
    }
    let parent = match tree.find_focused_parent() {
        Some(p) => p,
        None => return LayoutCommand::NoOp,
    };
    let optimal = calculate_optimal_split(parent);
    if optimal == parent.layout {
        return LayoutCommand::NoOp;
    }
    match optimal {
        Layout::SplitV => LayoutCommand::SplitVertical,
        _ => LayoutCommand::SplitHorizontal,
    }
}

/// Whenever the focused node is not eligible, the decision is to do nothing,
/// whatever the shape of the rest of the tree.
pub proof fn lemma_ineligible_is_noop(tree: Node, ws: Seq<Workspace>, config: AutotileConfig)
    requires
        focus_of(tree) matches Some(f) && !eligible_spec(f, ws, config),
    ensures
        decide_spec(tree, ws, config) == LayoutCommand::NoOp,
{
}

/// Deciding again settles: once the tiling parent carries the layout that a
/// decision asked for, with its geometry unchanged, the next decision is to do
/// nothing. In particular no decision asks for the layout that the parent
/// already has.
pub proof fn lemma_decide_settles(
    before: Node,
    after: Node,
    ws: Seq<Workspace>,
    config: AutotileConfig,
)
    requires
        decide_spec(before, ws, config) != LayoutCommand::NoOp,
        parent_of_focus(before) matches Some(p) && parent_of_focus(after) matches Some(q) && q.rect
            == p.rect && q.layout == layout_of_command(decide_spec(before, ws, config)),
    ensures
        decide_spec(after, ws, config) == LayoutCommand::NoOp,
{
}

/// A decision never asks for the layout that the tiling parent already has.
pub proof fn lemma_decide_never_repeats(tree: Node, ws: Seq<Workspace>, config: AutotileConfig)
    requires
        decide_spec(tree, ws, config) != LayoutCommand::NoOp,
    ensures
        parent_of_focus(tree) matches Some(p) && p.layout != layout_of_command(
            decide_spec(tree, ws, config),
        ),
{
}

/// With a non-empty workspace allow-list, a focused workspace whose number is
/// not on the list, or no focused workspace, means nothing is done, whatever
/// the geometry.
pub proof fn lemma_workspace_filter(tree: Node, ws: Seq<Workspace>, config: AutotileConfig)
    requires
        config.workspaces@.len() > 0,
        match focused_workspace_spec(ws) {
            Some(n) => !config.workspaces@.contains(n),
            None => true,
        },
    ensures
        decide_spec(tree, ws, config) == LayoutCommand::NoOp,
{
}

/// A fullscreen focused node, one whose share exceeds the whole, is never
/// split, whatever its aspect ratio.
pub proof fn lemma_fullscreen_never_split(tree: Node, ws: Seq<Workspace>, config: AutotileConfig)
    requires
        focus_of(tree) matches Some(f) && f.percent_ppm matches Some(p) && p > FULL_SHARE_PPM,
    ensures
        decide_spec(tree, ws, config) == LayoutCommand::NoOp,
{
}

} // verus!
