//! The window tree snapshot and the search for the focused node and its parent.
use vstd::prelude::*;

verus! {

/// How a container arranges its children.
#[derive(Clone, Copy, Debug, PartialEq, Eq, Structural)]
pub enum Layout {
    SplitH,
    SplitV,
    Stacked,
    Tabbed,
    Output,
    Dockarea,
    Unset,
}

/// What a node of the tree stands for.
#[derive(Clone, Copy, Debug, PartialEq, Eq, Structural)]
pub enum NodeKind {
    Root,
    Output,
    Workspace,
    Con,
    FloatingCon,
    Dockarea,
}

/// The size of a node on screen, in pixels.
#[derive(Clone, Copy, Debug, PartialEq, Eq, Structural)]
pub struct Rect {
    pub width: u32,
    pub height: u32,
}

/// One element of the window tree.
///
/// `percent_ppm` is the share of the parent that the node takes up, in
/// millionths, rounded up; a value above one million marks a node that is
/// outside normal tiling (fullscreen).
#[derive(Debug)]
pub struct Node {
    pub id: i64,
    pub kind: NodeKind,
    pub layout: Layout,
    pub rect: Rect,
    pub percent_ppm: Option<u64>,
    pub focused: bool,
    pub class: Option<String>,
    pub children: Vec<Node>,
}

/// A workspace, as the window manager lists it.
#[derive(Clone, Copy, Debug, PartialEq, Eq, Structural)]
pub struct Workspace {
    pub num: i32,
    pub focused: bool,
}

/// The first focused node met in a depth-first, pre-order walk from `n`.
pub open spec fn focus_of(n: Node) -> Option<Node>
    decreases n, 0int,
{
    if n.focused {
        Some(n)
    } else {
        focus_among(n.children@, 0)
    }
}

/// The first focused node met when walking the subtrees `s[i..]` in order.
pub open spec fn focus_among(s: Seq<Node>, i: int) -> Option<Node>
    decreases s, s.len() - i,
{
    if 0 <= i < s.len() {
        match focus_of(s[i]) {
            Some(f) => Some(f),
            None => focus_among(s, i + 1),
        }
    } else {
        None
    }
}

/// Whether one of the direct children of `n` is focused.
pub open spec fn has_focused_child(n: Node) -> bool {
    exists|i: int| 0 <= i < n.children@.len() && (#[trigger] n.children@[i]).focused
}

/// The first node, in a depth-first pre-order walk from `n`, whose direct
/// children include a focused node.
pub open spec fn parent_of_focus(n: Node) -> Option<Node>
    decreases n, 0int,
{
    if has_focused_child(n) {
        Some(n)
    } else {
        parent_among(n.children@, 0)
    }
}

/// The first parent of a focused node met when walking the subtrees `s[i..]`.
pub open spec fn parent_among(s: Seq<Node>, i: int) -> Option<Node>
    decreases s, s.len() - i,
{
    if 0 <= i < s.len() {
        match parent_of_focus(s[i]) {
            Some(p) => Some(p),
            None => parent_among(s, i + 1),
        }
    } else {
        None
    }
}

impl Node {
    /// Finds the focused node: the first node flagged focused in a depth-first,
    /// pre-order walk of the tree.
    pub fn find_focused(&self) -> (r: Option<&Node>)
        ensures
            match r {
                Some(f) => focus_of(*self) == Some(*f),
                None => focus_of(*self) is None,
            },
        decreases *self, 0int,
    {
        if self.focused {
            Some(self)
        } else {
            find_focused_among(&self.children, 0)
        }
    }

    /// Whether one of the direct children of this node is focused.
    pub fn has_focused_child(&self) -> (r: bool)
        ensures
            r == has_focused_child(*self),
    {
        let mut i: usize = 0;
        while i < self.children.len()
            invariant
                i <= self.children@.len(),
                forall|j: int| 0 <= j < i ==> !(#[trigger] self.children@[j]).focused,
            decreases self.children@.len() - i,
        {
            if self.children[i].focused {
                return true;
            }
            i = i + 1;
        }
        false
    }

    /// Finds the tiling parent of the focused node: the first node, in a
    /// depth-first pre-order walk, whose direct children include a focused node.
    pub fn find_focused_parent(&self) -> (r: Option<&Node>)
        ensures
            match r {
                Some(p) => parent_of_focus(*self) == Some(*p),
                None => parent_of_focus(*self) is None,
            },
        decreases *self, 0int,
    {
        if self.has_focused_child() {
            Some(self)
        } else {
            find_parent_among(&self.children, 0)
        }
    }
}

fn find_focused_among(s: &Vec<Node>, i: usize) -> (r: Option<&Node>)
    requires
        i <= s@.len(),
    ensures
        match r {
            Some(f) => focus_among(s@, i as int) == Some(*f),
            None => focus_among(s@, i as int) is None,
        },
    decreases s@, s@.len() - i,
{
    if i < s.len() {
        match s[i].find_focused() {
            Some(f) => Some(f),
            None => find_focused_among(s, i + 1),
        }
    } else {
        None
    }
}

fn find_parent_among(s: &Vec<Node>, i: usize) -> (r: Option<&Node>)
    requires
        i <= s@.len(),
    ensures
        match r {
            Some(p) => parent_among(s@, i as int) == Some(*p),
            None => parent_among(s@, i as int) is None,
        },
    decreases s@, s@.len() - i,
{
    if i < s.len() {
        match s[i].find_focused_parent() {
            Some(p) => Some(p),
            None => find_parent_among(s, i + 1),
        }
    } else {
        None
    }
}

} // verus!
