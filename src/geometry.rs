//! Aspect ratios and the split orientation that keeps containers square.
use vstd::prelude::*;
use crate::tree::{Layout, Node, Rect};

verus! {

/// A width-to-height ratio, kept exactly as the fraction `num / den`.
#[derive(Clone, Copy, Debug, PartialEq, Eq, Structural)]
pub struct AspectRatio {
    pub num: u32,
    pub den: u32,
}

impl AspectRatio {
    /// The ratio as a mathematical value; its denominator is never zero.
    pub open spec fn wf(self) -> bool {
        self.den > 0
    }

    /// Whether the ratio exceeds one: the rectangle is wider than tall.
    pub open spec fn is_wide(self) -> bool {
        self.num > self.den
    }
}

/// The aspect ratio of a rectangle: `width / height`, and exactly one when
/// the height is zero.
pub open spec fn aspect_ratio_of(rect: Rect) -> AspectRatio {
    if rect.height == 0 {
        AspectRatio { num: 1, den: 1 }
    } else {
        AspectRatio { num: rect.width, den: rect.height }
    }
}

/// The split that keeps a container square: a wide container is split
/// vertically (its width is divided), a tall or square one horizontally.
pub open spec fn desired_split(rect: Rect) -> Layout {
    if aspect_ratio_of(rect).is_wide() {
        Layout::SplitV
    } else {
        Layout::SplitH
    }
}

/// Computes the aspect ratio of a node's rectangle.
pub fn calculate_aspect_ratio(node: &Node) -> (r: AspectRatio)
    ensures
        r == aspect_ratio_of(node.rect),
        r.wf(),
        node.rect.height == 0 ==> r.num == 1 && r.den == 1,
{
    if node.rect.height == 0 {
        AspectRatio { num: 1, den: 1 }
    } else {
        AspectRatio { num: node.rect.width, den: node.rect.height }
    }
}

/// Chooses the split orientation for a parent container from its geometry,
/// following the policy of keeping containers square.
pub fn calculate_optimal_split(parent: &Node) -> (r: Layout)
    ensures
        r == desired_split(parent.rect),
        r == Layout::SplitV <==> (parent.rect.height > 0 && parent.rect.width > parent.rect.height),
{
    let ratio = calculate_aspect_ratio(parent);
    if ratio.num > ratio.den {
        Layout::SplitV
    } else {
        Layout::SplitH
    }
}

} // verus!
