//! The two-column layout: composes two list plans side by side, the
//! region split horizontally at a fixed 30/70 percentage.

use vstd::prelude::*;
use crate::styled_list::ListPlan;

verus! {

/// What the two-column composition paints: the two plans and the width
/// of each column, left first.
pub struct ColumnsPlan {
    pub left_width: u16,
    pub right_width: u16,
    pub left: ListPlan,
    pub right: ListPlan,
}

/// The width of the left column: the fixed percentage of the region
/// width, rounded down.
pub open spec fn left_split(width: int, left_pct: int) -> int {
    width * left_pct / 100
}

/// Splits a region width at the given percentage: the left column gets
/// its share rounded down, the right column the rest.
pub fn percentage_split(width: u16, left_pct: u16) -> (r: (u16, u16))
    requires
        left_pct <= 100,
    ensures
        r.0 as int == left_split(width as int, left_pct as int),
        r.1 == width - r.0,
{
    proof {
        assert((width as int) * (left_pct as int) <= 65535 * 100) by (nonlinear_arith)
            requires
                width <= 65535,
                left_pct <= 100,
        ;
    }
    let left_width_wide: u32 = (width as u32) * (left_pct as u32) / 100;
    proof {
        assert(left_width_wide <= width) by (nonlinear_arith)
            requires
                left_width_wide == (width as int) * (left_pct as int) / 100,
                left_pct <= 100,
                width <= 65535,
        ;
    }
    (left_width_wide as u16, width - (left_width_wide as u16))
}

/// The two-column composition of a left and a right plan at a 30/70
/// split.
pub struct TwoColumnLayout {
    pub left: ListPlan,
    pub right: ListPlan,
    pub left_pct: u16,
    pub right_pct: u16,
}

impl TwoColumnLayout {
    /// Composes the two plans at the fixed 30/70 split.
    pub fn new(left: ListPlan, right: ListPlan) -> (r: Self)
        ensures
            r.left == left,
            r.right == right,
            r.left_pct == 30,
            r.right_pct == 70,
    {
        TwoColumnLayout { left, right, left_pct: 30, right_pct: 70 }
    }

    /// Renders the composition over a region of the given width: the left
    /// column gets its percentage of the width (rounded down), the right
    /// column the rest, and the plans pass through in order.
    pub fn render(self, width: u16) -> (plan: ColumnsPlan)
        requires
            self.left_pct <= 100,
        ensures
            plan.left_width as int == left_split(width as int, self.left_pct as int),
            plan.right_width == width - plan.left_width,
            plan.left == self.left,
            plan.right == self.right,
    {
        let (left_width, right_width) = percentage_split(width, self.left_pct);
        ColumnsPlan { left_width, right_width, left: self.left, right: self.right }
    }
}

} // verus!
