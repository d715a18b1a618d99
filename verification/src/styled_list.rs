//! The styled list widget: a titled, bordered, focus-highlighted list of
//! pre-formatted rows, or a placeholder message instead of the rows. It
//! paints nothing itself: rendering yields a plan that an outer paint
//! layer draws into its region.

use vstd::prelude::*;
use crate::style::TextStyle;
use crate::style::Span;

verus! {

/// What a styled list paints: the title on the border, the border style
/// (focused lists get the accent style), and either the placeholder
/// message alone or the rows with the row at `selected` highlighted.
pub struct ListPlan {
    pub title: String,
    pub border_color: TextStyle,
    pub rows: Vec<Vec<Vec<Span>>>,
    pub selected: Option<usize>,
    pub placeholder: Option<String>,
}

/// The border style of a list: the accent style when focused, muted
/// otherwise.
pub open spec fn border_style(focused: bool) -> TextStyle {
    if focused {
        TextStyle::Yellow
    } else {
        TextStyle::Gray
    }
}

/// Configuration of one styled list render: heading text, rows, whether
/// the border is highlighted, which row is selected, and an optional
/// message that replaces the rows.
pub struct StyledList {
    pub title: String,
    pub items: Vec<Vec<Vec<Span>>>,
    pub focused: bool,
    pub state: Option<usize>,
    pub placeholder: Option<String>,
}

impl StyledList {
    /// A list with the given title, no rows, unfocused, no selection and
    /// no placeholder.
    pub fn new(title: &str) -> (r: Self)
        ensures
            r.title@ == title@,
            r.items@ == Seq::<Vec<Vec<Span>>>::empty(),
            !r.focused,
            r.state is None,
            r.placeholder is None,
    {
        StyledList {
            title: title.to_owned(),
            items: Vec::new(),
            focused: false,
            state: None,
            placeholder: None,
        }
    }

    /// Replaces the rows.
    pub fn items(self, items: Vec<Vec<Vec<Span>>>) -> (r: Self)
        ensures
            r == (StyledList { items, ..self }),
    {
        StyledList { items, ..self }
    }

    /// Sets whether the border is highlighted as focused.
    pub fn focused(self, focused: bool) -> (r: Self)
        ensures
            r == (StyledList { focused, ..self }),
    {
        StyledList { focused, ..self }
    }

    /// Supplies the external selection state the list paints with.
    pub fn state(self, selection: Option<usize>) -> (r: Self)
        ensures
            r == (StyledList { state: selection, ..self }),
    {
        StyledList { state: selection, ..self }
    }

    /// Sets a message that is painted instead of the rows.
    pub fn placeholder(self, placeholder: &str) -> (r: Self)
        ensures
            r.placeholder matches Some(p) && p@ == placeholder@,
            r.title == self.title,
            r.items == self.items,
            r.focused == self.focused,
            r.state == self.state,
    {
        StyledList { placeholder: Some(placeholder.to_owned()), ..self }
    }

    /// Renders the list as a plan: the configured title and rows pass
    /// through, the border style follows the focus flag, and the
    /// placeholder (when set) replaces the rows on screen.
    pub fn render(self) -> (plan: ListPlan)
        ensures
            plan.title == self.title,
            plan.border_color == border_style(self.focused),
            plan.rows == self.items,
            plan.selected == self.state,
            plan.placeholder == self.placeholder,
    {
        let border_color = if self.focused {
            TextStyle::Yellow
        } else {
            TextStyle::Gray
        };
        ListPlan {
            title: self.title,
            border_color,
            rows: self.items,
            selected: self.state,
            placeholder: self.placeholder,
        }
    }
}

} // verus!
