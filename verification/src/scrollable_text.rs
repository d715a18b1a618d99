//! The scrollable text widget: a titled, bordered block of styled lines
//! shown from a scroll offset that is clamped to the content length at
//! render time, with a scroll indicator derived from (content length,
//! clamped offset). Rendering yields a plan for an outer paint layer and
//! returns the clamped offset for the caller to persist.

use vstd::prelude::*;
use crate::scroll::clamped_offset;
use crate::style::Span;
use crate::style::TextStyle;

verus! {

/// The scroll indicator's state: how many lines the content has and
/// which line the viewport starts at. Recomputed on every render.
#[derive(Clone, Copy, PartialEq, Eq, Structural, Debug)]
pub struct ScrollIndicator {
    pub content_length: usize,
    pub position: usize,
}

/// What a scrollable text pane paints: optional title, border style, the
/// lines, the clamped offset to start at, and the scroll indicator.
pub struct TextPlan {
    pub title: Option<String>,
    pub border_color: TextStyle,
    pub lines: Vec<Vec<Span>>,
    pub scroll: usize,
    pub indicator: ScrollIndicator,
}

/// Configuration of one scrollable text render: the content lines, the
/// offset asked for (clamped at render time), and title/border overrides.
pub struct ScrollableText {
    pub content: Vec<Vec<Span>>,
    pub scroll_position: usize,
    pub title: Option<String>,
    pub border_color: TextStyle,
}

impl ScrollableText {
    /// A pane over the given lines at the given offset, untitled, with
    /// the accent border.
    pub fn new(content: Vec<Vec<Span>>, scroll_position: usize) -> (r: Self)
        ensures
            r.content == content,
            r.scroll_position == scroll_position,
            r.title is None,
            r.border_color == TextStyle::Yellow,
    {
        ScrollableText { content, scroll_position, title: None, border_color: TextStyle::Yellow }
    }

    /// Sets the border title.
    pub fn title(self, title: &str) -> (r: Self)
        ensures
            r.title matches Some(t) && t@ == title@,
            r.content == self.content,
            r.scroll_position == self.scroll_position,
            r.border_color == self.border_color,
    {
        ScrollableText { title: Some(title.to_owned()), ..self }
    }

    /// Sets the border style.
    pub fn border_color(self, color: TextStyle) -> (r: Self)
        ensures
            r == (ScrollableText { border_color: color, ..self }),
    {
        ScrollableText { border_color: color, ..self }
    }

    /// The offset as it stands: after `render` it is the clamped value,
    /// for the caller to persist back into durable state.
    pub fn get_clamped_scroll_position(&self) -> (r: usize)
        ensures
            r == self.scroll_position,
    {
        self.scroll_position
    }

    /// Renders the pane as a plan: the offset is clamped to the line
    /// count and kept (readable afterwards through
    /// `get_clamped_scroll_position`), the lines move into the plan, and
    /// the indicator is recomputed from (line count, clamped offset).
    pub fn render(&mut self) -> (plan: TextPlan)
        ensures
            final(self).scroll_position == clamped_offset(
                old(self).scroll_position as int,
                old(self).content@.len() as int,
            ),
            final(self).scroll_position <= old(self).content@.len(),
            plan.lines == old(self).content,
            plan.scroll == final(self).scroll_position,
            plan.indicator == (ScrollIndicator {
                content_length: old(self).content.len(),
                position: final(self).scroll_position,
            }),
            plan.title == old(self).title,
            final(self).title == old(self).title,
            plan.border_color == old(self).border_color,
            final(self).border_color == old(self).border_color,
            final(self).content@ == Seq::<Vec<Span>>::empty(),
    {
        let max_scroll = self.content.len();
        if self.scroll_position > max_scroll {
            self.scroll_position = max_scroll;
        }
        let mut lines: Vec<Vec<Span>> = Vec::new();
        core::mem::swap(&mut lines, &mut self.content);
        let title = match &self.title {
            Some(t) => Some(t.clone()),
            None => None,
        };
        TextPlan {
            title,
            border_color: self.border_color,
            lines,
            scroll: self.scroll_position,
            indicator: ScrollIndicator {
                content_length: max_scroll,
                position: self.scroll_position,
            },
        }
    }
}

} // verus!
