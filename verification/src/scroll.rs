//! Scroll bookkeeping for the detail screen: a non-negative offset over
//! rendered text lines, moved with saturating arithmetic and clamped to
//! the content length at render time.

use vstd::prelude::*;

verus! {

/// Clamping an offset to a content line count: the smaller of the two.
pub open spec fn clamped_offset(offset: int, content_line_count: int) -> int {
    if offset <= content_line_count {
        offset
    } else {
        content_line_count
    }
}

/// An offset moved one line down with saturating arithmetic.
pub open spec fn advanced_offset(offset: int) -> int {
    if offset == usize::MAX {
        offset
    } else {
        offset + 1
    }
}

/// An offset moved one line up, stopping at 0.
pub open spec fn retreated_offset(offset: int) -> int {
    if offset == 0 {
        0
    } else {
        offset - 1
    }
}

/// The number of leading lines hidden above the visible viewport.
pub struct ScrollState {
    pub offset: usize,
}

impl ScrollState {
    /// A fresh state scrolled to the top.
    pub fn new() -> (s: Self)
        ensures
            s.offset == 0,
    {
        ScrollState { offset: 0 }
    }

    /// Moves one line down, saturating at the largest representable
    /// offset; the result is never lower than before the call.
    pub fn advance(&mut self)
        ensures
            final(self).offset == advanced_offset(old(self).offset as int),
            final(self).offset >= old(self).offset,
    {
        self.offset = self.offset.saturating_add(1);
    }

    /// Moves one line up; at offset 0 it stays at 0 (no underflow).
    pub fn retreat(&mut self)
        ensures
            final(self).offset == retreated_offset(old(self).offset as int),
    {
        self.offset = self.offset.saturating_sub(1);
    }

    /// Clamps the offset to the given content line count; invoked during
    /// render, so a stale offset never outlives one frame.
    pub fn clamp(&mut self, content_line_count: usize)
        ensures
            final(self).offset == clamped_offset(
                old(self).offset as int,
                content_line_count as int,
            ),
            final(self).offset <= content_line_count,
    {
        if self.offset > content_line_count {
            self.offset = content_line_count;
        }
    }
}

/// Law: a clamped offset never exceeds the content line count, and
/// clamping is idempotent.
pub proof fn lemma_clamp_idempotent(offset: int, content_line_count: int)
    requires
        0 <= offset,
        0 <= content_line_count,
    ensures
        clamped_offset(offset, content_line_count) <= content_line_count,
        clamped_offset(
            clamped_offset(offset, content_line_count),
            content_line_count,
        ) == clamped_offset(offset, content_line_count),
{
}

} // verus!
