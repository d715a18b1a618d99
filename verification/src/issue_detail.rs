//! The issue detail screen: composes the detail of one issue into a block
//! of styled lines in a fixed section order — URL, title, description (if
//! non-empty), comments (if any) — and delegates to the scrollable text
//! widget under the title "Issue Detail".

use vstd::prelude::*;
use crate::models::Comment;
use crate::models::Issue;
use crate::scroll::clamped_offset;
use crate::scrollable_text::ScrollIndicator;
use crate::scrollable_text::ScrollableText;
use crate::scrollable_text::TextPlan;
use crate::style::Span;
use crate::style::TextStyle;
use crate::style::blank_line;
use crate::style::blank_line_view;
use crate::style::line_of;
use crate::style::lines_view;
use crate::style::single_span_line;
use crate::style::span_raw;
use crate::style::span_styled;
use crate::text::split_text_lines;
use crate::text::text_lines;

verus! {

/// Each text line as one unstyled display line.
pub open spec fn plain_lines(ts: Seq<Seq<char>>) -> Seq<Seq<(Seq<char>, TextStyle)>> {
    ts.map_values(|t: Seq<char>| single_span_line(t, TextStyle::Plain))
}

/// The fixed head of the detail block: the URL line, a blank, the title
/// line, a blank. The field labels carry the accent style.
pub open spec fn header_block(url: Seq<char>, title: Seq<char>) -> Seq<
    Seq<(Seq<char>, TextStyle)>,
> {
    seq![
        seq![("URL: "@, TextStyle::Yellow), (url, TextStyle::Plain)],
        blank_line_view(),
        seq![("Title: "@, TextStyle::Yellow), (title, TextStyle::Plain)],
        blank_line_view(),
    ]
}

/// The description section: empty when the description is empty text,
/// otherwise a "Description:" header, a blank, each description line
/// verbatim, and a closing blank.
pub open spec fn description_block(d: Seq<char>) -> Seq<Seq<(Seq<char>, TextStyle)>> {
    if d.len() == 0 {
        Seq::empty()
    } else {
        seq![single_span_line("Description:"@, TextStyle::Yellow), blank_line_view()]
            + plain_lines(text_lines(d)) + seq![blank_line_view()]
    }
}

/// One comment: a "---" separator, each line of the body, a blank.
pub open spec fn comment_block(body: Seq<char>) -> Seq<Seq<(Seq<char>, TextStyle)>> {
    seq![single_span_line("---"@, TextStyle::Plain)] + plain_lines(text_lines(body))
        + seq![blank_line_view()]
}

/// The comment blocks from index `k` on, in order.
pub open spec fn comment_blocks_from(bodies: Seq<Seq<char>>, k: int) -> Seq<
    Seq<(Seq<char>, TextStyle)>,
>
    decreases bodies.len() - k,
{
    if k < 0 || k >= bodies.len() {
        Seq::empty()
    } else {
        comment_block(bodies[k]) + comment_blocks_from(bodies, k + 1)
    }
}

/// The comments section: empty when there are no comments, otherwise a
/// "Comments:" header, a blank, then every comment's block.
pub open spec fn comments_block(bodies: Seq<Seq<char>>) -> Seq<Seq<(Seq<char>, TextStyle)>> {
    if bodies.len() == 0 {
        Seq::empty()
    } else {
        seq![single_span_line("Comments:"@, TextStyle::Yellow), blank_line_view()]
            + comment_blocks_from(bodies, 0)
    }
}

/// The bodies of a comment collection, in order.
pub open spec fn comment_bodies(cs: Seq<Comment>) -> Seq<Seq<char>> {
    cs.map_values(|c: Comment| c.body@)
}

/// The whole detail block of one issue, in section order.
pub open spec fn detail_content(i: Issue) -> Seq<Seq<(Seq<char>, TextStyle)>> {
    header_block(i.url@, i.title@) + description_block(i.description@) + comments_block(
        comment_bodies(i.comments.nodes@),
    )
}

/// Builds the detail block of one issue as styled lines.
pub fn build_issue_content(issue: &Issue) -> (content: Vec<Vec<Span>>)
    ensures
        lines_view(content@) == detail_content(*issue),
{
    let mut content: Vec<Vec<Span>> = Vec::new();
    let mut url_line: Vec<Span> = Vec::new();
    url_line.push(span_styled("URL: ".to_owned(), TextStyle::Yellow));
    url_line.push(span_raw(issue.url.clone()));
    content.push(url_line);
    content.push(blank_line());
    let mut title_line: Vec<Span> = Vec::new();
    title_line.push(span_styled("Title: ".to_owned(), TextStyle::Yellow));
    title_line.push(span_raw(issue.title.clone()));
    content.push(title_line);
    content.push(blank_line());
    proof {
        assert(lines_view(content@) =~~= header_block(issue.url@, issue.title@));
    }
    let ghost with_description = header_block(issue.url@, issue.title@) + description_block(
        issue.description@,
    );
    if !issue.description.as_str().is_empty() {
        content.push(line_of(span_styled("Description:".to_owned(), TextStyle::Yellow)));
        content.push(blank_line());
        let ghost base = lines_view(content@);
        let ghost dlines = text_lines(issue.description@);
        let lines = split_text_lines(issue.description.as_str());
        let mut j: usize = 0;
        while j < lines.len()
            invariant
                j <= lines@.len(),
                lines@.map_values(|x: String| x@) == dlines,
                lines_view(content@) == base + plain_lines(dlines.take(j as int)),
            decreases lines@.len() - j,
        {
            let row = line_of(span_raw(lines[j].clone()));
            let ghost before = lines_view(content@);
            content.push(row);
            proof {
                assert(lines_view(content@) =~~= before + seq![
                    single_span_line(dlines[j as int], TextStyle::Plain),
                ]);
                assert(plain_lines(dlines.take(j + 1)) =~~= plain_lines(dlines.take(j as int))
                    + seq![single_span_line(dlines[j as int], TextStyle::Plain)]);
            }
            j = j + 1;
        }
        let ghost after_lines = lines_view(content@);
        content.push(blank_line());
        proof {
            assert(dlines.take(dlines.len() as int) =~= dlines);
            assert(after_lines == base + plain_lines(dlines));
            assert(lines_view(content@) =~~= after_lines + seq![blank_line_view()]);
            assert(base =~~= header_block(issue.url@, issue.title@) + seq![
                single_span_line("Description:"@, TextStyle::Yellow),
                blank_line_view(),
            ]);
            assert(lines_view(content@) =~~= with_description);
        }
    } else {
        proof {
            assert(lines_view(content@) =~~= with_description);
        }
    }
    let ghost bodies = comment_bodies(issue.comments.nodes@);
    if issue.comments.nodes.len() > 0 {
        content.push(line_of(span_styled("Comments:".to_owned(), TextStyle::Yellow)));
        content.push(blank_line());
        let ghost base = lines_view(content@);
        proof {
            assert(base =~~= with_description + seq![
                single_span_line("Comments:"@, TextStyle::Yellow),
                blank_line_view(),
            ]);
        }
        let count = issue.comments.nodes.len();
        let mut k: usize = 0;
        while k < count
            invariant
                k <= count,
                count == issue.comments.nodes@.len(),
                bodies == comment_bodies(issue.comments.nodes@),
                base + comment_blocks_from(bodies, 0) == lines_view(content@)
                    + comment_blocks_from(bodies, k as int),
            decreases count - k,
        {
            let ghost block_base = lines_view(content@);
            let ghost body = bodies[k as int];
            content.push(line_of(span_raw("---".to_owned())));
            let ghost sep_base = lines_view(content@);
            proof {
                assert(sep_base =~~= block_base + seq![
                    single_span_line("---"@, TextStyle::Plain),
                ]);
            }
            let comment = &issue.comments.nodes[k];
            let lines = split_text_lines(comment.body.as_str());
            let mut j: usize = 0;
            while j < lines.len()
                invariant
                    j <= lines@.len(),
                    lines@.map_values(|x: String| x@) == text_lines(body),
                    lines_view(content@) == sep_base + plain_lines(text_lines(body).take(j as int)),
                decreases lines@.len() - j,
            {
                let row = line_of(span_raw(lines[j].clone()));
                let ghost before = lines_view(content@);
                content.push(row);
                proof {
                    assert(lines_view(content@) =~~= before + seq![
                        single_span_line(text_lines(body)[j as int], TextStyle::Plain),
                    ]);
                    assert(plain_lines(text_lines(body).take(j + 1)) =~~= plain_lines(
                        text_lines(body).take(j as int),
                    ) + seq![single_span_line(text_lines(body)[j as int], TextStyle::Plain)]);
                }
                j = j + 1;
            }
            let ghost after_lines = lines_view(content@);
            content.push(blank_line());
            proof {
                assert(text_lines(body).take(text_lines(body).len() as int) =~= text_lines(body));
                assert(after_lines == sep_base + plain_lines(text_lines(body)));
                assert(lines_view(content@) =~~= after_lines + seq![blank_line_view()]);
                assert(lines_view(content@) =~~= block_base + comment_block(body));
                assert(base + comment_blocks_from(bodies, 0) == lines_view(content@)
                    + comment_blocks_from(bodies, k + 1));
            }
            k = k + 1;
        }
        proof {
            assert(comment_blocks_from(bodies, count as int) =~~= Seq::empty());
            assert(lines_view(content@) + Seq::<Seq<(Seq<char>, TextStyle)>>::empty()
                =~~= lines_view(content@));
            assert(lines_view(content@) =~~= detail_content(*issue));
        }
    } else {
        proof {
            assert(comments_block(bodies) =~~= Seq::empty());
            assert(lines_view(content@) =~~= detail_content(*issue));
        }
    }
    content
}

/// The issue detail screen composition: the issue to show and the
/// externally owned scroll offset.
pub struct IssueDetail<'a> {
    pub issue: &'a Issue,
    pub scroll_position: usize,
}

impl<'a> IssueDetail<'a> {
    /// A detail screen over the given issue at the given scroll offset.
    pub fn new(issue: &'a Issue, scroll_position: usize) -> (r: Self)
        ensures
            r.issue == issue,
            r.scroll_position == scroll_position,
    {
        IssueDetail { issue, scroll_position }
    }

    /// The offset as it stands: after `render` it is the clamped value,
    /// for the caller to persist back into durable state.
    pub fn get_clamped_scroll_position(&self) -> (r: usize)
        ensures
            r == self.scroll_position,
    {
        self.scroll_position
    }

    /// Renders the screen as a text plan titled "Issue Detail" with the
    /// accent border: the issue's detail block, the offset clamped to its
    /// line count and kept, and the scroll indicator recomputed.
    pub fn render(&mut self) -> (plan: TextPlan)
        ensures
            lines_view(plan.lines@) == detail_content(*old(self).issue),
            final(self).issue == old(self).issue,
            final(self).scroll_position == clamped_offset(
                old(self).scroll_position as int,
                detail_content(*old(self).issue).len() as int,
            ),
            plan.scroll == final(self).scroll_position,
            plan.indicator.content_length as int == detail_content(*old(self).issue).len(),
            plan.indicator.position == final(self).scroll_position,
            plan.title matches Some(t) && t@ == "Issue Detail"@,
            plan.border_color == TextStyle::Yellow,
    {
        let content = build_issue_content(self.issue);
        let mut scrollable = ScrollableText::new(content, self.scroll_position).title(
            "Issue Detail",
        ).border_color(TextStyle::Yellow);
        let plan = scrollable.render();
        self.scroll_position = scrollable.get_clamped_scroll_position();
        plan
    }
}

} // verus!
