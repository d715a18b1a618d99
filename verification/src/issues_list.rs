//! The issues screen: maps each issue summary to a two-line display row
//! (title; truncated description or "No description") and delegates to
//! the styled list widget under the title "Issues", or shows a
//! placeholder when the screen is inactive or the collection is empty.

use vstd::prelude::*;
use crate::models::TeamIssue;
use crate::style::Span;
use crate::style::TextStyle;
use crate::style::lines_view;
use crate::styled_list::ListPlan;
use crate::styled_list::StyledList;
use crate::styled_list::border_style;
use crate::text::description_view;
use crate::text::display_description;
use crate::text::truncate_description;

verus! {

/// The width left for a description in a list region: the region width
/// minus the border and highlight margin.
pub open spec fn description_width(region_width: int) -> int {
    if region_width >= 5 {
        region_width - 5
    } else {
        0
    }
}

/// The two lines an issue is shown as: its title, then its description
/// truncated to the given width (or "No description") in the muted style.
pub open spec fn issue_row(i: TeamIssue, max_width: int) -> Seq<Seq<(Seq<char>, TextStyle)>> {
    seq![
        seq![(i.title@, TextStyle::White)],
        seq![(display_description(description_view(i.description), max_width), TextStyle::Gray)],
    ]
}

/// The issues screen composition: the issues to list, the externally
/// owned selection, whether this screen is focused, and whether the
/// placeholder message replaces the rows.
pub struct IssuesList<'a> {
    pub issues: &'a Vec<TeamIssue>,
    pub selection: Option<usize>,
    pub focused: bool,
    pub show_placeholder: bool,
}

impl<'a> IssuesList<'a> {
    /// An issues screen over the given issues and selection, unfocused;
    /// the placeholder starts out shown exactly when there are no issues.
    pub fn new(issues: &'a Vec<TeamIssue>, selection: Option<usize>) -> (r: Self)
        ensures
            r.issues == issues,
            r.selection == selection,
            !r.focused,
            r.show_placeholder == (issues@.len() == 0),
    {
        let show_placeholder = issues.len() == 0;
        IssuesList { issues, selection, focused: false, show_placeholder }
    }

    /// Sets whether this screen is the focused one.
    pub fn focused(self, focused: bool) -> (r: Self)
        ensures
            r == (IssuesList { focused, ..self }),
    {
        IssuesList { focused, ..self }
    }

    /// Sets whether the placeholder message replaces the rows.
    pub fn show_placeholder(self, show: bool) -> (r: Self)
        ensures
            r == (IssuesList { show_placeholder: show, ..self }),
    {
        IssuesList { show_placeholder: show, ..self }
    }

    /// Renders the screen as a list plan titled "Issues": one two-line
    /// row per issue with the description truncated to the region width,
    /// the supplied selection, and — when configured — the placeholder
    /// "Select a team to view issues" in place of the rows.
    pub fn render(self, region_width: u16) -> (plan: ListPlan)
        ensures
            plan.title@ == "Issues"@,
            plan.border_color == border_style(self.focused),
            plan.selected == self.selection,
            plan.rows@.len() == self.issues@.len(),
            forall|k: int|
                0 <= k < self.issues@.len() ==> #[trigger] lines_view(plan.rows@[k]@) == issue_row(
                    self.issues@[k],
                    description_width(region_width as int),
                ),
            self.show_placeholder ==> (plan.placeholder matches Some(p) && p@
                == "Select a team to view issues"@),
            !self.show_placeholder ==> plan.placeholder is None,
    {
        let max_desc_width: usize = if region_width >= 5 {
            (region_width - 5) as usize
        } else {
            0
        };
        let ghost issues_snapshot = self.issues@;
        let mut rows: Vec<Vec<Vec<Span>>> = Vec::new();
        let n = self.issues.len();
        let mut idx: usize = 0;
        while idx < n
            invariant
                idx <= n,
                n == issues_snapshot.len(),
                self.issues@ == issues_snapshot,
                max_desc_width == description_width(region_width as int),
                rows@.len() == idx,
                forall|k: int|
                    0 <= k < idx ==> #[trigger] lines_view(rows@[k]@) == issue_row(
                        issues_snapshot[k],
                        description_width(region_width as int),
                    ),
            decreases n - idx,
        {
            let issue = &self.issues[idx];
            let description = truncate_description(&issue.description, max_desc_width);
            let mut row: Vec<Vec<Span>> = Vec::new();
            let mut title_line: Vec<Span> = Vec::new();
            title_line.push(Span { text: issue.title.clone(), style: TextStyle::White });
            row.push(title_line);
            let mut desc_line: Vec<Span> = Vec::new();
            desc_line.push(Span { text: description, style: TextStyle::Gray });
            row.push(desc_line);
            proof {
                assert(lines_view(row@) =~~= issue_row(
                    issues_snapshot[idx as int],
                    description_width(region_width as int),
                ));
            }
            rows.push(row);
            idx = idx + 1;
        }
        let list = StyledList::new("Issues").items(rows).focused(self.focused).state(
            self.selection,
        );
        if self.show_placeholder {
            list.placeholder("Select a team to view issues").render()
        } else {
            list.render()
        }
    }
}

} // verus!
