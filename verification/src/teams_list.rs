//! The teams screen: maps each team to a two-line display row (name,
//! then a muted issue count) and delegates to the styled list widget
//! under the title "Teams".

use vstd::prelude::*;
use crate::models::Team;
use crate::style::Span;
use crate::style::TextStyle;
use crate::style::line_view;
use crate::style::lines_view;
use crate::style::span_styled;
use crate::styled_list::ListPlan;
use crate::styled_list::StyledList;
use crate::styled_list::border_style;
use crate::text::signed_decimal_chars;

verus! {

/// The two lines a team is shown as: its name, then "(<count> issues)"
/// in the muted style.
pub open spec fn team_row(t: Team) -> Seq<Seq<(Seq<char>, TextStyle)>> {
    seq![
        seq![(t.name@, TextStyle::White)],
        seq![("("@ + signed_decimal_chars(t.issue_count as int) + " issues)"@, TextStyle::Gray)],
    ]
}

/// The teams screen composition: the teams to list, the externally owned
/// selection, and whether this screen is the focused one.
pub struct TeamsList<'a> {
    pub teams: &'a Vec<Team>,
    pub selection: Option<usize>,
    pub focused: bool,
}

impl<'a> TeamsList<'a> {
    /// A teams screen over the given teams and selection, unfocused.
    pub fn new(teams: &'a Vec<Team>, selection: Option<usize>) -> (r: Self)
        ensures
            r.teams == teams,
            r.selection == selection,
            !r.focused,
    {
        TeamsList { teams, selection, focused: false }
    }

    /// Sets whether this screen is the focused one.
    pub fn focused(self, focused: bool) -> (r: Self)
        ensures
            r == (TeamsList { focused, ..self }),
    {
        TeamsList { focused, ..self }
    }

    /// Renders the screen as a list plan titled "Teams": one row per
    /// team, the supplied selection, no placeholder.
    pub fn render(self) -> (plan: ListPlan)
        ensures
            plan.title@ == "Teams"@,
            plan.border_color == border_style(self.focused),
            plan.selected == self.selection,
            plan.placeholder is None,
            plan.rows@.len() == self.teams@.len(),
            forall|k: int|
                0 <= k < self.teams@.len() ==> #[trigger] lines_view(plan.rows@[k]@) == team_row(
                    self.teams@[k],
                ),
    {
        let ghost teams_snapshot = self.teams@;
        let mut rows: Vec<Vec<Vec<Span>>> = Vec::new();
        let n = self.teams.len();
        let mut idx: usize = 0;
        while idx < n
            invariant
                idx <= n,
                n == teams_snapshot.len(),
                self.teams@ == teams_snapshot,
                rows@.len() == idx,
                forall|k: int|
                    0 <= k < idx ==> #[trigger] lines_view(rows@[k]@) == team_row(
                        teams_snapshot[k],
                    ),
            decreases n - idx,
        {
            let team = &self.teams[idx];
            let mut count_text = "(".to_owned();
            count_text.append(crate::text::count_decimal(team.issue_count).as_str());
            count_text.append(" issues)");
            let mut name_line: Vec<Span> = Vec::new();
            name_line.push(span_styled(team.name.clone(), TextStyle::White));
            let mut count_line: Vec<Span> = Vec::new();
            count_line.push(span_styled(count_text, TextStyle::Gray));
            let mut row: Vec<Vec<Span>> = Vec::new();
            row.push(name_line);
            row.push(count_line);
            proof {
                assert(lines_view(row@) =~~= team_row(teams_snapshot[idx as int]));
            }
            rows.push(row);
            idx = idx + 1;
        }
        StyledList::new("Teams").items(rows).focused(self.focused).state(self.selection).render()
    }
}

} // verus!
