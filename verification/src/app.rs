//! The application controller: owns the navigation state, the loaded
//! domain data, both list selections and the scroll offset; applies the
//! results of data loads; turns abstract events into state transitions
//! and load requests; and dispatches rendering to the screen composition
//! of the current state.

use vstd::prelude::*;
use crate::events::AppEvent;
use crate::issue_detail::IssueDetail;
use crate::issue_detail::detail_content;
use crate::issues_list::IssuesList;
use crate::issues_list::description_width;
use crate::issues_list::issue_row;
use crate::layout::ColumnsPlan;
use crate::layout::TwoColumnLayout;
use crate::layout::left_split;
use crate::layout::percentage_split;
use crate::models::Issue;
use crate::models::Team;
use crate::models::TeamIssue;
use crate::scroll::ScrollState;
use crate::scroll::advanced_offset;
use crate::scroll::clamped_offset;
use crate::scroll::retreated_offset;
use crate::scrollable_text::ScrollIndicator;
use crate::scrollable_text::TextPlan;
use crate::selection::SelectionState;
use crate::selection::next_selection;
use crate::selection::previous_selection;
use crate::selection::selection_wf;
use crate::style::TextStyle;
use crate::style::lines_view;
use crate::styled_list::border_style;
use crate::teams_list::TeamsList;
use crate::teams_list::team_row;

verus! {

/// Which screen is active. Transitions happen only through the
/// controller's event handling and load operations.
#[derive(Clone, Copy, PartialEq, Eq, Structural, Debug)]
pub enum AppState {
    TeamsList,
    IssuesList,
    IssueDetail,
}

/// What the controller asks its caller to do after handling one event:
/// carry on, terminate, or perform a data load and hand the result back
/// through the matching load operation.
pub enum AppAction {
    Continue,
    Quit,
    LoadTeamIssues { team_id: String },
    LoadIssueDetail { issue_id: String },
}

/// The full-screen render plan of one frame: the two-column screen for
/// the list states, the detail pane, or nothing (detail state before any
/// detail has loaded).
pub enum ScreenPlan {
    Columns(ColumnsPlan),
    Detail(TextPlan),
    Blank,
}

/// The state after the GoBack event: detail returns to the issues list,
/// the issues list to the teams list, the teams list stays.
pub open spec fn back_state(s: AppState) -> AppState {
    match s {
        AppState::TeamsList => AppState::TeamsList,
        AppState::IssuesList => AppState::TeamsList,
        AppState::IssueDetail => AppState::IssuesList,
    }
}

/// The application controller's durable state.
pub struct App {
    pub state: AppState,
    pub teams: Vec<Team>,
    pub team_list_state: SelectionState,
    pub issues: Vec<TeamIssue>,
    pub issue_list_state: SelectionState,
    pub selected_team: Option<Team>,
    pub selected_issue: Option<Issue>,
    pub scroll_position: ScrollState,
    pub scroll_state: ScrollIndicator,
}

/// The team the teams-list selection points at, if it is in bounds.
pub open spec fn spec_selected_team(a: App) -> Option<Team> {
    match a.team_list_state.selected {
        Some(i) => if i < a.teams@.len() {
            Some(a.teams@[i as int])
        } else {
            None
        },
        None => None,
    }
}

/// The issue the issues-list selection points at, if it is in bounds.
pub open spec fn spec_selected_issue(a: App) -> Option<TeamIssue> {
    match a.issue_list_state.selected {
        Some(i) => if i < a.issues@.len() {
            Some(a.issues@[i as int])
        } else {
            None
        },
        None => None,
    }
}

/// The controller after the next-item event: the active list's selection
/// moves forward, or the detail screen scrolls one line down.
pub open spec fn app_after_next(a: App) -> App {
    match a.state {
        AppState::TeamsList => App {
            team_list_state: SelectionState {
                selected: next_selection(a.team_list_state.selected, a.teams@.len() as int),
            },
            ..a
        },
        AppState::IssuesList => App {
            issue_list_state: SelectionState {
                selected: next_selection(a.issue_list_state.selected, a.issues@.len() as int),
            },
            ..a
        },
        AppState::IssueDetail => App {
            scroll_position: ScrollState {
                offset: advanced_offset(a.scroll_position.offset as int) as usize,
            },
            ..a
        },
    }
}

/// The controller after the previous-item event: the active list's
/// selection moves backward, or the detail screen scrolls one line up.
pub open spec fn app_after_previous(a: App) -> App {
    match a.state {
        AppState::TeamsList => App {
            team_list_state: SelectionState {
                selected: previous_selection(a.team_list_state.selected, a.teams@.len() as int),
            },
            ..a
        },
        AppState::IssuesList => App {
            issue_list_state: SelectionState {
                selected: previous_selection(a.issue_list_state.selected, a.issues@.len() as int),
            },
            ..a
        },
        AppState::IssueDetail => App {
            scroll_position: ScrollState {
                offset: retreated_offset(a.scroll_position.offset as int) as usize,
            },
            ..a
        },
    }
}

/// The selection a freshly loaded collection starts with: its first
/// element when it has one.
pub open spec fn fresh_selection(len: int) -> Option<usize> {
    if len > 0 {
        Some(0usize)
    } else {
        None
    }
}

impl App {
    /// The controller's invariant: each list selection is in bounds for
    /// its collection (and absent exactly when the collection is empty).
    pub open spec fn wf(&self) -> bool {
        &&& selection_wf(self.team_list_state.selected, self.teams@.len() as int)
        &&& selection_wf(self.issue_list_state.selected, self.issues@.len() as int)
    }

    /// Whether the invariant holds, decidable at run time.
    pub fn is_well_formed(&self) -> (r: bool)
        ensures
            r == self.wf(),
    {
        let teams_ok = match self.team_list_state.selected {
            Some(i) => i < self.teams.len(),
            None => self.teams.len() == 0,
        };
        let issues_ok = match self.issue_list_state.selected {
            Some(i) => i < self.issues.len(),
            None => self.issues.len() == 0,
        };
        teams_ok && issues_ok
    }

    /// A fresh controller: teams screen active, nothing loaded, nothing
    /// selected, scrolled to the top.
    pub fn new() -> (app: App)
        ensures
            app.state == AppState::TeamsList,
            app.teams@.len() == 0,
            app.team_list_state.selected is None,
            app.issues@.len() == 0,
            app.issue_list_state.selected is None,
            app.selected_team is None,
            app.selected_issue is None,
            app.scroll_position.offset == 0,
            app.scroll_state == (ScrollIndicator { content_length: 0, position: 0 }),
            app.wf(),
    {
        App {
            state: AppState::TeamsList,
            teams: Vec::new(),
            team_list_state: SelectionState::new(),
            issues: Vec::new(),
            issue_list_state: SelectionState::new(),
            selected_team: None,
            selected_issue: None,
            scroll_position: ScrollState::new(),
            scroll_state: ScrollIndicator { content_length: 0, position: 0 },
        }
    }

    /// Applies a fresh teams load: the collection is replaced wholesale
    /// and its selection reset to the first team (none when empty).
    pub fn load_teams(&mut self, teams: Vec<Team>)
        requires
            old(self).wf(),
        ensures
            final(self).wf(),
            *final(self) == (App {
                teams,
                team_list_state: SelectionState {
                    selected: fresh_selection(teams@.len() as int),
                },
                ..*old(self)
            }),
    {
        self.teams = teams;
        if self.teams.len() > 0 {
            self.team_list_state.select(Some(0));
        } else {
            self.team_list_state.select(None);
        }
    }

    /// Applies a fresh load of one team's issues: the collection is
    /// replaced wholesale, its selection reset to the first issue (none
    /// when empty), and the issues screen becomes active — the data is
    /// applied before the transition commits, so the screen never shows
    /// before its data is ready.
    pub fn load_team_issues(&mut self, issues: Vec<TeamIssue>)
        requires
            old(self).wf(),
        ensures
            final(self).wf(),
            *final(self) == (App {
                issues,
                issue_list_state: SelectionState {
                    selected: fresh_selection(issues@.len() as int),
                },
                state: AppState::IssuesList,
                ..*old(self)
            }),
    {
        self.issues = issues;
        if self.issues.len() > 0 {
            self.issue_list_state.select(Some(0));
        } else {
            self.issue_list_state.select(None);
        }
        self.state = AppState::IssuesList;
    }

    /// Applies a fresh issue-detail load: a found issue replaces the held
    /// detail, a "not found" result deliberately leaves the previous
    /// detail in place (a silent soft-fail); either way the scroll offset
    /// resets to 0 and the detail screen becomes active.
    pub fn load_issue_detail(&mut self, issue: Option<Issue>)
        requires
            old(self).wf(),
        ensures
            final(self).wf(),
            issue matches Some(i) ==> final(self).selected_issue == Some(i),
            issue is None ==> final(self).selected_issue == old(self).selected_issue,
            final(self).scroll_position.offset == 0,
            final(self).scroll_state == (ScrollIndicator { content_length: 0, position: 0 }),
            final(self).state == AppState::IssueDetail,
            final(self).teams == old(self).teams,
            final(self).team_list_state == old(self).team_list_state,
            final(self).issues == old(self).issues,
            final(self).issue_list_state == old(self).issue_list_state,
            final(self).selected_team == old(self).selected_team,
    {
        if let Some(i) = issue {
            self.selected_issue = Some(i);
        }
        self.scroll_position = ScrollState::new();
        self.scroll_state = ScrollIndicator { content_length: 0, position: 0 };
        self.state = AppState::IssueDetail;
    }

    /// Moves the active list's selection forward (wrapping), or scrolls
    /// the detail screen one line down.
    pub fn next_item(&mut self)
        ensures
            *final(self) == app_after_next(*old(self)),
            old(self).wf() ==> final(self).wf(),
    {
        match self.state {
            AppState::TeamsList => {
                let len = self.teams.len();
                self.team_list_state.select_next(len);
            },
            AppState::IssuesList => {
                let len = self.issues.len();
                self.issue_list_state.select_next(len);
            },
            AppState::IssueDetail => {
                self.scroll_position.advance();
            },
        }
    }

    /// Moves the active list's selection backward (wrapping), or scrolls
    /// the detail screen one line up.
    pub fn previous_item(&mut self)
        ensures
            *final(self) == app_after_previous(*old(self)),
            old(self).wf() ==> final(self).wf(),
    {
        match self.state {
            AppState::TeamsList => {
                let len = self.teams.len();
                self.team_list_state.select_previous(len);
            },
            AppState::IssuesList => {
                let len = self.issues.len();
                self.issue_list_state.select_previous(len);
            },
            AppState::IssueDetail => {
                self.scroll_position.retreat();
            },
        }
    }

    /// The team the current teams-list selection points at; no selection
    /// or a selection out of bounds (a collection just replaced by a
    /// shorter one) yields nothing rather than a panic.
    pub fn get_selected_team(&self) -> (r: Option<&Team>)
        ensures
            match r {
                Some(t) => spec_selected_team(*self) == Some(*t),
                None => spec_selected_team(*self) is None,
            },
    {
        match self.team_list_state.selected {
            Some(i) => if i < self.teams.len() {
                Some(&self.teams[i])
            } else {
                None
            },
            None => None,
        }
    }

    /// The issue the current issues-list selection points at; no
    /// selection or a selection out of bounds yields nothing rather than
    /// a panic.
    pub fn get_selected_team_issue(&self) -> (r: Option<&TeamIssue>)
        ensures
            match r {
                Some(t) => spec_selected_issue(*self) == Some(*t),
                None => spec_selected_issue(*self) is None,
            },
    {
        match self.issue_list_state.selected {
            Some(i) => if i < self.issues.len() {
                Some(&self.issues[i])
            } else {
                None
            },
            None => None,
        }
    }

    /// Handles one abstract event against the current state, following
    /// the transition table: Quit asks the caller to terminate; confirm
    /// on a selected team or issue asks for the matching load (the
    /// transition itself commits when the load result is applied) and
    /// remembers the chosen team; back walks one screen out; next and
    /// previous move the active list or the scroll; everything else is a
    /// no-op.
    pub fn handle_event(&mut self, event: AppEvent) -> (r: AppAction)
        requires
            old(self).wf(),
        ensures
            final(self).wf(),
            event == AppEvent::Quit ==> r == AppAction::Quit && *final(self) == *old(self),
            event == AppEvent::NoOp ==> r == AppAction::Continue && *final(self) == *old(self),
            (event == AppEvent::NavigateTo && old(self).state == AppState::TeamsList)
                ==> match spec_selected_team(*old(self)) {
                Some(t) => r == (AppAction::LoadTeamIssues { team_id: t.id }) && *final(self) == (
                App { selected_team: Some(t), ..*old(self) }),
                None => r == AppAction::Continue && *final(self) == *old(self),
            },
            (event == AppEvent::NavigateTo && old(self).state == AppState::IssuesList)
                ==> match spec_selected_issue(*old(self)) {
                Some(t) => r == (AppAction::LoadIssueDetail { issue_id: t.id }) && *final(self)
                    == *old(self),
                None => r == AppAction::Continue && *final(self) == *old(self),
            },
            (event == AppEvent::NavigateTo && old(self).state == AppState::IssueDetail) ==> r
                == AppAction::Continue && *final(self) == *old(self),
            event == AppEvent::GoBack ==> r == AppAction::Continue && *final(self) == (App {
                state: back_state(old(self).state),
                ..*old(self)
            }),
            event == AppEvent::NextItem ==> r == AppAction::Continue && *final(self)
                == app_after_next(*old(self)),
            event == AppEvent::PreviousItem ==> r == AppAction::Continue && *final(self)
                == app_after_previous(*old(self)),
    {
        match event {
            AppEvent::Quit => AppAction::Quit,
            AppEvent::NavigateTo => {
                match self.state {
                    AppState::TeamsList => {
                        let selected = match self.team_list_state.selected {
                            Some(i) => if i < self.teams.len() {
                                Some(i)
                            } else {
                                None
                            },
                            None => None,
                        };
                        match selected {
                            Some(i) => {
                                let team_id = self.teams[i].id.clone();
                                let team = self.teams[i].clone();
                                self.selected_team = Some(team);
                                AppAction::LoadTeamIssues { team_id }
                            },
                            None => AppAction::Continue,
                        }
                    },
                    AppState::IssuesList => {
                        let selected = match self.issue_list_state.selected {
                            Some(i) => if i < self.issues.len() {
                                Some(i)
                            } else {
                                None
                            },
                            None => None,
                        };
                        match selected {
                            Some(i) => {
                                let issue_id = self.issues[i].id.clone();
                                AppAction::LoadIssueDetail { issue_id }
                            },
                            None => AppAction::Continue,
                        }
                    },
                    AppState::IssueDetail => AppAction::Continue,
                }
            },
            AppEvent::GoBack => {
                match self.state {
                    AppState::IssueDetail => {
                        self.state = AppState::IssuesList;
                    },
                    AppState::IssuesList => {
                        self.state = AppState::TeamsList;
                    },
                    AppState::TeamsList => {},
                }
                AppAction::Continue
            },
            AppEvent::NextItem => {
                self.next_item();
                AppAction::Continue
            },
            AppEvent::PreviousItem => {
                self.previous_item();
                AppAction::Continue
            },
            AppEvent::NoOp => AppAction::Continue,
        }
    }

    /// Renders the current state as a full-screen plan over a region of
    /// the given width. The two list states compose the teams and issues
    /// screens side by side at the 30/70 split, focus following the
    /// state, the issues column showing its placeholder unless the issues
    /// screen is active and has issues. The detail state composes the
    /// held issue's detail full-screen and persists the clamped scroll
    /// offset and the recomputed indicator; before any detail has loaded
    /// it paints nothing.
    pub fn render(&mut self, width: u16) -> (r: ScreenPlan)
        ensures
            (old(self).state == AppState::TeamsList || old(self).state == AppState::IssuesList)
                ==> *final(self) == *old(self) && (r matches ScreenPlan::Columns(c) && {
                &&& c.left_width as int == left_split(width as int, 30)
                &&& c.right_width == width - c.left_width
                &&& c.left.title@ == "Teams"@
                &&& c.left.border_color == border_style(old(self).state == AppState::TeamsList)
                &&& c.left.selected == old(self).team_list_state.selected
                &&& c.left.placeholder is None
                &&& c.left.rows@.len() == old(self).teams@.len()
                &&& forall|k: int|
                    0 <= k < old(self).teams@.len() ==> #[trigger] lines_view(c.left.rows@[k]@)
                        == team_row(old(self).teams@[k])
                &&& c.right.title@ == "Issues"@
                &&& c.right.border_color == border_style(
                    old(self).state == AppState::IssuesList,
                )
                &&& c.right.selected == old(self).issue_list_state.selected
                &&& c.right.rows@.len() == old(self).issues@.len()
                &&& forall|k: int|
                    0 <= k < old(self).issues@.len() ==> #[trigger] lines_view(c.right.rows@[k]@)
                        == issue_row(
                        old(self).issues@[k],
                        description_width(c.right_width as int),
                    )
                &&& (old(self).state != AppState::IssuesList || old(self).issues@.len() == 0)
                    ==> (c.right.placeholder matches Some(p) && p@
                    == "Select a team to view issues"@)
                &&& (old(self).state == AppState::IssuesList && old(self).issues@.len() > 0)
                    ==> c.right.placeholder is None
            }),
            old(self).state == AppState::IssueDetail ==> match old(self).selected_issue {
                Some(issue) => r matches ScreenPlan::Detail(p) && {
                &&& lines_view(p.lines@) == detail_content(issue)
                &&& p.scroll == clamped_offset(
                    old(self).scroll_position.offset as int,
                    detail_content(issue).len() as int,
                )
                &&& p.indicator.content_length as int == detail_content(issue).len()
                &&& p.indicator.position == p.scroll
                &&& p.title matches Some(t) && t@ == "Issue Detail"@
                &&& p.border_color == TextStyle::Yellow
                &&& *final(self) == (App {
                    scroll_position: ScrollState { offset: p.scroll },
                    scroll_state: p.indicator,
                    ..*old(self)
                })
                },
                None => r is Blank && *final(self) == *old(self),
            },
    {
        match self.state {
            AppState::TeamsList | AppState::IssuesList => {
                let focused_teams = match self.state {
                    AppState::TeamsList => true,
                    _ => false,
                };
                let focused_issues = match self.state {
                    AppState::IssuesList => true,
                    _ => false,
                };
                let (_, right_width) = percentage_split(width, 30);
                let teams_plan = TeamsList::new(
                    &self.teams,
                    self.team_list_state.selected(),
                ).focused(focused_teams).render();
                let show_placeholder = !focused_issues || self.issues.len() == 0;
                let issues_plan = IssuesList::new(
                    &self.issues,
                    self.issue_list_state.selected(),
                ).focused(focused_issues).show_placeholder(show_placeholder).render(right_width);
                let layout = TwoColumnLayout::new(teams_plan, issues_plan);
                ScreenPlan::Columns(layout.render(width))
            },
            AppState::IssueDetail => {
                match &self.selected_issue {
                    Some(issue) => {
                        let mut detail = IssueDetail::new(issue, self.scroll_position.offset);
                        let plan = detail.render();
                        let clamped = detail.get_clamped_scroll_position();
                        let indicator = plan.indicator;
                        self.scroll_position = ScrollState { offset: clamped };
                        self.scroll_state = indicator;
                        ScreenPlan::Detail(plan)
                    },
                    None => ScreenPlan::Blank,
                }
            },
        }
    }
}

} // verus!
