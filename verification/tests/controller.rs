use linear_tui::app::App;
use linear_tui::app::AppAction;
use linear_tui::app::AppState;
use linear_tui::app::ScreenPlan;
use linear_tui::events::AppEvent;
use linear_tui::models::CommentsWrapper;
use linear_tui::models::Issue;
use linear_tui::models::Team;
use linear_tui::models::TeamIssue;

fn team(id: &str, name: &str, issue_count: i32) -> Team {
    Team { id: String::from(id), name: String::from(name), issue_count }
}

fn two_teams() -> Vec<Team> {
    vec![team("t1", "Eng", 5), team("t2", "Design", 2)]
}

#[test]
fn new_controller_starts_on_teams_screen() {
    let app = App::new();
    assert_eq!(app.state, AppState::TeamsList);
    assert!(app.teams.is_empty());
    assert_eq!(app.team_list_state.selected, None);
    assert_eq!(app.scroll_position.offset, 0);
    assert!(app.is_well_formed());
}

#[test]
fn loading_teams_resets_selection() {
    let mut app = App::new();
    app.load_teams(two_teams());
    assert_eq!(app.team_list_state.selected, Some(0));
    app.load_teams(Vec::new());
    assert_eq!(app.team_list_state.selected, None);
    assert!(app.is_well_formed());
}

#[test]
fn loading_issues_resets_selection_and_commits_transition() {
    let mut app = App::new();
    app.load_team_issues(vec![TeamIssue {
        id: String::from("i1"),
        title: String::from("Bug"),
        description: None,
    }]);
    assert_eq!(app.issue_list_state.selected, Some(0));
    assert_eq!(app.state, AppState::IssuesList);
    app.load_team_issues(Vec::new());
    assert_eq!(app.issue_list_state.selected, None);
    assert!(app.is_well_formed());
}

#[test]
fn loading_issue_detail_resets_scroll() {
    let mut app = App::new();
    for _ in 0..9 {
        app.scroll_position.advance();
    }
    app.load_issue_detail(Some(Issue {
        title: String::from("Bug"),
        description: String::new(),
        comments: CommentsWrapper { nodes: Vec::new() },
        url: String::from("u"),
    }));
    assert_eq!(app.scroll_position.offset, 0);
    assert_eq!(app.state, AppState::IssueDetail);
    assert!(app.selected_issue.is_some());
}

#[test]
fn not_found_detail_keeps_previous_detail() {
    let mut app = App::new();
    app.load_issue_detail(Some(Issue {
        title: String::from("Bug"),
        description: String::new(),
        comments: CommentsWrapper { nodes: Vec::new() },
        url: String::from("u"),
    }));
    app.load_issue_detail(None);
    assert_eq!(app.state, AppState::IssueDetail);
    assert_eq!(app.scroll_position.offset, 0);
    let held = app.selected_issue.as_ref().expect("previous detail kept");
    assert_eq!(held.title, "Bug");
}

#[test]
fn defensive_selection_out_of_bounds_yields_none() {
    let mut app = App::new();
    app.load_teams(two_teams());
    app.team_list_state.select(Some(7));
    assert!(app.get_selected_team().is_none());
    assert!(app.get_selected_team_issue().is_none());
}

#[test]
fn quit_event_terminates_from_any_state() {
    let mut app = App::new();
    app.load_teams(two_teams());
    assert!(matches!(app.handle_event(AppEvent::Quit), AppAction::Quit));
    assert_eq!(app.state, AppState::TeamsList);
}

#[test]
fn teams_scenario_select_and_enter() {
    let mut app = App::new();
    app.load_teams(two_teams());
    assert_eq!(app.team_list_state.selected, Some(0));
    assert_eq!(app.get_selected_team().expect("selection").name, "Eng");
    app.handle_event(AppEvent::NextItem);
    assert_eq!(app.team_list_state.selected, Some(1));
    assert_eq!(app.get_selected_team().expect("selection").name, "Design");
    let action = app.handle_event(AppEvent::NavigateTo);
    match action {
        AppAction::LoadTeamIssues { team_id } => assert_eq!(team_id, "t2"),
        _ => panic!("expected a team-issues load"),
    }
    assert_eq!(app.selected_team.as_ref().expect("remembered team").id, "t2");
    // The transition commits when the load result is applied.
    assert_eq!(app.state, AppState::TeamsList);
    app.load_team_issues(vec![TeamIssue {
        id: String::from("i9"),
        title: String::from("Late"),
        description: None,
    }]);
    assert_eq!(app.state, AppState::IssuesList);
    assert_eq!(app.issue_list_state.selected, Some(0));
}

#[test]
fn issues_scenario_enter_detail_and_back() {
    let mut app = App::new();
    app.load_teams(two_teams());
    app.load_team_issues(vec![TeamIssue {
        id: String::from("i1"),
        title: String::from("Bug"),
        description: None,
    }]);
    assert_eq!(app.state, AppState::IssuesList);
    let action = app.handle_event(AppEvent::NavigateTo);
    match action {
        AppAction::LoadIssueDetail { issue_id } => assert_eq!(issue_id, "i1"),
        _ => panic!("expected an issue-detail load"),
    }
    app.load_issue_detail(Some(Issue {
        title: String::from("Bug"),
        description: String::new(),
        comments: CommentsWrapper { nodes: Vec::new() },
        url: String::from("u"),
    }));
    assert_eq!(app.state, AppState::IssueDetail);
    assert_eq!(app.scroll_position.offset, 0);
    let issues_before = app.issues.len();
    assert!(matches!(app.handle_event(AppEvent::GoBack), AppAction::Continue));
    assert_eq!(app.state, AppState::IssuesList);
    assert_eq!(app.issues.len(), issues_before);
    assert_eq!(app.issues[0].id, "i1");
    assert!(matches!(app.handle_event(AppEvent::GoBack), AppAction::Continue));
    assert_eq!(app.state, AppState::TeamsList);
    assert!(matches!(app.handle_event(AppEvent::GoBack), AppAction::Continue));
    assert_eq!(app.state, AppState::TeamsList);
}

#[test]
fn detail_scroll_clamps_at_line_count() {
    let mut app = App::new();
    // 43 description lines give a detail block of exactly 50 lines:
    // 4 header lines, then "Description:", a blank, 43 lines, a blank.
    let description = vec!["line"; 43].join("\n");
    app.load_issue_detail(Some(Issue {
        title: String::from("Long"),
        description,
        comments: CommentsWrapper { nodes: Vec::new() },
        url: String::from("u"),
    }));
    for _ in 0..60 {
        app.handle_event(AppEvent::NextItem);
    }
    assert_eq!(app.scroll_position.offset, 60);
    let plan = app.render(80);
    match plan {
        ScreenPlan::Detail(p) => {
            assert_eq!(p.lines.len(), 50);
            assert_eq!(p.scroll, 50);
            assert_eq!(p.indicator.content_length, 50);
            assert_eq!(p.indicator.position, 50);
        },
        _ => panic!("expected the detail plan"),
    }
    assert_eq!(app.scroll_position.offset, 50);
    // Scrolling back up after the clamp starts from the clamped offset.
    app.handle_event(AppEvent::PreviousItem);
    assert_eq!(app.scroll_position.offset, 49);
}

#[test]
fn detail_state_without_detail_renders_blank() {
    let mut app = App::new();
    app.state = AppState::IssueDetail;
    assert!(matches!(app.render(80), ScreenPlan::Blank));
}

#[test]
fn list_states_render_two_columns_with_focus() {
    let mut app = App::new();
    app.load_teams(two_teams());
    let plan = app.render(100);
    match plan {
        ScreenPlan::Columns(c) => {
            assert_eq!(c.left_width, 30);
            assert_eq!(c.right_width, 70);
            assert_eq!(c.left.title, "Teams");
            assert_eq!(c.right.title, "Issues");
            assert!(matches!(c.left.border_color, linear_tui::style::TextStyle::Yellow));
            assert!(matches!(c.right.border_color, linear_tui::style::TextStyle::Gray));
            assert_eq!(c.left.selected, Some(0));
            assert!(c.left.placeholder.is_none());
            assert_eq!(
                c.right.placeholder.as_deref(),
                Some("Select a team to view issues")
            );
        },
        _ => panic!("expected the two-column plan"),
    }
    app.load_team_issues(vec![TeamIssue {
        id: String::from("i1"),
        title: String::from("Bug"),
        description: Some(String::from("short")),
    }]);
    let plan = app.render(100);
    match plan {
        ScreenPlan::Columns(c) => {
            assert!(matches!(c.left.border_color, linear_tui::style::TextStyle::Gray));
            assert!(matches!(c.right.border_color, linear_tui::style::TextStyle::Yellow));
            assert!(c.right.placeholder.is_none());
            assert_eq!(c.right.rows.len(), 1);
            assert_eq!(c.right.rows[0][0][0].text, "Bug");
            assert_eq!(c.right.rows[0][1][0].text, "short");
        },
        _ => panic!("expected the two-column plan"),
    }
}

#[test]
fn events_in_issue_detail_move_scroll_only() {
    let mut app = App::new();
    app.load_teams(two_teams());
    app.load_issue_detail(Some(Issue {
        title: String::from("Bug"),
        description: String::new(),
        comments: CommentsWrapper { nodes: Vec::new() },
        url: String::from("u"),
    }));
    app.handle_event(AppEvent::NextItem);
    app.handle_event(AppEvent::NextItem);
    assert_eq!(app.scroll_position.offset, 2);
    assert_eq!(app.team_list_state.selected, Some(0));
    app.handle_event(AppEvent::PreviousItem);
    assert_eq!(app.scroll_position.offset, 1);
    // Confirm in the detail state is a no-op.
    assert!(matches!(app.handle_event(AppEvent::NavigateTo), AppAction::Continue));
    assert_eq!(app.state, AppState::IssueDetail);
}
