use linear_tui::events::handle_key_event;
use linear_tui::events::AppEvent;
use linear_tui::events::KeyCode;
use linear_tui::events::KeyPress;
use linear_tui::issue_detail::build_issue_content;
use linear_tui::issues_list::IssuesList;
use linear_tui::layout::percentage_split;
use linear_tui::models::Comment;
use linear_tui::models::CommentsWrapper;
use linear_tui::models::Issue;
use linear_tui::models::Team;
use linear_tui::models::TeamIssue;
use linear_tui::scrollable_text::ScrollableText;
use linear_tui::style::Span;
use linear_tui::style::TextStyle;
use linear_tui::styled_list::StyledList;
use linear_tui::teams_list::TeamsList;

fn line_texts(lines: &[Vec<Span>]) -> Vec<String> {
    lines
        .iter()
        .map(|line| line.iter().map(|s| s.text.as_str()).collect::<Vec<_>>().concat())
        .collect()
}

#[test]
fn key_bindings_map_to_events() {
    let plain = |code: KeyCode| KeyPress { code, ctrl: false };
    assert_eq!(handle_key_event(plain(KeyCode::Char('q'))), AppEvent::Quit);
    assert_eq!(
        handle_key_event(KeyPress { code: KeyCode::Char('c'), ctrl: true }),
        AppEvent::Quit
    );
    assert_eq!(handle_key_event(plain(KeyCode::Char('c'))), AppEvent::NoOp);
    assert_eq!(handle_key_event(plain(KeyCode::Enter)), AppEvent::NavigateTo);
    assert_eq!(handle_key_event(plain(KeyCode::Esc)), AppEvent::GoBack);
    assert_eq!(handle_key_event(plain(KeyCode::Backspace)), AppEvent::GoBack);
    assert_eq!(handle_key_event(plain(KeyCode::BackTab)), AppEvent::GoBack);
    assert_eq!(handle_key_event(plain(KeyCode::Down)), AppEvent::NextItem);
    assert_eq!(handle_key_event(plain(KeyCode::Char('j'))), AppEvent::NextItem);
    assert_eq!(handle_key_event(plain(KeyCode::Up)), AppEvent::PreviousItem);
    assert_eq!(handle_key_event(plain(KeyCode::Char('k'))), AppEvent::PreviousItem);
    assert_eq!(handle_key_event(plain(KeyCode::Char('x'))), AppEvent::NoOp);
    assert_eq!(handle_key_event(plain(KeyCode::Other)), AppEvent::NoOp);
}

#[test]
fn percentage_split_rounds_down() {
    assert_eq!(percentage_split(100, 30), (30, 70));
    assert_eq!(percentage_split(7, 30), (2, 5));
    assert_eq!(percentage_split(0, 30), (0, 0));
}

#[test]
fn styled_list_border_follows_focus() {
    let focused = StyledList::new("Teams").focused(true).render();
    assert_eq!(focused.border_color, TextStyle::Yellow);
    let unfocused = StyledList::new("Teams").focused(false).render();
    assert_eq!(unfocused.border_color, TextStyle::Gray);
}

#[test]
fn styled_list_placeholder_passes_through() {
    let plan = StyledList::new("Issues").placeholder("Select a team to view issues").render();
    assert_eq!(plan.placeholder.as_deref(), Some("Select a team to view issues"));
    let bare = StyledList::new("Issues").render();
    assert!(bare.placeholder.is_none());
}

#[test]
fn teams_rows_show_name_and_count() {
    let teams = vec![
        Team { id: String::from("t1"), name: String::from("Eng"), issue_count: 5 },
        Team { id: String::from("t2"), name: String::from("Design"), issue_count: 2 },
    ];
    let plan = TeamsList::new(&teams, Some(0)).focused(true).render();
    assert_eq!(plan.title, "Teams");
    assert_eq!(plan.rows.len(), 2);
    assert_eq!(plan.rows[0].len(), 2);
    assert_eq!(plan.rows[0][0][0].text, "Eng");
    assert_eq!(plan.rows[0][0][0].style, TextStyle::White);
    assert_eq!(plan.rows[0][1][0].text, "(5 issues)");
    assert_eq!(plan.rows[0][1][0].style, TextStyle::Gray);
    assert_eq!(plan.rows[1][0][0].text, "Design");
    assert_eq!(plan.rows[1][1][0].text, "(2 issues)");
    assert_eq!(plan.selected, Some(0));
    assert!(plan.placeholder.is_none());
}

#[test]
fn issues_rows_truncate_and_fall_back() {
    let issues = vec![
        TeamIssue {
            id: String::from("i1"),
            title: String::from("Bug"),
            description: None,
        },
        TeamIssue {
            id: String::from("i2"),
            title: String::from("Feature"),
            description: Some(String::from("a very long description that cannot fit")),
        },
    ];
    // Region width 25 leaves 20 characters for descriptions.
    let plan = IssuesList::new(&issues, Some(1)).focused(true).show_placeholder(false).render(25);
    assert_eq!(plan.title, "Issues");
    assert_eq!(plan.rows.len(), 2);
    assert_eq!(plan.rows[0][0][0].text, "Bug");
    assert_eq!(plan.rows[0][1][0].text, "No description");
    assert_eq!(plan.rows[1][0][0].text, "Feature");
    assert_eq!(plan.rows[1][1][0].text, "a very long descr...");
    assert_eq!(plan.rows[1][1][0].text.chars().count(), 20);
    assert!(plan.placeholder.is_none());
}

#[test]
fn issues_placeholder_when_inactive_or_empty() {
    let issues: Vec<TeamIssue> = Vec::new();
    let plan = IssuesList::new(&issues, None).render(40);
    assert_eq!(plan.placeholder.as_deref(), Some("Select a team to view issues"));
}

#[test]
fn detail_content_sections_in_order() {
    let issue = Issue {
        title: String::from("Bug"),
        description: String::from("first line\nsecond line"),
        comments: CommentsWrapper {
            nodes: vec![
                Comment { body: String::from("agreed") },
                Comment { body: String::from("on it\nnow") },
            ],
        },
        url: String::from("https://tracker.example/i/1"),
    };
    let content = build_issue_content(&issue);
    let texts = line_texts(&content);
    assert_eq!(
        texts,
        vec![
            "URL: https://tracker.example/i/1",
            "",
            "Title: Bug",
            "",
            "Description:",
            "",
            "first line",
            "second line",
            "",
            "Comments:",
            "",
            "---",
            "agreed",
            "",
            "---",
            "on it",
            "now",
            "",
        ]
    );
    assert_eq!(content[0][0].text, "URL: ");
    assert_eq!(content[0][0].style, TextStyle::Yellow);
    assert_eq!(content[4][0].style, TextStyle::Yellow);
}

#[test]
fn detail_content_empty_description_and_no_comments() {
    let issue = Issue {
        title: String::from("Bug"),
        description: String::new(),
        comments: CommentsWrapper { nodes: Vec::new() },
        url: String::from("u"),
    };
    let texts = line_texts(&build_issue_content(&issue));
    assert_eq!(texts, vec!["URL: u", "", "Title: Bug", ""]);
}

#[test]
fn scrollable_text_clamps_and_reports_indicator() {
    let lines: Vec<Vec<Span>> = (0..10)
        .map(|_| vec![Span { text: String::from("x"), style: TextStyle::Plain }])
        .collect();
    let mut widget = ScrollableText::new(lines, 25).title("Issue Detail");
    let plan = widget.render();
    assert_eq!(plan.scroll, 10);
    assert_eq!(widget.get_clamped_scroll_position(), 10);
    assert_eq!(plan.indicator.content_length, 10);
    assert_eq!(plan.indicator.position, 10);
    assert_eq!(plan.title.as_deref(), Some("Issue Detail"));
    assert_eq!(plan.border_color, TextStyle::Yellow);
    assert_eq!(plan.lines.len(), 10);
}
