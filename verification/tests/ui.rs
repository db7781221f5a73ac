use backlog_tui::app::{App, Input};
use backlog_tui::client::BacklogClient;
use backlog_tui::issue::{Comment, Issue, Status, User};
use backlog_tui::ui::{detail, draw, hex_to_rgb_color, row, Direction, Rgb, Row, Span};

fn ticket(n: u32, assignee: Option<&str>) -> Issue {
    Issue {
        id: n,
        issue_key: format!("PROJ-{}", n),
        summary: format!("Fix bug {}", n),
        description: format!("It is broken {}", n),
        assignee: assignee.map(|name| User { name: name.to_string() }),
        updated: "2022-01-01T00:00:00Z".to_string(),
        status: Status { id: 2, name: "In Progress".to_string(), color: "#4488c5".to_string() },
        comments: None,
    }
}

fn remark(name: &str, created: &str, content: Option<&str>) -> Comment {
    Comment {
        content: content.map(|c| c.to_string()),
        created_user: User { name: name.to_string() },
        created: created.to_string(),
        updated: created.to_string(),
    }
}

fn colored(text: &str) -> Span {
    Span { text: text.to_string(), colored: true }
}

fn plain(text: &str) -> Span {
    Span { text: text.to_string(), colored: false }
}

fn dashboard(issues: Vec<Issue>) -> App {
    let client = BacklogClient::new("myspace".to_string(), "SECRET".to_string());
    match App::init(client, Ok(issues)) {
        Ok(app) => app,
        Err(e) => panic!("init failed: {:?}", e),
    }
}

#[test]
fn hex_color_reads_red_green_blue() {
    assert_eq!(hex_to_rgb_color("#4488c5"), Some(Rgb { r: 0x44, g: 0x88, b: 0xc5 }));
    assert_eq!(hex_to_rgb_color("#000000"), Some(Rgb { r: 0, g: 0, b: 0 }));
    assert_eq!(hex_to_rgb_color("#ffffff"), Some(Rgb { r: 255, g: 255, b: 255 }));
    assert_eq!(hex_to_rgb_color("#0a10ff"), Some(Rgb { r: 10, g: 16, b: 255 }));
}

#[test]
fn hex_color_accepts_either_case() {
    assert_eq!(hex_to_rgb_color("#ED8077"), Some(Rgb { r: 0xed, g: 0x80, b: 0x77 }));
    assert_eq!(hex_to_rgb_color("#eD80Af"), Some(Rgb { r: 0xed, g: 0x80, b: 0xaf }));
}

#[test]
fn hex_color_rejects_other_lengths() {
    assert_eq!(hex_to_rgb_color(""), None);
    assert_eq!(hex_to_rgb_color("#"), None);
    assert_eq!(hex_to_rgb_color("#fff"), None);
    assert_eq!(hex_to_rgb_color("#ffffff0"), None);
    assert_eq!(hex_to_rgb_color("#ffffff00"), None);
}

#[test]
fn hex_color_rejects_a_missing_hash() {
    assert_eq!(hex_to_rgb_color("4488c5f"), None);
    assert_eq!(hex_to_rgb_color(" 4488c5"), None);
}

#[test]
fn hex_color_rejects_other_digits() {
    assert_eq!(hex_to_rgb_color("#gg0000"), None);
    assert_eq!(hex_to_rgb_color("#00+f00"), None);
    assert_eq!(hex_to_rgb_color("#0000 0"), None);
    assert_eq!(hex_to_rgb_color("#00000/"), None);
    assert_eq!(hex_to_rgb_color("#00000:"), None);
    assert_eq!(hex_to_rgb_color("#00000@"), None);
    assert_eq!(hex_to_rgb_color("#00000G"), None);
    assert_eq!(hex_to_rgb_color("#00000`"), None);
    assert_eq!(hex_to_rgb_color("#00000é"), None);
}

#[test]
fn row_without_assignee() {
    assert_eq!(
        row(&ticket(7, None)),
        Row {
            color: Some(Rgb { r: 0x44, g: 0x88, b: 0xc5 }),
            spans: vec![
                colored("PROJ-7"),
                plain(" "),
                colored("In Progress"),
                plain(" "),
                colored("Fix bug 7"),
                plain(" "),
                colored("2022-01-01T00:00:00Z"),
            ],
        }
    );
}

#[test]
fn row_with_assignee() {
    assert_eq!(
        row(&ticket(7, Some("bob"))).spans,
        vec![
            colored("PROJ-7"),
            plain(" "),
            colored("In Progress"),
            plain(" "),
            colored("Fix bug 7"),
            colored(" @bob"),
            plain(" "),
            colored("2022-01-01T00:00:00Z"),
        ]
    );
}

#[test]
fn row_with_a_colour_that_cannot_be_read() {
    let mut issue = ticket(1, None);
    issue.status.color = "blue".to_string();
    assert_eq!(row(&issue).color, None);
    assert_eq!(row(&issue).spans.len(), 7);
}

#[test]
fn detail_without_selection_is_empty() {
    assert_eq!(detail(None), "");
}

#[test]
fn detail_of_an_issue_without_comments_is_its_description() {
    let mut issue = ticket(3, None);
    assert_eq!(detail(Some(&issue)), "It is broken 3");
    issue.comments = Some(Vec::new());
    assert_eq!(detail(Some(&issue)), "It is broken 3");
}

#[test]
fn detail_lists_the_comments_in_order() {
    let mut issue = ticket(3, None);
    issue.comments = Some(vec![
        remark("alice", "2022-01-02", Some("I see it too")),
        remark("bob", "2022-01-03", Some("Fixed")),
    ]);
    assert_eq!(
        detail(Some(&issue)),
        "It is broken 3\n\n\u{1F4AC} alice 2022-01-02:  I see it too\n\n\u{1F4AC} bob 2022-01-03:  Fixed"
    );
}

#[test]
fn detail_passes_over_a_comment_without_text() {
    let mut issue = ticket(3, None);
    issue.comments = Some(vec![
        remark("alice", "2022-01-02", None),
        remark("bob", "2022-01-03", Some("Fixed")),
    ]);
    assert_eq!(detail(Some(&issue)), "It is broken 3\n\n\u{1F4AC} bob 2022-01-03:  Fixed");
}

#[test]
fn draw_lists_every_issue() {
    let app = dashboard(vec![ticket(1, None), ticket(2, Some("bob")), ticket(3, None)]);
    let screen = draw(&app);
    assert_eq!(screen.rows, vec![row(&ticket(1, None)), row(&ticket(2, Some("bob"))), row(&ticket(3, None))]);
    assert_eq!(screen.selected, None);
    assert_eq!(screen.detail, "");
}

#[test]
fn draw_of_no_issues() {
    let screen = draw(&dashboard(Vec::new()));
    assert_eq!(screen.rows, Vec::new());
    assert_eq!(screen.selected, None);
    assert_eq!(screen.detail, "");
}

#[test]
fn draw_shows_the_selected_issue() {
    let mut app = dashboard(vec![ticket(1, None), ticket(2, None)]);
    app.handle(Input::MoveDown);
    app.handle(Input::MoveDown);
    let screen = draw(&app);
    assert_eq!(screen.selected, Some(1));
    assert_eq!(screen.detail, "It is broken 2");
    app.receive_comments(1, Ok(vec![remark("eve", "2022-02-02", Some("hm")), remark("eve", "x", None)]));
    assert_eq!(draw(&app).detail, "It is broken 2\n\n\u{1F4AC} eve 2022-02-02:  hm");
}

#[test]
fn draw_splits_by_the_layout_flag() {
    let mut app = dashboard(vec![ticket(1, None)]);
    assert_eq!(draw(&app).direction, Direction::Vertical);
    app.is_vertical = true;
    assert_eq!(draw(&app).direction, Direction::Horizontal);
}
