use backlog_tui::client::{split_commas, BacklogClient, Request};
use backlog_tui::issue::{Issue, Status};

fn pair(name: &str, value: &str) -> (String, String) {
    (name.to_string(), value.to_string())
}

fn sample_client() -> BacklogClient {
    BacklogClient::new("myspace".to_string(), "SECRET".to_string())
}

fn issue_with_key(key: &str) -> Issue {
    Issue {
        id: 1,
        issue_key: key.to_string(),
        summary: "summary".to_string(),
        description: "description".to_string(),
        assignee: None,
        updated: "2022-01-01T00:00:00Z".to_string(),
        status: Status { id: 1, name: "Open".to_string(), color: "#ed8077".to_string() },
        comments: None,
    }
}

fn std_split(text: &str) -> Vec<String> {
    text.split(',').map(|s| s.to_string()).collect()
}

#[test]
fn split_commas_of_three_ids() {
    assert_eq!(split_commas("1,2,3"), vec!["1", "2", "3"]);
}

#[test]
fn split_commas_of_one_id() {
    assert_eq!(split_commas("42"), vec!["42"]);
}

#[test]
fn split_commas_of_empty_text_is_one_empty_piece() {
    assert_eq!(split_commas(""), vec![""]);
}

#[test]
fn split_commas_keeps_empty_pieces() {
    assert_eq!(split_commas("1,,2"), vec!["1", "", "2"]);
    assert_eq!(split_commas(","), vec!["", ""]);
    assert_eq!(split_commas("1,"), vec!["1", ""]);
    assert_eq!(split_commas(",1"), vec!["", "1"]);
}

#[test]
fn split_commas_counts_characters_not_bytes() {
    assert_eq!(split_commas("完了,処理中"), vec!["完了", "処理中"]);
    assert_eq!(split_commas("é,ü,"), vec!["é", "ü", ""]);
}

#[test]
fn split_commas_agrees_with_std() {
    for text in ["", ",", ",,", "a", "a,b", "1,2,3,4", " 1 , 2 ", "x,,y,", "日本,語"] {
        assert_eq!(split_commas(text), std_split(text));
    }
}

#[test]
fn split_commas_rejoins_to_the_text() {
    for text in ["", ",", "1,2,3", "a,,b,", "no comma"] {
        let fields = split_commas(text);
        assert!(fields.iter().all(|f| !f.contains(',')));
        assert_eq!(fields.join(","), text);
    }
}

#[test]
fn get_puts_the_api_key_first() {
    let request = sample_client().get("/space", vec![pair("a", "1"), pair("b", "2")]);
    assert_eq!(request.url, "https://myspace.backlog.com/api/v2/space");
    assert_eq!(
        request.query,
        vec![pair("apiKey", "SECRET"), pair("a", "1"), pair("b", "2")]
    );
}

#[test]
fn get_without_parameters_still_signs() {
    let request = sample_client().get("", Vec::new());
    assert_eq!(request.url, "https://myspace.backlog.com/api/v2");
    assert_eq!(request.query, vec![pair("apiKey", "SECRET")]);
}

#[test]
fn fetch_issues_builds_the_listing_request() {
    let request = sample_client().fetch_issues("1234", "1,2,3");
    assert_eq!(
        request,
        Request {
            url: "https://myspace.backlog.com/api/v2/issues".to_string(),
            query: vec![
                pair("apiKey", "SECRET"),
                pair("projectId[]", "1234"),
                pair("count", "100"),
                pair("sort", "status"),
                pair("statusId[]", "1"),
                pair("statusId[]", "2"),
                pair("statusId[]", "3"),
            ],
        }
    );
}

#[test]
fn fetch_issues_sends_one_status_parameter_for_each_id() {
    for (list, ids) in [
        ("7", vec!["7"]),
        ("1,2", vec!["1", "2"]),
        ("4,3,2,1", vec!["4", "3", "2", "1"]),
        ("", vec![""]),
    ] {
        let request = sample_client().fetch_issues("p", list);
        let sent: Vec<&str> = request
            .query
            .iter()
            .filter(|(name, _)| name == "statusId[]")
            .map(|(_, value)| value.as_str())
            .collect();
        assert_eq!(sent, ids);
    }
}

#[test]
fn fetch_issues_carries_the_key_once_and_as_a_parameter() {
    let request = sample_client().fetch_issues("1234", "1");
    let keys = request.query.iter().filter(|(name, _)| name == "apiKey").count();
    assert_eq!(keys, 1);
    assert_eq!(request.query[0], pair("apiKey", "SECRET"));
    assert!(!request.url.contains("SECRET"));
}

#[test]
fn fetch_issues_asks_for_the_largest_page_sorted_by_status() {
    let request = sample_client().fetch_issues("1234", "1");
    assert!(request.query.contains(&pair("count", "100")));
    assert!(request.query.contains(&pair("sort", "status")));
    let counts = request.query.iter().filter(|(name, _)| name == "count").count();
    assert_eq!(counts, 1);
}

#[test]
fn fetch_comments_builds_the_thread_request() {
    let request = sample_client().fetch_comments(&issue_with_key("PROJ-123"));
    assert_eq!(
        request,
        Request {
            url: "https://myspace.backlog.com/api/v2/issues/PROJ-123/comments".to_string(),
            query: vec![pair("apiKey", "SECRET"), pair("order", "asc"), pair("count", "100")],
        }
    );
}

#[test]
fn fetch_comments_depends_on_the_key_only() {
    let mut issue = issue_with_key("A-1");
    let first = sample_client().fetch_comments(&issue);
    issue.id = 99;
    issue.summary = "other".to_string();
    issue.comments = Some(Vec::new());
    assert_eq!(sample_client().fetch_comments(&issue), first);
    assert_ne!(sample_client().fetch_comments(&issue_with_key("A-2")), first);
}

#[test]
fn space_id_names_the_host() {
    let client = BacklogClient::new("other".to_string(), "k".to_string());
    assert_eq!(client.space_id(), "other");
    assert_eq!(client.fetch_issues("1", "1").url, "https://other.backlog.com/api/v2/issues");
}
