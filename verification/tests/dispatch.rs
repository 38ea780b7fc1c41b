use octocrab::{DecodeOutcome, Error, GitHubError, HttpMethod, Octocrab};
use octocrab::models::Issue;
use octocrab::pulls::merged_from_status;

#[test]
fn default_client_points_at_the_public_base() {
    let octocrab = Octocrab::default();
    assert_eq!(octocrab.base_url.as_str(), "https://api.github.com");
}

#[test]
fn absolute_url_resolves_route_against_base() {
    let octocrab = Octocrab::default();
    let url = octocrab.absolute_url("/repos/rust-lang/rust/issues").unwrap();
    assert_eq!(
        url.as_str(),
        "https://api.github.com/repos/rust-lang/rust/issues"
    );
}

#[test]
fn malformed_base_fails_fast_with_a_url_error() {
    let octocrab = Octocrab::new(String::from("not a base url"));
    let result = octocrab.absolute_url("/repos/a/b/issues");
    assert!(matches!(result, Err(Error::Url { .. })));
    let handler = octocrab.issues(String::from("a"), String::from("b"));
    let parts = handler.list().into_request();
    assert!(matches!(parts, Err(Error::Url { .. })));
    let pulls = octocrab.pulls(String::from("a"), String::from("b"));
    assert!(matches!(pulls.merge_request(1), Err(Error::Url { .. })));
}

#[test]
fn well_formed_requests_carry_url_and_query() {
    let octocrab = Octocrab::default();
    let handler = octocrab.issues(String::from("rust-lang"), String::from("rust"));
    let parts = handler
        .list()
        .state(octocrab::params::State::Open)
        .into_request()
        .unwrap();
    assert_eq!(parts.method, HttpMethod::Get);
    assert_eq!(
        parts.url.as_str(),
        "https://api.github.com/repos/rust-lang/rust/issues"
    );
    assert_eq!(parts.body.as_deref(), Some("{\"state\":\"open\"}"));
}

#[test]
fn merge_check_requests_point_at_the_merge_route() {
    let octocrab = Octocrab::default();
    let pulls = octocrab.pulls(String::from("owner"), String::from("repo"));
    let parts = pulls.merge_request(101).unwrap();
    assert_eq!(parts.method, HttpMethod::Get);
    assert_eq!(
        parts.url.as_str(),
        "https://api.github.com/repos/owner/repo/pulls/101/merge"
    );
    assert_eq!(parts.body, None);
    let get = pulls.get_request(101).unwrap();
    assert_eq!(
        get.url.as_str(),
        "https://api.github.com/repos/owner/repo/pulls/101"
    );
}

#[test]
fn merge_check_status_alone_decides() {
    assert!(merged_from_status(204));
    assert!(!merged_from_status(200));
    assert!(!merged_from_status(201));
    assert!(!merged_from_status(404));
    assert!(!merged_from_status(500));
}

#[test]
fn failed_decode_keeps_the_exact_payload() {
    let body = String::from("{\"unexpected\": [1, 2");
    let outcome: DecodeOutcome<Issue> =
        DecodeOutcome::Failed(String::from("unexpected end of input"));
    let result = octocrab::interpret_success_body(body.clone(), outcome);
    match result {
        Err(Error::Json { message, json }) => {
            assert_eq!(json, body);
            assert_eq!(message.as_str(), "unexpected end of input");
        }
        other => panic!("expected a decode error, got {:?}", other),
    }
}

#[test]
fn successful_decode_hands_the_value_through() {
    let body = String::from("{\"number\":7,\"title\":\"t\"}");
    let issue = Issue { number: 7, title: String::from("t") };
    let outcome = DecodeOutcome::Decoded(issue.clone());
    let result = octocrab::interpret_success_body(body, outcome);
    assert_eq!(result.unwrap(), issue);
}

#[test]
fn remote_reported_errors_become_github_errors() {
    let body = String::from("{\"message\":\"Not Found\",\"documentation_url\":\"https://docs.example/rest\"}");
    let remote = GitHubError {
        documentation_url: String::from("https://docs.example/rest"),
        message: String::from("Not Found"),
    };
    let err = octocrab::interpret_failure_body(body, DecodeOutcome::Decoded(remote.clone()));
    assert_eq!(err, Error::GitHub { source: remote });
}

#[test]
fn unreadable_failure_bodies_become_decode_errors() {
    let body = String::from("<html>502</html>");
    let err = octocrab::interpret_failure_body(
        body.clone(),
        DecodeOutcome::Failed(String::from("expected value at line 1")),
    );
    match err {
        Error::Json { message, json } => {
            assert_eq!(json, body);
            assert_eq!(message.as_str(), "expected value at line 1");
        }
        other => panic!("expected a decode error, got {:?}", other),
    }
}

#[test]
fn status_classification_matches_the_convention() {
    assert!(octocrab::status_is_success(200));
    assert!(octocrab::status_is_success(204));
    assert!(octocrab::status_is_success(299));
    assert!(!octocrab::status_is_success(199));
    assert!(!octocrab::status_is_success(300));
    assert!(!octocrab::status_is_success(404));
}

#[test]
fn every_error_variant_renders_its_context() {
    let github = Error::GitHub {
        source: GitHubError {
            documentation_url: String::from("https://docs.example/rest"),
            message: String::from("Bad credentials"),
        },
    };
    assert_eq!(
        github.to_text().as_str(),
        "Error: Bad credentials\nDocumentation URL: https://docs.example/rest"
    );
    let url = Error::Url { message: String::from("relative URL without a base") };
    assert_eq!(
        url.to_text().as_str(),
        "URL Error: relative URL without a base"
    );
    let http = Error::Http { message: String::from("connection refused") };
    assert_eq!(http.to_text().as_str(), "HTTP Error: connection refused");
    let json = Error::Json {
        message: String::from("missing field"),
        json: String::from("{\"x\":1}"),
    };
    assert_eq!(
        json.to_text().as_str(),
        "JSON Error: missing field\n{\"x\":1}"
    );
    let other = Error::Other { message: String::from("middleware gave up") };
    assert_eq!(other.to_text().as_str(), "Other Error: middleware gave up");
}

#[test]
fn pages_keep_their_records_and_metadata() {
    let items = vec![
        Issue { number: 1, title: String::from("a") },
        Issue { number: 2, title: String::from("b") },
    ];
    let page = octocrab::Page::new(
        items.clone(),
        Some(2),
        Some(String::from("https://api.github.com/x?page=2")),
        None,
    );
    assert_eq!(page.len(), 2);
    assert_eq!(page.items, items);
    assert_eq!(page.total_count, Some(2));
    assert_eq!(page.prev, None);
}

#[test]
fn create_pull_request_body_holds_exactly_the_set_fields() {
    let octocrab = Octocrab::default();
    let pulls = octocrab.pulls(String::from("owner"), String::from("repo"));
    let bare = pulls
        .create(String::from("title"), String::from("head"), String::from("base"))
        .body_string();
    assert_eq!(
        bare.as_str(),
        "{\"title\":\"title\",\"head\":\"head\",\"base\":\"base\"}"
    );
    let with_body = pulls
        .create(String::from("title"), String::from("head"), String::from("base"))
        .body(String::from("hello world!"))
        .into_request()
        .unwrap();
    assert_eq!(with_body.method, HttpMethod::Post);
    assert_eq!(
        with_body.url.as_str(),
        "https://api.github.com/repos/owner/repo/pulls"
    );
    assert_eq!(
        with_body.body.as_deref(),
        Some("{\"title\":\"title\",\"head\":\"head\",\"base\":\"base\",\"body\":\"hello world!\"}")
    );
}

#[test]
fn list_pull_requests_query_follows_declaration_order() {
    let octocrab = Octocrab::default();
    let pulls = octocrab.pulls(String::from("owner"), String::from("repo"));
    let parts = pulls
        .list()
        .state(octocrab::params::State::Open)
        .head(String::from("master"))
        .base(String::from("branch"))
        .sort(octocrab::params::pulls::Sort::Popularity)
        .direction(octocrab::params::Direction::Ascending)
        .per_page(100)
        .page(5)
        .into_request()
        .unwrap();
    assert_eq!(
        parts.body.as_deref(),
        Some("{\"state\":\"open\",\"head\":\"master\",\"base\":\"branch\",\"sort\":\"popularity\",\"direction\":\"asc\",\"per_page\":100,\"page\":5}")
    );
}
