use octocrab::Octocrab;
use octocrab::params::{Direction, State};
use octocrab::params::issues::{Filter, Sort};

fn sample_list_query() -> String {
    let octocrab = Octocrab::default();
    let handler = octocrab.issues(String::from("rust-lang"), String::from("rust"));
    let labels = vec![
        String::from("help wanted"),
        String::from("good first issue"),
    ];
    let list = handler
        .list()
        .state(State::Open)
        .milestone(Filter::Value(1234))
        .assignee(Filter::Value(String::from("ferris")))
        .creator(String::from("octocrab"))
        .mentioned(String::from("octocat"))
        .labels(labels)
        .sort(Sort::Comments)
        .direction(Direction::Ascending)
        .per_page(100)
        .page(1);
    list.query_string()
}

#[test]
fn serialize() {
    let expected = "{\"state\":\"open\",\"milestone\":1234,\"assignee\":\"ferris\",\"creator\":\"octocrab\",\"mentioned\":\"octocat\",\"labels\":[\"help wanted\",\"good first issue\"],\"sort\":\"comments\",\"direction\":\"asc\",\"per_page\":100,\"page\":1}";
    assert_eq!(sample_list_query().as_str(), expected);
}

#[test]
fn serialize_agrees_with_a_json_reader() {
    let value: serde_json::Value = serde_json::from_str(sample_list_query().as_str()).unwrap();
    let mut expected = serde_json::Map::new();
    expected.insert(
        String::from("state"),
        serde_json::Value::String(String::from("open")),
    );
    expected.insert(
        String::from("milestone"),
        serde_json::Value::Number(serde_json::Number::from(1234u64)),
    );
    expected.insert(
        String::from("assignee"),
        serde_json::Value::String(String::from("ferris")),
    );
    expected.insert(
        String::from("creator"),
        serde_json::Value::String(String::from("octocrab")),
    );
    expected.insert(
        String::from("mentioned"),
        serde_json::Value::String(String::from("octocat")),
    );
    expected.insert(
        String::from("labels"),
        serde_json::Value::Array(vec![
            serde_json::Value::String(String::from("help wanted")),
            serde_json::Value::String(String::from("good first issue")),
        ]),
    );
    expected.insert(
        String::from("sort"),
        serde_json::Value::String(String::from("comments")),
    );
    expected.insert(
        String::from("direction"),
        serde_json::Value::String(String::from("asc")),
    );
    expected.insert(
        String::from("per_page"),
        serde_json::Value::Number(serde_json::Number::from(100u64)),
    );
    expected.insert(
        String::from("page"),
        serde_json::Value::Number(serde_json::Number::from(1u64)),
    );
    assert_eq!(value, serde_json::Value::Object(expected));
}

#[test]
fn unset_fields_are_omitted_entirely() {
    let octocrab = Octocrab::default();
    let handler = octocrab.issues(String::from("rust-lang"), String::from("rust"));
    assert_eq!(handler.list().query_string().as_str(), "{}");
    let only_state = handler.list().state(State::Closed).query_string();
    assert_eq!(only_state.as_str(), "{\"state\":\"closed\"}");
    let only_page = handler.list().page(7).query_string();
    assert_eq!(only_page.as_str(), "{\"page\":7}");
}

#[test]
fn serializing_twice_is_byte_identical() {
    let octocrab = Octocrab::default();
    let handler = octocrab.issues(String::from("rust-lang"), String::from("rust"));
    let list = handler
        .list()
        .state(State::Open)
        .milestone(Filter::Wildcard)
        .per_page(50);
    let first = list.query_string();
    let second = list.query_string();
    assert_eq!(first, second);
    assert_eq!(sample_list_query(), sample_list_query());
}

#[test]
fn filter_sentinels_serialize_as_strings_and_values_as_numbers() {
    let octocrab = Octocrab::default();
    let handler = octocrab.issues(String::from("o"), String::from("r"));
    let any = handler.list().milestone(Filter::Wildcard).query_string();
    assert_eq!(any.as_str(), "{\"milestone\":\"*\"}");
    let absent = handler.list().milestone(Filter::Absent).query_string();
    assert_eq!(absent.as_str(), "{\"milestone\":\"none\"}");
    let value = handler.list().milestone(Filter::Value(42)).query_string();
    assert_eq!(value.as_str(), "{\"milestone\":42}");
    let user = handler
        .list()
        .assignee(Filter::Value(String::from("ferris")))
        .query_string();
    assert_eq!(user.as_str(), "{\"assignee\":\"ferris\"}");
    let nobody = handler.list().assignee(Filter::Absent).query_string();
    assert_eq!(nobody.as_str(), "{\"assignee\":\"none\"}");
}

#[test]
fn an_empty_label_list_is_still_a_set_field() {
    let octocrab = Octocrab::default();
    let handler = octocrab.issues(String::from("o"), String::from("r"));
    let query = handler.list().labels(Vec::new()).query_string();
    assert_eq!(query.as_str(), "{\"labels\":[]}");
}

#[test]
fn strings_are_escaped_and_read_back_unchanged() {
    let octocrab = Octocrab::default();
    let handler = octocrab.issues(String::from("o"), String::from("r"));
    let tricky = String::from("a\"b\\c\nd\te\u{1}f");
    let query = handler.list().creator(tricky.clone()).query_string();
    assert_eq!(
        query.as_str(),
        "{\"creator\":\"a\\\"b\\\\c\\nd\\te\\u0001f\"}"
    );
    let value: serde_json::Value = serde_json::from_str(query.as_str()).unwrap();
    assert_eq!(value["creator"], serde_json::Value::String(tricky));
}
