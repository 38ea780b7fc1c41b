use octocrab::params::{Direction, State};
use octocrab::params::issues::Filter;

#[test]
fn enum_wire_strings_are_fixed() {
    assert_eq!(State::All.to_wire(), "all");
    assert_eq!(State::Open.to_wire(), "open");
    assert_eq!(State::Closed.to_wire(), "closed");
    assert_eq!(Direction::Ascending.to_wire(), "asc");
    assert_eq!(Direction::Descending.to_wire(), "desc");
    assert_eq!(octocrab::params::issues::Sort::Created.to_wire(), "created");
    assert_eq!(octocrab::params::issues::Sort::Updated.to_wire(), "updated");
    assert_eq!(octocrab::params::issues::Sort::Comments.to_wire(), "comments");
    assert_eq!(octocrab::params::pulls::Sort::Created.to_wire(), "created");
    assert_eq!(octocrab::params::pulls::Sort::Updated.to_wire(), "updated");
    assert_eq!(octocrab::params::pulls::Sort::Popularity.to_wire(), "popularity");
    assert_eq!(
        octocrab::params::pulls::Sort::LongRunning.to_wire(),
        "long-running"
    );
}

#[test]
fn enum_parsing_round_trips_and_rejects_unknown_strings() {
    assert_eq!(State::parse_wire("open"), Some(State::Open));
    assert_eq!(State::parse_wire("closed"), Some(State::Closed));
    assert_eq!(State::parse_wire("all"), Some(State::All));
    assert_eq!(State::parse_wire("OPEN"), None);
    assert_eq!(State::parse_wire("opened"), None);
    assert_eq!(State::parse_wire(""), None);
    assert_eq!(Direction::parse_wire("asc"), Some(Direction::Ascending));
    assert_eq!(Direction::parse_wire("desc"), Some(Direction::Descending));
    assert_eq!(Direction::parse_wire("ascending"), None);
    assert_eq!(
        octocrab::params::issues::Sort::parse_wire("comments"),
        Some(octocrab::params::issues::Sort::Comments)
    );
    assert_eq!(octocrab::params::issues::Sort::parse_wire("stars"), None);
    assert_eq!(
        octocrab::params::pulls::Sort::parse_wire("long-running"),
        Some(octocrab::params::pulls::Sort::LongRunning)
    );
    assert_eq!(octocrab::params::pulls::Sort::parse_wire("long_running"), None);
}

#[test]
fn filter_round_trips_through_the_wire() {
    assert_eq!(Filter::<String>::Wildcard.to_wire().as_str(), "*");
    assert_eq!(Filter::<String>::Absent.to_wire().as_str(), "none");
    assert_eq!(
        Filter::Value(String::from("ferris")).to_wire().as_str(),
        "ferris"
    );
    assert_eq!(
        Filter::<String>::from_wire(String::from("*")),
        Filter::Wildcard
    );
    assert_eq!(
        Filter::<String>::from_wire(String::from("none")),
        Filter::Absent
    );
    assert_eq!(
        Filter::<String>::from_wire(String::from("ferris")),
        Filter::Value(String::from("ferris"))
    );
    let back = Filter::<String>::from_wire(Filter::Value(String::from("octocat")).to_wire());
    assert_eq!(back, Filter::Value(String::from("octocat")));
    assert_eq!(
        Filter::<String>::from_wire(Filter::<String>::Wildcard.to_wire()),
        Filter::Wildcard
    );
    assert_eq!(
        Filter::<String>::from_wire(Filter::<String>::Absent.to_wire()),
        Filter::Absent
    );
}

#[test]
fn numeric_filter_wire_strings_never_collide() {
    assert_eq!(Filter::<u64>::Wildcard.to_wire().as_str(), "*");
    assert_eq!(Filter::<u64>::Absent.to_wire().as_str(), "none");
    assert_eq!(Filter::<u64>::Value(1234).to_wire().as_str(), "1234");
    assert_eq!(Filter::<u64>::Value(0).to_wire().as_str(), "0");
    assert_ne!(
        Filter::<u64>::Value(0).to_wire(),
        Filter::<u64>::Wildcard.to_wire()
    );
}

#[test]
fn filter_json_forms_are_canonical() {
    assert_eq!(Filter::<u64>::Wildcard.to_json().as_str(), "\"*\"");
    assert_eq!(Filter::<u64>::Absent.to_json().as_str(), "\"none\"");
    assert_eq!(Filter::<u64>::Value(1234).to_json().as_str(), "1234");
    assert_eq!(Filter::<u64>::Value(0).to_json().as_str(), "0");
    assert_eq!(
        Filter::<u64>::Value(u64::MAX).to_json().as_str(),
        "18446744073709551615"
    );
    assert_eq!(Filter::<String>::Wildcard.to_json().as_str(), "\"*\"");
    assert_eq!(
        Filter::Value(String::from("ferris")).to_json().as_str(),
        "\"ferris\""
    );
}
