use harvest::encode::{entry, whole_number};
use harvest::json::{Json, Number};
use harvest::model::{Client, Project, Task, TimeEntry, Timer, User};
use harvest::request::{Harvest, Header, Listing, Method, Request};

fn account() -> Harvest {
    Harvest::new(String::from("t0ken"), 1234567)
}

fn header(name: &str, value: &str) -> Header {
    Header { name: String::from(name), value: String::from(value) }
}

fn expected_headers() -> Vec<Header> {
    vec![
        header("Authorization", "Bearer t0ken"),
        header("Harvest-Account-Id", "1234567"),
        header("User-Agent", "Harvest Linux"),
    ]
}

fn get(url: &str) -> Request {
    Request {
        method: Method::Get,
        url: String::from(url),
        headers: expected_headers(),
        body: None,
    }
}

fn patch(url: &str) -> Request {
    Request {
        method: Method::Patch,
        url: String::from(url),
        headers: expected_headers(),
        body: None,
    }
}

fn time_entry(id: u32) -> TimeEntry {
    TimeEntry {
        id,
        project: Project { id: 1, name: String::from("P"), client: None },
        client: Client { id: 2, name: String::from("C") },
        hours: Number::Whole(0),
        user: User { id: 3 },
        spent_date: String::from("2024-05-06"),
        task: Task { id: 4, name: String::from("T") },
        notes: None,
        is_running: false,
    }
}

#[test]
fn credentials_are_kept_as_given() {
    let h = account();
    assert_eq!(h.token(), "t0ken");
    assert_eq!(h.account_id(), 1234567);
}

#[test]
fn every_request_carries_the_three_headers() {
    let h = account();
    let requests = vec![
        h.page_request(&Listing::Projects, 1),
        h.page_request(&Listing::ProjectAssignments(User { id: 5 }), 1),
        h.time_entries_request(&User { id: 5 }, "2024-05-06"),
        h.current_user_request(),
        h.task_assignments_request(&Project { id: 1, name: String::new(), client: None }),
        h.start_timer_request(&Timer {
            project_id: 1,
            task_id: 2,
            spent_date: String::from("2024-05-06"),
            notes: None,
            hours: None,
        }),
        h.restart_timer_request(&time_entry(1)),
        h.stop_timer_request(&time_entry(1)),
        h.get(String::from("https://example.org/")),
        h.patch(String::from("https://example.org/")),
        h.post(String::from("https://example.org/"), Json::Null),
    ];
    for request in requests {
        assert_eq!(request.headers, expected_headers());
    }
}

#[test]
fn headers_follow_the_credentials() {
    let h = Harvest::new(String::from("abc.def"), 0);
    let request = h.current_user_request();
    assert_eq!(request.headers[0], header("Authorization", "Bearer abc.def"));
    assert_eq!(request.headers[1], header("Harvest-Account-Id", "0"));
    let h = Harvest::new(String::new(), u32::MAX);
    let request = h.current_user_request();
    assert_eq!(request.headers[0], header("Authorization", "Bearer "));
    assert_eq!(request.headers[1], header("Harvest-Account-Id", "4294967295"));
}

#[test]
fn projects_listing_address() {
    assert_eq!(
        account().page_request(&Listing::Projects, 3),
        get("https://api.harvestapp.com/v2/projects?is_active=true&page=3")
    );
}

#[test]
fn project_assignments_listing_address() {
    assert_eq!(
        account().page_request(&Listing::ProjectAssignments(User { id: 1782959 }), 12),
        get("https://api.harvestapp.com/v2/users/1782959/project_assignments?page=12")
    );
}

#[test]
fn time_entries_address_names_the_day_twice() {
    assert_eq!(
        account().time_entries_request(&User { id: 77 }, "2024-05-06"),
        get("https://api.harvestapp.com/v2/time_entries?user_id=77&from=2024-05-06&to=2024-05-06")
    );
}

#[test]
fn current_user_address() {
    assert_eq!(account().current_user_request(), get("https://api.harvestapp.com/v2/users/me"));
}

#[test]
fn task_assignments_address() {
    let project = Project { id: 14307913, name: String::from("P"), client: None };
    assert_eq!(
        account().task_assignments_request(&project),
        get("https://api.harvestapp.com/v2/projects/14307913/task_assignments?is_active=true")
    );
}

#[test]
fn start_timer_posts_the_timer() {
    let timer = Timer {
        project_id: 11,
        task_id: 22,
        spent_date: String::from("2024-05-06"),
        notes: Some(String::from("standup")),
        hours: None,
    };
    let request = account().start_timer_request(&timer);
    assert_eq!(request.method, Method::Post);
    assert_eq!(request.url, "https://api.harvestapp.com/v2/time_entries");
    assert_eq!(
        request.body,
        Some(Json::Record(vec![
            entry("project_id", whole_number(11)),
            entry("task_id", whole_number(22)),
            entry("spent_date", Json::Text(String::from("2024-05-06"))),
            entry("notes", Json::Text(String::from("standup"))),
        ]))
    );
}

#[test]
fn restart_and_stop_addresses() {
    let h = account();
    let entry = time_entry(636709355);
    assert_eq!(
        h.restart_timer_request(&entry),
        patch("https://api.harvestapp.com/v2/time_entries/636709355/restart")
    );
    assert_eq!(
        h.stop_timer_request(&entry),
        patch("https://api.harvestapp.com/v2/time_entries/636709355/stop")
    );
}

#[test]
fn methods_with_and_without_body() {
    let h = account();
    let url = || String::from("https://example.org/x");
    assert_eq!(h.get(url()).method, Method::Get);
    assert_eq!(h.get(url()).body, None);
    assert_eq!(h.patch(url()).method, Method::Patch);
    assert_eq!(h.patch(url()).body, None);
    let posted = h.post(url(), Json::Bool(true));
    assert_eq!(posted.method, Method::Post);
    assert_eq!(posted.body, Some(Json::Bool(true)));
    assert_eq!(posted.url, "https://example.org/x");
}
