use harvest::client::{into_projects, receive_items};
use harvest::encode::{entry, whole_number, Encode};
use harvest::json::{Json, Number};
use harvest::model::{
    is_iso_date, Client, Project, ProjectAssignment, ProjectAssignmentPage, ProjectPage, Task,
    TaskAssignment, TaskAssignmentPage, TimeEntry, TimeEntryPage, User,
};
use harvest::pagination::{gather, is_last_page, Gathered, Paged, Policy};
use harvest::transport::{receive, Error};
use harvest::request::{Harvest, Listing, Method, Request};
use std::cell::RefCell;

fn account() -> Harvest {
    Harvest::new(String::from("t0ken"), 42)
}

fn project(id: u32) -> Project {
    Project { id, name: format!("project {}", id), client: None }
}

fn text(s: &str) -> Json {
    Json::Text(String::from(s))
}

fn wire(doc: &Json) -> serde_json::Value {
    match doc {
        Json::Null => serde_json::Value::Null,
        Json::Bool(b) => serde_json::Value::Bool(*b),
        Json::Number(Number::Whole(n)) => serde_json::Value::from(*n),
        Json::Number(Number::Negative(n)) => serde_json::Value::from(*n),
        Json::Number(Number::Real(bits)) => serde_json::Value::from(f64::from_bits(*bits)),
        Json::Text(s) => serde_json::Value::from(s.as_str()),
        Json::List(items) => serde_json::Value::Array(items.iter().map(wire).collect()),
        Json::Record(members) => serde_json::Value::Object(
            members.iter().map(|m| (m.name.clone(), wire(&m.value))).collect(),
        ),
    }
}

fn body(doc: Json) -> String {
    wire(&doc).to_string()
}

fn page_of(name: &str, items: Vec<Json>, page: u32, total_pages: u32) -> String {
    let count = items.len() as u32;
    body(Json::Record(vec![
        entry(name, Json::List(items)),
        entry("per_page", whole_number(100)),
        entry("total_pages", whole_number(total_pages)),
        entry("total_entries", whole_number(count)),
        entry("page", whole_number(page)),
    ]))
}

fn assignments(ids: &[u32], page: u32, total_pages: u32) -> String {
    let items = ids
        .iter()
        .map(|id| ProjectAssignment { id: 1000 + id, project: project(*id) }.encode())
        .collect();
    page_of("project_assignments", items, page, total_pages)
}

fn projects(ids: &[u32], page: u32, total_pages: u32) -> String {
    let items = ids.iter().map(|id| project(*id).encode()).collect();
    page_of("projects", items, page, total_pages)
}

fn time_entry(id: u32, is_running: bool) -> TimeEntry {
    TimeEntry {
        id,
        project: project(1),
        client: Client { id: 2, name: String::from("C") },
        hours: Number::Real(0.5f64.to_bits()),
        user: User { id: 3 },
        spent_date: String::from("2024-05-06"),
        task: Task { id: 4, name: String::from("T") },
        notes: None,
        is_running,
    }
}

fn page_number(request: &Request) -> u32 {
    request.url.rsplit("page=").next().unwrap().parse().unwrap()
}

fn ids(projects: &[Project]) -> Vec<u32> {
    projects.iter().map(|p| p.id).collect()
}

#[test]
fn two_pages_of_assignments_give_three_projects_in_order() {
    let asked = RefCell::new(Vec::new());
    let send = |request: &Request| {
        asked.borrow_mut().push(request.url.clone());
        match page_number(request) {
            1 => Ok(assignments(&[7, 3], 1, 2)),
            2 => Ok(assignments(&[5], 2, 2)),
            _ => Err(Error::Transport),
        }
    };
    let found = account().active_projects(User { id: 9 }, &send).unwrap();
    assert_eq!(found, vec![project(7), project(3), project(5)]);
    assert_eq!(
        *asked.borrow(),
        vec![
            String::from("https://api.harvestapp.com/v2/users/9/project_assignments?page=1"),
            String::from("https://api.harvestapp.com/v2/users/9/project_assignments?page=2"),
        ]
    );
}

#[test]
fn one_page_is_asked_for_once() {
    let asked = RefCell::new(0u32);
    let send = |request: &Request| {
        *asked.borrow_mut() += 1;
        assert_eq!(request.method, Method::Get);
        Ok(assignments(&[1, 2], page_number(request), 1))
    };
    let found = account().active_projects(User { id: 9 }, &send).unwrap();
    assert_eq!(ids(&found), vec![1, 2]);
    assert_eq!(*asked.borrow(), 1);
}

#[test]
fn items_of_all_pages_are_kept_without_gap_or_repeat() {
    let pages: Vec<Vec<u32>> = vec![vec![1, 2, 3], vec![], vec![4], vec![5, 6], vec![7]];
    let asked = RefCell::new(Vec::new());
    let send = |request: &Request| {
        let n = page_number(request);
        asked.borrow_mut().push(n);
        Ok(assignments(&pages[n as usize - 1], n, pages.len() as u32))
    };
    let found = account().active_projects(User { id: 9 }, &send).unwrap();
    assert_eq!(ids(&found), vec![1, 2, 3, 4, 5, 6, 7]);
    assert_eq!(*asked.borrow(), vec![1, 2, 3, 4, 5]);
}

#[test]
fn assignment_identifiers_are_dropped() {
    let list = vec![
        ProjectAssignment { id: 500, project: project(1) },
        ProjectAssignment { id: 400, project: project(2) },
    ];
    assert_eq!(into_projects(list), vec![project(1), project(2)]);
    assert_eq!(into_projects(Vec::new()), Vec::<Project>::new());
}

#[test]
fn failure_of_the_transport_ends_the_listing() {
    let asked = RefCell::new(0u32);
    let send = |request: &Request| {
        *asked.borrow_mut() += 1;
        match page_number(request) {
            1 => Ok(assignments(&[1], 1, 3)),
            _ => Err(Error::Transport),
        }
    };
    assert_eq!(account().active_projects(User { id: 9 }, &send), Err(Error::Transport));
    assert_eq!(*asked.borrow(), 2);
}

#[test]
fn page_of_another_shape_ends_the_listing() {
    let asked = RefCell::new(0u32);
    let send = |request: &Request| {
        *asked.borrow_mut() += 1;
        match page_number(request) {
            1 => Ok(assignments(&[1], 1, 3)),
            _ => Ok(projects(&[2], 2, 3)),
        }
    };
    assert_eq!(account().active_projects(User { id: 9 }, &send), Err(Error::Decode));
    assert_eq!(*asked.borrow(), 2);
}

#[test]
fn failure_on_the_first_page() {
    let refuse = |_: &Request| Err(Error::Transport);
    assert_eq!(account().active_projects(User { id: 9 }, &refuse), Err(Error::Transport));
    let garbled = |_: &Request| Err(Error::Decode);
    assert_eq!(account().active_projects(User { id: 9 }, &garbled), Err(Error::Decode));
    let other = |_: &Request| Ok(String::from("[]"));
    assert_eq!(account().active_projects(User { id: 9 }, &other), Err(Error::Decode));
    let other = |_: &Request| Ok(String::from("<html>502</html>"));
    assert_eq!(account().active_projects(User { id: 9 }, &other), Err(Error::Decode));
}

#[test]
fn listing_follows_the_page_count_of_each_answer() {
    let asked = RefCell::new(Vec::new());
    let send = |request: &Request| {
        let n = page_number(request);
        asked.borrow_mut().push(n);
        let total = if n < 3 { 10 } else { 3 };
        Ok(assignments(&[n], n, total))
    };
    let found = account().active_projects(User { id: 9 }, &send).unwrap();
    assert_eq!(ids(&found), vec![1, 2, 3]);
    assert_eq!(*asked.borrow(), vec![1, 2, 3]);
}

#[test]
fn project_pages_are_kept_one_for_each() {
    let asked = RefCell::new(Vec::new());
    let send = |request: &Request| {
        asked.borrow_mut().push(request.url.clone());
        match page_number(request) {
            1 => Ok(projects(&[1, 2], 1, 2)),
            _ => Ok(projects(&[3], 2, 2)),
        }
    };
    let pages = account().project_pages(&send).unwrap();
    assert_eq!(pages.len(), 2);
    assert_eq!(ids(&pages[0].projects), vec![1, 2]);
    assert_eq!(ids(&pages[1].projects), vec![3]);
    assert_eq!((pages[0].page, pages[1].page), (1, 2));
    assert_eq!(
        *asked.borrow(),
        vec![
            String::from("https://api.harvestapp.com/v2/projects?is_active=true&page=1"),
            String::from("https://api.harvestapp.com/v2/projects?is_active=true&page=2"),
        ]
    );
}

#[test]
fn both_policies_share_one_gathering() {
    let send = |request: &Request| match page_number(request) {
        1 => Ok(projects(&[1, 2], 1, 2)),
        _ => Ok(projects(&[3], 2, 2)),
    };
    let h = account();
    match gather::<ProjectPage, _>(&h, &Listing::Projects, &send, Policy::Flatten) {
        Ok(Gathered::Items(items)) => assert_eq!(ids(&items), vec![1, 2, 3]),
        _ => panic!("items are kept"),
    }
    match gather::<ProjectPage, _>(&h, &Listing::Projects, &send, Policy::Retain) {
        Ok(Gathered::Pages(pages)) => {
            assert_eq!(pages.iter().map(|p| p.projects.len()).collect::<Vec<usize>>(), vec![2, 1])
        }
        _ => panic!("pages are kept"),
    }
    let fail = |_: &Request| Err(Error::Transport);
    assert!(matches!(
        gather::<ProjectPage, _>(&h, &Listing::Projects, &fail, Policy::Retain),
        Err(Error::Transport)
    ));
}

#[test]
fn no_time_entries_today_is_an_empty_sequence() {
    let asked = RefCell::new(Vec::new());
    let send = |request: &Request| {
        asked.borrow_mut().push(request.url.clone());
        Ok(page_of("time_entries", vec![], 1, 1))
    };
    assert_eq!(account().time_entries_today(User { id: 9 }, &send), Ok(vec![]));
    let asked = asked.borrow();
    assert_eq!(asked.len(), 1);
    let rest = asked[0]
        .strip_prefix("https://api.harvestapp.com/v2/time_entries?user_id=9&from=")
        .unwrap();
    let (from, to) = rest.split_once("&to=").unwrap();
    assert_eq!(from, to);
    assert!(!from.is_empty());
}

#[test]
fn today_is_written_as_a_calendar_date() {
    let asked = RefCell::new(Vec::new());
    let send = |request: &Request| {
        asked.borrow_mut().push(request.url.clone());
        Ok(page_of("time_entries", vec![], 1, 1))
    };
    let before = chrono::Local::now().format("%Y-%m-%d").to_string();
    account().time_entries_today(User { id: 9 }, &send).unwrap();
    let after = chrono::Local::now().format("%Y-%m-%d").to_string();
    let asked = asked.borrow();
    let date = asked[0].rsplit("&to=").next().unwrap();
    assert!(is_iso_date(date));
    assert!(date == before || date == after);
}

#[test]
fn time_entries_of_a_day_come_from_the_first_page_alone() {
    let asked = RefCell::new(Vec::new());
    let send = |request: &Request| {
        asked.borrow_mut().push(request.url.clone());
        Ok(page_of(
            "time_entries",
            vec![time_entry(1, false).encode(), time_entry(2, true).encode()],
            1,
            5,
        ))
    };
    let found = account().time_entries_on(User { id: 9 }, "2024-05-06", &send).unwrap();
    assert_eq!(found, vec![time_entry(1, false), time_entry(2, true)]);
    assert_eq!(
        *asked.borrow(),
        vec![String::from(
            "https://api.harvestapp.com/v2/time_entries?user_id=9&from=2024-05-06&to=2024-05-06"
        )]
    );
}

#[test]
fn current_user_is_read_from_one_answer() {
    let asked = RefCell::new(Vec::new());
    let send = |request: &Request| {
        asked.borrow_mut().push((request.method, request.url.clone()));
        Ok(body(User { id: 1782959 }.encode()))
    };
    assert_eq!(account().current_user(&send), Ok(User { id: 1782959 }));
    assert_eq!(
        *asked.borrow(),
        vec![(Method::Get, String::from("https://api.harvestapp.com/v2/users/me"))]
    );
    let fail = |_: &Request| Err(Error::Transport);
    assert_eq!(account().current_user(&fail), Err(Error::Transport));
    let other = |_: &Request| Ok(String::from("\"me\""));
    assert_eq!(account().current_user(&other), Err(Error::Decode));
}

#[test]
fn task_assignments_come_from_the_first_page_alone() {
    let asked = RefCell::new(Vec::new());
    let one = TaskAssignment {
        id: 1,
        project: project(14307913),
        task: Task { id: 2, name: String::from("T") },
    };
    let send = |request: &Request| {
        asked.borrow_mut().push(request.url.clone());
        Ok(page_of("task_assignments", vec![one.encode()], 1, 4))
    };
    let found = account().project_task_assignments(&project(14307913), &send).unwrap();
    assert_eq!(found, vec![one.clone()]);
    assert_eq!(
        *asked.borrow(),
        vec![String::from(
            "https://api.harvestapp.com/v2/projects/14307913/task_assignments?is_active=true"
        )]
    );
}

#[test]
fn start_timer_leaves_out_empty_notes_and_zero_hours() {
    let sent = RefCell::new(Vec::new());
    let send = |request: &Request| {
        let Some(Json::Record(members)) = &request.body else {
            panic!("a timer is sent");
        };
        sent.borrow_mut().push((
            request.method,
            request.url.clone(),
            members.iter().map(|m| m.name.clone()).collect::<Vec<String>>(),
        ));
        Ok(body(time_entry(77, true).encode()))
    };
    let task = Task { id: 22, name: String::from("Design") };
    let made = account().start_timer(&project(11), &task, "", Number::Real(0.0f64.to_bits()), &send);
    assert_eq!(made, Ok(time_entry(77, true)));
    assert_eq!(
        *sent.borrow(),
        vec![(
            Method::Post,
            String::from("https://api.harvestapp.com/v2/time_entries"),
            vec![String::from("project_id"), String::from("task_id"), String::from("spent_date")],
        )]
    );
}

#[test]
fn start_timer_sends_notes_and_hours_as_given() {
    let sent = RefCell::new(Vec::new());
    let send = |request: &Request| {
        sent.borrow_mut().push(request.body.is_some());
        assert_eq!(
            request.body,
            Some(Json::Record(vec![
                entry("project_id", whole_number(11)),
                entry("task_id", whole_number(22)),
                entry("spent_date", text("2024-05-06")),
                entry("notes", text("standup")),
                entry("hours", Json::Number(Number::Real(1.25f64.to_bits()))),
            ]))
        );
        Ok(body(time_entry(77, true).encode()))
    };
    let task = Task { id: 22, name: String::from("Design") };
    let made = account().start_timer_on(
        &project(11),
        &task,
        String::from("2024-05-06"),
        "standup",
        Number::Real(1.25f64.to_bits()),
        &send,
    );
    assert_eq!(made, Ok(time_entry(77, true)));
    assert_eq!(*sent.borrow(), vec![true]);
}

#[test]
fn start_timer_dates_the_timer_today() {
    let send = |request: &Request| {
        let Some(Json::Record(members)) = &request.body else {
            panic!("a timer is sent");
        };
        match &members[2].value {
            Json::Text(date) => assert!(is_iso_date(date)),
            _ => panic!("the date is a text"),
        }
        Ok(body(time_entry(77, true).encode()))
    };
    let task = Task { id: 22, name: String::from("Design") };
    assert!(account().start_timer(&project(11), &task, "n", Number::Whole(1), &send).is_ok());
}

#[test]
fn restart_then_stop_ask_for_restart_then_stop() {
    let asked = RefCell::new(Vec::new());
    let send = |request: &Request| {
        asked.borrow_mut().push((request.method, request.url.clone(), request.body.is_none()));
        Ok(body(time_entry(636709355, request.url.ends_with("/restart")).encode()))
    };
    let h = account();
    let stopped = time_entry(636709355, false);
    let running = h.restart_timer(&stopped, &send).unwrap();
    assert!(running.is_running);
    let again = h.stop_timer(&running, &send).unwrap();
    assert!(!again.is_running);
    assert_eq!(
        *asked.borrow(),
        vec![
            (
                Method::Patch,
                String::from("https://api.harvestapp.com/v2/time_entries/636709355/restart"),
                true
            ),
            (
                Method::Patch,
                String::from("https://api.harvestapp.com/v2/time_entries/636709355/stop"),
                true
            ),
        ]
    );
}

#[test]
fn timer_requests_do_not_look_at_the_state_of_the_entry() {
    let asked = RefCell::new(Vec::new());
    let send = |request: &Request| {
        asked.borrow_mut().push(request.url.clone());
        Ok(body(time_entry(5, true).encode()))
    };
    let h = account();
    assert!(h.restart_timer(&time_entry(5, true), &send).is_ok());
    assert!(h.stop_timer(&time_entry(5, false), &send).is_ok());
    assert_eq!(
        *asked.borrow(),
        vec![
            String::from("https://api.harvestapp.com/v2/time_entries/5/restart"),
            String::from("https://api.harvestapp.com/v2/time_entries/5/stop"),
        ]
    );
}

#[test]
fn timer_operations_pass_failures_on() {
    let h = account();
    let fail = |_: &Request| Err(Error::Transport);
    let other = |_: &Request| Ok(String::from("null"));
    let task = Task { id: 22, name: String::from("Design") };
    assert_eq!(h.restart_timer(&time_entry(5, false), &fail), Err(Error::Transport));
    assert_eq!(h.stop_timer(&time_entry(5, true), &fail), Err(Error::Transport));
    assert_eq!(h.restart_timer(&time_entry(5, false), &other), Err(Error::Decode));
    assert_eq!(h.stop_timer(&time_entry(5, true), &other), Err(Error::Decode));
    assert_eq!(
        h.start_timer(&project(1), &task, "", Number::Whole(0), &fail),
        Err(Error::Transport)
    );
    assert_eq!(h.start_timer(&project(1), &task, "", Number::Whole(0), &other), Err(Error::Decode));
}

#[test]
fn receive_reads_one_resource() {
    assert_eq!(receive::<User>(Ok(body(User { id: 3 }.encode()))), Ok(User { id: 3 }));
    assert_eq!(receive::<User>(Ok(String::from("null"))), Err(Error::Decode));
    assert_eq!(receive::<User>(Err(Error::Transport)), Err(Error::Transport));
    assert_eq!(receive::<User>(Err(Error::Decode)), Err(Error::Decode));
    assert_eq!(receive::<User>(Ok(String::from("{\"id\": 3"))), Err(Error::Decode));
    assert_eq!(receive::<User>(Ok(String::new())), Err(Error::Decode));
    assert_eq!(receive::<User>(Ok(String::from("{\"id\": 3, \"x\": []}"))), Ok(User { id: 3 }));
}

#[test]
fn receive_items_reads_the_items_of_one_page() {
    let found = receive_items::<ProjectAssignmentPage>(Ok(assignments(&[4, 2], 1, 9))).unwrap();
    assert_eq!(
        found,
        vec![
            ProjectAssignment { id: 1004, project: project(4) },
            ProjectAssignment { id: 1002, project: project(2) },
        ]
    );
    assert_eq!(receive_items::<TimeEntryPage>(Ok(page_of("time_entries", vec![], 1, 1))), Ok(vec![]));
    assert_eq!(
        receive_items::<TaskAssignmentPage>(Ok(page_of("time_entries", vec![], 1, 1))),
        Err(Error::Decode)
    );
    assert_eq!(receive_items::<ProjectPage>(Err(Error::Transport)), Err(Error::Transport));
}

#[test]
fn a_page_gives_its_count_and_its_items() {
    let page = ProjectPage {
        projects: vec![project(1), project(2)],
        per_page: 2,
        total_pages: 8,
        total_entries: 16,
        page: 1,
    };
    assert_eq!(page.total_pages(), 8);
    assert_eq!(page.into_items(), vec![project(1), project(2)]);
}

#[test]
fn the_last_page_is_the_one_that_equals_the_count() {
    assert!(is_last_page(1, 1));
    assert!(is_last_page(7, 7));
    assert!(!is_last_page(1, 2));
    assert!(!is_last_page(2, 1));
    assert!(!is_last_page(1, 0));
    assert!(is_last_page(u32::MAX, 3));
    assert!(is_last_page(u32::MAX, u32::MAX));
    assert!(!is_last_page(u32::MAX - 1, u32::MAX));
}
