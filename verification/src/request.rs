//! The requests that the operations issue.
//!
//! A request is a plain value. Whoever sends it carries out what it says and
//! hands back what the service answered.

use crate::encode::timer_json;
use crate::json::{Json, JsonValue};
use crate::model::{Project, TimeEntry, Timer, User};
use crate::text::{decimal, push_decimal};
use vstd::prelude::*;
use vstd::string::*;

verus! {

/// The method of a request.
#[derive(Clone, Copy, Debug, PartialEq, Eq, Structural)]
pub enum Method {
    Get,
    Post,
    Patch,
}

/// One header line of a request.
#[derive(Clone, Debug, PartialEq, Eq)]
pub struct Header {
    pub name: String,
    pub value: String,
}

/// One request to the service. A body, where there is one, is to be sent as
/// JSON and announced as such.
#[derive(Debug, PartialEq, Eq)]
pub struct Request {
    pub method: Method,
    pub url: String,
    pub headers: Vec<Header>,
    pub body: Option<Json>,
}

/// The model of a request.
pub struct RequestView {
    pub method: Method,
    pub url: Seq<char>,
    pub headers: Seq<(Seq<char>, Seq<char>)>,
    pub body: Option<JsonValue>,
}

impl View for Header {
    type V = (Seq<char>, Seq<char>);

    open spec fn view(&self) -> (Seq<char>, Seq<char>) {
        (self.name@, self.value@)
    }
}

impl View for Request {
    type V = RequestView;

    open spec fn view(&self) -> RequestView {
        RequestView {
            method: self.method,
            url: self.url@,
            headers: self.headers@.map_values(|h: Header| h@),
            body: match self.body {
                Some(doc) => Some(doc@),
                None => None,
            },
        }
    }
}

/// The credentials of an account, and with them the means to address it.
#[derive(Clone, Debug, PartialEq, Eq)]
pub struct Harvest {
    token: String,
    account_id: u32,
}

/// The model of the credentials.
pub struct HarvestView {
    pub token: Seq<char>,
    pub account_id: u32,
}

impl View for Harvest {
    type V = HarvestView;

    closed spec fn view(&self) -> HarvestView {
        HarvestView { token: self.token@, account_id: self.account_id }
    }
}

/// The three headers that every request carries: the bearer token, the
/// account and the name of this client.
pub open spec fn headers_of(h: HarvestView) -> Seq<(Seq<char>, Seq<char>)> {
    seq![
        ("Authorization"@, "Bearer "@ + h.token),
        ("Harvest-Account-Id"@, decimal(h.account_id as nat)),
        ("User-Agent"@, "Harvest Linux"@),
    ]
}

/// A listing that the service hands out page by page, as an address that
/// lacks only the number of the page.
#[derive(Clone, Copy, Debug, PartialEq, Eq)]
pub enum Listing {
    /// The active projects of the account.
    Projects,
    /// The projects assigned to a user.
    ProjectAssignments(User),
}

/// The address of page `page` of a listing. Pages are counted from one.
pub open spec fn listing_url(listing: Listing, page: u32) -> Seq<char> {
    match listing {
        Listing::Projects => "https://api.harvestapp.com/v2/projects?is_active=true&page="@
            + decimal(page as nat),
        Listing::ProjectAssignments(user) => "https://api.harvestapp.com/v2/users/"@ + decimal(
            user.id as nat,
        ) + "/project_assignments?page="@ + decimal(page as nat),
    }
}

/// The address of the time entries of a user on one day.
pub open spec fn time_entries_url(user_id: u32, date: Seq<char>) -> Seq<char> {
    "https://api.harvestapp.com/v2/time_entries?user_id="@ + decimal(user_id as nat) + "&from="@
        + date + "&to="@ + date
}

/// The address of the user that the token belongs to.
pub open spec fn current_user_url() -> Seq<char> {
    "https://api.harvestapp.com/v2/users/me"@
}

/// The address of the active task assignments of a project.
pub open spec fn task_assignments_url(project_id: u32) -> Seq<char> {
    "https://api.harvestapp.com/v2/projects/"@ + decimal(project_id as nat)
        + "/task_assignments?is_active=true"@
}

/// The address that new time entries are sent to.
pub open spec fn new_time_entry_url() -> Seq<char> {
    "https://api.harvestapp.com/v2/time_entries"@
}

/// The address that restarts the timer of a time entry.
pub open spec fn restart_url(id: u32) -> Seq<char> {
    "https://api.harvestapp.com/v2/time_entries/"@ + decimal(id as nat) + "/restart"@
}

/// The address that stops the timer of a time entry.
pub open spec fn stop_url(id: u32) -> Seq<char> {
    "https://api.harvestapp.com/v2/time_entries/"@ + decimal(id as nat) + "/stop"@
}

/// The request that `h` issues with the given method, address and body.
pub open spec fn request_of(
    h: HarvestView,
    method: Method,
    url: Seq<char>,
    body: Option<JsonValue>,
) -> RequestView {
    RequestView { method, url, headers: headers_of(h), body }
}

/// A header line.
fn header(name: &str, value: String) -> (h: Header)
    ensures
        h@ == (name@, value@),
{
    Header { name: name.to_owned(), value }
}

impl Harvest {
    /// The client of the account `account_id` that signs with `token`.
    pub fn new(token: String, account_id: u32) -> (h: Harvest)
        ensures
            h@ == (HarvestView { token: token@, account_id }),
    {
        Harvest { token, account_id }
    }

    /// The token that requests are signed with.
    pub fn token(&self) -> (t: &str)
        ensures
            t@ == self@.token,
    {
        self.token.as_str()
    }

    /// The account that requests are made for.
    pub fn account_id(&self) -> (id: u32)
        ensures
            id == self@.account_id,
    {
        self.account_id
    }

    /// The request with the given method, address and body, and with the
    /// headers of this account.
    pub fn request(&self, method: Method, url: String, body: Option<Json>) -> (r: Request)
        ensures
            r@ == request_of(
                self@,
                method,
                url@,
                match body {
                    Some(doc) => Some(doc@),
                    None => None,
                },
            ),
    {
        let mut bearer = "Bearer ".to_owned();
        bearer.append(self.token.as_str());
        let mut account = String::new();
        push_decimal(&mut account, self.account_id);
        let mut headers: Vec<Header> = Vec::new();
        headers.push(header("Authorization", bearer));
        headers.push(header("Harvest-Account-Id", account));
        headers.push(header("User-Agent", "Harvest Linux".to_owned()));
        let r = Request { method, url, headers, body };
        assert(r@.headers =~= headers_of(self@));
        r
    }

    /// A request without a body, read from the service.
    pub fn get(&self, url: String) -> (r: Request)
        ensures
            r@ == request_of(self@, Method::Get, url@, None),
    {
        self.request(Method::Get, url, None)
    }

    /// A request that hands a document to the service.
    pub fn post(&self, url: String, body: Json) -> (r: Request)
        ensures
            r@ == request_of(self@, Method::Post, url@, Some(body@)),
    {
        self.request(Method::Post, url, Some(body))
    }

    /// A request without a body that changes a resource of the service.
    pub fn patch(&self, url: String) -> (r: Request)
        ensures
            r@ == request_of(self@, Method::Patch, url@, None),
    {
        self.request(Method::Patch, url, None)
    }
}

impl Harvest {
    /// The request for page `page` of a listing.
    pub fn page_request(&self, listing: &Listing, page: u32) -> (r: Request)
        ensures
            r@ == request_of(self@, Method::Get, listing_url(*listing, page), None),
    {
        let url = match listing {
            Listing::Projects => {
                let mut url = "https://api.harvestapp.com/v2/projects?is_active=true&page=".to_owned();
                push_decimal(&mut url, page);
                url
            },
            Listing::ProjectAssignments(user) => {
                let mut url = "https://api.harvestapp.com/v2/users/".to_owned();
                push_decimal(&mut url, user.id);
                url.append("/project_assignments?page=");
                push_decimal(&mut url, page);
                url
            },
        };
        self.get(url)
    }

    /// The request for the time entries that `user` booked on the day `date`.
    pub fn time_entries_request(&self, user: &User, date: &str) -> (r: Request)
        ensures
            r@ == request_of(self@, Method::Get, time_entries_url(user.id, date@), None),
    {
        let mut url = "https://api.harvestapp.com/v2/time_entries?user_id=".to_owned();
        push_decimal(&mut url, user.id);
        url.append("&from=");
        url.append(date);
        url.append("&to=");
        url.append(date);
        self.get(url)
    }

    /// The request for the user that the token belongs to.
    pub fn current_user_request(&self) -> (r: Request)
        ensures
            r@ == request_of(self@, Method::Get, current_user_url(), None),
    {
        self.get("https://api.harvestapp.com/v2/users/me".to_owned())
    }

    /// The request for the active task assignments of `project`.
    pub fn task_assignments_request(&self, project: &Project) -> (r: Request)
        ensures
            r@ == request_of(self@, Method::Get, task_assignments_url(project.id), None),
    {
        let mut url = "https://api.harvestapp.com/v2/projects/".to_owned();
        push_decimal(&mut url, project.id);
        url.append("/task_assignments?is_active=true");
        self.get(url)
    }

    /// The request that creates a time entry from `timer` and starts its
    /// timer.
    pub fn start_timer_request(&self, timer: &Timer) -> (r: Request)
        ensures
            r@ == request_of(
                self@,
                Method::Post,
                new_time_entry_url(),
                Some(timer_json(timer@)),
            ),
    {
        self.post("https://api.harvestapp.com/v2/time_entries".to_owned(), timer.encode())
    }

    /// The request that restarts the timer of `time_entry`.
    pub fn restart_timer_request(&self, time_entry: &TimeEntry) -> (r: Request)
        ensures
            r@ == request_of(self@, Method::Patch, restart_url(time_entry.id), None),
    {
        let mut url = "https://api.harvestapp.com/v2/time_entries/".to_owned();
        push_decimal(&mut url, time_entry.id);
        url.append("/restart");
        self.patch(url)
    }

    /// The request that stops the timer of `time_entry`.
    pub fn stop_timer_request(&self, time_entry: &TimeEntry) -> (r: Request)
        ensures
            r@ == request_of(self@, Method::Patch, stop_url(time_entry.id), None),
    {
        let mut url = "https://api.harvestapp.com/v2/time_entries/".to_owned();
        push_decimal(&mut url, time_entry.id);
        url.append("/stop");
        self.patch(url)
    }
}

} // verus!
