//! The resources of the service as plain values, each with the model that the
//! contracts speak of and the condition under which it is well formed.

use crate::json::Number;
use vstd::prelude::*;
use vstd::string::*;

verus! {

/// A quantity of hours.
pub type Hours = Number;

/// Whether `c` is one of the ten decimal digits.
pub open spec fn is_digit(c: char) -> bool {
    '0' <= c && c <= '9'
}

/// Whether `s` is a calendar date written as four digits, a hyphen, two
/// digits, a hyphen and two digits.
pub open spec fn iso_date(s: Seq<char>) -> bool {
    &&& s.len() == 10
    &&& is_digit(s[0])
    &&& is_digit(s[1])
    &&& is_digit(s[2])
    &&& is_digit(s[3])
    &&& s[4] == '-'
    &&& is_digit(s[5])
    &&& is_digit(s[6])
    &&& s[7] == '-'
    &&& is_digit(s[8])
    &&& is_digit(s[9])
}

/// Whether the character at `at` is a digit.
fn digit_at(text: &str, at: usize) -> (b: bool)
    requires
        at < text@.len(),
    ensures
        b == is_digit(text@[at as int]),
{
    let c = text.get_char(at);
    '0' <= c && c <= '9'
}

/// Decides `iso_date`.
pub fn is_iso_date(text: &str) -> (b: bool)
    ensures
        b == iso_date(text@),
{
    if text.unicode_len() != 10 {
        return false;
    }
    digit_at(text, 0) && digit_at(text, 1) && digit_at(text, 2) && digit_at(text, 3)
        && text.get_char(4) == '-' && digit_at(text, 5) && digit_at(text, 6) && text.get_char(7)
        == '-' && digit_at(text, 8) && digit_at(text, 9)
}

/// A customer that projects are carried out for.
#[derive(Clone, Debug, PartialEq, Eq)]
pub struct Client {
    pub id: u32,
    pub name: String,
}

/// The model of a client.
pub struct ClientView {
    pub id: u32,
    pub name: Seq<char>,
}

impl View for Client {
    type V = ClientView;

    open spec fn view(&self) -> ClientView {
        ClientView { id: self.id, name: self.name@ }
    }
}

impl ClientView {
    /// A client has an identifier above zero.
    pub open spec fn well_formed(self) -> bool {
        self.id > 0
    }
}

impl Client {
    /// Decides `well_formed`.
    pub fn is_well_formed(&self) -> (b: bool)
        ensures
            b == self@.well_formed(),
    {
        self.id > 0
    }
}

/// A project. A project that has no client assigned holds `None`.
#[derive(Clone, Debug, PartialEq, Eq)]
pub struct Project {
    pub id: u32,
    pub name: String,
    pub client: Option<Client>,
}

/// The model of a project.
pub struct ProjectView {
    pub id: u32,
    pub name: Seq<char>,
    pub client: Option<ClientView>,
}

impl View for Project {
    type V = ProjectView;

    open spec fn view(&self) -> ProjectView {
        ProjectView {
            id: self.id,
            name: self.name@,
            client: match self.client {
                Some(client) => Some(client@),
                None => None,
            },
        }
    }
}

impl ProjectView {
    /// A project has an identifier above zero.
    pub open spec fn well_formed(self) -> bool {
        self.id > 0
    }
}

impl Project {
    /// Decides `well_formed`.
    pub fn is_well_formed(&self) -> (b: bool)
        ensures
            b == self@.well_formed(),
    {
        self.id > 0
    }
}

/// A kind of work that time is booked on.
#[derive(Clone, Debug, PartialEq, Eq)]
pub struct Task {
    pub id: u32,
    pub name: String,
}

/// The model of a task.
pub struct TaskView {
    pub id: u32,
    pub name: Seq<char>,
}

impl View for Task {
    type V = TaskView;

    open spec fn view(&self) -> TaskView {
        TaskView { id: self.id, name: self.name@ }
    }
}

impl TaskView {
    /// A task has an identifier above zero.
    pub open spec fn well_formed(self) -> bool {
        self.id > 0
    }
}

impl Task {
    /// Decides `well_formed`.
    pub fn is_well_formed(&self) -> (b: bool)
        ensures
            b == self@.well_formed(),
    {
        self.id > 0
    }
}

/// A user of the account. It is its own model.
#[derive(Clone, Copy, Debug, PartialEq, Eq)]
pub struct User {
    pub id: u32,
}

impl View for User {
    type V = User;

    open spec fn view(&self) -> User {
        *self
    }
}

impl User {
    /// A user has an identifier above zero.
    pub open spec fn well_formed(self) -> bool {
        self.id > 0
    }

    /// Decides `well_formed`.
    pub fn is_well_formed(&self) -> (b: bool)
        ensures
            b == self.well_formed(),
    {
        self.id > 0
    }
}

/// The assignment of a project to a user.
#[derive(Clone, Debug, PartialEq, Eq)]
pub struct ProjectAssignment {
    pub id: u32,
    pub project: Project,
}

/// The model of a project assignment.
pub struct ProjectAssignmentView {
    pub id: u32,
    pub project: ProjectView,
}

impl View for ProjectAssignment {
    type V = ProjectAssignmentView;

    open spec fn view(&self) -> ProjectAssignmentView {
        ProjectAssignmentView { id: self.id, project: self.project@ }
    }
}

impl ProjectAssignmentView {
    /// An assignment is as well formed as its project.
    pub open spec fn well_formed(self) -> bool {
        self.project.well_formed()
    }
}

impl ProjectAssignment {
    /// Decides `well_formed`.
    pub fn is_well_formed(&self) -> (b: bool)
        ensures
            b == self@.well_formed(),
    {
        self.project.is_well_formed()
    }
}

/// The assignment of a task to a project.
#[derive(Clone, Debug, PartialEq, Eq)]
pub struct TaskAssignment {
    pub id: u32,
    pub project: Project,
    pub task: Task,
}

/// The model of a task assignment.
pub struct TaskAssignmentView {
    pub id: u32,
    pub project: ProjectView,
    pub task: TaskView,
}

impl View for TaskAssignment {
    type V = TaskAssignmentView;

    open spec fn view(&self) -> TaskAssignmentView {
        TaskAssignmentView { id: self.id, project: self.project@, task: self.task@ }
    }
}

impl TaskAssignmentView {
    /// An assignment is as well formed as its project and its task.
    pub open spec fn well_formed(self) -> bool {
        self.project.well_formed() && self.task.well_formed()
    }
}

impl TaskAssignment {
    /// Decides `well_formed`.
    pub fn is_well_formed(&self) -> (b: bool)
        ensures
            b == self@.well_formed(),
    {
        self.project.is_well_formed() && self.task.is_well_formed()
    }
}

/// Time booked by a user on a task of a project, with the state of its timer.
#[derive(Clone, Debug, PartialEq, Eq)]
pub struct TimeEntry {
    pub id: u32,
    pub project: Project,
    pub client: Client,
    pub hours: Hours,
    pub user: User,
    pub spent_date: String,
    pub task: Task,
    pub notes: Option<String>,
    pub is_running: bool,
}

/// The model of a time entry.
pub struct TimeEntryView {
    pub id: u32,
    pub project: ProjectView,
    pub client: ClientView,
    pub hours: Hours,
    pub user: User,
    pub spent_date: Seq<char>,
    pub task: TaskView,
    pub notes: Option<Seq<char>>,
    pub is_running: bool,
}

impl View for TimeEntry {
    type V = TimeEntryView;

    open spec fn view(&self) -> TimeEntryView {
        TimeEntryView {
            id: self.id,
            project: self.project@,
            client: self.client@,
            hours: self.hours,
            user: self.user,
            spent_date: self.spent_date@,
            task: self.task@,
            notes: match self.notes {
                Some(notes) => Some(notes@),
                None => None,
            },
            is_running: self.is_running,
        }
    }
}

impl TimeEntryView {
    /// A time entry has hours from zero up and a calendar date.
    pub open spec fn well_formed(self) -> bool {
        self.hours.non_negative() && iso_date(self.spent_date)
    }
}

impl TimeEntry {
    /// Decides `well_formed`.
    pub fn is_well_formed(&self) -> (b: bool)
        ensures
            b == self@.well_formed(),
    {
        self.hours.is_non_negative() && is_iso_date(self.spent_date.as_str())
    }
}

/// What is sent to start a timer: a time entry in part, with identifiers in
/// place of the project and the task.
#[derive(Clone, Debug, PartialEq, Eq)]
pub struct Timer {
    pub project_id: u32,
    pub task_id: u32,
    pub spent_date: String,
    pub notes: Option<String>,
    pub hours: Option<Hours>,
}

/// The model of a timer.
pub struct TimerView {
    pub project_id: u32,
    pub task_id: u32,
    pub spent_date: Seq<char>,
    pub notes: Option<Seq<char>>,
    pub hours: Option<Hours>,
}

impl View for Timer {
    type V = TimerView;

    open spec fn view(&self) -> TimerView {
        TimerView {
            project_id: self.project_id,
            task_id: self.task_id,
            spent_date: self.spent_date@,
            notes: match self.notes {
                Some(notes) => Some(notes@),
                None => None,
            },
            hours: self.hours,
        }
    }
}

/// The models of the items of a sequence, in order.
pub open spec fn views<T: View>(items: Seq<T>) -> Seq<T::V> {
    items.map_values(|item: T| item@)
}

/// One batch of a listing, as every kind of page is modelled.
pub struct PageView<V> {
    pub items: Seq<V>,
    pub per_page: u32,
    pub total_pages: u32,
    pub total_entries: u32,
    pub page: u32,
}

impl<V> PageView<V> {
    /// A page has a number within the number of pages, and holds no more
    /// items than a page may.
    pub open spec fn well_formed(self) -> bool {
        self.page <= self.total_pages && self.items.len() <= self.per_page
    }
}

/// A page of projects.
#[derive(Clone, Debug, PartialEq, Eq)]
pub struct ProjectPage {
    pub projects: Vec<Project>,
    pub per_page: u32,
    pub total_pages: u32,
    pub total_entries: u32,
    pub page: u32,
}

impl View for ProjectPage {
    type V = PageView<ProjectView>;

    open spec fn view(&self) -> PageView<ProjectView> {
        PageView {
            items: views(self.projects@),
            per_page: self.per_page,
            total_pages: self.total_pages,
            total_entries: self.total_entries,
            page: self.page,
        }
    }
}

impl ProjectPage {
    /// Decides `well_formed`.
    pub fn is_well_formed(&self) -> (b: bool)
        ensures
            b == self@.well_formed(),
    {
        self.page <= self.total_pages && self.projects.len() <= self.per_page as usize
    }
}

/// A page of project assignments.
#[derive(Clone, Debug, PartialEq, Eq)]
pub struct ProjectAssignmentPage {
    pub project_assignments: Vec<ProjectAssignment>,
    pub per_page: u32,
    pub total_pages: u32,
    pub total_entries: u32,
    pub page: u32,
}

impl View for ProjectAssignmentPage {
    type V = PageView<ProjectAssignmentView>;

    open spec fn view(&self) -> PageView<ProjectAssignmentView> {
        PageView {
            items: views(self.project_assignments@),
            per_page: self.per_page,
            total_pages: self.total_pages,
            total_entries: self.total_entries,
            page: self.page,
        }
    }
}

impl ProjectAssignmentPage {
    /// Decides `well_formed`.
    pub fn is_well_formed(&self) -> (b: bool)
        ensures
            b == self@.well_formed(),
    {
        self.page <= self.total_pages && self.project_assignments.len() <= self.per_page as usize
    }
}

/// A page of time entries.
#[derive(Clone, Debug, PartialEq, Eq)]
pub struct TimeEntryPage {
    pub time_entries: Vec<TimeEntry>,
    pub per_page: u32,
    pub total_pages: u32,
    pub total_entries: u32,
    pub page: u32,
}

impl View for TimeEntryPage {
    type V = PageView<TimeEntryView>;

    open spec fn view(&self) -> PageView<TimeEntryView> {
        PageView {
            items: views(self.time_entries@),
            per_page: self.per_page,
            total_pages: self.total_pages,
            total_entries: self.total_entries,
            page: self.page,
        }
    }
}

impl TimeEntryPage {
    /// Decides `well_formed`.
    pub fn is_well_formed(&self) -> (b: bool)
        ensures
            b == self@.well_formed(),
    {
        self.page <= self.total_pages && self.time_entries.len() <= self.per_page as usize
    }
}

/// A page of task assignments.
#[derive(Clone, Debug, PartialEq, Eq)]
pub struct TaskAssignmentPage {
    pub task_assignments: Vec<TaskAssignment>,
    pub per_page: u32,
    pub total_pages: u32,
    pub total_entries: u32,
    pub page: u32,
}

impl View for TaskAssignmentPage {
    type V = PageView<TaskAssignmentView>;

    open spec fn view(&self) -> PageView<TaskAssignmentView> {
        PageView {
            items: views(self.task_assignments@),
            per_page: self.per_page,
            total_pages: self.total_pages,
            total_entries: self.total_entries,
            page: self.page,
        }
    }
}

impl TaskAssignmentPage {
    /// Decides `well_formed`.
    pub fn is_well_formed(&self) -> (b: bool)
        ensures
            b == self@.well_formed(),
    {
        self.page <= self.total_pages && self.task_assignments.len() <= self.per_page as usize
    }
}

} // verus!
