//! Reading resources from documents.
//!
//! A resource is read from a record. Members that the resource does not know
//! are passed over; a member that it needs and that is absent, repeated or of
//! another shape makes the whole document unreadable.

use crate::json::{
    find, lemma_list_view, list_view, optional, record_view, required, Found, Json, JsonValue,
    Member, Number,
};
use crate::model::{
    views, Client, ClientView, PageView, Project, ProjectAssignment, ProjectAssignmentPage,
    ProjectAssignmentView, ProjectPage, ProjectView, Task, TaskAssignment, TaskAssignmentPage,
    TaskAssignmentView, TaskView, TimeEntry, TimeEntryPage, TimeEntryView, User,
};
use vstd::prelude::*;

verus! {

/// A document does not have the shape of the resource asked for.
#[derive(Clone, Copy, Debug, PartialEq, Eq)]
pub struct DecodeError;

/// What reading has to return: the resource whose model is `want`, and an
/// error where there is none.
pub open spec fn decoded<T: View>(r: Result<T, DecodeError>, want: Option<T::V>) -> bool {
    match want {
        Some(model) => r matches Ok(value) && value@ == model,
        None => r is Err,
    }
}

/// A whole number that fits in 32 bits.
pub open spec fn u32_of(v: JsonValue) -> Option<u32> {
    match v {
        JsonValue::Number(Number::Whole(n)) => if n <= u32::MAX {
            Some(n as u32)
        } else {
            None
        },
        _ => None,
    }
}

/// A number of any kind.
pub open spec fn number_of(v: JsonValue) -> Option<Number> {
    match v {
        JsonValue::Number(n) => Some(n),
        _ => None,
    }
}

/// A text.
pub open spec fn text_of(v: JsonValue) -> Option<Seq<char>> {
    match v {
        JsonValue::Text(s) => Some(s),
        _ => None,
    }
}

/// A truth value.
pub open spec fn flag_of(v: JsonValue) -> Option<bool> {
    match v {
        JsonValue::Bool(b) => Some(b),
        _ => None,
    }
}

/// The required member `name` as a whole number of 32 bits.
pub open spec fn required_u32_at(fields: Seq<(Seq<char>, JsonValue)>, name: Seq<char>) -> Option<
    u32,
> {
    match required(fields, name) {
        Some(v) => u32_of(v),
        None => None,
    }
}

/// The required member `name` as a number.
pub open spec fn required_number_at(fields: Seq<(Seq<char>, JsonValue)>, name: Seq<char>) -> Option<
    Number,
> {
    match required(fields, name) {
        Some(v) => number_of(v),
        None => None,
    }
}

/// The required member `name` as a text.
pub open spec fn required_text_at(fields: Seq<(Seq<char>, JsonValue)>, name: Seq<char>) -> Option<
    Seq<char>,
> {
    match required(fields, name) {
        Some(v) => text_of(v),
        None => None,
    }
}

/// The required member `name` as a truth value.
pub open spec fn required_flag_at(fields: Seq<(Seq<char>, JsonValue)>, name: Seq<char>) -> Option<
    bool,
> {
    match required(fields, name) {
        Some(v) => flag_of(v),
        None => None,
    }
}

/// The member `name` that may be left out, as a text where it is there.
pub open spec fn optional_text_at(fields: Seq<(Seq<char>, JsonValue)>, name: Seq<char>) -> Option<
    Option<Seq<char>>,
> {
    match optional(fields, name) {
        Some(Some(v)) => match text_of(v) {
            Some(text) => Some(Some(text)),
            None => None,
        },
        Some(None) => Some(None),
        None => None,
    }
}

/// The required member `name`.
pub fn member<'a>(members: &'a Vec<Member>, name: &str) -> (r: Result<&'a Json, DecodeError>)
    ensures
        match required(record_view(members@), name@) {
            Some(v) => r matches Ok(value) && value@ == v,
            None => r is Err,
        },
{
    match find(members, name) {
        Found::One(value) => Ok(value),
        _ => Err(DecodeError),
    }
}

/// The member `name` that may be left out.
pub fn optional_member<'a>(members: &'a Vec<Member>, name: &str) -> (r: Result<
    Option<&'a Json>,
    DecodeError,
>)
    ensures
        match optional(record_view(members@), name@) {
            Some(Some(v)) => r matches Ok(Some(value)) && value@ == v,
            Some(None) => r matches Ok(None),
            None => r is Err,
        },
{
    match find(members, name) {
        Found::Missing => Ok(None),
        Found::One(value) => match value {
            Json::Null => Ok(None),
            _ => Ok(Some(value)),
        },
        Found::Repeated => Err(DecodeError),
    }
}

/// Reads a whole number that fits in 32 bits.
pub fn read_u32(doc: &Json) -> (r: Result<u32, DecodeError>)
    ensures
        match u32_of(doc@) {
            Some(n) => r == Ok::<u32, DecodeError>(n),
            None => r is Err,
        },
{
    match doc {
        Json::Number(Number::Whole(n)) => if *n <= u32::MAX as u64 {
            Ok(*n as u32)
        } else {
            Err(DecodeError)
        },
        _ => Err(DecodeError),
    }
}

/// Reads a number of any kind.
pub fn read_number(doc: &Json) -> (r: Result<Number, DecodeError>)
    ensures
        match number_of(doc@) {
            Some(n) => r == Ok::<Number, DecodeError>(n),
            None => r is Err,
        },
{
    match doc {
        Json::Number(n) => Ok(*n),
        _ => Err(DecodeError),
    }
}

/// Reads a text.
pub fn read_text(doc: &Json) -> (r: Result<String, DecodeError>)
    ensures
        match text_of(doc@) {
            Some(s) => r matches Ok(text) && text@ == s,
            None => r is Err,
        },
{
    match doc {
        Json::Text(s) => Ok(s.clone()),
        _ => Err(DecodeError),
    }
}

/// Reads a truth value.
pub fn read_flag(doc: &Json) -> (r: Result<bool, DecodeError>)
    ensures
        match flag_of(doc@) {
            Some(b) => r == Ok::<bool, DecodeError>(b),
            None => r is Err,
        },
{
    match doc {
        Json::Bool(b) => Ok(*b),
        _ => Err(DecodeError),
    }
}

/// A resource that can be read from a document.
pub trait Resource: View + Sized {
    /// The model of the resource that the document `v` holds, if it holds one.
    spec fn of_json(v: JsonValue) -> Option<Self::V>;

    /// Reads the resource from `doc`.
    fn decode(doc: &Json) -> (r: Result<Self, DecodeError>)
        ensures
            decoded(r, Self::of_json(doc@)),
    ;
}

/// The required member `name` as a resource.
pub open spec fn required_at<T: Resource>(fields: Seq<(Seq<char>, JsonValue)>, name: Seq<char>) -> Option<
    T::V,
> {
    match required(fields, name) {
        Some(v) => T::of_json(v),
        None => None,
    }
}

/// The member `name` that may be left out, as a resource where it is there.
pub open spec fn optional_at<T: Resource>(fields: Seq<(Seq<char>, JsonValue)>, name: Seq<char>) -> Option<
    Option<T::V>,
> {
    match optional(fields, name) {
        Some(Some(v)) => match T::of_json(v) {
            Some(model) => Some(Some(model)),
            None => None,
        },
        Some(None) => Some(None),
        None => None,
    }
}

/// Reads the required member `name` as a resource.
pub fn required_resource<T: Resource>(members: &Vec<Member>, name: &str) -> (r: Result<
    T,
    DecodeError,
>)
    ensures
        decoded(r, required_at::<T>(record_view(members@), name@)),
{
    T::decode(member(members, name)?)
}

/// Reads the required member `name` as a whole number of 32 bits.
pub fn required_u32(members: &Vec<Member>, name: &str) -> (r: Result<u32, DecodeError>)
    ensures
        match required_u32_at(record_view(members@), name@) {
            Some(n) => r == Ok::<u32, DecodeError>(n),
            None => r is Err,
        },
{
    read_u32(member(members, name)?)
}

/// Reads the required member `name` as a text.
pub fn required_text(members: &Vec<Member>, name: &str) -> (r: Result<String, DecodeError>)
    ensures
        match required_text_at(record_view(members@), name@) {
            Some(s) => r matches Ok(text) && text@ == s,
            None => r is Err,
        },
{
    read_text(member(members, name)?)
}

/// The models of the resources that the documents of `items` hold, if each
/// of them holds one.
pub open spec fn each_of<T: Resource>(items: Seq<JsonValue>) -> Option<Seq<T::V>> {
    if forall|i: int| 0 <= i < items.len() ==> (#[trigger] T::of_json(items[i])) is Some {
        Some(items.map_values(|v: JsonValue| T::of_json(v)->0))
    } else {
        None
    }
}

/// A list whose every item holds a resource, in the order of the list.
pub open spec fn list_of<T: Resource>(v: JsonValue) -> Option<Seq<T::V>> {
    match v {
        JsonValue::List(items) => each_of::<T>(items),
        _ => None,
    }
}

/// Reads a list of resources. One item that cannot be read fails the list.
pub fn decode_list<T: Resource>(doc: &Json) -> (r: Result<Vec<T>, DecodeError>)
    ensures
        match list_of::<T>(doc@) {
            Some(models) => r matches Ok(items) && views(items@) == models,
            None => r is Err,
        },
{
    match doc {
        Json::List(items) => {
            let mut out: Vec<T> = Vec::new();
            let mut i: usize = 0;
            proof {
                lemma_list_view(items@);
            }
            while i < items.len()
                invariant
                    i <= items.len(),
                    doc@ == JsonValue::List(list_view(items@)),
                    list_view(items@).len() == items@.len(),
                    out@.len() == i,
                    forall|k: int|
                        0 <= k < i ==> T::of_json(#[trigger] list_view(items@)[k]) == Some(
                            out@[k]@,
                        ),
                decreases items.len() - i,
            {
                proof {
                    lemma_list_view(items@);
                }
                match T::decode(&items[i]) {
                    Ok(item) => {
                        out.push(item);
                    },
                    Err(e) => {
                        assert(T::of_json(list_view(items@)[i as int]) is None);
                        return Err(e);
                    },
                }
                i += 1;
            }
            proof {
                let docs = list_view(items@);
                assert forall|k: int| 0 <= k < docs.len() implies (#[trigger] T::of_json(
                    docs[k],
                )) is Some by {
                    assert(T::of_json(docs[k]) == Some(out@[k]@));
                }
                let models = each_of::<T>(docs)->0;
                assert(views(out@) =~= models) by {
                    assert forall|k: int| 0 <= k < out@.len() implies views(out@)[k]
                        == models[k] by {
                        assert(T::of_json(docs[k]) == Some(out@[k]@));
                    }
                }
            }
            Ok(out)
        },
        _ => Err(DecodeError),
    }
}

/// A page whose items stand under the member `items_name`.
pub open spec fn page_of<T: Resource>(v: JsonValue, items_name: Seq<char>) -> Option<
    PageView<T::V>,
> {
    match v {
        JsonValue::Record(fields) => {
            let items = match required(fields, items_name) {
                Some(v) => list_of::<T>(v),
                None => None,
            };
            let per_page = required_u32_at(fields, "per_page"@);
            let total_pages = required_u32_at(fields, "total_pages"@);
            let total_entries = required_u32_at(fields, "total_entries"@);
            let page = required_u32_at(fields, "page"@);
            if items is Some && per_page is Some && total_pages is Some && total_entries is Some
                && page is Some {
                Some(
                    PageView {
                        items: items->0,
                        per_page: per_page->0,
                        total_pages: total_pages->0,
                        total_entries: total_entries->0,
                        page: page->0,
                    },
                )
            } else {
                None
            }
        },
        _ => None,
    }
}

/// A client: a record with an identifier and a name.
pub open spec fn client_of(v: JsonValue) -> Option<ClientView> {
    match v {
        JsonValue::Record(fields) => {
            let id = required_u32_at(fields, "id"@);
            let name = required_text_at(fields, "name"@);
            if id is Some && name is Some {
                Some(ClientView { id: id->0, name: name->0 })
            } else {
                None
            }
        },
        _ => None,
    }
}

impl Resource for Client {
    open spec fn of_json(v: JsonValue) -> Option<ClientView> {
        client_of(v)
    }

    fn decode(doc: &Json) -> (r: Result<Client, DecodeError>) {
        match doc {
            Json::Record(members) => {
                let id = required_u32(members, "id")?;
                let name = required_text(members, "name")?;
                Ok(Client { id, name })
            },
            _ => Err(DecodeError),
        }
    }
}

/// A task: a record with an identifier and a name.
pub open spec fn task_of(v: JsonValue) -> Option<TaskView> {
    match v {
        JsonValue::Record(fields) => {
            let id = required_u32_at(fields, "id"@);
            let name = required_text_at(fields, "name"@);
            if id is Some && name is Some {
                Some(TaskView { id: id->0, name: name->0 })
            } else {
                None
            }
        },
        _ => None,
    }
}

impl Resource for Task {
    open spec fn of_json(v: JsonValue) -> Option<TaskView> {
        task_of(v)
    }

    fn decode(doc: &Json) -> (r: Result<Task, DecodeError>) {
        match doc {
            Json::Record(members) => {
                let id = required_u32(members, "id")?;
                let name = required_text(members, "name")?;
                Ok(Task { id, name })
            },
            _ => Err(DecodeError),
        }
    }
}

/// A user: a record with an identifier.
pub open spec fn user_of(v: JsonValue) -> Option<User> {
    match v {
        JsonValue::Record(fields) => match required_u32_at(fields, "id"@) {
            Some(id) => Some(User { id }),
            None => None,
        },
        _ => None,
    }
}

impl Resource for User {
    open spec fn of_json(v: JsonValue) -> Option<User> {
        user_of(v)
    }

    fn decode(doc: &Json) -> (r: Result<User, DecodeError>) {
        match doc {
            Json::Record(members) => {
                let id = required_u32(members, "id")?;
                Ok(User { id })
            },
            _ => Err(DecodeError),
        }
    }
}

/// A project. Its client may be absent or null, and is then `None`.
pub open spec fn project_of(v: JsonValue) -> Option<ProjectView> {
    match v {
        JsonValue::Record(fields) => {
            let id = required_u32_at(fields, "id"@);
            let name = required_text_at(fields, "name"@);
            let client = optional_at::<Client>(fields, "client"@);
            if id is Some && name is Some && client is Some {
                Some(ProjectView { id: id->0, name: name->0, client: client->0 })
            } else {
                None
            }
        },
        _ => None,
    }
}

impl Resource for Project {
    open spec fn of_json(v: JsonValue) -> Option<ProjectView> {
        project_of(v)
    }

    fn decode(doc: &Json) -> (r: Result<Project, DecodeError>) {
        match doc {
            Json::Record(members) => {
                let id = required_u32(members, "id")?;
                let name = required_text(members, "name")?;
                let client = match optional_member(members, "client")? {
                    Some(value) => Some(Client::decode(value)?),
                    None => None,
                };
                Ok(Project { id, name, client })
            },
            _ => Err(DecodeError),
        }
    }
}

/// A project assignment: a record with an identifier and a project.
pub open spec fn project_assignment_of(v: JsonValue) -> Option<ProjectAssignmentView> {
    match v {
        JsonValue::Record(fields) => {
            let id = required_u32_at(fields, "id"@);
            let project = required_at::<Project>(fields, "project"@);
            if id is Some && project is Some {
                Some(ProjectAssignmentView { id: id->0, project: project->0 })
            } else {
                None
            }
        },
        _ => None,
    }
}

impl Resource for ProjectAssignment {
    open spec fn of_json(v: JsonValue) -> Option<ProjectAssignmentView> {
        project_assignment_of(v)
    }

    fn decode(doc: &Json) -> (r: Result<ProjectAssignment, DecodeError>) {
        match doc {
            Json::Record(members) => {
                let id = required_u32(members, "id")?;
                let project = required_resource::<Project>(members, "project")?;
                Ok(ProjectAssignment { id, project })
            },
            _ => Err(DecodeError),
        }
    }
}

/// A task assignment: a record with an identifier, a project and a task.
pub open spec fn task_assignment_of(v: JsonValue) -> Option<TaskAssignmentView> {
    match v {
        JsonValue::Record(fields) => {
            let id = required_u32_at(fields, "id"@);
            let project = required_at::<Project>(fields, "project"@);
            let task = required_at::<Task>(fields, "task"@);
            if id is Some && project is Some && task is Some {
                Some(TaskAssignmentView { id: id->0, project: project->0, task: task->0 })
            } else {
                None
            }
        },
        _ => None,
    }
}

impl Resource for TaskAssignment {
    open spec fn of_json(v: JsonValue) -> Option<TaskAssignmentView> {
        task_assignment_of(v)
    }

    fn decode(doc: &Json) -> (r: Result<TaskAssignment, DecodeError>) {
        match doc {
            Json::Record(members) => {
                let id = required_u32(members, "id")?;
                let project = required_resource::<Project>(members, "project")?;
                let task = required_resource::<Task>(members, "task")?;
                Ok(TaskAssignment { id, project, task })
            },
            _ => Err(DecodeError),
        }
    }
}

/// A time entry. Its notes may be absent or null, and are then `None`.
pub open spec fn time_entry_of(v: JsonValue) -> Option<TimeEntryView> {
    match v {
        JsonValue::Record(fields) => {
            let id = required_u32_at(fields, "id"@);
            let project = required_at::<Project>(fields, "project"@);
            let client = required_at::<Client>(fields, "client"@);
            let hours = required_number_at(fields, "hours"@);
            let user = required_at::<User>(fields, "user"@);
            let spent_date = required_text_at(fields, "spent_date"@);
            let task = required_at::<Task>(fields, "task"@);
            let notes = optional_text_at(fields, "notes"@);
            let is_running = required_flag_at(fields, "is_running"@);
            if id is Some && project is Some && client is Some && hours is Some && user is Some
                && spent_date is Some && task is Some && notes is Some && is_running is Some {
                Some(
                    TimeEntryView {
                        id: id->0,
                        project: project->0,
                        client: client->0,
                        hours: hours->0,
                        user: user->0,
                        spent_date: spent_date->0,
                        task: task->0,
                        notes: notes->0,
                        is_running: is_running->0,
                    },
                )
            } else {
                None
            }
        },
        _ => None,
    }
}

impl Resource for TimeEntry {
    open spec fn of_json(v: JsonValue) -> Option<TimeEntryView> {
        time_entry_of(v)
    }

    fn decode(doc: &Json) -> (r: Result<TimeEntry, DecodeError>) {
        match doc {
            Json::Record(members) => {
                let id = required_u32(members, "id")?;
                let project = required_resource::<Project>(members, "project")?;
                let client = required_resource::<Client>(members, "client")?;
                let hours = read_number(member(members, "hours")?)?;
                let user = required_resource::<User>(members, "user")?;
                let spent_date = required_text(members, "spent_date")?;
                let task = required_resource::<Task>(members, "task")?;
                let notes = match optional_member(members, "notes")? {
                    Some(value) => Some(read_text(value)?),
                    None => None,
                };
                let is_running = read_flag(member(members, "is_running")?)?;
                Ok(
                    TimeEntry {
                        id,
                        project,
                        client,
                        hours,
                        user,
                        spent_date,
                        task,
                        notes,
                        is_running,
                    },
                )
            },
            _ => Err(DecodeError),
        }
    }
}

impl Resource for ProjectPage {
    open spec fn of_json(v: JsonValue) -> Option<PageView<ProjectView>> {
        page_of::<Project>(v, "projects"@)
    }

    fn decode(doc: &Json) -> (r: Result<ProjectPage, DecodeError>) {
        match doc {
            Json::Record(members) => {
                let projects = decode_list::<Project>(member(members, "projects")?)?;
                let per_page = required_u32(members, "per_page")?;
                let total_pages = required_u32(members, "total_pages")?;
                let total_entries = required_u32(members, "total_entries")?;
                let page = required_u32(members, "page")?;
                Ok(ProjectPage { projects, per_page, total_pages, total_entries, page })
            },
            _ => Err(DecodeError),
        }
    }
}

impl Resource for ProjectAssignmentPage {
    open spec fn of_json(v: JsonValue) -> Option<PageView<ProjectAssignmentView>> {
        page_of::<ProjectAssignment>(v, "project_assignments"@)
    }

    fn decode(doc: &Json) -> (r: Result<ProjectAssignmentPage, DecodeError>) {
        match doc {
            Json::Record(members) => {
                let project_assignments = decode_list::<ProjectAssignment>(
                    member(members, "project_assignments")?,
                )?;
                let per_page = required_u32(members, "per_page")?;
                let total_pages = required_u32(members, "total_pages")?;
                let total_entries = required_u32(members, "total_entries")?;
                let page = required_u32(members, "page")?;
                Ok(
                    ProjectAssignmentPage {
                        project_assignments,
                        per_page,
                        total_pages,
                        total_entries,
                        page,
                    },
                )
            },
            _ => Err(DecodeError),
        }
    }
}

impl Resource for TimeEntryPage {
    open spec fn of_json(v: JsonValue) -> Option<PageView<TimeEntryView>> {
        page_of::<TimeEntry>(v, "time_entries"@)
    }

    fn decode(doc: &Json) -> (r: Result<TimeEntryPage, DecodeError>) {
        match doc {
            Json::Record(members) => {
                let time_entries = decode_list::<TimeEntry>(member(members, "time_entries")?)?;
                let per_page = required_u32(members, "per_page")?;
                let total_pages = required_u32(members, "total_pages")?;
                let total_entries = required_u32(members, "total_entries")?;
                let page = required_u32(members, "page")?;
                Ok(TimeEntryPage { time_entries, per_page, total_pages, total_entries, page })
            },
            _ => Err(DecodeError),
        }
    }
}

impl Resource for TaskAssignmentPage {
    open spec fn of_json(v: JsonValue) -> Option<PageView<TaskAssignmentView>> {
        page_of::<TaskAssignment>(v, "task_assignments"@)
    }

    fn decode(doc: &Json) -> (r: Result<TaskAssignmentPage, DecodeError>) {
        match doc {
            Json::Record(members) => {
                let task_assignments = decode_list::<TaskAssignment>(
                    member(members, "task_assignments")?,
                )?;
                let per_page = required_u32(members, "per_page")?;
                let total_pages = required_u32(members, "total_pages")?;
                let total_entries = required_u32(members, "total_entries")?;
                let page = required_u32(members, "page")?;
                Ok(
                    TaskAssignmentPage {
                        task_assignments,
                        per_page,
                        total_pages,
                        total_entries,
                        page,
                    },
                )
            },
            _ => Err(DecodeError),
        }
    }
}

} // verus!
