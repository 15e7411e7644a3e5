//! The operations of the client.
//!
//! Each operation builds its requests, hands them to `send` one after the
//! other, and reads what came back. `send` carries a request out and returns
//! the body of the answer as text, whatever the status of the answer, or the
//! failure. An operation never asks twice for the same thing and never goes
//! on after a failure.

use crate::clock::local_date;
use crate::encode::{started, timer_json};
use crate::model::{
    views, Hours, Project, ProjectAssignment, ProjectAssignmentPage,
    ProjectAssignmentView, ProjectPage, ProjectView, Task, TaskAssignment, TaskAssignmentPage,
    TimeEntry, TimeEntryPage, Timer, User,
};
use crate::pagination::{
    all_items, consumed, gather, page_in, page_models, pages_in, served, Gathered, Paged,
    Policy,
};
use crate::request::{
    current_user_url, listing_url, new_time_entry_url, request_of, restart_url, stop_url,
    task_assignments_url, time_entries_url, Harvest, Listing, Method, Request,
};
use crate::transport::{accepts, answers, receive, received, Error};
use vstd::prelude::*;

verus! {

/// What is to be made of an answer that should hold one page: the items of
/// the page, the failure of the transport as it is, and `Decode` for a
/// document of another shape.
pub open spec fn received_items<P: Paged>(
    r: Result<Vec<P::Item>, Error>,
    reply: Result<String, Error>,
) -> bool {
    match reply {
        Err(e) => r == Err::<Vec<P::Item>, Error>(e),
        Ok(_) => match page_in::<P>(reply) {
            Some(page) => r matches Ok(items) && views(items@) == page.items,
            None => r == Err::<Vec<P::Item>, Error>(Error::Decode),
        },
    }
}

/// Reads the items of the page that an answer holds. Pages that may follow
/// it are not asked for.
pub fn receive_items<P: Paged>(reply: Result<String, Error>) -> (r: Result<Vec<P::Item>, Error>)
    ensures
        received_items::<P>(r, reply),
{
    match receive::<P>(reply) {
        Ok(page) => Ok(page.into_items()),
        Err(e) => Err(e),
    }
}

/// The projects of a sequence of assignments, in order.
pub open spec fn projects_of(assignments: Seq<ProjectAssignmentView>) -> Seq<ProjectView> {
    assignments.map_values(|a: ProjectAssignmentView| a.project)
}

/// Gives up the assignments for their projects.
pub fn into_projects(assignments: Vec<ProjectAssignment>) -> (projects: Vec<Project>)
    ensures
        views(projects@) == projects_of(views(assignments@)),
{
    let mut projects: Vec<Project> = Vec::new();
    let ghost all = assignments@;
    for assignment in it: assignments
        invariant
            it.seq() == all,
            projects@.len() == it.index(),
            forall|k: int|
                0 <= k < it.index() ==> (#[trigger] projects@[k])@ == all[k]@.project,
    {
        projects.push(assignment.project);
    }
    assert(views(projects@) =~= projects_of(views(all)));
    projects
}

/// What `active_projects` has to return after a gathering that took in
/// `replies`.
pub open spec fn projects_gathered(
    r: Result<Vec<Project>, Error>,
    replies: Seq<Result<String, Error>>,
) -> bool {
    match replies.last() {
        Err(e) => r == Err::<Vec<Project>, Error>(e),
        Ok(_) => if page_in::<ProjectAssignmentPage>(replies.last()) is None {
            r == Err::<Vec<Project>, Error>(Error::Decode)
        } else {
            r matches Ok(projects) && views(projects@) == projects_of(
                all_items(pages_in::<ProjectAssignmentPage>(replies)),
            )
        },
    }
}

/// What `project_pages` has to return after a gathering that took in
/// `replies`.
pub open spec fn pages_gathered(
    r: Result<Vec<ProjectPage>, Error>,
    replies: Seq<Result<String, Error>>,
) -> bool {
    match replies.last() {
        Err(e) => r == Err::<Vec<ProjectPage>, Error>(e),
        Ok(_) => if page_in::<ProjectPage>(replies.last()) is None {
            r == Err::<Vec<ProjectPage>, Error>(Error::Decode)
        } else {
            r matches Ok(pages) && views(pages@) == pages_in::<ProjectPage>(replies)
        },
    }
}

impl Harvest {
    /// The projects that are assigned to `user`: the project of every
    /// assignment of every page of the listing, in the order of the service.
    pub fn active_projects<F: Fn(&Request) -> Result<String, Error>>(&self, user: User, send: &F) -> (r:
        Result<Vec<Project>, Error>)
        requires
            forall|page: u32|
                accepts(
                    *send,
                    #[trigger] request_of(
                        self@,
                        Method::Get,
                        listing_url(Listing::ProjectAssignments(user), page),
                        None,
                    ),
                ),
        ensures
            exists|replies: Seq<Result<String, Error>>|
                served(*send, self@, Listing::ProjectAssignments(user), replies)
                    && #[trigger] consumed::<ProjectAssignmentPage>(replies) && projects_gathered(
                    r,
                    replies,
                ),
    {
        let listing = Listing::ProjectAssignments(user);
        match gather::<ProjectAssignmentPage, F>(self, &listing, send, Policy::Flatten) {
            Ok(Gathered::Items(assignments)) => Ok(into_projects(assignments)),
            Ok(Gathered::Pages(_)) => unreached(),
            Err(e) => Err(e),
        }
    }

    /// All pages of the listing of active projects, one page object for each.
    pub fn project_pages<F: Fn(&Request) -> Result<String, Error>>(&self, send: &F) -> (r: Result<
        Vec<ProjectPage>,
        Error,
    >)
        requires
            forall|page: u32|
                accepts(
                    *send,
                    #[trigger] request_of(
                        self@,
                        Method::Get,
                        listing_url(Listing::Projects, page),
                        None,
                    ),
                ),
        ensures
            exists|replies: Seq<Result<String, Error>>|
                served(*send, self@, Listing::Projects, replies) && #[trigger] consumed::<
                    ProjectPage,
                >(replies) && pages_gathered(r, replies),
    {
        let listing = Listing::Projects;
        match gather::<ProjectPage, F>(self, &listing, send, Policy::Retain) {
            Ok(Gathered::Pages(pages)) => {
                assert(views(pages@) =~= page_models(pages@));
                Ok(pages)
            },
            Ok(Gathered::Items(_)) => unreached(),
            Err(e) => Err(e),
        }
    }

    /// The time entries that `user` booked on the day `date`, as far as the
    /// first page of the answer holds them.
    pub fn time_entries_on<F: Fn(&Request) -> Result<String, Error>>(
        &self,
        user: User,
        date: &str,
        send: &F,
    ) -> (r: Result<Vec<TimeEntry>, Error>)
        requires
            accepts(*send, request_of(self@, Method::Get, time_entries_url(user.id, date@), None)),
        ensures
            exists|reply: Result<String, Error>|
                #[trigger] answers(
                    *send,
                    request_of(self@, Method::Get, time_entries_url(user.id, date@), None),
                    reply,
                ) && received_items::<TimeEntryPage>(r, reply),
    {
        let request = self.time_entries_request(&user, date);
        let reply = send(&request);
        assert(answers(
            *send,
            request_of(self@, Method::Get, time_entries_url(user.id, date@), None),
            reply,
        )) by {
            assert(call_ensures(*send, (&request,), reply));
        }
        receive_items::<TimeEntryPage>(reply)
    }

    /// The time entries that `user` booked today, by the local date of the
    /// machine, as far as the first page of the answer holds them.
    pub fn time_entries_today<F: Fn(&Request) -> Result<String, Error>>(&self, user: User, send: &F) -> (r:
        Result<Vec<TimeEntry>, Error>)
        requires
            forall|date: Seq<char>|
                accepts(
                    *send,
                    #[trigger] request_of(
                        self@,
                        Method::Get,
                        time_entries_url(user.id, date),
                        None,
                    ),
                ),
        ensures
            exists|date: Seq<char>, reply: Result<String, Error>|
                #[trigger] answers(
                    *send,
                    request_of(self@, Method::Get, time_entries_url(user.id, date), None),
                    reply,
                ) && received_items::<TimeEntryPage>(r, reply),
    {
        let today = local_date();
        self.time_entries_on(user, today.as_str(), send)
    }

    /// The user that the token belongs to.
    pub fn current_user<F: Fn(&Request) -> Result<String, Error>>(&self, send: &F) -> (r: Result<
        User,
        Error,
    >)
        requires
            accepts(*send, request_of(self@, Method::Get, current_user_url(), None)),
        ensures
            exists|reply: Result<String, Error>|
                #[trigger] answers(
                    *send,
                    request_of(self@, Method::Get, current_user_url(), None),
                    reply,
                ) && received(r, reply),
    {
        let request = self.current_user_request();
        let reply = send(&request);
        assert(answers(*send, request_of(self@, Method::Get, current_user_url(), None), reply))
            by {
            assert(call_ensures(*send, (&request,), reply));
        }
        receive::<User>(reply)
    }

    /// The active task assignments of `project`, as far as the first page of
    /// the answer holds them.
    pub fn project_task_assignments<F: Fn(&Request) -> Result<String, Error>>(
        &self,
        project: &Project,
        send: &F,
    ) -> (r: Result<Vec<TaskAssignment>, Error>)
        requires
            accepts(
                *send,
                request_of(self@, Method::Get, task_assignments_url(project.id), None),
            ),
        ensures
            exists|reply: Result<String, Error>|
                #[trigger] answers(
                    *send,
                    request_of(self@, Method::Get, task_assignments_url(project.id), None),
                    reply,
                ) && received_items::<TaskAssignmentPage>(r, reply),
    {
        let request = self.task_assignments_request(project);
        let reply = send(&request);
        assert(answers(
            *send,
            request_of(self@, Method::Get, task_assignments_url(project.id), None),
            reply,
        )) by {
            assert(call_ensures(*send, (&request,), reply));
        }
        receive_items::<TaskAssignmentPage>(reply)
    }

    /// Starts a timer on `task` of `project` for the day `date`, and returns
    /// the time entry that the service made of it. Notes are sent only if
    /// there are any, and hours only if they are more than zero.
    pub fn start_timer_on<F: Fn(&Request) -> Result<String, Error>>(
        &self,
        project: &Project,
        task: &Task,
        date: String,
        notes: &str,
        hours: Hours,
        send: &F,
    ) -> (r: Result<TimeEntry, Error>)
        requires
            accepts(
                *send,
                request_of(
                    self@,
                    Method::Post,
                    new_time_entry_url(),
                    Some(timer_json(started(project.id, task.id, date@, notes@, hours))),
                ),
            ),
        ensures
            exists|reply: Result<String, Error>|
                #[trigger] answers(
                    *send,
                    request_of(
                        self@,
                        Method::Post,
                        new_time_entry_url(),
                        Some(timer_json(started(project.id, task.id, date@, notes@, hours))),
                    ),
                    reply,
                ) && received(r, reply),
    {
        let timer = Timer::start(project, task, date, notes, hours);
        let request = self.start_timer_request(&timer);
        let reply = send(&request);
        assert(answers(
            *send,
            request_of(
                self@,
                Method::Post,
                new_time_entry_url(),
                Some(timer_json(started(project.id, task.id, date@, notes@, hours))),
            ),
            reply,
        )) by {
            assert(call_ensures(*send, (&request,), reply));
        }
        receive::<TimeEntry>(reply)
    }

    /// Starts a timer on `task` of `project` for today, by the local date of
    /// the machine.
    pub fn start_timer<F: Fn(&Request) -> Result<String, Error>>(
        &self,
        project: &Project,
        task: &Task,
        notes: &str,
        hours: Hours,
        send: &F,
    ) -> (r: Result<TimeEntry, Error>)
        requires
            forall|date: Seq<char>|
                accepts(
                    *send,
                    #[trigger] request_of(
                        self@,
                        Method::Post,
                        new_time_entry_url(),
                        Some(timer_json(started(project.id, task.id, date, notes@, hours))),
                    ),
                ),
        ensures
            exists|date: Seq<char>, reply: Result<String, Error>|
                #[trigger] answers(
                    *send,
                    request_of(
                        self@,
                        Method::Post,
                        new_time_entry_url(),
                        Some(timer_json(started(project.id, task.id, date, notes@, hours))),
                    ),
                    reply,
                ) && received(r, reply),
    {
        let today = local_date();
        self.start_timer_on(project, task, today, notes, hours, send)
    }

    /// Restarts the timer of `time_entry`, and returns the time entry as the
    /// service has it afterwards.
    pub fn restart_timer<F: Fn(&Request) -> Result<String, Error>>(
        &self,
        time_entry: &TimeEntry,
        send: &F,
    ) -> (r: Result<TimeEntry, Error>)
        requires
            accepts(*send, request_of(self@, Method::Patch, restart_url(time_entry.id), None)),
        ensures
            exists|reply: Result<String, Error>|
                #[trigger] answers(
                    *send,
                    request_of(self@, Method::Patch, restart_url(time_entry.id), None),
                    reply,
                ) && received(r, reply),
    {
        let request = self.restart_timer_request(time_entry);
        let reply = send(&request);
        assert(answers(
            *send,
            request_of(self@, Method::Patch, restart_url(time_entry.id), None),
            reply,
        )) by {
            assert(call_ensures(*send, (&request,), reply));
        }
        receive::<TimeEntry>(reply)
    }

    /// Stops the timer of `time_entry`, and returns the time entry as the
    /// service has it afterwards.
    pub fn stop_timer<F: Fn(&Request) -> Result<String, Error>>(
        &self,
        time_entry: &TimeEntry,
        send: &F,
    ) -> (r: Result<TimeEntry, Error>)
        requires
            accepts(*send, request_of(self@, Method::Patch, stop_url(time_entry.id), None)),
        ensures
            exists|reply: Result<String, Error>|
                #[trigger] answers(
                    *send,
                    request_of(self@, Method::Patch, stop_url(time_entry.id), None),
                    reply,
                ) && received(r, reply),
    {
        let request = self.stop_timer_request(time_entry);
        let reply = send(&request);
        assert(answers(
            *send,
            request_of(self@, Method::Patch, stop_url(time_entry.id), None),
            reply,
        )) by {
            assert(call_ensures(*send, (&request,), reply));
        }
        receive::<TimeEntry>(reply)
    }
}

} // verus!
