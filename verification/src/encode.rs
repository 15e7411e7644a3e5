//! Writing resources as documents.
//!
//! A resource is written as a record of its members, in the order in which it
//! declares them. A member that a resource may lack is written as null. The
//! timer alone leaves such a member out, so that the service applies its own
//! default.

use crate::decode::{
    required_flag_at, required_number_at, required_text_at, required_u32_at, time_entry_of,
    Resource,
};
use crate::json::{
    lemma_record_view, occurrences, record_view, required, Json, JsonValue, Member, Number,
};
use crate::model::{
    Client, ClientView, Hours, Project, ProjectAssignment, ProjectAssignmentView, ProjectView,
    Task, TaskAssignment, TaskAssignmentView, TaskView, TimeEntry, TimeEntryView, Timer,
    TimerView, User,
};
use vstd::prelude::*;

verus! {

/// The document of a whole number of 32 bits.
pub open spec fn whole(n: u32) -> JsonValue {
    JsonValue::Number(Number::Whole(n as u64))
}

/// The document of a text that may be absent: null where it is.
pub open spec fn text_or_null(text: Option<Seq<char>>) -> JsonValue {
    match text {
        Some(s) => JsonValue::Text(s),
        None => JsonValue::Null,
    }
}

/// What `occurrences` makes of a record that got one more member.
pub proof fn lemma_occurrences_push(fields: Seq<(Seq<char>, JsonValue)>, entry: (Seq<char>, JsonValue))
    ensures
        forall|name: Seq<char>| #[trigger]
            occurrences(fields.push(entry), name) == if entry.0 == name {
                occurrences(fields, name).push(entry.1)
            } else {
                occurrences(fields, name)
            },
{
    assert(fields.push(entry).drop_last() =~= fields);
}

/// A member made of a name and a document.
pub fn entry(name: &str, value: Json) -> (m: Member)
    ensures
        m.name@ == name@,
        m.value == value,
{
    Member { name: name.to_owned(), value }
}

/// The document of a whole number of 32 bits.
pub fn whole_number(n: u32) -> (doc: Json)
    ensures
        doc@ == whole(n),
{
    Json::Number(Number::Whole(n as u64))
}

/// A resource that can be written as a document and read back from it.
pub trait Encode: Resource {
    /// The document of the resource whose model is `model`.
    spec fn to_json(model: Self::V) -> JsonValue;

    /// Writes the resource.
    fn encode(&self) -> (doc: Json)
        ensures
            doc@ == Self::to_json(self@),
    ;

    /// Reading what was written gives the resource back.
    proof fn law_read_back(model: Self::V)
        ensures
            Self::of_json(Self::to_json(model)) == Some(model),
    ;
}

/// The document of a client.
pub open spec fn client_json(c: ClientView) -> JsonValue {
    JsonValue::Record(seq![("id"@, whole(c.id)), ("name"@, JsonValue::Text(c.name))])
}

/// The names of the members of the resources differ from one another.
pub proof fn lemma_names_differ()
    ensures
        "id"@ != "name"@,
        "id"@ != "client"@,
        "name"@ != "client"@,
        "id"@ != "project"@,
        "id"@ != "task"@,
        "project"@ != "task"@,
        "id"@ != "hours"@,
        "id"@ != "user"@,
        "id"@ != "spent_date"@,
        "id"@ != "notes"@,
        "id"@ != "is_running"@,
        "project"@ != "client"@,
        "project"@ != "hours"@,
        "project"@ != "user"@,
        "project"@ != "spent_date"@,
        "project"@ != "notes"@,
        "project"@ != "is_running"@,
        "client"@ != "hours"@,
        "client"@ != "user"@,
        "client"@ != "spent_date"@,
        "client"@ != "task"@,
        "client"@ != "notes"@,
        "client"@ != "is_running"@,
        "hours"@ != "user"@,
        "hours"@ != "spent_date"@,
        "hours"@ != "task"@,
        "hours"@ != "notes"@,
        "hours"@ != "is_running"@,
        "user"@ != "spent_date"@,
        "user"@ != "task"@,
        "user"@ != "notes"@,
        "user"@ != "is_running"@,
        "spent_date"@ != "task"@,
        "spent_date"@ != "notes"@,
        "spent_date"@ != "is_running"@,
        "task"@ != "notes"@,
        "task"@ != "is_running"@,
        "notes"@ != "is_running"@,
        "project_id"@ != "task_id"@,
        "project_id"@ != "spent_date"@,
        "project_id"@ != "notes"@,
        "project_id"@ != "hours"@,
        "task_id"@ != "spent_date"@,
        "task_id"@ != "notes"@,
        "task_id"@ != "hours"@,
{
    reveal_strlit("id");
    reveal_strlit("name");
    reveal_strlit("client");
    reveal_strlit("project");
    reveal_strlit("task");
    reveal_strlit("hours");
    reveal_strlit("user");
    reveal_strlit("spent_date");
    reveal_strlit("notes");
    reveal_strlit("is_running");
    reveal_strlit("project_id");
    reveal_strlit("task_id");
    assert("id"@.len() == 2);
    assert("name"@.len() == 4 && "name"@[0] == 'n');
    assert("client"@.len() == 6);
    assert("project"@.len() == 7 && "project"@[0] == 'p');
    assert("task"@.len() == 4 && "task"@[0] == 't');
    assert("hours"@.len() == 5 && "hours"@[0] == 'h');
    assert("user"@.len() == 4 && "user"@[0] == 'u');
    assert("spent_date"@.len() == 10 && "spent_date"@[0] == 's');
    assert("notes"@.len() == 5 && "notes"@[0] == 'n');
    assert("is_running"@.len() == 10 && "is_running"@[0] == 'i');
    assert("project_id"@.len() == 10 && "project_id"@[0] == 'p');
    assert("task_id"@.len() == 7 && "task_id"@[0] == 't');
}

impl Encode for Client {
    open spec fn to_json(model: ClientView) -> JsonValue {
        client_json(model)
    }

    fn encode(&self) -> (doc: Json) {
        let mut members: Vec<Member> = Vec::new();
        members.push(entry("id", whole_number(self.id)));
        members.push(entry("name", Json::Text(self.name.clone())));
        proof {
            lemma_record_view(members@);
            assert(record_view(members@) =~= seq![
                ("id"@, whole(self.id)),
                ("name"@, JsonValue::Text(self.name@)),
            ]);
        }
        Json::Record(members)
    }

    proof fn law_read_back(model: ClientView) {
        lemma_names_differ();
        let a = ("id"@, whole(model.id));
        let b = ("name"@, JsonValue::Text(model.name));
        let none = Seq::<(Seq<char>, JsonValue)>::empty();
        lemma_occurrences_push(none, a);
        lemma_occurrences_push(none.push(a), b);
        assert(seq![a, b] =~= none.push(a).push(b));
        assert(occurrences(seq![a, b], "id"@) =~= seq![a.1]);
        assert(occurrences(seq![a, b], "name"@) =~= seq![b.1]);
    }
}

/// The document of a task.
pub open spec fn task_json(m: TaskView) -> JsonValue {
    JsonValue::Record(
        seq![
            ("id"@, whole(m.id)),
            ("name"@, JsonValue::Text(m.name)),
        ],
    )
}

impl Encode for Task {
    open spec fn to_json(model: TaskView) -> JsonValue {
        task_json(model)
    }

    fn encode(&self) -> (doc: Json) {
        let mut members: Vec<Member> = Vec::new();
        members.push(entry("id", whole_number(self.id)));
        members.push(entry("name", Json::Text(self.name.clone())));
        proof {
            lemma_record_view(members@);
            assert(record_view(members@) =~= seq![
                ("id"@, whole(self.id)),
                ("name"@, JsonValue::Text(self.name@)),
            ]);
        }
        Json::Record(members)
    }

    proof fn law_read_back(model: TaskView) {
        lemma_names_differ();
        let a = ("id"@, whole(model.id));
        let b = ("name"@, JsonValue::Text(model.name));
        let none = Seq::<(Seq<char>, JsonValue)>::empty();
        lemma_occurrences_push(none, a);
        lemma_occurrences_push(none.push(a), b);
        let all = seq![a, b];
        assert(all =~= none.push(a).push(b));
        assert(occurrences(all, "id"@) =~= seq![a.1]);
        assert(occurrences(all, "name"@) =~= seq![b.1]);
    }
}

/// The document of a user.
pub open spec fn user_json(m: User) -> JsonValue {
    JsonValue::Record(
        seq![
            ("id"@, whole(m.id)),
        ],
    )
}

impl Encode for User {
    open spec fn to_json(model: User) -> JsonValue {
        user_json(model)
    }

    fn encode(&self) -> (doc: Json) {
        let mut members: Vec<Member> = Vec::new();
        members.push(entry("id", whole_number(self.id)));
        proof {
            lemma_record_view(members@);
            assert(record_view(members@) =~= seq![
                ("id"@, whole(self.id)),
            ]);
        }
        Json::Record(members)
    }

    proof fn law_read_back(model: User) {
        lemma_names_differ();
        let a = ("id"@, whole(model.id));
        let none = Seq::<(Seq<char>, JsonValue)>::empty();
        lemma_occurrences_push(none, a);
        let all = seq![a];
        assert(all =~= none.push(a));
        assert(occurrences(all, "id"@) =~= seq![a.1]);
    }
}

/// The document of a client that may be absent: null where it is.
pub open spec fn client_or_null(client: Option<ClientView>) -> JsonValue {
    match client {
        Some(c) => client_json(c),
        None => JsonValue::Null,
    }
}

/// The document of a project.
pub open spec fn project_json(m: ProjectView) -> JsonValue {
    JsonValue::Record(
        seq![
            ("id"@, whole(m.id)),
            ("name"@, JsonValue::Text(m.name)),
            ("client"@, client_or_null(m.client)),
        ],
    )
}

impl Encode for Project {
    open spec fn to_json(model: ProjectView) -> JsonValue {
        project_json(model)
    }

    fn encode(&self) -> (doc: Json) {
        let client = match &self.client {
            Some(c) => c.encode(),
            None => Json::Null,
        };
        let mut members: Vec<Member> = Vec::new();
        members.push(entry("id", whole_number(self.id)));
        members.push(entry("name", Json::Text(self.name.clone())));
        members.push(entry("client", client));
        proof {
            lemma_record_view(members@);
            assert(record_view(members@) =~= seq![
                ("id"@, whole(self.id)),
                ("name"@, JsonValue::Text(self.name@)),
                ("client"@, client_or_null(self@.client)),
            ]);
        }
        Json::Record(members)
    }

    proof fn law_read_back(model: ProjectView) {
        if let Some(c) = model.client {
            Client::law_read_back(c);
        }
        lemma_names_differ();
        let a = ("id"@, whole(model.id));
        let b = ("name"@, JsonValue::Text(model.name));
        let c = ("client"@, client_or_null(model.client));
        let none = Seq::<(Seq<char>, JsonValue)>::empty();
        lemma_occurrences_push(none, a);
        lemma_occurrences_push(none.push(a), b);
        lemma_occurrences_push(none.push(a).push(b), c);
        let all = seq![a, b, c];
        assert(all =~= none.push(a).push(b).push(c));
        assert(occurrences(all, "id"@) =~= seq![a.1]);
        assert(occurrences(all, "name"@) =~= seq![b.1]);
        assert(occurrences(all, "client"@) =~= seq![c.1]);
    }
}

/// The document of a project assignment.
pub open spec fn project_assignment_json(m: ProjectAssignmentView) -> JsonValue {
    JsonValue::Record(
        seq![
            ("id"@, whole(m.id)),
            ("project"@, project_json(m.project)),
        ],
    )
}

impl Encode for ProjectAssignment {
    open spec fn to_json(model: ProjectAssignmentView) -> JsonValue {
        project_assignment_json(model)
    }

    fn encode(&self) -> (doc: Json) {
        let mut members: Vec<Member> = Vec::new();
        members.push(entry("id", whole_number(self.id)));
        members.push(entry("project", self.project.encode()));
        proof {
            lemma_record_view(members@);
            assert(record_view(members@) =~= seq![
                ("id"@, whole(self.id)),
                ("project"@, project_json(self.project@)),
            ]);
        }
        Json::Record(members)
    }

    proof fn law_read_back(model: ProjectAssignmentView) {
        Project::law_read_back(model.project);
        lemma_names_differ();
        let a = ("id"@, whole(model.id));
        let b = ("project"@, project_json(model.project));
        let none = Seq::<(Seq<char>, JsonValue)>::empty();
        lemma_occurrences_push(none, a);
        lemma_occurrences_push(none.push(a), b);
        let all = seq![a, b];
        assert(all =~= none.push(a).push(b));
        assert(occurrences(all, "id"@) =~= seq![a.1]);
        assert(occurrences(all, "project"@) =~= seq![b.1]);
    }
}

/// The document of a task assignment.
pub open spec fn task_assignment_json(m: TaskAssignmentView) -> JsonValue {
    JsonValue::Record(
        seq![
            ("id"@, whole(m.id)),
            ("project"@, project_json(m.project)),
            ("task"@, task_json(m.task)),
        ],
    )
}

impl Encode for TaskAssignment {
    open spec fn to_json(model: TaskAssignmentView) -> JsonValue {
        task_assignment_json(model)
    }

    fn encode(&self) -> (doc: Json) {
        let mut members: Vec<Member> = Vec::new();
        members.push(entry("id", whole_number(self.id)));
        members.push(entry("project", self.project.encode()));
        members.push(entry("task", self.task.encode()));
        proof {
            lemma_record_view(members@);
            assert(record_view(members@) =~= seq![
                ("id"@, whole(self.id)),
                ("project"@, project_json(self.project@)),
                ("task"@, task_json(self.task@)),
            ]);
        }
        Json::Record(members)
    }

    proof fn law_read_back(model: TaskAssignmentView) {
        Project::law_read_back(model.project);
        Task::law_read_back(model.task);
        lemma_names_differ();
        let a = ("id"@, whole(model.id));
        let b = ("project"@, project_json(model.project));
        let c = ("task"@, task_json(model.task));
        let none = Seq::<(Seq<char>, JsonValue)>::empty();
        lemma_occurrences_push(none, a);
        lemma_occurrences_push(none.push(a), b);
        lemma_occurrences_push(none.push(a).push(b), c);
        let all = seq![a, b, c];
        assert(all =~= none.push(a).push(b).push(c));
        assert(occurrences(all, "id"@) =~= seq![a.1]);
        assert(occurrences(all, "project"@) =~= seq![b.1]);
        assert(occurrences(all, "task"@) =~= seq![c.1]);
    }
}

/// The document of a time entry.
pub open spec fn time_entry_json(m: TimeEntryView) -> JsonValue {
    JsonValue::Record(
        seq![
            ("id"@, whole(m.id)),
            ("project"@, project_json(m.project)),
            ("client"@, client_json(m.client)),
            ("hours"@, JsonValue::Number(m.hours)),
            ("user"@, user_json(m.user)),
            ("spent_date"@, JsonValue::Text(m.spent_date)),
            ("task"@, task_json(m.task)),
            ("notes"@, text_or_null(m.notes)),
            ("is_running"@, JsonValue::Bool(m.is_running)),
        ],
    )
}

impl Encode for TimeEntry {
    open spec fn to_json(model: TimeEntryView) -> JsonValue {
        time_entry_json(model)
    }

    fn encode(&self) -> (doc: Json) {
        let notes = match &self.notes {
            Some(text) => Json::Text(text.clone()),
            None => Json::Null,
        };
        let mut members: Vec<Member> = Vec::new();
        members.push(entry("id", whole_number(self.id)));
        members.push(entry("project", self.project.encode()));
        members.push(entry("client", self.client.encode()));
        members.push(entry("hours", Json::Number(self.hours)));
        members.push(entry("user", self.user.encode()));
        members.push(entry("spent_date", Json::Text(self.spent_date.clone())));
        members.push(entry("task", self.task.encode()));
        members.push(entry("notes", notes));
        members.push(entry("is_running", Json::Bool(self.is_running)));
        proof {
            lemma_record_view(members@);
            assert(record_view(members@) =~= seq![
                ("id"@, whole(self@.id)),
                ("project"@, project_json(self@.project)),
                ("client"@, client_json(self@.client)),
                ("hours"@, JsonValue::Number(self@.hours)),
                ("user"@, user_json(self@.user)),
                ("spent_date"@, JsonValue::Text(self@.spent_date)),
                ("task"@, task_json(self@.task)),
                ("notes"@, text_or_null(self@.notes)),
                ("is_running"@, JsonValue::Bool(self@.is_running)),
            ]);
        }
        Json::Record(members)
    }

    proof fn law_read_back(model: TimeEntryView) {
        Project::law_read_back(model.project);
        Client::law_read_back(model.client);
        User::law_read_back(model.user);
        Task::law_read_back(model.task);
        lemma_names_differ();
        let a = ("id"@, whole(model.id));
        let b = ("project"@, project_json(model.project));
        let c = ("client"@, client_json(model.client));
        let d = ("hours"@, JsonValue::Number(model.hours));
        let e = ("user"@, user_json(model.user));
        let f = ("spent_date"@, JsonValue::Text(model.spent_date));
        let g = ("task"@, task_json(model.task));
        let h = ("notes"@, text_or_null(model.notes));
        let i = ("is_running"@, JsonValue::Bool(model.is_running));
        let none = Seq::<(Seq<char>, JsonValue)>::empty();
        lemma_occurrences_push(none, a);
        lemma_occurrences_push(none.push(a), b);
        lemma_occurrences_push(none.push(a).push(b), c);
        lemma_occurrences_push(none.push(a).push(b).push(c), d);
        lemma_occurrences_push(none.push(a).push(b).push(c).push(d), e);
        lemma_occurrences_push(none.push(a).push(b).push(c).push(d).push(e), f);
        lemma_occurrences_push(none.push(a).push(b).push(c).push(d).push(e).push(f), g);
        lemma_occurrences_push(none.push(a).push(b).push(c).push(d).push(e).push(f).push(g), h);
        lemma_occurrences_push(none.push(a).push(b).push(c).push(d).push(e).push(f).push(g).push(h), i);
        let all = seq![a, b, c, d, e, f, g, h, i];
        assert(all =~= none.push(a).push(b).push(c).push(d).push(e).push(f).push(g).push(h).push(i));
        assert(occurrences(all, "id"@) =~= seq![a.1]);
        assert(occurrences(all, "project"@) =~= seq![b.1]);
        assert(occurrences(all, "client"@) =~= seq![c.1]);
        assert(occurrences(all, "hours"@) =~= seq![d.1]);
        assert(occurrences(all, "user"@) =~= seq![e.1]);
        assert(occurrences(all, "spent_date"@) =~= seq![f.1]);
        assert(occurrences(all, "task"@) =~= seq![g.1]);
        assert(occurrences(all, "notes"@) =~= seq![h.1]);
        assert(occurrences(all, "is_running"@) =~= seq![i.1]);
    }
}

/// The timer that starts work on a task of a project on `spent_date`. Notes
/// are taken along only if there are any, and hours only if they are more
/// than zero.
pub open spec fn started(
    project_id: u32,
    task_id: u32,
    spent_date: Seq<char>,
    notes: Seq<char>,
    hours: Hours,
) -> TimerView {
    TimerView {
        project_id,
        task_id,
        spent_date,
        notes: if notes.len() > 0 {
            Some(notes)
        } else {
            None
        },
        hours: if hours.positive() {
            Some(hours)
        } else {
            None
        },
    }
}

/// The document of a timer: the two identifiers and the date, then the notes
/// and the hours where the timer has them. A member that the timer lacks is
/// left out.
pub open spec fn timer_json(t: TimerView) -> JsonValue {
    let base = seq![
        ("project_id"@, whole(t.project_id)),
        ("task_id"@, whole(t.task_id)),
        ("spent_date"@, JsonValue::Text(t.spent_date)),
    ];
    let noted = match t.notes {
        Some(notes) => base.push(("notes"@, JsonValue::Text(notes))),
        None => base,
    };
    let all = match t.hours {
        Some(hours) => noted.push(("hours"@, JsonValue::Number(hours))),
        None => noted,
    };
    JsonValue::Record(all)
}

impl Timer {
    /// Makes the timer that starts work on `task` of `project`.
    pub fn start(project: &Project, task: &Task, spent_date: String, notes: &str, hours: Hours) -> (t:
        Timer)
        ensures
            t@ == started(project.id, task.id, spent_date@, notes@, hours),
    {
        Timer {
            project_id: project.id,
            task_id: task.id,
            spent_date,
            notes: if notes.is_empty() {
                None
            } else {
                Some(notes.to_owned())
            },
            hours: if hours.is_positive() {
                Some(hours)
            } else {
                None
            },
        }
    }

    /// Writes the timer.
    pub fn encode(&self) -> (doc: Json)
        ensures
            doc@ == timer_json(self@),
    {
        let mut members: Vec<Member> = Vec::new();
        members.push(entry("project_id", whole_number(self.project_id)));
        members.push(entry("task_id", whole_number(self.task_id)));
        members.push(entry("spent_date", Json::Text(self.spent_date.clone())));
        proof {
            lemma_record_view(members@);
            assert(record_view(members@) =~= seq![
                ("project_id"@, whole(self.project_id)),
                ("task_id"@, whole(self.task_id)),
                ("spent_date"@, JsonValue::Text(self.spent_date@)),
            ]);
        }
        if let Some(notes) = &self.notes {
            let ghost before = members@;
            members.push(entry("notes", Json::Text(notes.clone())));
            proof {
                lemma_record_view(members@);
                assert(record_view(members@) =~= record_view(before).push(
                    ("notes"@, JsonValue::Text(notes@)),
                ));
            }
        }
        if let Some(hours) = &self.hours {
            let ghost before = members@;
            members.push(entry("hours", Json::Number(*hours)));
            proof {
                lemma_record_view(members@);
                assert(record_view(members@) =~= record_view(before).push(
                    ("hours"@, JsonValue::Number(*hours)),
                ));
            }
        }
        Json::Record(members)
    }
}

/// The document of a timer names each member that the timer has once, with
/// the timer's value, and does not name a member that the timer lacks.
pub proof fn law_timer_members(t: TimerView)
    ensures
        timer_json(t) is Record,
        occurrences(timer_json(t)->Record_0, "project_id"@) == seq![whole(t.project_id)],
        occurrences(timer_json(t)->Record_0, "task_id"@) == seq![whole(t.task_id)],
        occurrences(timer_json(t)->Record_0, "spent_date"@) == seq![JsonValue::Text(t.spent_date)],
        occurrences(timer_json(t)->Record_0, "notes"@) == match t.notes {
            Some(notes) => seq![JsonValue::Text(notes)],
            None => Seq::empty(),
        },
        occurrences(timer_json(t)->Record_0, "hours"@) == match t.hours {
            Some(hours) => seq![JsonValue::Number(hours)],
            None => Seq::empty(),
        },
{
    lemma_names_differ();
    let a = ("project_id"@, whole(t.project_id));
    let b = ("task_id"@, whole(t.task_id));
    let c = ("spent_date"@, JsonValue::Text(t.spent_date));
    let none = Seq::<(Seq<char>, JsonValue)>::empty();
    lemma_occurrences_push(none, a);
    lemma_occurrences_push(none.push(a), b);
    lemma_occurrences_push(none.push(a).push(b), c);
    let base = seq![a, b, c];
    assert(base =~= none.push(a).push(b).push(c));
    let noted = match t.notes {
        Some(notes) => base.push(("notes"@, JsonValue::Text(notes))),
        None => base,
    };
    if let Some(notes) = t.notes {
        lemma_occurrences_push(base, ("notes"@, JsonValue::Text(notes)));
    }
    if let Some(hours) = t.hours {
        lemma_occurrences_push(noted, ("hours"@, JsonValue::Number(hours)));
    }
    let all = timer_json(t)->Record_0;
    assert(occurrences(all, "project_id"@) =~= seq![a.1]);
    assert(occurrences(all, "task_id"@) =~= seq![b.1]);
    assert(occurrences(all, "spent_date"@) =~= seq![c.1]);
    assert(occurrences(all, "notes"@) =~= match t.notes {
        Some(notes) => seq![JsonValue::Text(notes)],
        None => Seq::empty(),
    });
    assert(occurrences(all, "hours"@) =~= match t.hours {
        Some(hours) => seq![JsonValue::Number(hours)],
        None => Seq::empty(),
    });
}

/// Reading a time entry from a document and writing it again keeps the
/// identifier, the hours, the date and the state of the timer as the first
/// document had them.
pub proof fn law_rewrite_keeps(v: JsonValue)
    requires
        time_entry_of(v) is Some,
    ensures
        v is Record,
        time_entry_json(time_entry_of(v)->0) is Record,
        required(time_entry_json(time_entry_of(v)->0)->Record_0, "id"@) == required(
            v->Record_0,
            "id"@,
        ),
        required(time_entry_json(time_entry_of(v)->0)->Record_0, "hours"@) == required(
            v->Record_0,
            "hours"@,
        ),
        required(time_entry_json(time_entry_of(v)->0)->Record_0, "spent_date"@) == required(
            v->Record_0,
            "spent_date"@,
        ),
        required(time_entry_json(time_entry_of(v)->0)->Record_0, "is_running"@) == required(
            v->Record_0,
            "is_running"@,
        ),
        time_entry_of(time_entry_json(time_entry_of(v)->0)) == time_entry_of(v),
{
    let model = time_entry_of(v)->0;
    TimeEntry::law_read_back(model);
    let w = time_entry_json(model);
    let old_fields = v->Record_0;
    let new_fields = w->Record_0;
    assert(required_u32_at(new_fields, "id"@) == Some(model.id));
    assert(required_u32_at(old_fields, "id"@) == Some(model.id));
    assert(required_number_at(new_fields, "hours"@) == Some(model.hours));
    assert(required_number_at(old_fields, "hours"@) == Some(model.hours));
    assert(required_text_at(new_fields, "spent_date"@) == Some(
        model.spent_date,
    ));
    assert(required_text_at(old_fields, "spent_date"@) == Some(
        model.spent_date,
    ));
    assert(required_flag_at(new_fields, "is_running"@) == Some(
        model.is_running,
    ));
    assert(required_flag_at(old_fields, "is_running"@) == Some(
        model.is_running,
    ));
}

/// The document that starts a timer names the notes if and only if notes
/// were given, and the hours if and only if they are more than zero; what it
/// names is what was given.
pub proof fn law_start_payload(
    project_id: u32,
    task_id: u32,
    spent_date: Seq<char>,
    notes: Seq<char>,
    hours: Hours,
)
    ensures
        timer_json(started(project_id, task_id, spent_date, notes, hours)) is Record,
        occurrences(
            timer_json(started(project_id, task_id, spent_date, notes, hours))->Record_0,
            "notes"@,
        ) == if notes.len() > 0 {
            seq![JsonValue::Text(notes)]
        } else {
            Seq::empty()
        },
        occurrences(
            timer_json(started(project_id, task_id, spent_date, notes, hours))->Record_0,
            "hours"@,
        ) == if hours.positive() {
            seq![JsonValue::Number(hours)]
        } else {
            Seq::empty()
        },
{
    law_timer_members(started(project_id, task_id, spent_date, notes, hours));
}

} // verus!
