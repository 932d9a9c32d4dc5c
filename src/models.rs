//! Task records and the payloads that create and change them.
use vstd::prelude::*;

verus! {

/// Completion state of a task.
#[derive(Debug, Clone, Copy, PartialEq, Eq, Structural)]
pub enum Status {
    Pending,
    Completed,
}

/// Database text of each status.
pub open spec fn status_sql(s: Status) -> Seq<u8> {
    match s {
        Status::Pending => seq![0x70u8, 0x65, 0x6e, 0x64, 0x69, 0x6e, 0x67],
        Status::Completed => seq![0x63u8, 0x6f, 0x6d, 0x70, 0x6c, 0x65, 0x74, 0x65, 0x64],
    }
}

/// A database value that names no status.
#[derive(Debug, Clone, Copy, PartialEq, Eq, Structural)]
pub struct UnknownStatus;

fn bytes_equal(a: &[u8], b: &[u8]) -> (r: bool)
    ensures
        r == (a@ == b@),
{
    if a.len() != b.len() {
        return false;
    }
    let mut i: usize = 0;
    while i < a.len()
        invariant
            a@.len() == b@.len(),
            0 <= i <= a@.len(),
            forall|j: int| 0 <= j < i ==> a@[j] == b@[j],
        decreases a@.len() - i,
    {
        if a[i] != b[i] {
            return false;
        }
        i = i + 1;
    }
    assert(a@ =~= b@);
    true
}

impl Status {
    /// The bytes written to the database for this status.
    pub fn to_sql(&self) -> (r: Vec<u8>)
        ensures
            r@ == status_sql(*self),
    {
        match self {
            Status::Pending => vec![0x70u8, 0x65, 0x6e, 0x64, 0x69, 0x6e, 0x67],
            Status::Completed => vec![0x63u8, 0x6f, 0x6d, 0x70, 0x6c, 0x65, 0x74, 0x65, 0x64],
        }
    }

    /// Reads a status back from its database bytes; any other value is refused.
    pub fn from_sql(bytes: &[u8]) -> (r: Result<Status, UnknownStatus>)
        ensures
            r matches Ok(s) ==> status_sql(s) == bytes@,
            r is Err <==> (bytes@ != status_sql(Status::Pending) && bytes@ != status_sql(
                Status::Completed,
            )),
    {
        let pending = Status::Pending.to_sql();
        let completed = Status::Completed.to_sql();
        if bytes_equal(bytes, pending.as_slice()) {
            Ok(Status::Pending)
        } else if bytes_equal(bytes, completed.as_slice()) {
            Ok(Status::Completed)
        } else {
            Err(UnknownStatus)
        }
    }
}

/// A point in time, as microseconds since 1970-01-01 00:00:00.
#[derive(Debug, Clone, Copy, PartialEq, Eq, Structural)]
pub struct Timestamp {
    pub micros: i64,
}

/// A stored task.
#[derive(Debug)]
pub struct Task {
    pub id: i32,
    pub title: String,
    pub description: Option<String>,
    pub status: Status,
    pub created_at: Option<Timestamp>,
}

/// An optional string again, with the same value.
pub fn copy_text(s: &Option<String>) -> (r: Option<String>)
    ensures
        r == *s,
{
    match s {
        Some(t) => Some(t.clone()),
        None => None,
    }
}

impl Task {
    /// An equal task value, field for field.
    pub fn copied(&self) -> (r: Task)
        ensures
            r == *self,
    {
        Task {
            id: self.id,
            title: self.title.clone(),
            description: copy_text(&self.description),
            status: self.status,
            created_at: self.created_at,
        }
    }
}

/// The fields written when a task is inserted; storage assigns the rest.
#[derive(Debug)]
pub struct NewTask {
    pub title: String,
    pub description: Option<String>,
    pub status: Status,
}

impl NewTask {
    /// The row to insert for a create request: its status is always pending.
    pub fn pending(dto: CreateTaskDto) -> (r: NewTask)
        ensures
            r.title == dto.title,
            r.description == dto.description,
            r.status == Status::Pending,
    {
        NewTask { title: dto.title, description: dto.description, status: Status::Pending }
    }
}

/// One violated field rule: the field's name and the rule's message.
#[derive(Debug)]
pub struct FieldError {
    pub field: String,
    pub message: String,
}

impl FieldError {
    pub open spec fn view(&self) -> (Seq<char>, Seq<char>) {
        (self.field@, self.message@)
    }
}

/// Every rule that an input broke, in field order.
#[derive(Debug)]
pub struct ValidationErrors {
    pub errors: Vec<FieldError>,
}

impl ValidationErrors {
    pub open spec fn view(&self) -> Seq<(Seq<char>, Seq<char>)> {
        self.errors@.map_values(|e: FieldError| e@)
    }

    /// Whether some violation names `field`.
    pub open spec fn has_field(&self, field: Seq<char>) -> bool {
        exists|i: int| 0 <= i < self@.len() && #[trigger] self@[i].0 == field
    }
}

pub open spec fn title_message() -> Seq<char> {
    "Title must  not be empty"@
}

pub open spec fn description_message() -> Seq<char> {
    "Description must not be empty"@
}

/// An optional text field breaks its rule when it is present and empty.
pub open spec fn empty_if_present(s: Option<String>) -> bool {
    s matches Some(t) && t@.len() == 0
}

/// The violations of a title (`title_bad`) and a description rule, in that order.
pub open spec fn violations(title_bad: bool, description_bad: bool) -> Seq<(Seq<char>, Seq<char>)> {
    let t = if title_bad {
        seq![("title"@, title_message())]
    } else {
        Seq::empty()
    };
    if description_bad {
        t.push(("description"@, description_message()))
    } else {
        t
    }
}

fn is_empty_text(s: &String) -> (r: bool)
    ensures
        r == (s@.len() == 0),
{
    s.as_str().unicode_len() == 0
}

fn is_empty_if_present(s: &Option<String>) -> (r: bool)
    ensures
        r == empty_if_present(*s),
{
    match s {
        Some(t) => is_empty_text(t),
        None => false,
    }
}

fn collect_violations(title_bad: bool, description_bad: bool) -> (r: Result<(), ValidationErrors>)
    ensures
        r is Ok <==> (!title_bad && !description_bad),
        r matches Err(e) ==> e@ == violations(title_bad, description_bad),
{
    let mut errors: Vec<FieldError> = Vec::new();
    if title_bad {
        errors.push(
            FieldError {
                field: String::from_str("title"),
                message: String::from_str("Title must  not be empty"),
            },
        );
    }
    if description_bad {
        errors.push(
            FieldError {
                field: String::from_str("description"),
                message: String::from_str("Description must not be empty"),
            },
        );
    }
    if errors.len() == 0 {
        Ok(())
    } else {
        let r = ValidationErrors { errors };
        assert(r@ =~= violations(title_bad, description_bad));
        Err(r)
    }
}

/// Input for creating a task.
#[derive(Debug)]
pub struct CreateTaskDto {
    pub title: String,
    pub description: Option<String>,
}

impl CreateTaskDto {
    /// Checks that the title is non-empty and the description, if present,
    /// is non-empty; reports every violated field together.
    pub fn validate(&self) -> (r: Result<(), ValidationErrors>)
        ensures
            r is Ok <==> (self.title@.len() > 0 && !empty_if_present(self.description)),
            r matches Err(e) ==> e@ == violations(
                self.title@.len() == 0,
                empty_if_present(self.description),
            ),
    {
        let title_bad = is_empty_text(&self.title);
        let description_bad = is_empty_if_present(&self.description);
        collect_violations(title_bad, description_bad)
    }
}

/// Input for changing a task: only the fields that are present are applied.
#[derive(Debug)]
pub struct UpdateTaskDto {
    pub title: Option<String>,
    pub description: Option<String>,
    pub status: Option<Status>,
}

/// The task after the present fields of `changes` replaced its own.
pub open spec fn merged(changes: UpdateTaskDto, t: Task) -> Task {
    Task {
        id: t.id,
        title: match changes.title {
            Some(s) => s,
            None => t.title,
        },
        description: match changes.description {
            Some(s) => Some(s),
            None => t.description,
        },
        status: match changes.status {
            Some(s) => s,
            None => t.status,
        },
        created_at: t.created_at,
    }
}

impl UpdateTaskDto {
    /// Checks that each present text field is non-empty; reports every
    /// violated field together.
    pub fn validate(&self) -> (r: Result<(), ValidationErrors>)
        ensures
            r is Ok <==> (!empty_if_present(self.title) && !empty_if_present(self.description)),
            r matches Err(e) ==> e@ == violations(
                empty_if_present(self.title),
                empty_if_present(self.description),
            ),
    {
        let title_bad = is_empty_if_present(&self.title);
        let description_bad = is_empty_if_present(&self.description);
        collect_violations(title_bad, description_bad)
    }

    /// Applies the present fields to `t` and keeps the others.
    pub fn apply_to(&self, t: Task) -> (r: Task)
        ensures
            r == merged(*self, t),
    {
        let mut t = t;
        match &self.title {
            Some(s) => {
                t.title = s.clone();
            },
            None => {},
        }
        match &self.description {
            Some(s) => {
                t.description = Some(s.clone());
            },
            None => {},
        }
        match self.status {
            Some(s) => {
                t.status = s;
            },
            None => {},
        }
        t
    }
}

/// Updating the status alone keeps the title and the description.
pub proof fn lemma_status_only_update(t: Task, s: Status)
    ensures
        merged(UpdateTaskDto { title: None, description: None, status: Some(s) }, t) == (Task {
            status: s,
            ..t
        }),
        merged(UpdateTaskDto { title: None, description: None, status: Some(s) }, t).title
            == t.title,
        merged(UpdateTaskDto { title: None, description: None, status: Some(s) }, t).description
            == t.description,
{
}

} // verus!
