//! The closed set of failures and the response each one becomes.
use vstd::prelude::*;
use crate::models::{FieldError, ValidationErrors};
use crate::store::StoreError;

verus! {

/// What a request can fail with.
#[derive(Debug)]
pub enum TaskError {
    NotFound(String),
    ValidationError(ValidationErrors),
    DatabaseError(String),
    BlockingError(String),
    InternalError(String),
}

/// The JSON body of an error response; `details` only for invalid input.
#[derive(Debug)]
pub struct ErrorResponse {
    pub code: String,
    pub message: String,
    pub details: Option<ValidationErrors>,
}

/// The decimal digit `d`.
pub open spec fn digit(d: nat) -> char {
    seq!['0', '1', '2', '3', '4', '5', '6', '7', '8', '9'][d as int]
}

/// Decimal digits of `n`, most significant first, without leading zeros.
pub open spec fn digits(n: nat) -> Seq<char>
    decreases n,
{
    if n < 10 {
        seq![digit(n)]
    } else {
        digits(n / 10).push(digit(n % 10))
    }
}

/// `n` written in decimal, with a leading '-' when negative.
pub open spec fn decimal(n: int) -> Seq<char> {
    if n < 0 {
        seq!['-'] + digits((-n) as nat)
    } else {
        digits(n as nat)
    }
}

/// The message of a missing task.
pub open spec fn not_found_text(id: i32) -> Seq<char> {
    "Task with id "@ + decimal(id as int) + " not found"@
}

/// The decimal digit `d` as text.
fn digit_text(d: u32) -> (r: &'static str)
    requires
        d < 10,
    ensures
        r@ == seq![digit(d as nat)],
{
    proof {
        reveal_strlit("0");
        reveal_strlit("1");
        reveal_strlit("2");
        reveal_strlit("3");
        reveal_strlit("4");
        reveal_strlit("5");
        reveal_strlit("6");
        reveal_strlit("7");
        reveal_strlit("8");
        reveal_strlit("9");
    }
    let r = if d == 0 {
        "0"
    } else if d == 1 {
        "1"
    } else if d == 2 {
        "2"
    } else if d == 3 {
        "3"
    } else if d == 4 {
        "4"
    } else if d == 5 {
        "5"
    } else if d == 6 {
        "6"
    } else if d == 7 {
        "7"
    } else if d == 8 {
        "8"
    } else {
        "9"
    };
    assert(r@ =~= seq![digit(d as nat)]);
    r
}

/// Decimal digits of `n`, most significant first.
fn digits_text(n: u32) -> (r: String)
    ensures
        r@ == digits(n as nat),
    decreases n,
{
    if n < 10 {
        String::from_str(digit_text(n))
    } else {
        let high = digits_text(n / 10);
        let r = high.concat(digit_text(n % 10));
        assert(r@ =~= digits((n / 10) as nat).push(digit((n % 10) as nat)));
        r
    }
}

/// `n` written in decimal, with a leading '-' when negative.
pub fn decimal_text(n: i32) -> (r: String)
    ensures
        r@ == decimal(n as int),
{
    if n < 0 {
        let magnitude: u32 = if n == i32::MIN {
            2147483648u32
        } else {
            (-n) as u32
        };
        let d = digits_text(magnitude);
        proof {
            reveal_strlit("-");
        }
        let r = String::from_str("-").concat(d.as_str());
        assert(r@ =~= seq!['-'] + digits((-(n as int)) as nat));
        r
    } else {
        digits_text(n as u32)
    }
}

/// The message of a missing task, naming its id.
fn not_found_message(id: i32) -> (r: String)
    ensures
        r@ == not_found_text(id),
{
    let number = decimal_text(id);
    let r = String::from_str("Task with id ").concat(number.as_str()).concat(" not found");
    r
}

/// HTTP status of each kind of failure.
pub open spec fn status_of(e: TaskError) -> u16 {
    match e {
        TaskError::NotFound(_) => 404,
        TaskError::ValidationError(_) => 400,
        TaskError::DatabaseError(_) => 500,
        TaskError::BlockingError(_) => 503,
        TaskError::InternalError(_) => 500,
    }
}

/// Machine-readable code of each kind of failure.
pub open spec fn code_of(e: TaskError) -> Seq<char> {
    match e {
        TaskError::NotFound(_) => "NOT_FOUND"@,
        TaskError::ValidationError(_) => "VALIDATION_ERROR"@,
        TaskError::DatabaseError(_) => "DATABASE_ERROR"@,
        TaskError::BlockingError(_) => "SERVICE_UNAVAILABLE"@,
        TaskError::InternalError(_) => "INTERNAL_ERROR"@,
    }
}

/// Message shown to the caller: a missing task names itself, every other
/// kind gets a fixed text that reveals nothing of the cause.
pub open spec fn message_of(e: TaskError) -> Seq<char> {
    match e {
        TaskError::NotFound(m) => m@,
        TaskError::ValidationError(_) => "Invalid input data"@,
        TaskError::DatabaseError(_) => "Database operation failed"@,
        TaskError::BlockingError(_) => "Service temporarily unavailable"@,
        TaskError::InternalError(_) => "An unexpected error occurred"@,
    }
}

/// One violation as `field: message`.
pub open spec fn entry_text(e: (Seq<char>, Seq<char>)) -> Seq<char> {
    e.0 + ": "@ + e.1
}

/// The violations as `field: message` entries joined by "; ".
pub open spec fn summary(s: Seq<(Seq<char>, Seq<char>)>) -> Seq<char>
    decreases s.len(),
{
    if s.len() == 0 {
        Seq::empty()
    } else if s.len() == 1 {
        entry_text(s[0])
    } else {
        summary(s.drop_last()) + "; "@ + entry_text(s.last())
    }
}

/// Human-readable text of each failure, with its cause.
pub open spec fn description_of(e: TaskError) -> Seq<char> {
    match e {
        TaskError::NotFound(m) => "Not found: "@ + m@,
        TaskError::ValidationError(v) => "Validation error: "@ + summary(v@),
        TaskError::DatabaseError(m) => "Database error: "@ + m@,
        TaskError::BlockingError(m) => "Blocking error: "@ + m@,
        TaskError::InternalError(m) => "Internal error: "@ + m@,
    }
}

impl FieldError {
    pub fn copied(&self) -> (r: FieldError)
        ensures
            r@ == self@,
    {
        FieldError { field: self.field.clone(), message: self.message.clone() }
    }
}

impl ValidationErrors {
    pub fn copied(&self) -> (r: ValidationErrors)
        ensures
            r@ == self@,
    {
        let mut out: Vec<FieldError> = Vec::new();
        let mut i: usize = 0;
        while i < self.errors.len()
            invariant
                0 <= i <= self.errors@.len(),
                out@.len() == i,
                forall|j: int| 0 <= j < i ==> (#[trigger] out@[j])@ == self.errors@[j]@,
            decreases self.errors@.len() - i,
        {
            out.push(self.errors[i].copied());
            i = i + 1;
        }
        let r = ValidationErrors { errors: out };
        assert(r@ =~= self@);
        r
    }

    /// The violations as `field: message` entries joined by "; ".
    pub fn summary(&self) -> (r: String)
        ensures
            r@ == summary(self@),
    {
        let mut out = String::new();
        let mut i: usize = 0;
        while i < self.errors.len()
            invariant
                0 <= i <= self.errors@.len(),
                out@ == summary(self@.subrange(0, i as int)),
            decreases self.errors@.len() - i,
        {
            let e = &self.errors[i];
            proof {
                let s = self@.subrange(0, i as int + 1);
                assert(s.drop_last() =~= self@.subrange(0, i as int));
                assert(s.last() == e@);
            }
            if i > 0 {
                out.append("; ");
            }
            out.append(e.field.as_str());
            out.append(": ");
            out.append(e.message.as_str());
            i = i + 1;
            proof {
                let s = self@.subrange(0, i as int);
                if i == 1 {
                    assert(out@ =~= entry_text(s[0]));
                } else {
                    assert(out@ =~= summary(s.drop_last()) + "; "@ + entry_text(s.last()));
                }
            }
        }
        assert(self@.subrange(0, i as int) =~= self@);
        out
    }
}

/// The failure for a lookup of `id` that the table refused.
pub fn lookup_error(id: i32, e: StoreError) -> (r: TaskError)
    ensures
        e is NotFound ==> (r matches TaskError::NotFound(m) && m@ == not_found_text(id)),
        e matches StoreError::Failed(m) ==> (r matches TaskError::DatabaseError(d) && d@ == m@),
{
    match e {
        StoreError::NotFound => TaskError::NotFound(not_found_message(id)),
        StoreError::Failed(m) => TaskError::DatabaseError(m),
    }
}

/// The failure of a create request that got no database connection within
/// the pool's wait budget: the service is unavailable for now.
pub fn pool_timeout() -> (r: TaskError)
    ensures
        r matches TaskError::BlockingError(m) && m@ == "no database connection within the pool's wait"@,
        status_of(r) == 503,
        code_of(r) == "SERVICE_UNAVAILABLE"@,
{
    TaskError::BlockingError(String::from_str("no database connection within the pool's wait"))
}

/// The failure when no database connection could be had.
pub fn connection_failed() -> (r: TaskError)
    ensures
        r matches TaskError::InternalError(m) && m@ == "Database connection error"@,
        status_of(r) == 500,
        code_of(r) == "INTERNAL_ERROR"@,
{
    TaskError::InternalError(String::from_str("Database connection error"))
}

impl TaskError {
    /// HTTP status of this failure.
    pub fn status_code(&self) -> (r: u16)
        ensures
            r == status_of(*self),
    {
        match self {
            TaskError::NotFound(_) => 404,
            TaskError::ValidationError(_) => 400,
            TaskError::DatabaseError(_) => 500,
            TaskError::BlockingError(_) => 503,
            TaskError::InternalError(_) => 500,
        }
    }

    /// The response body of this failure.
    pub fn error_response(&self) -> (r: ErrorResponse)
        ensures
            r.code@ == code_of(*self),
            r.message@ == message_of(*self),
            self matches TaskError::ValidationError(v) ==> (r.details matches Some(d) && d@ == v@),
            !(self is ValidationError) ==> r.details is None,
    {
        match self {
            TaskError::NotFound(m) => ErrorResponse {
                code: String::from_str("NOT_FOUND"),
                message: m.clone(),
                details: None,
            },
            TaskError::ValidationError(v) => ErrorResponse {
                code: String::from_str("VALIDATION_ERROR"),
                message: String::from_str("Invalid input data"),
                details: Some(v.copied()),
            },
            TaskError::DatabaseError(_) => ErrorResponse {
                code: String::from_str("DATABASE_ERROR"),
                message: String::from_str("Database operation failed"),
                details: None,
            },
            TaskError::BlockingError(_) => ErrorResponse {
                code: String::from_str("SERVICE_UNAVAILABLE"),
                message: String::from_str("Service temporarily unavailable"),
                details: None,
            },
            TaskError::InternalError(_) => ErrorResponse {
                code: String::from_str("INTERNAL_ERROR"),
                message: String::from_str("An unexpected error occurred"),
                details: None,
            },
        }
    }

    /// Text of this failure with its cause, for the server's own log.
    pub fn describe(&self) -> (r: String)
        ensures
            r@ == description_of(*self),
    {
        match self {
            TaskError::NotFound(m) => String::from_str("Not found: ").concat(m.as_str()),
            TaskError::ValidationError(v) => {
                let s = v.summary();
                String::from_str("Validation error: ").concat(s.as_str())
            },
            TaskError::DatabaseError(m) => String::from_str("Database error: ").concat(m.as_str()),
            TaskError::BlockingError(m) => String::from_str("Blocking error: ").concat(m.as_str()),
            TaskError::InternalError(m) => String::from_str("Internal error: ").concat(m.as_str()),
        }
    }
}

} // verus!
