//! The log records that accompany a call.
//!
//! A record names its severity, the operation it comes from and a message for
//! a human reader. A call that returns a value is reported at level `Info`,
//! with the operands and the result; a division that is given up is reported
//! at level `Error`.
use vstd::prelude::*;

verus! {

/// How serious a record is.
#[derive(Clone, Copy, PartialEq, Eq, Structural, Debug)]
pub enum Level {
    /// The call returned a value.
    Info,
    /// The call was given up.
    Error,
}

/// The operations that the guest exports.
#[derive(Clone, Copy, PartialEq, Eq, Structural, Debug)]
pub enum Operation {
    Add,
    Divide,
}

/// One record for the host's log.
#[derive(Debug)]
pub struct LogRecord {
    pub level: Level,
    /// Which operation of the guest the record comes from.
    pub source: String,
    pub message: String,
}

/// A record as contracts speak of it.
pub struct RecordView {
    pub level: Level,
    pub source: Seq<char>,
    pub message: Seq<char>,
}

impl View for LogRecord {
    type V = RecordView;

    open spec fn view(&self) -> RecordView {
        RecordView { level: self.level, source: self.source@, message: self.message@ }
    }
}

/// The tag under which an operation's records are filed.
pub open spec fn source_tag(op: Operation) -> Seq<char> {
    match op {
        Operation::Add => "guest:add"@,
        Operation::Divide => "guest:divide"@,
    }
}

/// The sign of an operation as it stands between the operands, with a space
/// on either side.
pub open spec fn operator_text(op: Operation) -> Seq<char> {
    match op {
        Operation::Add => " + "@,
        Operation::Divide => " / "@,
    }
}

/// The message of a call that returned: the operands around the operation's
/// sign, an equals sign, and the result.
pub open spec fn success_text(
    op: Operation,
    a: Seq<char>,
    b: Seq<char>,
    result: Seq<char>,
) -> Seq<char> {
    a + operator_text(op) + b + " = "@ + result
}

/// The message of a division that was given up.
pub open spec fn fault_text() -> Seq<char> {
    "Division by zero error"@
}

/// The record of a call that returned `result` for the operands `a` and `b`.
pub open spec fn success_record(
    op: Operation,
    a: Seq<char>,
    b: Seq<char>,
    result: Seq<char>,
) -> RecordView {
    RecordView {
        level: Level::Info,
        source: source_tag(op),
        message: success_text(op, a, b, result),
    }
}

/// The record of a division by zero.
pub open spec fn fault_record() -> RecordView {
    RecordView {
        level: Level::Error,
        source: source_tag(Operation::Divide),
        message: fault_text(),
    }
}

impl Operation {
    /// The tag under which this operation's records are filed.
    pub fn tag(self) -> (tag: &'static str)
        ensures
            tag@ == source_tag(self),
    {
        match self {
            Operation::Add => "guest:add",
            Operation::Divide => "guest:divide",
        }
    }

    /// The operation's sign with a space on either side.
    pub fn sign(self) -> (sign: &'static str)
        ensures
            sign@ == operator_text(self),
    {
        match self {
            Operation::Add => " + ",
            Operation::Divide => " / ",
        }
    }
}

impl LogRecord {
    /// The record of a call that returned. The operands and the result come
    /// as the text in which they are to be shown.
    pub fn success(op: Operation, a: &str, b: &str, result: &str) -> (record: LogRecord)
        ensures
            record@ == success_record(op, a@, b@, result@),
    {
        let mut message = String::from_str(a);
        message.append(op.sign());
        message.append(b);
        message.append(" = ");
        message.append(result);
        LogRecord { level: Level::Info, source: String::from_str(op.tag()), message }
    }

    /// The record of a division by zero.
    pub fn division_by_zero() -> (record: LogRecord)
        ensures
            record@ == fault_record(),
    {
        LogRecord {
            level: Level::Error,
            source: String::from_str(Operation::Divide.tag()),
            message: String::from_str("Division by zero error"),
        }
    }
}

} // verus!
