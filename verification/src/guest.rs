//! The guest component.
//!
//! A component is built once, with or without the host's logging capability,
//! and from then on answers each call on its own: it keeps nothing from one
//! call to the next.
//!
//! An addition of integers is done whole by [`Component::add`]. For
//! floating-point operands the component decides and reports, and its caller
//! computes: [`Component::divide_step`] says whether a division is given up
//! or goes ahead, and [`Component::completed`] reports a call once its result
//! is known. A record that the component hands back is for the caller to
//! pass to the host's log, before the call returns or is given up.
use vstd::prelude::*;
use crate::decimal::{decimal_text, render};
use crate::ieee::{FloatBits, SIGN_32, SIGN_64};
use crate::integer::wrapped_sum;
use crate::record::{fault_record, success_record, Level, LogRecord, Operation, RecordView};

verus! {

/// What is to be done with a division once its divisor has been looked at.
#[derive(Debug)]
pub enum DivideStep {
    /// The divisor is a zero. The call is given up: it returns no value, and
    /// the record, if there is one, is logged just before.
    Trap { record: Option<LogRecord> },
    /// The divisor is not a zero. The quotient is to be computed, and the
    /// call then reported with [`Component::completed`].
    Compute,
}

/// An arithmetic guest, with or without a log to write to.
#[derive(Clone, Copy, Debug)]
pub struct Component {
    logging: bool,
}

/// Whether `got` is what a component hands back when `expected` is the record
/// of the call: that record if it logs, and nothing if it does not.
pub open spec fn emitted(logging: bool, expected: RecordView, got: Option<LogRecord>) -> bool {
    match got {
        Some(record) => logging && record@ == expected,
        None => !logging,
    }
}

impl Component {
    /// Whether the component was built with the logging capability.
    pub closed spec fn logs(&self) -> bool {
        self.logging
    }

    /// Whether `out` is the outcome of adding `a` and `b`: the wrapped sum,
    /// and with it the record of the call.
    pub open spec fn adds(&self, a: i32, b: i32, out: (i32, Option<LogRecord>)) -> bool {
        &&& out.0 == wrapped_sum(a as int, b as int)
        &&& emitted(
            self.logs(),
            success_record(
                Operation::Add,
                decimal_text(a as int),
                decimal_text(b as int),
                decimal_text(out.0 as int),
            ),
            out.1,
        )
    }

    /// Whether `step` is what follows for a division by `divisor`: a trap
    /// with the record of the fault if the divisor is a zero, and the
    /// computation if it is not.
    pub open spec fn divides(&self, divisor: FloatBits, step: DivideStep) -> bool {
        match step {
            DivideStep::Trap { record } => divisor.is_zero() && emitted(
                self.logs(),
                fault_record(),
                record,
            ),
            DivideStep::Compute => !divisor.is_zero(),
        }
    }

    /// Builds a component. `logging` says whether the host lends it a log.
    pub fn new(logging: bool) -> (component: Component)
        ensures
            component.logs() == logging,
    {
        Component { logging }
    }

    /// Whether the component was built with the logging capability.
    pub fn has_log(&self) -> (logging: bool)
        ensures
            logging == self.logs(),
    {
        self.logging
    }

    /// Adds two 32-bit signed integers, wrapping around on overflow, and
    /// reports the call.
    pub fn add(&self, a: i32, b: i32) -> (out: (i32, Option<LogRecord>))
        ensures
            self.adds(a, b, out),
    {
        let sum = crate::integer::add(a, b);
        if self.logging {
            let shown_a = render(a);
            let shown_b = render(b);
            let shown_sum = render(sum);
            let record = LogRecord::success(
                Operation::Add,
                shown_a.as_str(),
                shown_b.as_str(),
                shown_sum.as_str(),
            );
            (sum, Some(record))
        } else {
            (sum, None)
        }
    }

    /// Decides a division from the bits of its divisor. The dividend has no
    /// part in the decision.
    pub fn divide_step(&self, divisor: FloatBits) -> (step: DivideStep)
        ensures
            self.divides(divisor, step),
    {
        if !divisor.is_zero() {
            DivideStep::Compute
        } else if self.logging {
            DivideStep::Trap { record: Some(LogRecord::division_by_zero()) }
        } else {
            DivideStep::Trap { record: None }
        }
    }

    /// Reports a call that returned. The operands and the result come as the
    /// text in which they are to be shown.
    pub fn completed(
        &self,
        op: Operation,
        a: &str,
        b: &str,
        result: &str,
    ) -> (record: Option<LogRecord>)
        ensures
            emitted(self.logs(), success_record(op, a@, b@, result@), record),
    {
        if self.logging {
            Some(LogRecord::success(op, a, b, result))
        } else {
            None
        }
    }
}

/// A call hands back one record if the component logs and none if it does
/// not, and the record is the one that belongs to the call.
pub proof fn lemma_one_record_iff_logging(
    logging: bool,
    expected: RecordView,
    got: Option<LogRecord>,
)
    requires
        emitted(logging, expected, got),
    ensures
        got is Some <==> logging,
        got matches Some(record) ==> record@ == expected,
{
}

/// A call that returns is reported as information, whatever the operation
/// and the operands; a division that is given up is reported as an error.
pub proof fn lemma_record_levels(op: Operation, a: Seq<char>, b: Seq<char>, result: Seq<char>)
    ensures
        success_record(op, a, b, result).level == Level::Info,
        fault_record().level == Level::Error,
{
}

/// Adding the same operands on the same component twice gives the same sum
/// and the same record.
pub proof fn lemma_add_repeats(
    component: Component,
    a: i32,
    b: i32,
    first: (i32, Option<LogRecord>),
    second: (i32, Option<LogRecord>),
)
    requires
        component.adds(a, b, first),
        component.adds(a, b, second),
    ensures
        first.0 == second.0,
        first.1 is Some <==> second.1 is Some,
        first.1 is Some ==> first.1->0@ == second.1->0@,
{
}

/// Deciding the same division on the same component twice gives the same
/// step and the same record.
pub proof fn lemma_divide_repeats(
    component: Component,
    divisor: FloatBits,
    first: DivideStep,
    second: DivideStep,
)
    requires
        component.divides(divisor, first),
        component.divides(divisor, second),
    ensures
        first is Trap <==> second is Trap,
        first is Trap ==> (first->record is Some <==> second->record is Some),
        first is Trap && first->record is Some ==> first->record->0@ == second->record->0@,
{
}

/// A division is given up exactly when its divisor is a zero, and never
/// both given up and computed.
pub proof fn lemma_trap_iff_zero(component: Component, divisor: FloatBits, step: DivideStep)
    requires
        component.divides(divisor, step),
    ensures
        step is Trap <==> divisor.is_zero(),
        step is Compute <==> !divisor.is_zero(),
{
}

/// Both zeros of a precision, the positive and the negative, make a
/// division trap.
pub proof fn lemma_both_zeros_trap(component: Component, divisor: FloatBits, step: DivideStep)
    requires
        divisor == FloatBits::Single(0) || divisor == FloatBits::Single(SIGN_32) || divisor
            == FloatBits::Double(0) || divisor == FloatBits::Double(SIGN_64),
        component.divides(divisor, step),
    ensures
        step is Trap,
{
}

/// A divisor that is a NaN does not make a division trap.
pub proof fn lemma_nan_divisor_computes(
    component: Component,
    divisor: FloatBits,
    step: DivideStep,
)
    requires
        divisor.is_nan(),
        component.divides(divisor, step),
    ensures
        step is Compute,
{
}

} // verus!
