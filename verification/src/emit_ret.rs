//! From the shape of a return type to what is done with the returned
//! value: how it is opened, how its payload is published, and what happens
//! to an error.

use vstd::prelude::*;
use crate::analyze::RetCase;

verus! {

/// How a returned value is opened to reach its payloads.
#[derive(Clone, Copy, Debug, PartialEq, Eq, Structural)]
pub enum Unwrap {
    /// The value is the payload, or there is none.
    Plain,
    /// `Option`: a payload when `Some`.
    Optional,
    /// `Result`: a payload when `Ok`.
    Fallible,
    /// `Result<Option>`: a payload when `Ok(Some)`.
    FallibleOptional,
    /// `Vec`: each element is a payload.
    Each,
}

/// By which path of the bus a payload is published.
#[derive(Clone, Copy, Debug, PartialEq, Eq, Structural)]
pub enum Payload {
    /// Nothing is published.
    Nothing,
    /// Published under its static type.
    Typed,
    /// An erased event, published by the function it carries.
    Erased,
    /// A boxed value, published under its run-time type.
    AnyBox,
    /// A shared value, published under its run-time type.
    AnyArc,
}

/// What is done when the method returns an error.
#[derive(Clone, Copy, Debug, PartialEq, Eq, Structural)]
pub enum OnError {
    /// The method cannot return an error.
    Never,
    /// The error is logged as a warning and the caller goes on.
    Warn,
    /// The error is logged, the startup barrier is marked failed and the
    /// component exits with the error.
    Abort,
}

/// What is done with the value that a method returns.
#[derive(Clone, Copy, Debug, PartialEq, Eq, Structural)]
pub struct RetPlan {
    pub unwrap: Unwrap,
    pub payload: Payload,
    pub on_error: OnError,
}

/// How a value of the case `rc` is opened.
pub open spec fn unwrap_of(rc: RetCase) -> Unwrap {
    match rc {
        RetCase::Unit | RetCase::Value | RetCase::Erased | RetCase::AnyBox | RetCase::AnyArc =>
            Unwrap::Plain,
        RetCase::OptionSome | RetCase::OptionErased | RetCase::OptionAnyBox | RetCase::OptionAnyArc =>
            Unwrap::Optional,
        RetCase::ResultUnit | RetCase::ResultSome | RetCase::ResultAnyBox | RetCase::ResultAnyArc =>
            Unwrap::Fallible,
        RetCase::ResultOption => Unwrap::FallibleOptional,
        RetCase::VecErased => Unwrap::Each,
    }
}

/// By which path a payload of the case `rc` is published.
pub open spec fn payload_of(rc: RetCase) -> Payload {
    match rc {
        RetCase::Unit | RetCase::ResultUnit => Payload::Nothing,
        RetCase::Value | RetCase::OptionSome | RetCase::ResultSome | RetCase::ResultOption =>
            Payload::Typed,
        RetCase::Erased | RetCase::OptionErased | RetCase::VecErased => Payload::Erased,
        RetCase::AnyBox | RetCase::OptionAnyBox | RetCase::ResultAnyBox => Payload::AnyBox,
        RetCase::AnyArc | RetCase::OptionAnyArc | RetCase::ResultAnyArc => Payload::AnyArc,
    }
}

/// The plan for the case `rc`. Only an init hook aborts on an error; every
/// other caller warns and goes on.
pub open spec fn ret_plan(rc: RetCase, abort_on_error: bool) -> RetPlan {
    let unwrap = unwrap_of(rc);
    RetPlan {
        unwrap,
        payload: payload_of(rc),
        on_error: if unwrap == Unwrap::Fallible || unwrap == Unwrap::FallibleOptional {
            if abort_on_error {
                OnError::Abort
            } else {
                OnError::Warn
            }
        } else {
            OnError::Never
        },
    }
}

/// The plan for what a method of the case `rc` returns; the code that
/// handles the returned value is written from it.
pub fn gen_ret_case_tokens(rc: RetCase, abort_on_error: bool) -> (plan: RetPlan)
    ensures
        plan == ret_plan(rc, abort_on_error),
{
    let on_error = if abort_on_error {
        OnError::Abort
    } else {
        OnError::Warn
    };
    match rc {
        RetCase::Unit => RetPlan {
            unwrap: Unwrap::Plain,
            payload: Payload::Nothing,
            on_error: OnError::Never,
        },
        RetCase::ResultUnit => RetPlan {
            unwrap: Unwrap::Fallible,
            payload: Payload::Nothing,
            on_error,
        },
        RetCase::Value => RetPlan {
            unwrap: Unwrap::Plain,
            payload: Payload::Typed,
            on_error: OnError::Never,
        },
        RetCase::OptionSome => RetPlan {
            unwrap: Unwrap::Optional,
            payload: Payload::Typed,
            on_error: OnError::Never,
        },
        RetCase::ResultSome => RetPlan { unwrap: Unwrap::Fallible, payload: Payload::Typed, on_error },
        RetCase::ResultOption => RetPlan {
            unwrap: Unwrap::FallibleOptional,
            payload: Payload::Typed,
            on_error,
        },
        RetCase::Erased => RetPlan {
            unwrap: Unwrap::Plain,
            payload: Payload::Erased,
            on_error: OnError::Never,
        },
        RetCase::OptionErased => RetPlan {
            unwrap: Unwrap::Optional,
            payload: Payload::Erased,
            on_error: OnError::Never,
        },
        RetCase::VecErased => RetPlan {
            unwrap: Unwrap::Each,
            payload: Payload::Erased,
            on_error: OnError::Never,
        },
        RetCase::AnyBox => RetPlan {
            unwrap: Unwrap::Plain,
            payload: Payload::AnyBox,
            on_error: OnError::Never,
        },
        RetCase::AnyArc => RetPlan {
            unwrap: Unwrap::Plain,
            payload: Payload::AnyArc,
            on_error: OnError::Never,
        },
        RetCase::OptionAnyBox => RetPlan {
            unwrap: Unwrap::Optional,
            payload: Payload::AnyBox,
            on_error: OnError::Never,
        },
        RetCase::OptionAnyArc => RetPlan {
            unwrap: Unwrap::Optional,
            payload: Payload::AnyArc,
            on_error: OnError::Never,
        },
        RetCase::ResultAnyBox => RetPlan {
            unwrap: Unwrap::Fallible,
            payload: Payload::AnyBox,
            on_error,
        },
        RetCase::ResultAnyArc => RetPlan {
            unwrap: Unwrap::Fallible,
            payload: Payload::AnyArc,
            on_error,
        },
    }
}

/// What one call of a method gave back: whether it is an error, and how
/// many payloads the value holds.
#[derive(Clone, Copy, Debug, PartialEq, Eq, Structural)]
pub struct Outcome {
    pub failed: bool,
    pub payloads: usize,
}

/// What follows from an error.
#[derive(Clone, Copy, Debug, PartialEq, Eq, Structural)]
pub enum Failure {
    /// There was no error.
    Nothing,
    /// The error was logged; the caller goes on.
    Logged,
    /// The startup barrier is marked failed and the component exits with
    /// the error.
    Aborted,
}

/// What handling a returned value does: how many publications it makes, by
/// which path, and what follows from an error.
#[derive(Clone, Copy, Debug, PartialEq, Eq, Structural)]
pub struct Effect {
    pub publications: usize,
    pub path: Payload,
    pub failure: Failure,
}

/// Whether a value with this outcome can come from a method whose return
/// type is opened as `unwrap` and carries `payload`.
pub open spec fn fits(plan: RetPlan, outcome: Outcome) -> bool {
    let full: usize = if plan.payload == Payload::Nothing {
        0
    } else {
        1
    };
    match plan.unwrap {
        Unwrap::Plain => !outcome.failed && outcome.payloads == full,
        Unwrap::Optional => !outcome.failed && outcome.payloads <= full,
        Unwrap::Fallible => if outcome.failed {
            outcome.payloads == 0
        } else {
            outcome.payloads == full
        },
        Unwrap::FallibleOptional => if outcome.failed {
            outcome.payloads == 0
        } else {
            outcome.payloads <= full
        },
        Unwrap::Each => !outcome.failed,
    }
}

/// The effect of handling a value with this outcome under `plan`: every
/// payload of a value that is no error is published, an error publishes
/// nothing.
pub open spec fn effect_of(plan: RetPlan, outcome: Outcome) -> Effect {
    if outcome.failed {
        Effect {
            publications: 0,
            path: plan.payload,
            failure: if plan.on_error == OnError::Abort {
                Failure::Aborted
            } else {
                Failure::Logged
            },
        }
    } else {
        Effect {
            publications: if plan.payload == Payload::Nothing {
                0
            } else {
                outcome.payloads
            },
            path: plan.payload,
            failure: Failure::Nothing,
        }
    }
}

/// Handles what a method returned: tells how many publications to make and
/// what to do about an error.
pub fn dispatch(plan: RetPlan, outcome: Outcome) -> (effect: Effect)
    ensures
        effect == effect_of(plan, outcome),
{
    if outcome.failed {
        let failure = match plan.on_error {
            OnError::Abort => Failure::Aborted,
            _ => Failure::Logged,
        };
        Effect { publications: 0, path: plan.payload, failure }
    } else {
        let publications = match plan.payload {
            Payload::Nothing => 0,
            _ => outcome.payloads,
        };
        Effect { publications, path: plan.payload, failure: Failure::Nothing }
    }
}

/// A method whose return type is not a `Vec` of erased events publishes at
/// most once per call: once when it returns a payload, and not at all when
/// it returns none or an error.
pub proof fn lemma_at_most_one_publication(rc: RetCase, abort_on_error: bool, outcome: Outcome)
    requires
        rc != RetCase::VecErased,
        fits(ret_plan(rc, abort_on_error), outcome),
    ensures
        effect_of(ret_plan(rc, abort_on_error), outcome).publications <= 1,
        effect_of(ret_plan(rc, abort_on_error), outcome).publications == (if outcome.failed {
            0
        } else {
            outcome.payloads
        }),
        payload_of(rc) == Payload::Nothing ==> effect_of(
            ret_plan(rc, abort_on_error),
            outcome,
        ).publications == 0,
{
}

/// A method that returns a `Vec` of `n` erased events publishes exactly
/// `n` times, each by the erased path.
pub proof fn lemma_vec_publishes_each(abort_on_error: bool, n: usize)
    ensures
        fits(ret_plan(RetCase::VecErased, abort_on_error), Outcome { failed: false, payloads: n }),
        effect_of(
            ret_plan(RetCase::VecErased, abort_on_error),
            Outcome { failed: false, payloads: n },
        ) == (Effect { publications: n, path: Payload::Erased, failure: Failure::Nothing }),
{
}

/// An error aborts only under the plan of an init hook: for every other
/// caller it is logged and the caller goes on, and a value that is no error
/// never counts as a failure.
pub proof fn lemma_only_init_aborts(rc: RetCase, abort_on_error: bool, outcome: Outcome)
    requires
        fits(ret_plan(rc, abort_on_error), outcome),
    ensures
        effect_of(ret_plan(rc, abort_on_error), outcome).failure == Failure::Aborted <==> (
        abort_on_error && outcome.failed),
        effect_of(ret_plan(rc, abort_on_error), outcome).failure == Failure::Logged <==> (
        !abort_on_error && outcome.failed),
{
}

} // verus!
