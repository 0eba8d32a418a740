//! Classifying what a component's methods return.

use vstd::prelude::*;
use crate::syntax::{
    PathSegment, ReturnShape, SignatureShape, TypePath, TypeShape, first_type_arg, is_path_named,
    named,
};

verus! {

/// The shape of a method's declared return type. It decides what is
/// published when the method returns.
#[derive(Clone, Copy, Debug, PartialEq, Eq, Structural)]
pub enum RetCase {
    /// Nothing is returned.
    Unit,
    /// A value, published as its own type.
    Value,
    /// `Option<V>`: published when present.
    OptionSome,
    /// `Result<(), E>`.
    ResultUnit,
    /// `Result<V, E>`.
    ResultSome,
    /// `Result<Option<V>, E>`.
    ResultOption,
    /// An erased event, which carries its own way of being published.
    Erased,
    /// `Option` of an erased event.
    OptionErased,
    /// `Vec` of erased events, each published in turn.
    VecErased,
    /// A boxed value of a type known only at run time.
    AnyBox,
    /// A shared value of a type known only at run time.
    AnyArc,
    /// `Option` of a boxed value.
    OptionAnyBox,
    /// `Option` of a shared value.
    OptionAnyArc,
    /// `Result` of a boxed value.
    ResultAnyBox,
    /// `Result` of a shared value.
    ResultAnyArc,
}

/// The case of `Result<ok, _>`, where `ok` is the first type between the
/// angle brackets, if there is one.
pub open spec fn result_case(ok: Option<TypeShape>) -> RetCase {
    match ok {
        None => RetCase::ResultUnit,
        Some(TypeShape::Tuple { arity }) => if arity == 0 {
            RetCase::ResultUnit
        } else {
            RetCase::ResultSome
        },
        Some(TypeShape::Path(p)) => if named(p.segments@, "Box"@) {
            RetCase::ResultAnyBox
        } else if named(p.segments@, "Arc"@) {
            RetCase::ResultAnyArc
        } else if named(p.segments@, "ErasedEvent"@) {
            RetCase::Erased
        } else if named(p.segments@, "Option"@) {
            RetCase::ResultOption
        } else {
            RetCase::ResultSome
        },
        Some(_) => RetCase::ResultSome,
    }
}

/// The case of `Option<inner>`, where `inner` is the first type between the
/// angle brackets, if there is one.
pub open spec fn option_case(inner: Option<TypeShape>) -> RetCase {
    match inner {
        Some(TypeShape::Path(p)) => if named(p.segments@, "Box"@) {
            RetCase::OptionAnyBox
        } else if named(p.segments@, "Arc"@) {
            RetCase::OptionAnyArc
        } else if named(p.segments@, "ErasedEvent"@) {
            RetCase::OptionErased
        } else {
            RetCase::OptionSome
        },
        _ => RetCase::OptionSome,
    }
}

/// The case of a return type that is a path. Only the last segment counts:
/// its name and the first type between its angle brackets.
pub open spec fn path_case(segments: Seq<PathSegment>) -> RetCase {
    if named(segments, "ErasedEvent"@) {
        RetCase::Erased
    } else if named(segments, "Vec"@) && (first_type_arg(segments) matches Some(ty)
        && is_path_named(ty, "ErasedEvent"@)) {
        RetCase::VecErased
    } else if named(segments, "Result"@) {
        result_case(first_type_arg(segments))
    } else if named(segments, "Option"@) {
        option_case(first_type_arg(segments))
    } else if named(segments, "Box"@) {
        RetCase::AnyBox
    } else if named(segments, "Arc"@) {
        RetCase::AnyArc
    } else {
        RetCase::Value
    }
}

/// The case of a declared return type: no return type and `()` are `Unit`,
/// a path goes by `path_case`, every other type is a plain value.
pub open spec fn ret_case_of(output: ReturnShape) -> RetCase {
    match output {
        ReturnShape::Default => RetCase::Unit,
        ReturnShape::Type(TypeShape::Tuple { arity }) => if arity == 0 {
            RetCase::Unit
        } else {
            RetCase::Value
        },
        ReturnShape::Type(TypeShape::Path(p)) => path_case(p.segments@),
        ReturnShape::Type(_) => RetCase::Value,
    }
}

/// Classifies `Result<ok, _>` by its first type argument.
fn analyze_result(ok: Option<&TypeShape>) -> (rc: RetCase)
    ensures
        ok matches Some(ty) ==> rc == result_case(Some(*ty)),
        ok is None ==> rc == result_case(None),
{
    match ok {
        None => RetCase::ResultUnit,
        Some(TypeShape::Tuple { arity }) => {
            if *arity == 0 {
                RetCase::ResultUnit
            } else {
                RetCase::ResultSome
            }
        },
        Some(TypeShape::Path(p)) => {
            if p.last_is("Box") {
                RetCase::ResultAnyBox
            } else if p.last_is("Arc") {
                RetCase::ResultAnyArc
            } else if p.last_is("ErasedEvent") {
                RetCase::Erased
            } else if p.last_is("Option") {
                RetCase::ResultOption
            } else {
                RetCase::ResultSome
            }
        },
        Some(_) => RetCase::ResultSome,
    }
}

/// Classifies `Option<inner>` by its first type argument.
fn analyze_option(inner: Option<&TypeShape>) -> (rc: RetCase)
    ensures
        inner matches Some(ty) ==> rc == option_case(Some(*ty)),
        inner is None ==> rc == option_case(None),
{
    match inner {
        Some(TypeShape::Path(p)) => {
            if p.last_is("Box") {
                RetCase::OptionAnyBox
            } else if p.last_is("Arc") {
                RetCase::OptionAnyArc
            } else if p.last_is("ErasedEvent") {
                RetCase::OptionErased
            } else {
                RetCase::OptionSome
            }
        },
        _ => RetCase::OptionSome,
    }
}

/// Whether `path` is `Vec<E>` with `E` a path that ends in `ErasedEvent`.
fn is_vec_of_erased(path: &TypePath) -> (yes: bool)
    ensures
        yes == (named(path.segments@, "Vec"@) && (first_type_arg(path.segments@) matches Some(ty)
            && is_path_named(ty, "ErasedEvent"@))),
{
    if !path.last_is("Vec") {
        return false;
    }
    match path.first_type_argument() {
        Some(TypeShape::Path(inner)) => inner.last_is("ErasedEvent"),
        _ => false,
    }
}

/// Classifies a path by its last segment.
fn analyze_path(path: &TypePath) -> (rc: RetCase)
    ensures
        rc == path_case(path.segments@),
{
    if path.last_is("ErasedEvent") {
        RetCase::Erased
    } else if is_vec_of_erased(path) {
        RetCase::VecErased
    } else if path.last_is("Result") {
        analyze_result(path.first_type_argument())
    } else if path.last_is("Option") {
        analyze_option(path.first_type_argument())
    } else if path.last_is("Box") {
        RetCase::AnyBox
    } else if path.last_is("Arc") {
        RetCase::AnyArc
    } else {
        RetCase::Value
    }
}

/// Classifies the declared return type of a method.
pub fn analyze_return(sig: &SignatureShape) -> (rc: RetCase)
    ensures
        rc == ret_case_of(sig.output),
{
    match &sig.output {
        ReturnShape::Default => RetCase::Unit,
        ReturnShape::Type(TypeShape::Tuple { arity }) => {
            if *arity == 0 {
                RetCase::Unit
            } else {
                RetCase::Value
            }
        },
        ReturnShape::Type(TypeShape::Path(p)) => analyze_path(p),
        ReturnShape::Type(_) => RetCase::Value,
    }
}

} // verus!
