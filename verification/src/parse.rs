//! Reading single attributes and parameter types.

use vstd::prelude::*;
use crate::msgs::Message;
use crate::syntax::{AttrShape, MetaShape, TypeShape, is_path_named, named_text, text_eq};

verus! {

/// How often an active method runs.
#[derive(Clone, Copy, Debug, PartialEq, Eq, Structural)]
pub enum ActiveKind {
    /// Again and again until the component stops.
    Loop,
    /// One time, right after startup.
    Once,
}

/// Whether `ty` is a reference to a path that ends in `ComponentContext`.
pub open spec fn ctx_type(ty: TypeShape) -> bool {
    match ty {
        TypeShape::Reference { elem } => is_path_named(*elem, "ComponentContext"@),
        _ => false,
    }
}

/// The type behind a reference to a path; nothing for any other type.
pub open spec fn msg_arg_ref(ty: TypeShape) -> Option<TypeShape> {
    match ty {
        TypeShape::Reference { elem } => match *elem {
            TypeShape::Path(p) => Some(*elem),
            _ => None,
        },
        _ => None,
    }
}

/// Whether a parameter type is a reference to the component context.
pub fn is_ctx_type(ty: &TypeShape) -> (yes: bool)
    ensures
        yes == ctx_type(*ty),
{
    match ty {
        TypeShape::Reference { elem } => match &**elem {
            TypeShape::Path(p) => p.last_is("ComponentContext"),
            _ => false,
        },
        _ => false,
    }
}

/// The message type of a parameter `&T`, where `T` is a path.
pub fn parse_msg_arg_ref(ty: &TypeShape) -> (msg: Option<&TypeShape>)
    ensures
        msg_arg_ref(*ty) is None ==> msg is None,
        msg_arg_ref(*ty) matches Some(t) ==> msg == Some(&t),
{
    match ty {
        TypeShape::Reference { elem } => match &**elem {
            TypeShape::Path(_) => Some(&**elem),
            _ => None,
        },
        _ => None,
    }
}

/// Whether a `handle` attribute carries arguments, which it may not.
pub fn parse_handle_attr(a: &AttrShape) -> (has_args: bool)
    ensures
        has_args == !(a.meta is Path),
{
    match &a.meta {
        MetaShape::Path => false,
        _ => true,
    }
}

/// The text `s` without its leading and trailing white space, as
/// `str::trim` gives it.
pub uninterp spec fn trimmed_text(s: Seq<char>) -> Seq<char>;

/// Calls `str::trim`. The result is named, not described: it is the text
/// that `trim` returns for these characters.
#[verifier::external_body]
fn trim_text(s: &str) -> (t: &str)
    ensures
        t@ == trimmed_text(s@),
{
    s.trim()
}

/// What the list of an `active` attribute asks for, given whether the list
/// is empty and its text without surrounding white space.
pub open spec fn list_kind(is_empty: bool, trimmed: Seq<char>) -> Result<ActiveKind, Message> {
    if is_empty {
        Ok(ActiveKind::Loop)
    } else if trimmed == "once"@ {
        Ok(ActiveKind::Once)
    } else {
        Err(Message::ActiveListOnceOnly)
    }
}

/// What an attribute says about an active method: nothing when it is not
/// named `active`; else the kind it asks for, or what is wrong with it.
pub open spec fn active_kind_of(a: AttrShape) -> Option<Result<ActiveKind, Message>> {
    if !named_text(a.path@, "active"@) {
        None
    } else {
        match a.meta {
            MetaShape::Path => Some(Ok(ActiveKind::Loop)),
            MetaShape::List { is_empty, text } => Some(list_kind(is_empty, trimmed_text(text@))),
            MetaShape::NameValue => Some(Err(Message::ActiveNoNv)),
        }
    }
}

/// Whether the last name of an attribute's path is `name`.
pub fn attr_is(a: &AttrShape, name: &str) -> (yes: bool)
    ensures
        yes == named_text(a.path@, name@),
{
    let n = a.path.len();
    if n == 0 {
        false
    } else {
        text_eq(a.path[n - 1].as_str(), name)
    }
}

/// The kind that the list of an `active` attribute asks for.
pub fn active_list_kind(is_empty: bool, trimmed: &str) -> (kind: Result<ActiveKind, Message>)
    ensures
        kind == list_kind(is_empty, trimmed@),
{
    if is_empty {
        Ok(ActiveKind::Loop)
    } else if text_eq(trimmed, "once") {
        Ok(ActiveKind::Once)
    } else {
        Err(Message::ActiveListOnceOnly)
    }
}

/// Reads one attribute of a method as an `active` attribute.
pub fn parse_active_kind(a: &AttrShape) -> (kind: Option<Result<ActiveKind, Message>>)
    ensures
        kind == active_kind_of(*a),
{
    if !attr_is(a, "active") {
        return None;
    }
    match &a.meta {
        MetaShape::Path => Some(Ok(ActiveKind::Loop)),
        MetaShape::List { is_empty, text } => {
            let trimmed = trim_text(text.as_str());
            Some(active_list_kind(*is_empty, trimmed))
        },
        MetaShape::NameValue => Some(Err(Message::ActiveNoNv)),
    }
}

} // verus!
