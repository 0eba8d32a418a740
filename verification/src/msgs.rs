//! The diagnostics that the analysis of a component can raise, and their
//! wording.

use vstd::prelude::*;

verus! {

pub const ERR_HANDLE_NO_ARGS: &'static str = "#[handle] does not accept any arguments in this model";

pub const ERR_HANDLE_MULTI_ATTR: &'static str = "a method can only have one #[handle(...)] attribute";

pub const ERR_HANDLE_CTX_DUP: &'static str = "#[handle] allows at most one &ComponentContext parameter";

pub const ERR_HANDLE_NEED_ONE_T: &'static str =
    "#[handle] requires exactly one &T parameter (message payload)";

pub const ERR_HANDLE_ONLY_ONE_T: &'static str = "#[handle] allows only one &T parameter; remove extras";

pub const ERR_HANDLE_MUT_SELF: &'static str =
    "#[handle] method cannot take &mut self under spawned worker model; use interior mutability";

pub const ERR_ACTIVE_MUT_SELF: &'static str =
    "#[active] method cannot take &mut self; use interior mutability if needed";

pub const ERR_ACTIVE_CTX_DUP: &'static str = "#[active] allows at most one &ComponentContext parameter";

pub const ERR_ACTIVE_ONLY_CTX: &'static str =
    "#[active] method can only take &ComponentContext as parameter; other &T parameters are not allowed";

pub const ERR_ACTIVE_LIST_ONCE_ONLY: &'static str = "#[active] only supports (once)";

pub const ERR_ACTIVE_NO_NV: &'static str = "#[active] does not take name-value arguments";

pub const ERR_INIT_SIG: &'static str =
    "#[init] only allows an optional &ComponentContext and references to configuration values";

pub const ERR_STOP_ASYNC_NOT_ALLOWED: &'static str = "#[stop] method must not be async";

pub const ERR_STOP_MUT_SELF: &'static str = "#[stop] cannot take &mut self; use interior mutability";

pub const ERR_STOP_CTX_DUP: &'static str = "#[stop] allows at most one &ComponentContext parameter";

pub const ERR_STOP_SIG: &'static str =
    "#[stop] method must take only self or optionally &self plus &ComponentContext";

pub const ERR_COMPONENT_TARGET: &'static str = "#[component] only supports struct or impl blocks";

/// What a declaration did wrong.
#[derive(Clone, Copy, Debug, PartialEq, Eq, Structural)]
pub enum Message {
    HandleNoArgs,
    HandleMultiAttr,
    HandleCtxDup,
    HandleNeedOneT,
    HandleOnlyOneT,
    HandleMutSelf,
    ActiveMutSelf,
    ActiveCtxDup,
    ActiveOnlyCtx,
    ActiveListOnceOnly,
    ActiveNoNv,
    InitSig,
    StopAsyncNotAllowed,
    StopMutSelf,
    StopCtxDup,
    StopSig,
    ComponentTarget,
}

/// The place in the source that a diagnostic points at.
#[derive(Clone, Copy, Debug, PartialEq, Eq, Structural)]
pub enum Anchor {
    /// The place where the component was declared.
    CallSite,
    /// The signature of the method.
    Signature,
    /// What follows the path of the attribute with this index.
    Attribute(usize),
}

/// One diagnostic: the impl item it is about, where it points, and what it
/// says.
#[derive(Clone, Copy, Debug, PartialEq, Eq, Structural)]
pub struct Diagnostic {
    pub item: usize,
    pub anchor: Anchor,
    pub message: Message,
}

impl Message {
    /// The wording of the message.
    pub open spec fn wording(self) -> Seq<char> {
        match self {
            Message::HandleNoArgs => ERR_HANDLE_NO_ARGS@,
            Message::HandleMultiAttr => ERR_HANDLE_MULTI_ATTR@,
            Message::HandleCtxDup => ERR_HANDLE_CTX_DUP@,
            Message::HandleNeedOneT => ERR_HANDLE_NEED_ONE_T@,
            Message::HandleOnlyOneT => ERR_HANDLE_ONLY_ONE_T@,
            Message::HandleMutSelf => ERR_HANDLE_MUT_SELF@,
            Message::ActiveMutSelf => ERR_ACTIVE_MUT_SELF@,
            Message::ActiveCtxDup => ERR_ACTIVE_CTX_DUP@,
            Message::ActiveOnlyCtx => ERR_ACTIVE_ONLY_CTX@,
            Message::ActiveListOnceOnly => ERR_ACTIVE_LIST_ONCE_ONLY@,
            Message::ActiveNoNv => ERR_ACTIVE_NO_NV@,
            Message::InitSig => ERR_INIT_SIG@,
            Message::StopAsyncNotAllowed => ERR_STOP_ASYNC_NOT_ALLOWED@,
            Message::StopMutSelf => ERR_STOP_MUT_SELF@,
            Message::StopCtxDup => ERR_STOP_CTX_DUP@,
            Message::StopSig => ERR_STOP_SIG@,
            Message::ComponentTarget => ERR_COMPONENT_TARGET@,
        }
    }

    /// The text shown to the user.
    pub fn text(self) -> (out: &'static str)
        ensures
            out@ == self.wording(),
    {
        match self {
            Message::HandleNoArgs => ERR_HANDLE_NO_ARGS,
            Message::HandleMultiAttr => ERR_HANDLE_MULTI_ATTR,
            Message::HandleCtxDup => ERR_HANDLE_CTX_DUP,
            Message::HandleNeedOneT => ERR_HANDLE_NEED_ONE_T,
            Message::HandleOnlyOneT => ERR_HANDLE_ONLY_ONE_T,
            Message::HandleMutSelf => ERR_HANDLE_MUT_SELF,
            Message::ActiveMutSelf => ERR_ACTIVE_MUT_SELF,
            Message::ActiveCtxDup => ERR_ACTIVE_CTX_DUP,
            Message::ActiveOnlyCtx => ERR_ACTIVE_ONLY_CTX,
            Message::ActiveListOnceOnly => ERR_ACTIVE_LIST_ONCE_ONLY,
            Message::ActiveNoNv => ERR_ACTIVE_NO_NV,
            Message::InitSig => ERR_INIT_SIG,
            Message::StopAsyncNotAllowed => ERR_STOP_ASYNC_NOT_ALLOWED,
            Message::StopMutSelf => ERR_STOP_MUT_SELF,
            Message::StopCtxDup => ERR_STOP_CTX_DUP,
            Message::StopSig => ERR_STOP_SIG,
            Message::ComponentTarget => ERR_COMPONENT_TARGET,
        }
    }
}

} // verus!
