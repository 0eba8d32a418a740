//! Collecting the handlers, active methods and init and stop hooks of a
//! component from its impl block, with the diagnostics for the methods
//! that are declared wrongly.

use vstd::prelude::*;
use crate::analyze::{RetCase, analyze_return, ret_case_of};
use crate::msgs::{Anchor, Diagnostic, Message};
use crate::parse::{
    ActiveKind, active_kind_of, attr_is, ctx_type, is_ctx_type, msg_arg_ref, parse_active_kind,
    parse_handle_attr, parse_msg_arg_ref,
};
use crate::syntax::{AttrShape, FnArg, ImplItem, ImplShape, MethodShape, named_text};

verus! {

/// A handler: the impl item that declares it, the position of its message
/// parameter, whether it takes the context, and what it returns.
#[derive(Clone, Copy, Debug, PartialEq, Eq, Structural)]
pub struct MethodSpec {
    pub item: usize,
    pub msg_arg: usize,
    pub wants_ctx: bool,
    pub ret_case: RetCase,
}

/// An active method: the impl item that declares it, whether it takes the
/// context, what it returns, and how often it runs.
#[derive(Clone, Copy, Debug, PartialEq, Eq, Structural)]
pub struct ActiveSpec {
    pub item: usize,
    pub wants_ctx: bool,
    pub ret_case: RetCase,
    pub kind: ActiveKind,
}

/// An init hook: the impl item that declares it, whether it takes the
/// context, what it returns, and the positions of the parameters that
/// ask for a configuration value.
#[derive(Debug, PartialEq, Eq)]
pub struct InitSpec {
    pub item: usize,
    pub wants_ctx: bool,
    pub ret_case: RetCase,
    pub cfg_args: Vec<usize>,
}

/// What an init hook holds.
pub struct InitModel {
    pub item: usize,
    pub wants_ctx: bool,
    pub ret_case: RetCase,
    pub cfg_args: Seq<usize>,
}

impl View for InitSpec {
    type V = InitModel;

    open spec fn view(&self) -> InitModel {
        InitModel {
            item: self.item,
            wants_ctx: self.wants_ctx,
            ret_case: self.ret_case,
            cfg_args: self.cfg_args@,
        }
    }
}

/// What each of the init hooks holds.
pub open spec fn init_views(specs: Seq<InitSpec>) -> Seq<InitModel> {
    specs.map_values(|s: InitSpec| s@)
}

/// A stop hook.
#[derive(Clone, Copy, Debug, PartialEq, Eq, Structural)]
pub struct StopSpec {
    pub item: usize,
    pub wants_ctx: bool,
    pub ret_case: RetCase,
}

/// How many of the first `n` attributes are named `name`.
pub open spec fn count_attrs(attrs: Seq<AttrShape>, name: Seq<char>, n: int) -> nat
    decreases n,
{
    if n <= 0 {
        0
    } else {
        let rest = count_attrs(attrs, name, n - 1);
        if named_text(attrs[n - 1].path@, name) {
            rest + 1
        } else {
            rest
        }
    }
}

/// How many of the first `n` attributes are named `handle` and carry
/// arguments.
pub open spec fn count_handle_args(attrs: Seq<AttrShape>, n: int) -> nat
    decreases n,
{
    if n <= 0 {
        0
    } else {
        let rest = count_handle_args(attrs, n - 1);
        if named_text(attrs[n - 1].path@, "handle"@) && !(attrs[n - 1].meta is Path) {
            rest + 1
        } else {
            rest
        }
    }
}

/// Whether a parameter is a reference to the component context.
pub open spec fn is_ctx_param(arg: FnArg) -> bool {
    arg matches FnArg::Typed(ty) && ctx_type(ty)
}

/// Whether a parameter is a reference to a message: a reference to a path
/// that is not the component context.
pub open spec fn is_msg_param(arg: FnArg) -> bool {
    arg matches FnArg::Typed(ty) && !ctx_type(ty) && msg_arg_ref(ty) is Some
}

/// Whether a parameter has a type that is not the component context.
pub open spec fn is_other_param(arg: FnArg) -> bool {
    arg matches FnArg::Typed(ty) && !ctx_type(ty)
}

/// How many of the first `n` parameters are context parameters.
pub open spec fn ctx_params(inputs: Seq<FnArg>, n: int) -> nat
    decreases n,
{
    if n <= 0 {
        0
    } else if is_ctx_param(inputs[n - 1]) {
        ctx_params(inputs, n - 1) + 1
    } else {
        ctx_params(inputs, n - 1)
    }
}

/// How many of the first `n` parameters are typed and not the context.
pub open spec fn other_params(inputs: Seq<FnArg>, n: int) -> nat
    decreases n,
{
    if n <= 0 {
        0
    } else if is_other_param(inputs[n - 1]) {
        other_params(inputs, n - 1) + 1
    } else {
        other_params(inputs, n - 1)
    }
}

/// The positions of the message parameters among the first `n`
/// parameters, in rising order.
pub open spec fn msg_params(inputs: Seq<FnArg>, n: int) -> Seq<usize>
    decreases n,
{
    if n <= 0 {
        Seq::<usize>::empty()
    } else if is_msg_param(inputs[n - 1]) {
        msg_params(inputs, n - 1).push((n - 1) as usize)
    } else {
        msg_params(inputs, n - 1)
    }
}

/// Whether the first parameter is a mutable receiver.
pub open spec fn mut_receiver(inputs: Seq<FnArg>) -> bool {
    inputs.len() > 0 && inputs[0] == (FnArg::Receiver { mutable: true })
}

/// A diagnostic that points at the place where the component was declared.
pub open spec fn at_call_site(item: usize, message: Message) -> Diagnostic {
    Diagnostic { item, anchor: Anchor::CallSite, message }
}

/// A diagnostic that points at the signature of the method.
pub open spec fn at_signature(item: usize, message: Message) -> Diagnostic {
    Diagnostic { item, anchor: Anchor::Signature, message }
}

/// `d` if `cond` holds, else nothing.
pub open spec fn when(cond: bool, d: Diagnostic) -> Seq<Diagnostic> {
    if cond {
        seq![d]
    } else {
        Seq::<Diagnostic>::empty()
    }
}

/// What the parameters of a method hold.
pub struct ParamScan {
    /// The number of context parameters.
    pub ctx: usize,
    /// The positions of the message parameters.
    pub msgs: Vec<usize>,
    /// The number of typed parameters that are not the context.
    pub others: usize,
}

/// Counts the context parameters and the others, and notes where the
/// message parameters stand.
pub fn scan_params(inputs: &Vec<FnArg>) -> (scan: ParamScan)
    ensures
        scan.ctx == ctx_params(inputs@, inputs@.len() as int),
        scan.others == other_params(inputs@, inputs@.len() as int),
        scan.msgs@ == msg_params(inputs@, inputs@.len() as int),
{
    let mut ctx: usize = 0;
    let mut others: usize = 0;
    let mut msgs: Vec<usize> = Vec::new();
    let mut i: usize = 0;
    while i < inputs.len()
        invariant
            i <= inputs.len(),
            ctx == ctx_params(inputs@, i as int),
            others == other_params(inputs@, i as int),
            msgs@ == msg_params(inputs@, i as int),
            ctx <= i,
            others <= i,
        decreases inputs.len() - i,
    {
        match &inputs[i] {
            FnArg::Receiver { .. } => {},
            FnArg::Typed(ty) => {
                if is_ctx_type(ty) {
                    ctx += 1;
                } else {
                    others += 1;
                    if parse_msg_arg_ref(ty).is_some() {
                        msgs.push(i);
                    }
                }
            },
        }
        i += 1;
    }
    ParamScan { ctx, msgs, others }
}

/// Whether the method's first parameter is `&mut self` or `mut self`.
pub fn has_mut_receiver(inputs: &Vec<FnArg>) -> (yes: bool)
    ensures
        yes == mut_receiver(inputs@),
{
    if inputs.len() == 0 {
        false
    } else {
        match &inputs[0] {
            FnArg::Receiver { mutable } => *mutable,
            FnArg::Typed(_) => false,
        }
    }
}

/// How many attributes of a method are named `name`.
pub fn count_named(attrs: &Vec<AttrShape>, name: &str) -> (count: usize)
    ensures
        count == count_attrs(attrs@, name@, attrs@.len() as int),
{
    let mut count: usize = 0;
    let mut i: usize = 0;
    while i < attrs.len()
        invariant
            i <= attrs.len(),
            count <= i,
            count == count_attrs(attrs@, name@, i as int),
        decreases attrs.len() - i,
    {
        if attr_is(&attrs[i], name) {
            count += 1;
        }
        i += 1;
    }
    count
}

// ---------------------------------------------------------------- handlers

/// The diagnostics that one method raises as a handler, in the order in
/// which they are reported.
pub open spec fn handle_diags(item: usize, m: MethodShape) -> Seq<Diagnostic> {
    let attrs = m.attrs@;
    let inputs = m.sig.inputs@;
    let count = count_attrs(attrs, "handle"@, attrs.len() as int);
    let with_args = count_handle_args(attrs, attrs.len() as int);
    let ctx = ctx_params(inputs, inputs.len() as int);
    let msgs = msg_params(inputs, inputs.len() as int);
    let of_attrs = Seq::new(with_args, |i: int| at_call_site(item, Message::HandleNoArgs)) + when(
        count > 1,
        at_call_site(item, Message::HandleMultiAttr),
    );
    if count == 0 {
        of_attrs
    } else if mut_receiver(inputs) {
        of_attrs.push(at_signature(item, Message::HandleMutSelf))
    } else {
        of_attrs + when(ctx > 1, at_call_site(item, Message::HandleCtxDup)) + when(
            msgs.len() == 0,
            at_call_site(item, Message::HandleNeedOneT),
        ) + when(msgs.len() > 1, at_call_site(item, Message::HandleOnlyOneT))
    }
}

/// The handler that one method declares: it carries a `handle` attribute,
/// does not take `self` mutably and has exactly one message parameter.
pub open spec fn handle_spec(item: usize, m: MethodShape) -> Option<MethodSpec> {
    let attrs = m.attrs@;
    let inputs = m.sig.inputs@;
    let msgs = msg_params(inputs, inputs.len() as int);
    if count_attrs(attrs, "handle"@, attrs.len() as int) > 0 && !mut_receiver(inputs) && msgs.len()
        == 1 {
        Some(
            MethodSpec {
                item,
                msg_arg: msgs[0],
                wants_ctx: ctx_params(inputs, inputs.len() as int) > 0,
                ret_case: ret_case_of(m.sig.output),
            },
        )
    } else {
        None
    }
}

/// `specs` with the value of `found` appended, if it has one.
pub open spec fn with_found<S>(specs: Seq<S>, found: Option<S>) -> Seq<S> {
    match found {
        Some(s) => specs.push(s),
        None => specs,
    }
}

/// The handlers of the first `n` items.
pub open spec fn handles_upto(items: Seq<ImplItem>, n: int) -> Seq<MethodSpec>
    decreases n,
{
    if n <= 0 {
        Seq::<MethodSpec>::empty()
    } else {
        match items[n - 1] {
            ImplItem::Fn(m) => with_found(
                handles_upto(items, n - 1),
                handle_spec((n - 1) as usize, m),
            ),
            ImplItem::Other => handles_upto(items, n - 1),
        }
    }
}

/// The diagnostics of the first `n` items as handlers.
pub open spec fn handle_diags_upto(items: Seq<ImplItem>, n: int) -> Seq<Diagnostic>
    decreases n,
{
    if n <= 0 {
        Seq::<Diagnostic>::empty()
    } else {
        match items[n - 1] {
            ImplItem::Fn(m) => handle_diags_upto(items, n - 1) + handle_diags((n - 1) as usize, m),
            ImplItem::Other => handle_diags_upto(items, n - 1),
        }
    }
}

/// Reports the `handle` attributes that carry arguments and counts the
/// `handle` attributes.
fn check_handle_attrs(item: usize, attrs: &Vec<AttrShape>, errs: &mut Vec<Diagnostic>) -> (count:
    usize)
    ensures
        count == count_attrs(attrs@, "handle"@, attrs@.len() as int),
        final(errs)@ == old(errs)@ + Seq::new(
            count_handle_args(attrs@, attrs@.len() as int),
            |i: int| at_call_site(item, Message::HandleNoArgs),
        ),
{
    let mut count: usize = 0;
    let mut i: usize = 0;
    let ghost before = errs@;
    while i < attrs.len()
        invariant
            i <= attrs.len(),
            count <= i,
            count == count_attrs(attrs@, "handle"@, i as int),
            errs@ == before + Seq::new(
                count_handle_args(attrs@, i as int),
                |k: int| at_call_site(item, Message::HandleNoArgs),
            ),
        decreases attrs.len() - i,
    {
        if attr_is(&attrs[i], "handle") {
            count += 1;
            if parse_handle_attr(&attrs[i]) {
                errs.push(Diagnostic { item, anchor: Anchor::CallSite, message: Message::HandleNoArgs });
            }
        }
        i += 1;
    }
    count
}

/// Analyses one method as a handler.
fn analyze_handle(
    item: usize,
    m: &MethodShape,
    methods: &mut Vec<MethodSpec>,
    errs: &mut Vec<Diagnostic>,
)
    ensures
        final(methods)@ == with_found(old(methods)@, handle_spec(item, *m)),
        final(errs)@ == old(errs)@ + handle_diags(item, *m),
{
    let count = check_handle_attrs(item, &m.attrs, errs);
    if count > 1 {
        errs.push(Diagnostic { item, anchor: Anchor::CallSite, message: Message::HandleMultiAttr });
    }
    if count == 0 {
        return ;
    }
    if has_mut_receiver(&m.sig.inputs) {
        errs.push(Diagnostic { item, anchor: Anchor::Signature, message: Message::HandleMutSelf });
        return ;
    }
    let scan = scan_params(&m.sig.inputs);
    if scan.ctx > 1 {
        errs.push(Diagnostic { item, anchor: Anchor::CallSite, message: Message::HandleCtxDup });
    }
    if scan.msgs.len() == 1 {
        methods.push(
            MethodSpec {
                item,
                msg_arg: scan.msgs[0],
                wants_ctx: scan.ctx > 0,
                ret_case: analyze_return(&m.sig),
            },
        );
    } else if scan.msgs.len() == 0 {
        errs.push(Diagnostic { item, anchor: Anchor::CallSite, message: Message::HandleNeedOneT });
    } else {
        errs.push(Diagnostic { item, anchor: Anchor::CallSite, message: Message::HandleOnlyOneT });
    }
}

/// Collects the handlers of an impl block, in source order, and the
/// diagnostics of its wrongly declared handlers.
pub fn collect_handles(item: &ImplShape) -> (out: (Vec<MethodSpec>, Vec<Diagnostic>))
    ensures
        out.0@ == handles_upto(item.items@, item.items@.len() as int),
        out.1@ == handle_diags_upto(item.items@, item.items@.len() as int),
{
    let mut methods: Vec<MethodSpec> = Vec::new();
    let mut errs: Vec<Diagnostic> = Vec::new();
    let mut i: usize = 0;
    while i < item.items.len()
        invariant
            i <= item.items.len(),
            methods@ == handles_upto(item.items@, i as int),
            errs@ == handle_diags_upto(item.items@, i as int),
        decreases item.items.len() - i,
    {
        match &item.items[i] {
            ImplItem::Fn(m) => {
                analyze_handle(i, m, &mut methods, &mut errs);
            },
            ImplItem::Other => {},
        }
        i += 1;
    }
    (methods, errs)
}

// ----------------------------------------------------------- active methods

/// Whether one of the first `n` attributes is an `active` attribute, well
/// formed or not.
pub open spec fn is_active(attrs: Seq<AttrShape>, n: int) -> bool
    decreases n,
{
    if n <= 0 {
        false
    } else {
        active_kind_of(attrs[n - 1]) is Some || is_active(attrs, n - 1)
    }
}

/// The kind that the last well-formed `active` attribute among the first
/// `n` asks for.
pub open spec fn last_active_kind(attrs: Seq<AttrShape>, n: int) -> Option<ActiveKind>
    decreases n,
{
    if n <= 0 {
        None
    } else {
        match active_kind_of(attrs[n - 1]) {
            Some(Ok(kind)) => Some(kind),
            _ => last_active_kind(attrs, n - 1),
        }
    }
}

/// The diagnostics of the ill-formed `active` attributes among the first
/// `n`, each pointing at its attribute.
pub open spec fn active_attr_diags(item: usize, attrs: Seq<AttrShape>, n: int) -> Seq<Diagnostic>
    decreases n,
{
    if n <= 0 {
        Seq::<Diagnostic>::empty()
    } else {
        match active_kind_of(attrs[n - 1]) {
            Some(Err(message)) => active_attr_diags(item, attrs, n - 1).push(
                Diagnostic { item, anchor: Anchor::Attribute((n - 1) as usize), message },
            ),
            _ => active_attr_diags(item, attrs, n - 1),
        }
    }
}

/// What is wrong with the signature of an active method, if anything: the
/// first of a mutable receiver, a second context parameter, and a message
/// parameter.
pub open spec fn active_sig_fault(m: MethodShape) -> Option<Message> {
    let inputs = m.sig.inputs@;
    if mut_receiver(inputs) {
        Some(Message::ActiveMutSelf)
    } else if ctx_params(inputs, inputs.len() as int) > 1 {
        Some(Message::ActiveCtxDup)
    } else if msg_params(inputs, inputs.len() as int).len() > 0 {
        Some(Message::ActiveOnlyCtx)
    } else {
        None
    }
}

/// The diagnostics that one method raises as an active method.
pub open spec fn active_diags(item: usize, m: MethodShape) -> Seq<Diagnostic> {
    let of_attrs = active_attr_diags(item, m.attrs@, m.attrs@.len() as int);
    if !is_active(m.attrs@, m.attrs@.len() as int) {
        of_attrs
    } else {
        match active_sig_fault(m) {
            Some(message) => of_attrs.push(at_signature(item, message)),
            None => of_attrs,
        }
    }
}

/// The active method that one method declares: it carries an `active`
/// attribute and its signature is in order. It loops unless its last
/// well-formed attribute says `once`.
pub open spec fn active_spec(item: usize, m: MethodShape) -> Option<ActiveSpec> {
    let inputs = m.sig.inputs@;
    if is_active(m.attrs@, m.attrs@.len() as int) && active_sig_fault(m) is None {
        Some(
            ActiveSpec {
                item,
                wants_ctx: ctx_params(inputs, inputs.len() as int) > 0,
                ret_case: ret_case_of(m.sig.output),
                kind: match last_active_kind(m.attrs@, m.attrs@.len() as int) {
                    Some(kind) => kind,
                    None => ActiveKind::Loop,
                },
            },
        )
    } else {
        None
    }
}

/// The active methods of the first `n` items.
pub open spec fn actives_upto(items: Seq<ImplItem>, n: int) -> Seq<ActiveSpec>
    decreases n,
{
    if n <= 0 {
        Seq::<ActiveSpec>::empty()
    } else {
        match items[n - 1] {
            ImplItem::Fn(m) => with_found(
                actives_upto(items, n - 1),
                active_spec((n - 1) as usize, m),
            ),
            ImplItem::Other => actives_upto(items, n - 1),
        }
    }
}

/// The diagnostics of the first `n` items as active methods.
pub open spec fn active_diags_upto(items: Seq<ImplItem>, n: int) -> Seq<Diagnostic>
    decreases n,
{
    if n <= 0 {
        Seq::<Diagnostic>::empty()
    } else {
        match items[n - 1] {
            ImplItem::Fn(m) => active_diags_upto(items, n - 1) + active_diags((n - 1) as usize, m),
            ImplItem::Other => active_diags_upto(items, n - 1),
        }
    }
}

/// Analyses one method as an active method.
fn analyze_active(
    item: usize,
    m: &MethodShape,
    actives: &mut Vec<ActiveSpec>,
    errs: &mut Vec<Diagnostic>,
)
    ensures
        final(actives)@ == with_found(old(actives)@, active_spec(item, *m)),
        final(errs)@ == old(errs)@ + active_diags(item, *m),
{
    let ghost before = errs@;
    let mut active = false;
    let mut active_kind: Option<ActiveKind> = None;
    let mut i: usize = 0;
    while i < m.attrs.len()
        invariant
            i <= m.attrs.len(),
            active == is_active(m.attrs@, i as int),
            active_kind == last_active_kind(m.attrs@, i as int),
            errs@ == before + active_attr_diags(item, m.attrs@, i as int),
        decreases m.attrs.len() - i,
    {
        match parse_active_kind(&m.attrs[i]) {
            Some(Ok(kind)) => {
                active = true;
                active_kind = Some(kind);
            },
            Some(Err(message)) => {
                active = true;
                errs.push(Diagnostic { item, anchor: Anchor::Attribute(i), message });
            },
            None => {},
        }
        i += 1;
    }
    if !active {
        return ;
    }
    if has_mut_receiver(&m.sig.inputs) {
        errs.push(Diagnostic { item, anchor: Anchor::Signature, message: Message::ActiveMutSelf });
        return ;
    }
    let scan = scan_params(&m.sig.inputs);
    if scan.ctx > 1 {
        errs.push(Diagnostic { item, anchor: Anchor::Signature, message: Message::ActiveCtxDup });
        return ;
    }
    if scan.msgs.len() > 0 {
        errs.push(Diagnostic { item, anchor: Anchor::Signature, message: Message::ActiveOnlyCtx });
        return ;
    }
    actives.push(
        ActiveSpec {
            item,
            wants_ctx: scan.ctx > 0,
            ret_case: analyze_return(&m.sig),
            kind: match active_kind {
                Some(kind) => kind,
                None => ActiveKind::Loop,
            },
        },
    );
}

/// Collects the active methods of an impl block, in source order, and the
/// diagnostics of its wrongly declared active methods.
pub fn collect_actives(item: &ImplShape) -> (out: (Vec<ActiveSpec>, Vec<Diagnostic>))
    ensures
        out.0@ == actives_upto(item.items@, item.items@.len() as int),
        out.1@ == active_diags_upto(item.items@, item.items@.len() as int),
{
    let mut actives: Vec<ActiveSpec> = Vec::new();
    let mut errs: Vec<Diagnostic> = Vec::new();
    let mut i: usize = 0;
    while i < item.items.len()
        invariant
            i <= item.items.len(),
            actives@ == actives_upto(item.items@, i as int),
            errs@ == active_diags_upto(item.items@, i as int),
        decreases item.items.len() - i,
    {
        match &item.items[i] {
            ImplItem::Fn(m) => {
                analyze_active(i, m, &mut actives, &mut errs);
            },
            ImplItem::Other => {},
        }
        i += 1;
    }
    (actives, errs)
}

// ------------------------------------------------------- init and stop hooks

/// Whether the parameters of an init hook are in order: beside `self`, at
/// most one reference to the component context, and references to the
/// configuration values that the hook asks for.
pub open spec fn init_sig_ok(m: MethodShape) -> bool {
    let inputs = m.sig.inputs@;
    ctx_params(inputs, inputs.len() as int) <= 1 && other_params(inputs, inputs.len() as int)
        == msg_params(inputs, inputs.len() as int).len()
}

/// The init hook that a method with an `init` attribute declares. Its
/// configuration parameters are the references to paths other than the
/// context, in the order of the signature.
pub open spec fn init_spec(item: usize, m: MethodShape) -> Option<InitModel> {
    let inputs = m.sig.inputs@;
    if init_sig_ok(m) {
        Some(
            InitModel {
                item,
                wants_ctx: ctx_params(inputs, inputs.len() as int) > 0,
                ret_case: ret_case_of(m.sig.output),
                cfg_args: msg_params(inputs, inputs.len() as int),
            },
        )
    } else {
        None
    }
}

/// The diagnostic of a method with an `init` attribute.
pub open spec fn init_diag(item: usize, m: MethodShape) -> Option<Diagnostic> {
    if init_sig_ok(m) {
        None
    } else {
        Some(at_signature(item, Message::InitSig))
    }
}

/// Analyses a method that carries an `init` attribute: gives its hook, or
/// the diagnostic for its signature.
pub fn handle_init_fn(item: usize, m: &MethodShape) -> (out: (Option<InitSpec>, Option<Diagnostic>))
    ensures
        init_spec(item, *m) is None ==> out.0 is None,
        init_spec(item, *m) matches Some(model) ==> (out.0 matches Some(s) && s@ == model),
        out.1 == init_diag(item, *m),
{
    let scan = scan_params(&m.sig.inputs);
    if scan.ctx > 1 || scan.others != scan.msgs.len() {
        return (
            None,
            Some(Diagnostic { item, anchor: Anchor::Signature, message: Message::InitSig }),
        );
    }
    let spec = InitSpec {
        item,
        wants_ctx: scan.ctx > 0,
        ret_case: analyze_return(&m.sig),
        cfg_args: scan.msgs,
    };
    (Some(spec), None)
}

/// The diagnostics of a method with a `stop` attribute, in the order in
/// which they are reported.
pub open spec fn stop_diags(item: usize, m: MethodShape) -> Seq<Diagnostic> {
    let inputs = m.sig.inputs@;
    let of_async = when(m.sig.is_async, at_signature(item, Message::StopAsyncNotAllowed));
    if mut_receiver(inputs) {
        of_async.push(at_signature(item, Message::StopMutSelf))
    } else {
        of_async + when(
            ctx_params(inputs, inputs.len() as int) > 1,
            at_signature(item, Message::StopCtxDup),
        ) + when(
            other_params(inputs, inputs.len() as int) > 0,
            at_signature(item, Message::StopSig),
        )
    }
}

/// The stop hook that a method with a `stop` attribute declares: it does
/// not take `self` mutably and has, beside `self`, at most one parameter,
/// a reference to the component context.
pub open spec fn stop_spec(item: usize, m: MethodShape) -> Option<StopSpec> {
    let inputs = m.sig.inputs@;
    if !mut_receiver(inputs) && ctx_params(inputs, inputs.len() as int) <= 1 && other_params(
        inputs,
        inputs.len() as int,
    ) == 0 {
        Some(
            StopSpec {
                item,
                wants_ctx: ctx_params(inputs, inputs.len() as int) > 0,
                ret_case: ret_case_of(m.sig.output),
            },
        )
    } else {
        None
    }
}

/// Analyses a method that carries a `stop` attribute: gives its hook, if
/// its signature is in order, and its diagnostics.
pub fn handle_stop_fn(item: usize, m: &MethodShape) -> (out: (Option<StopSpec>, Vec<Diagnostic>))
    ensures
        out.0 == stop_spec(item, *m),
        out.1@ == stop_diags(item, *m),
{
    let mut compile_errors: Vec<Diagnostic> = Vec::new();
    if m.sig.is_async {
        compile_errors.push(
            Diagnostic { item, anchor: Anchor::Signature, message: Message::StopAsyncNotAllowed },
        );
    }
    if has_mut_receiver(&m.sig.inputs) {
        compile_errors.push(
            Diagnostic { item, anchor: Anchor::Signature, message: Message::StopMutSelf },
        );
        return (None, compile_errors);
    }
    let scan = scan_params(&m.sig.inputs);
    if scan.ctx > 1 {
        compile_errors.push(
            Diagnostic { item, anchor: Anchor::Signature, message: Message::StopCtxDup },
        );
    }
    if scan.others > 0 {
        compile_errors.push(Diagnostic { item, anchor: Anchor::Signature, message: Message::StopSig });
    }
    if scan.ctx > 1 || scan.others > 0 {
        return (None, compile_errors);
    }
    let spec = StopSpec { item, wants_ctx: scan.ctx > 0, ret_case: analyze_return(&m.sig) };
    (Some(spec), compile_errors)
}

/// Whether a method carries an attribute named `name`.
pub open spec fn has_attr(m: MethodShape, name: Seq<char>) -> bool {
    count_attrs(m.attrs@, name, m.attrs@.len() as int) > 0
}

/// The init hooks of the first `n` items.
pub open spec fn inits_upto(items: Seq<ImplItem>, n: int) -> Seq<InitModel>
    decreases n,
{
    if n <= 0 {
        Seq::<InitModel>::empty()
    } else {
        match items[n - 1] {
            ImplItem::Fn(m) => if has_attr(m, "init"@) {
                with_found(inits_upto(items, n - 1), init_spec((n - 1) as usize, m))
            } else {
                inits_upto(items, n - 1)
            },
            ImplItem::Other => inits_upto(items, n - 1),
        }
    }
}

/// The diagnostics of the first `n` items as init hooks.
pub open spec fn init_diags_upto(items: Seq<ImplItem>, n: int) -> Seq<Diagnostic>
    decreases n,
{
    if n <= 0 {
        Seq::<Diagnostic>::empty()
    } else {
        match items[n - 1] {
            ImplItem::Fn(m) => if has_attr(m, "init"@) {
                with_found(init_diags_upto(items, n - 1), init_diag((n - 1) as usize, m))
            } else {
                init_diags_upto(items, n - 1)
            },
            ImplItem::Other => init_diags_upto(items, n - 1),
        }
    }
}

/// The stop hooks of the first `n` items.
pub open spec fn stops_upto(items: Seq<ImplItem>, n: int) -> Seq<StopSpec>
    decreases n,
{
    if n <= 0 {
        Seq::<StopSpec>::empty()
    } else {
        match items[n - 1] {
            ImplItem::Fn(m) => if has_attr(m, "stop"@) {
                with_found(stops_upto(items, n - 1), stop_spec((n - 1) as usize, m))
            } else {
                stops_upto(items, n - 1)
            },
            ImplItem::Other => stops_upto(items, n - 1),
        }
    }
}

/// The diagnostics of the first `n` items as stop hooks.
pub open spec fn stop_diags_upto(items: Seq<ImplItem>, n: int) -> Seq<Diagnostic>
    decreases n,
{
    if n <= 0 {
        Seq::<Diagnostic>::empty()
    } else {
        match items[n - 1] {
            ImplItem::Fn(m) => if has_attr(m, "stop"@) {
                stop_diags_upto(items, n - 1) + stop_diags((n - 1) as usize, m)
            } else {
                stop_diags_upto(items, n - 1)
            },
            ImplItem::Other => stop_diags_upto(items, n - 1),
        }
    }
}

/// Collects the init hooks of an impl block, in source order, and the
/// diagnostics of its wrongly declared init hooks.
pub fn collect_inits(item: &ImplShape) -> (out: (Vec<InitSpec>, Vec<Diagnostic>))
    ensures
        init_views(out.0@) == inits_upto(item.items@, item.items@.len() as int),
        out.1@ == init_diags_upto(item.items@, item.items@.len() as int),
{
    let mut inits: Vec<InitSpec> = Vec::new();
    let mut compile_errors: Vec<Diagnostic> = Vec::new();
    let mut i: usize = 0;
    while i < item.items.len()
        invariant
            i <= item.items.len(),
            init_views(inits@) == inits_upto(item.items@, i as int),
            compile_errors@ == init_diags_upto(item.items@, i as int),
        decreases item.items.len() - i,
    {
        match &item.items[i] {
            ImplItem::Fn(m) => {
                if count_named(&m.attrs, "init") > 0 {
                    let (spec, err) = handle_init_fn(i, m);
                    match spec {
                        Some(s) => {
                            inits.push(s);
                        },
                        None => {},
                    }
                    match err {
                        Some(e) => {
                            compile_errors.push(e);
                        },
                        None => {},
                    }
                }
            },
            ImplItem::Other => {},
        }
        i += 1;
    }
    (inits, compile_errors)
}

/// Collects the stop hooks of an impl block, in source order, and the
/// diagnostics of its wrongly declared stop hooks.
pub fn collect_stops(item: &ImplShape) -> (out: (Vec<StopSpec>, Vec<Diagnostic>))
    ensures
        out.0@ == stops_upto(item.items@, item.items@.len() as int),
        out.1@ == stop_diags_upto(item.items@, item.items@.len() as int),
{
    let mut stops: Vec<StopSpec> = Vec::new();
    let mut compile_errors: Vec<Diagnostic> = Vec::new();
    let mut i: usize = 0;
    while i < item.items.len()
        invariant
            i <= item.items.len(),
            stops@ == stops_upto(item.items@, i as int),
            compile_errors@ == stop_diags_upto(item.items@, i as int),
        decreases item.items.len() - i,
    {
        match &item.items[i] {
            ImplItem::Fn(m) => {
                if count_named(&m.attrs, "stop") > 0 {
                    let (spec, mut errs) = handle_stop_fn(i, m);
                    match spec {
                        Some(s) => {
                            stops.push(s);
                        },
                        None => {},
                    }
                    compile_errors.append(&mut errs);
                }
            },
            ImplItem::Other => {},
        }
        i += 1;
    }
    (stops, compile_errors)
}

} // verus!
