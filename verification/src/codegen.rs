//! The entry of the analysis: what a `component` declaration on an item
//! expands to.

use vstd::prelude::*;
use vstd::string::StringExecFns;
use crate::collect::{
    active_diags_upto, actives_upto, collect_actives, collect_handles, collect_inits,
    collect_stops, handle_diags_upto, handles_upto, init_diags_upto, inits_upto, stop_diags_upto,
    stops_upto,
};
use crate::emit_run::{
    RunParts, active_calls_of, build_active_parts, build_handle_parts, build_init_stop_calls,
    cfg_decls_of, handle_spawns_of, init_calls_of, stop_calls_of, sub_decls_of,
};
use crate::msgs::{Diagnostic, Message};
use crate::parse::ActiveKind;
use crate::syntax::ImplShape;

verus! {

/// The item that carries the `component` declaration.
pub enum ItemShape {
    /// A struct, with its name.
    Struct { ident: String },
    /// An impl block.
    Impl(ImplShape),
    /// Any other item.
    Other,
}

/// The names of the items that are generated for a component struct.
pub struct FactoryNames {
    /// The factory that builds the component by `Default`.
    pub factory: String,
    /// The trait that demands `Default` of the component.
    pub default_assert: String,
}

/// What a `component` declaration expands to.
pub enum Expansion {
    /// For a struct: a factory, registered for discovery.
    Factory(FactoryNames),
    /// For an impl block: the run of the component.
    Run(RunParts),
    /// For any other item: an error.
    Error(Message),
}

/// The names generated for the struct `ident`.
pub fn component_for_struct(ident: &str) -> (names: FactoryNames)
    ensures
        names.factory@ == "__"@ + ident@ + "Factory"@,
        names.default_assert@ == "__AssertDefaultFor"@ + ident@,
{
    let factory = String::from_str("__").concat(ident).concat("Factory");
    let default_assert = String::from_str("__AssertDefaultFor").concat(ident);
    FactoryNames { factory, default_assert }
}

/// Whether `parts` are the parts of the run that `item` declares: the
/// calls and workers of what was collected from it, each in declaration
/// order, the lookups that its init hooks ask for, and the diagnostics of
/// handlers, active methods, init hooks and
/// stop hooks, in this order.
pub open spec fn parts_of(item: ImplShape, parts: RunParts) -> bool {
    let n = item.items@.len() as int;
    let actives = actives_upto(item.items@, n);
    &&& parts.cfg_decls@ == cfg_decls_of(
        inits_upto(item.items@, n),
        inits_upto(item.items@, n).len() as int,
    )
    &&& parts.init_calls@ == init_calls_of(inits_upto(item.items@, n))
    &&& parts.stop_calls@ == stop_calls_of(stops_upto(item.items@, n))
    &&& parts.sub_decls@ == sub_decls_of(handles_upto(item.items@, n))
    &&& parts.handle_spawns@ == handle_spawns_of(handles_upto(item.items@, n))
    &&& parts.active_spawns@ == active_calls_of(actives, ActiveKind::Loop, actives.len() as int)
    &&& parts.once_calls@ == active_calls_of(actives, ActiveKind::Once, actives.len() as int)
    &&& parts.compile_errors@ == handle_diags_upto(item.items@, n) + active_diags_upto(
        item.items@,
        n,
    ) + init_diags_upto(item.items@, n) + stop_diags_upto(item.items@, n)
}

/// Analyses an impl block and builds the parts of the component's run.
pub fn component_for_impl(item: &ImplShape) -> (parts: RunParts)
    ensures
        parts_of(*item, parts),
{
    let (methods, mut errs_h) = collect_handles(item);
    let (actives, mut errs_a) = collect_actives(item);
    let (inits, mut errs_i) = collect_inits(item);
    let (stops, mut errs_s) = collect_stops(item);
    let mut compile_errors: Vec<Diagnostic> = Vec::new();
    compile_errors.append(&mut errs_h);
    compile_errors.append(&mut errs_a);
    compile_errors.append(&mut errs_i);
    compile_errors.append(&mut errs_s);
    let (init_calls, stop_calls, cfg_decls) = build_init_stop_calls(&inits, &stops);
    let (sub_decls, handle_spawns) = build_handle_parts(&methods);
    let (active_spawns, once_calls) = build_active_parts(&actives);
    RunParts {
        cfg_decls,
        init_calls,
        stop_calls,
        sub_decls,
        handle_spawns,
        active_spawns,
        once_calls,
        compile_errors,
    }
}

/// Expands a `component` declaration: a struct gets its factory, an impl
/// block the run of the component, and any other item is refused.
pub fn entrypoint(item: &ItemShape) -> (out: Expansion)
    ensures
        match *item {
            ItemShape::Struct { ident } => out matches Expansion::Factory(names) && names.factory@
                == "__"@ + ident@ + "Factory"@ && names.default_assert@ == "__AssertDefaultFor"@
                + ident@,
            ItemShape::Impl(block) => out matches Expansion::Run(parts) && parts_of(block, parts),
            ItemShape::Other => out matches Expansion::Error(m) && m == Message::ComponentTarget,
        },
{
    match item {
        ItemShape::Struct { ident } => Expansion::Factory(component_for_struct(ident.as_str())),
        ItemShape::Impl(block) => Expansion::Run(component_for_impl(block)),
        ItemShape::Other => Expansion::Error(Message::ComponentTarget),
    }
}

} // verus!
