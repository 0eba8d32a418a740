use microbus::analyze::RetCase;
use microbus::collect::{collect_handles, MethodSpec};
use microbus::msgs::{Anchor, Diagnostic, Message};
use microbus::syntax::{
    AttrShape, FnArg, GenericArgument, ImplItem, ImplShape, MetaShape, MethodShape,
    PathArguments, PathSegment, ReturnShape, SignatureShape, TypePath, TypeShape,
};

fn path(names: &[&str], args: PathArguments) -> TypeShape {
    let mut segments: Vec<PathSegment> = names
        .iter()
        .map(|n| PathSegment { ident: n.to_string(), arguments: PathArguments::Empty })
        .collect();
    if let Some(last) = segments.last_mut() {
        last.arguments = args;
    }
    TypeShape::Path(TypePath { segments })
}

fn plain(name: &str) -> TypeShape {
    path(&[name], PathArguments::Empty)
}

fn by_ref(ty: TypeShape) -> FnArg {
    FnArg::Typed(TypeShape::Reference { elem: Box::new(ty) })
}

fn result_unit() -> ReturnShape {
    ReturnShape::Type(path(
        &["Result"],
        PathArguments::AngleBracketed(vec![GenericArgument::Type(TypeShape::Tuple { arity: 0 })]),
    ))
}

fn handle_attr(meta: MetaShape) -> AttrShape {
    AttrShape { path: vec!["microbus".to_string(), "handle".to_string()], meta }
}

fn one_method(attr: AttrShape, inputs: Vec<FnArg>) -> ImplShape {
    ImplShape {
        items: vec![ImplItem::Fn(MethodShape {
            attrs: vec![attr],
            sig: SignatureShape { is_async: true, inputs, output: result_unit() },
        })],
    }
}

#[test]
fn ui_handle_instance_without_from_fails() {
    let attr = handle_attr(MetaShape::List {
        is_empty: false,
        text: "Tick , instance = \"x\"".to_string(),
    });
    let block = one_method(attr, vec![FnArg::Receiver { mutable: true }, by_ref(plain("Tick"))]);
    let (methods, errs) = collect_handles(&block);
    assert!(methods.is_empty());
    assert!(!errs.is_empty());
    assert_eq!(
        errs[0],
        Diagnostic { item: 0, anchor: Anchor::CallSite, message: Message::HandleNoArgs }
    );
}

#[test]
fn ui_handle_instance_string_forbidden_fails() {
    let attr = handle_attr(MetaShape::List {
        is_empty: false,
        text: "Tick , from = Src , instance = \"x\"".to_string(),
    });
    let envelope = path(
        &["std", "sync", "Arc"],
        PathArguments::AngleBracketed(vec![GenericArgument::Type(path(
            &["Envelope"],
            PathArguments::AngleBracketed(vec![GenericArgument::Type(plain("Tick"))]),
        ))]),
    );
    let block = one_method(attr, vec![FnArg::Receiver { mutable: true }, FnArg::Typed(envelope)]);
    let (methods, errs) = collect_handles(&block);
    assert!(methods.is_empty());
    assert!(!errs.is_empty());
    assert_eq!(
        errs[0],
        Diagnostic { item: 0, anchor: Anchor::CallSite, message: Message::HandleNoArgs }
    );
}

#[test]
fn ui_handle_happy_min_ok() {
    let ctx = by_ref(path(&["microbus", "component", "ComponentContext"], PathArguments::Empty));
    let shared = one_method(
        handle_attr(MetaShape::Path),
        vec![FnArg::Receiver { mutable: false }, ctx, by_ref(plain("Tick"))],
    );
    let (methods, errs) = collect_handles(&shared);
    assert!(errs.is_empty());
    assert_eq!(
        methods,
        vec![MethodSpec { item: 0, msg_arg: 2, wants_ctx: true, ret_case: RetCase::ResultUnit }]
    );
    // A handler runs on a spawned worker and shares the component: the same
    // declaration with `&mut self` is refused.
    let ctx = by_ref(path(&["microbus", "component", "ComponentContext"], PathArguments::Empty));
    let exclusive = one_method(
        handle_attr(MetaShape::Path),
        vec![FnArg::Receiver { mutable: true }, ctx, by_ref(plain("Tick"))],
    );
    let (methods, errs) = collect_handles(&exclusive);
    assert!(methods.is_empty());
    assert_eq!(
        errs,
        vec![Diagnostic { item: 0, anchor: Anchor::Signature, message: Message::HandleMutSelf }]
    );
}
