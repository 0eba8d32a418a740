use microbus::app::{App, StartStep};
use microbus::bus::TypeIndex;
use microbus::codegen::component_for_impl;
use microbus::component::{on_return, Arrival, Next};
use microbus::config::{AppConfig, ConfigStore, TypeKey};
use microbus::emit_ret::Outcome;
use microbus::emit_run::{gen_component_run, Step};
use microbus::error::MicrobusError;
use microbus::syntax::{
    AttrShape, FnArg, ImplItem, ImplShape, MetaShape, MethodShape, PathArguments, PathSegment,
    ReturnShape, SignatureShape, TypePath, TypeShape,
};

#[derive(Debug, PartialEq)]
struct Echo(i32);

const CFG: TypeKey = 7;

fn plain(name: &str) -> TypeShape {
    TypeShape::Path(TypePath {
        segments: vec![PathSegment { ident: name.to_string(), arguments: PathArguments::Empty }],
    })
}

/// `#[init] async fn init(&mut self, cfg: &Cfg) -> Echo`
fn echoer() -> ImplShape {
    ImplShape {
        items: vec![ImplItem::Fn(MethodShape {
            attrs: vec![AttrShape { path: vec!["init".to_string()], meta: MetaShape::Path }],
            sig: SignatureShape {
                is_async: true,
                inputs: vec![
                    FnArg::Receiver { mutable: true },
                    FnArg::Typed(TypeShape::Reference { elem: Box::new(plain("Cfg")) }),
                ],
                output: ReturnShape::Type(plain("Echo")),
            },
        })],
    }
}

/// Runs the component up to the barrier as its program says; gives the
/// number of init calls made and whether the run was aborted.
fn run_to_barrier(app: &mut App<i32>, echoes: &mut TypeIndex<Echo>) -> (usize, bool) {
    let parts = component_for_impl(&echoer());
    assert!(parts.compile_errors.is_empty());
    let mut looked_up: Vec<i32> = Vec::new();
    let mut init_calls = 0;
    for step in gen_component_run(&parts) {
        match step {
            Step::Require(decl) => {
                assert_eq!((decl.slot, decl.item, decl.arg), (looked_up.len(), 0, 1));
                let (next, _wake) = app.config_required(CFG);
                if next == Next::Abort {
                    return (init_calls, true);
                }
                looked_up.push(*app.config().get(CFG).unwrap());
            }
            Step::Init(call) => {
                init_calls += 1;
                assert_eq!((call.cfg_first, call.cfg_count), (0, 1));
                let echo = Echo(looked_up[call.cfg_first]);
                let (effect, next) = on_return(call.plan, Outcome { failed: false, payloads: 1 });
                assert_eq!((effect.publications, next), (1, Next::Continue));
                app.bus_handle().publish_type(echoes, echo);
            }
            Step::ArriveAndWait => {
                assert_eq!(app.component_arrived(), Arrival::Opened);
                return (init_calls, false);
            }
            _ => {}
        }
    }
    (init_calls, false)
}

#[test]
fn test_file_exists() {
    assert_eq!(2 + 2, 4);
}

#[test]
fn init_reads_config_and_publishes() {
    let mut app: App<i32> = App::new(AppConfig::default());
    app.add_config(CFG, 42);
    let mut echoes: TypeIndex<Echo> = TypeIndex::new();
    let mut sink = app.bus_handle().subscribe_type(&mut echoes).into_receiver();
    assert_eq!(app.start(1), StartStep::Launch);
    assert_eq!(run_to_barrier(&mut app, &mut echoes), (1, false));
    assert!(app.startup_ready());
    let (result, _) = app.finish_start();
    assert!(result.is_ok());
    assert!(app.is_started());
    assert_eq!(*sink.try_recv().unwrap(), Echo(42));
    assert!(sink.try_recv().is_err());
    app.stop();
    assert!(sink.try_recv().is_err());
}

#[test]
fn missing_required_config_aborts_start() {
    let store: ConfigStore<i32> = ConfigStore::new();
    match store.require(CFG) {
        Err(MicrobusError::Other(msg)) => assert_eq!(msg, "missing required config"),
        _ => panic!("an empty store holds no required value"),
    }
    let mut app: App<i32> = App::new(AppConfig::default());
    let mut echoes: TypeIndex<Echo> = TypeIndex::new();
    let mut sink = app.bus_handle().subscribe_type(&mut echoes).into_receiver();
    assert_eq!(app.start(1), StartStep::Launch);
    assert_eq!(run_to_barrier(&mut app, &mut echoes), (0, true));
    assert!(app.startup_failed());
    assert!(app.startup_ready());
    let (result, plan) = app.finish_start();
    match result {
        Err(e) => assert_eq!(e.message(), "app start aborted: init/build failed"),
        Ok(()) => panic!("a failed start returns an error"),
    }
    assert!(plan.wake);
    assert_eq!(plan.join, 1);
    assert!(!app.is_started());
    assert!(!app.bus_handle().is_sealed());
    assert!(sink.try_recv().is_err());
    let again = app.stop();
    assert!(!again.wake);
    assert_eq!(again.join, 0);
}

#[test]
fn missing_config_wakes_the_waiters_once() {
    let mut app: App<i32> = App::new(AppConfig::default());
    app.add_config(1, 5);
    app.start(2);
    assert_eq!(app.config_required(1), (Next::Continue, false));
    assert!(!app.startup_failed());
    assert_eq!(app.config_required(2), (Next::Abort, true));
    assert!(app.startup_failed());
    assert_eq!(app.config_required(2), (Next::Abort, false));
    assert_eq!(app.component_arrived(), Arrival::Proceed);
}
