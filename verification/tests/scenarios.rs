use std::any::Any;
use std::sync::atomic::{AtomicU64, AtomicUsize, Ordering};

use microbus::analyze::RetCase;
use microbus::app::{App, StartStep};
use microbus::bus::{Bus, TypeIndex};
use microbus::collect::ActiveSpec;
use microbus::component::{on_handler_wake, on_return, Arrival, Next, Wake};
use microbus::config::AppConfig;
use microbus::emit_ret::{gen_ret_case_tokens, Outcome};
use microbus::emit_run::{build_active_parts, gen_component_run, RunParts, Step};
use microbus::parse::ActiveKind;
use microbus::routing::TypeRegistry;

#[derive(Debug, PartialEq)]
struct Tick(u64);

#[derive(Debug, PartialEq)]
struct Boot(usize);

#[derive(Debug, PartialEq)]
struct A(u64);

#[derive(Debug, PartialEq)]
struct B(u64);

#[test]
fn minimal_active_to_handle() {
    let mut app: App<i32> = App::new(AppConfig::default());
    let mut ticks: TypeIndex<Tick> = TypeIndex::new();
    assert_eq!(app.start(2), StartStep::Launch);
    let mut consumer = app.bus_handle().subscribe_type(&mut ticks).into_receiver();
    assert_eq!(app.component_arrived(), Arrival::Wait);
    assert_eq!(app.component_arrived(), Arrival::Opened);
    assert!(app.finish_start().0.is_ok());
    app.bus_handle().seal_index(&mut ticks);
    assert!(ticks.is_frozen());

    let latest = AtomicU64::new(0);
    let active = gen_ret_case_tokens(RetCase::Value, false);
    let handler = gen_ret_case_tokens(RetCase::Unit, false);
    let mut seen = Vec::new();
    for i in 0..5u64 {
        let (effect, next) = on_return(active, Outcome { failed: false, payloads: 1 });
        assert_eq!((effect.publications, next), (1, Next::Continue));
        let publication = app.bus_handle().publish_type(&mut ticks, Tick(i));
        assert_eq!(publication.pending.len(), 0);
        assert_eq!(on_handler_wake(Wake::Message), Next::Call);
        let got = consumer.try_recv().unwrap();
        latest.store(got.0, Ordering::SeqCst);
        seen.push(got.0);
        let (effect, next) = on_return(handler, Outcome { failed: false, payloads: 0 });
        assert_eq!((effect.publications, next), (0, Next::Continue));
    }
    let plan = app.stop();
    assert_eq!((plan.wake, plan.join), (true, 2));
    assert_eq!(on_handler_wake(Wake::Stop), Next::Exit);
    assert!(latest.load(Ordering::SeqCst) >= 1);
    assert!(seen.windows(2).all(|w| w[0] <= w[1]));
    assert_eq!(seen, vec![0, 1, 2, 3, 4]);
}

#[test]
fn once_active_is_observed_by_every_peer() {
    let actives = vec![ActiveSpec {
        item: 0,
        wants_ctx: false,
        ret_case: RetCase::Value,
        kind: ActiveKind::Once,
    }];
    let (active_spawns, once_calls) = build_active_parts(&actives);
    let parts = RunParts {
        cfg_decls: vec![],
        init_calls: vec![],
        stop_calls: vec![],
        sub_decls: vec![],
        handle_spawns: vec![],
        active_spawns,
        once_calls,
        compile_errors: vec![],
    };
    let program = gen_component_run(&parts);
    let barrier = program.iter().position(|s| *s == Step::ArriveAndWait).unwrap();
    let onces: Vec<usize> = program
        .iter()
        .enumerate()
        .filter(|(_, s)| matches!(s, Step::Once(_)))
        .map(|(i, _)| i)
        .collect();
    assert_eq!(onces.len(), 1);
    assert!(onces[0] > barrier);

    let mut app: App<i32> = App::new(AppConfig::default());
    let mut boots: TypeIndex<Boot> = TypeIndex::new();
    app.start(4);
    let mut collectors = Vec::new();
    for _ in 0..3 {
        collectors.push(app.bus_handle().subscribe_type(&mut boots).into_receiver());
        assert_eq!(app.component_arrived(), Arrival::Wait);
    }
    assert!(!app.startup_ready());
    assert_eq!(app.component_arrived(), Arrival::Opened);
    assert!(app.startup_ready());

    let calls = AtomicUsize::new(0);
    let counter = AtomicUsize::new(0);
    for step in &program[barrier + 1..] {
        if let Step::Once(call) = step {
            let n = calls.fetch_add(1, Ordering::SeqCst);
            let (effect, _) = on_return(call.plan, Outcome { failed: false, payloads: 1 });
            for _ in 0..effect.publications {
                app.bus_handle().publish_type(&mut boots, Boot(n));
            }
        }
    }
    for rx in collectors.iter_mut() {
        while let Ok(got) = rx.try_recv() {
            assert_eq!(*got, Boot(0));
            counter.fetch_add(1, Ordering::SeqCst);
        }
    }
    assert_eq!(counter.load(Ordering::SeqCst), 3);
    assert_eq!(calls.load(Ordering::SeqCst), 1);
}

#[test]
fn dynamic_values_reach_only_their_own_type() {
    const KEY_A: u64 = 100;
    const KEY_B: u64 = 200;
    const KEY_C: u64 = 300;
    let bus = Bus::new(16);
    let mut registry = TypeRegistry::new();
    let mut index_a: TypeIndex<A> = TypeIndex::new();
    let mut index_b: TypeIndex<B> = TypeIndex::new();
    assert_eq!(registry.slot_or_insert(KEY_A), (0, true));
    assert_eq!(registry.slot_or_insert(KEY_B), (1, true));
    let mut collector_a = bus.subscribe_type(&mut index_a).into_receiver();
    let mut collector_b = bus.subscribe_type(&mut index_b).into_receiver();
    let plan = gen_ret_case_tokens(RetCase::AnyBox, false);
    for n in 0..6u64 {
        let (effect, next) = on_return(plan, Outcome { failed: false, payloads: 1 });
        assert_eq!((effect.publications, next), (1, Next::Continue));
        let boxed: Box<dyn Any + Send + Sync> = if n % 2 == 0 { Box::new(A(n)) } else { Box::new(B(n)) };
        let key = if boxed.is::<A>() { KEY_A } else { KEY_B };
        match registry.slot_of(key) {
            Some(0) => {
                bus.publish_type(&mut index_a, *boxed.downcast::<A>().unwrap());
            }
            Some(1) => {
                bus.publish_type(&mut index_b, *boxed.downcast::<B>().unwrap());
            }
            _ => panic!("both types have an index"),
        }
    }
    assert_eq!(registry.slot_of(KEY_C), None);
    let mut seen_a = 0;
    while let Ok(got) = collector_a.try_recv() {
        assert_eq!(got.0 % 2, 0);
        seen_a += 1;
    }
    let mut seen_b = 0;
    while let Ok(got) = collector_b.try_recv() {
        assert_eq!(got.0 % 2, 1);
        seen_b += 1;
    }
    assert!(seen_a > 0);
    assert!(seen_b > 0);
    assert_eq!((seen_a, seen_b), (3, 3));
}
