//! The run of a component as a program: the ordered steps that its task
//! takes from init to exit, assembled from the hooks, handlers and active
//! methods that were collected.

use vstd::prelude::*;
use crate::collect::{ActiveSpec, InitModel, InitSpec, MethodSpec, StopSpec, init_views};
use crate::emit_ret::{RetPlan, gen_ret_case_tokens, ret_plan};
use crate::msgs::Diagnostic;
use crate::parse::ActiveKind;

verus! {

/// One call of a method of the component: the impl item that declares the
/// method, whether the context is passed, which looked-up configuration
/// values are passed (`cfg_count` of them, from slot `cfg_first` on),
/// whether the call is awaited, and what is done with the returned value.
#[derive(Clone, Copy, Debug, PartialEq, Eq, Structural)]
pub struct Call {
    pub item: usize,
    pub wants_ctx: bool,
    pub cfg_first: usize,
    pub cfg_count: usize,
    pub awaited: bool,
    pub plan: RetPlan,
}

/// The lookup of one configuration value for an init hook: `slot` numbers
/// the lookups of the component, the configuration type is that of
/// parameter `arg` of impl item `item`.
#[derive(Clone, Copy, Debug, PartialEq, Eq, Structural)]
pub struct CfgDecl {
    pub slot: usize,
    pub item: usize,
    pub arg: usize,
}

/// The subscription of one handler: `slot` numbers the handlers of the
/// component, the message type is that of parameter `msg_arg` of impl
/// item `item`.
#[derive(Clone, Copy, Debug, PartialEq, Eq, Structural)]
pub struct SubDecl {
    pub slot: usize,
    pub item: usize,
    pub msg_arg: usize,
}

/// The worker of one handler: it receives from the subscription `slot`
/// and makes `call` for each message.
#[derive(Clone, Copy, Debug, PartialEq, Eq, Structural)]
pub struct HandleSpawn {
    pub slot: usize,
    pub call: Call,
}

/// One step of a component's run.
#[derive(Clone, Copy, Debug, PartialEq, Eq, Structural)]
pub enum Step {
    /// Look up a configuration value that an init hook asks for; where the
    /// store holds none, the start is aborted.
    Require(CfgDecl),
    /// Call an init hook, with exclusive access to the component.
    Init(Call),
    /// Move the component into a shared container for its workers.
    Freeze,
    /// Subscribe a handler to its message type.
    Subscribe(SubDecl),
    /// Arrive at the startup barrier and wait until it opens.
    ArriveAndWait,
    /// Call an active method that runs once.
    Once(Call),
    /// Start the worker of a handler.
    SpawnHandler(HandleSpawn),
    /// Start the worker of a looping active method.
    SpawnLoop(Call),
    /// Wait for the stop signal.
    AwaitStop,
    /// Call a stop hook.
    Stop(Call),
    /// Return from the task.
    Finish,
}

/// The parts of a component's run, each in declaration order.
pub struct RunParts {
    pub cfg_decls: Vec<CfgDecl>,
    pub init_calls: Vec<Call>,
    pub stop_calls: Vec<Call>,
    pub sub_decls: Vec<SubDecl>,
    pub handle_spawns: Vec<HandleSpawn>,
    pub active_spawns: Vec<Call>,
    pub once_calls: Vec<Call>,
    pub compile_errors: Vec<Diagnostic>,
}

/// How many configuration values the first `k` init hooks ask for.
pub open spec fn cfg_offset(inits: Seq<InitModel>, k: int) -> nat
    decreases k,
{
    if k <= 0 {
        0
    } else {
        cfg_offset(inits, k - 1) + inits[k - 1].cfg_args.len()
    }
}

/// The lookups of one init hook, numbered from `first` on, in the order
/// of its parameters.
pub open spec fn cfg_decls_for(s: InitModel, first: nat) -> Seq<CfgDecl> {
    Seq::new(
        s.cfg_args.len(),
        |j: int| CfgDecl { slot: (first + j) as usize, item: s.item, arg: s.cfg_args[j] },
    )
}

/// The lookups of the first `k` init hooks, in declaration order.
pub open spec fn cfg_decls_of(inits: Seq<InitModel>, k: int) -> Seq<CfgDecl>
    decreases k,
{
    if k <= 0 {
        Seq::<CfgDecl>::empty()
    } else {
        cfg_decls_of(inits, k - 1) + cfg_decls_for(inits[k - 1], cfg_offset(inits, k - 1))
    }
}

/// The call of an init hook whose lookups start at slot `first`: it is
/// awaited, and an error aborts the start.
pub open spec fn init_call(s: InitModel, first: nat) -> Call {
    Call {
        item: s.item,
        wants_ctx: s.wants_ctx,
        cfg_first: first as usize,
        cfg_count: s.cfg_args.len() as usize,
        awaited: true,
        plan: ret_plan(s.ret_case, true),
    }
}

/// The call of a stop hook: it is not awaited, and an error is logged.
pub open spec fn stop_call(s: StopSpec) -> Call {
    Call {
        item: s.item,
        wants_ctx: s.wants_ctx,
        cfg_first: 0,
        cfg_count: 0,
        awaited: false,
        plan: ret_plan(s.ret_case, false),
    }
}

/// The call of a handler: it is awaited, and an error is logged.
pub open spec fn handle_call(s: MethodSpec) -> Call {
    Call {
        item: s.item,
        wants_ctx: s.wants_ctx,
        cfg_first: 0,
        cfg_count: 0,
        awaited: true,
        plan: ret_plan(s.ret_case, false),
    }
}

/// The call of an active method: it is awaited, and an error is logged.
pub open spec fn active_call(s: ActiveSpec) -> Call {
    Call {
        item: s.item,
        wants_ctx: s.wants_ctx,
        cfg_first: 0,
        cfg_count: 0,
        awaited: true,
        plan: ret_plan(s.ret_case, false),
    }
}

/// The calls of the init hooks, in declaration order; each takes the
/// lookups that were numbered for it.
pub open spec fn init_calls_of(inits: Seq<InitModel>) -> Seq<Call> {
    Seq::new(inits.len(), |i: int| init_call(inits[i], cfg_offset(inits, i)))
}

/// The calls of the stop hooks, in declaration order.
pub open spec fn stop_calls_of(stops: Seq<StopSpec>) -> Seq<Call> {
    Seq::new(stops.len(), |i: int| stop_call(stops[i]))
}

/// The subscriptions of the handlers: handler `i` gets slot `i`.
pub open spec fn sub_decls_of(methods: Seq<MethodSpec>) -> Seq<SubDecl> {
    Seq::new(
        methods.len(),
        |i: int| SubDecl { slot: i as usize, item: methods[i].item, msg_arg: methods[i].msg_arg },
    )
}

/// The workers of the handlers: handler `i` receives from slot `i`.
pub open spec fn handle_spawns_of(methods: Seq<MethodSpec>) -> Seq<HandleSpawn> {
    Seq::new(
        methods.len(),
        |i: int| HandleSpawn { slot: i as usize, call: handle_call(methods[i]) },
    )
}

/// The calls of the active methods of kind `kind` among the first `n`, in
/// declaration order.
pub open spec fn active_calls_of(actives: Seq<ActiveSpec>, kind: ActiveKind, n: int) -> Seq<Call>
    decreases n,
{
    if n <= 0 {
        Seq::<Call>::empty()
    } else if actives[n - 1].kind == kind {
        active_calls_of(actives, kind, n - 1).push(active_call(actives[n - 1]))
    } else {
        active_calls_of(actives, kind, n - 1)
    }
}

/// As many lookups are numbered for the first `k` init hooks as they ask
/// for configuration values.
pub proof fn lemma_cfg_decls_len(inits: Seq<InitModel>, k: int)
    ensures
        cfg_decls_of(inits, k).len() == cfg_offset(inits, k),
    decreases k,
{
    if k > 0 {
        lemma_cfg_decls_len(inits, k - 1);
    }
}

/// Builds the calls of the init hooks and of the stop hooks, and the
/// lookups of the configuration values that the init hooks ask for.
pub fn build_init_stop_calls(inits: &Vec<InitSpec>, stops: &Vec<StopSpec>) -> (out: (
    Vec<Call>,
    Vec<Call>,
    Vec<CfgDecl>,
))
    ensures
        out.0@ == init_calls_of(init_views(inits@)),
        out.1@ == stop_calls_of(stops@),
        out.2@ == cfg_decls_of(init_views(inits@), inits@.len() as int),
{
    let ghost views = init_views(inits@);
    let mut init_calls: Vec<Call> = Vec::new();
    let mut cfg_decls: Vec<CfgDecl> = Vec::new();
    let mut i: usize = 0;
    while i < inits.len()
        invariant
            i <= inits.len(),
            views == init_views(inits@),
            init_calls@ == Seq::new(i as nat, |k: int| init_call(views[k], cfg_offset(views, k))),
            cfg_decls@ == cfg_decls_of(views, i as int),
        decreases inits.len() - i,
    {
        let s = &inits[i];
        let first = cfg_decls.len();
        proof {
            lemma_cfg_decls_len(views, i as int);
        }
        init_calls.push(
            Call {
                item: s.item,
                wants_ctx: s.wants_ctx,
                cfg_first: first,
                cfg_count: s.cfg_args.len(),
                awaited: true,
                plan: gen_ret_case_tokens(s.ret_case, true),
            },
        );
        let ghost before = cfg_decls@;
        let mut j: usize = 0;
        while j < s.cfg_args.len()
            invariant
                i < inits.len(),
                j <= s.cfg_args.len(),
                first == before.len(),
                views == init_views(inits@),
                *s == inits@[i as int],
                cfg_decls@ == before + cfg_decls_for(views[i as int], first as nat).take(j as int),
            decreases s.cfg_args.len() - j,
        {
            let slot = cfg_decls.len();
            cfg_decls.push(CfgDecl { slot, item: s.item, arg: s.cfg_args[j] });
            j += 1;
        }
        i += 1;
    }
    let mut stop_calls: Vec<Call> = Vec::new();
    let mut j: usize = 0;
    while j < stops.len()
        invariant
            j <= stops.len(),
            stop_calls@ == Seq::new(j as nat, |k: int| stop_call(stops@[k])),
        decreases stops.len() - j,
    {
        let s = &stops[j];
        stop_calls.push(
            Call {
                item: s.item,
                wants_ctx: s.wants_ctx,
                cfg_first: 0,
                cfg_count: 0,
                awaited: false,
                plan: gen_ret_case_tokens(s.ret_case, false),
            },
        );
        j += 1;
    }
    (init_calls, stop_calls, cfg_decls)
}

/// Builds the subscriptions and the workers of the handlers.
pub fn build_handle_parts(methods: &Vec<MethodSpec>) -> (out: (Vec<SubDecl>, Vec<HandleSpawn>))
    ensures
        out.0@ == sub_decls_of(methods@),
        out.1@ == handle_spawns_of(methods@),
{
    let mut sub_decls: Vec<SubDecl> = Vec::new();
    let mut handle_spawns: Vec<HandleSpawn> = Vec::new();
    let mut idx: usize = 0;
    while idx < methods.len()
        invariant
            idx <= methods.len(),
            sub_decls@ == Seq::new(
                idx as nat,
                |i: int|
                    SubDecl { slot: i as usize, item: methods@[i].item, msg_arg: methods@[i].msg_arg },
            ),
            handle_spawns@ == Seq::new(
                idx as nat,
                |i: int| HandleSpawn { slot: i as usize, call: handle_call(methods@[i]) },
            ),
        decreases methods.len() - idx,
    {
        let ms = &methods[idx];
        sub_decls.push(SubDecl { slot: idx, item: ms.item, msg_arg: ms.msg_arg });
        handle_spawns.push(
            HandleSpawn {
                slot: idx,
                call: Call {
                    item: ms.item,
                    wants_ctx: ms.wants_ctx,
                    cfg_first: 0,
                    cfg_count: 0,
                    awaited: true,
                    plan: gen_ret_case_tokens(ms.ret_case, false),
                },
            },
        );
        idx += 1;
    }
    (sub_decls, handle_spawns)
}

/// Builds the workers of the looping active methods and the calls of
/// those that run once.
pub fn build_active_parts(actives: &Vec<ActiveSpec>) -> (out: (Vec<Call>, Vec<Call>))
    ensures
        out.0@ == active_calls_of(actives@, ActiveKind::Loop, actives@.len() as int),
        out.1@ == active_calls_of(actives@, ActiveKind::Once, actives@.len() as int),
{
    let mut active_spawns: Vec<Call> = Vec::new();
    let mut once_calls: Vec<Call> = Vec::new();
    let mut i: usize = 0;
    while i < actives.len()
        invariant
            i <= actives.len(),
            active_spawns@ == active_calls_of(actives@, ActiveKind::Loop, i as int),
            once_calls@ == active_calls_of(actives@, ActiveKind::Once, i as int),
        decreases actives.len() - i,
    {
        let a = &actives[i];
        let call = Call {
            item: a.item,
            wants_ctx: a.wants_ctx,
            cfg_first: 0,
            cfg_count: 0,
            awaited: true,
            plan: gen_ret_case_tokens(a.ret_case, false),
        };
        match a.kind {
            ActiveKind::Once => {
                once_calls.push(call);
            },
            ActiveKind::Loop => {
                active_spawns.push(call);
            },
        }
        i += 1;
    }
    (active_spawns, once_calls)
}

/// The steps of a run: the lookups of configuration values, init hooks,
/// freeze, subscriptions, the barrier, the active methods that run once,
/// the workers, the wait for the stop signal, the stop hooks, and the
/// return.
pub open spec fn run_program(parts: RunParts) -> Seq<Step> {
    parts.cfg_decls@.map_values(|d: CfgDecl| Step::Require(d))
        + parts.init_calls@.map_values(|c: Call| Step::Init(c)).push(Step::Freeze)
        + parts.sub_decls@.map_values(|d: SubDecl| Step::Subscribe(d)).push(Step::ArriveAndWait)
        + parts.once_calls@.map_values(|c: Call| Step::Once(c))
        + parts.handle_spawns@.map_values(|h: HandleSpawn| Step::SpawnHandler(h))
        + parts.active_spawns@.map_values(|c: Call| Step::SpawnLoop(c)).push(Step::AwaitStop)
        + parts.stop_calls@.map_values(|c: Call| Step::Stop(c)).push(Step::Finish)
}

/// The position of the barrier in the program of `parts`.
pub open spec fn barrier_position(parts: RunParts) -> int {
    (parts.cfg_decls@.len() + parts.init_calls@.len() + 1 + parts.sub_decls@.len()) as int
}

/// The position of the subscription of handler `k` in the program of
/// `parts`.
pub open spec fn subscribe_position(parts: RunParts, k: int) -> int {
    parts.cfg_decls@.len() + parts.init_calls@.len() + 1 + k
}

/// Assembles the program of a component's run from its parts.
pub fn gen_component_run(parts: &RunParts) -> (program: Vec<Step>)
    ensures
        program@ == run_program(*parts),
{
    let mut program: Vec<Step> = Vec::new();
    let mut i: usize = 0;
    while i < parts.cfg_decls.len()
        invariant
            i <= parts.cfg_decls.len(),
            program@ == parts.cfg_decls@.take(i as int).map_values(|d: CfgDecl| Step::Require(d)),
        decreases parts.cfg_decls.len() - i,
    {
        program.push(Step::Require(parts.cfg_decls[i]));
        i += 1;
    }
    let ghost with_lookups = program@;
    i = 0;
    while i < parts.init_calls.len()
        invariant
            i <= parts.init_calls.len(),
            program@ == with_lookups + parts.init_calls@.take(i as int).map_values(
                |c: Call| Step::Init(c),
            ),
        decreases parts.init_calls.len() - i,
    {
        program.push(Step::Init(parts.init_calls[i]));
        i += 1;
    }
    program.push(Step::Freeze);
    let ghost with_freeze = program@;
    i = 0;
    while i < parts.sub_decls.len()
        invariant
            i <= parts.sub_decls.len(),
            program@ == with_freeze + parts.sub_decls@.take(i as int).map_values(
                |d: SubDecl| Step::Subscribe(d),
            ),
        decreases parts.sub_decls.len() - i,
    {
        program.push(Step::Subscribe(parts.sub_decls[i]));
        i += 1;
    }
    program.push(Step::ArriveAndWait);
    let ghost with_barrier = program@;
    i = 0;
    while i < parts.once_calls.len()
        invariant
            i <= parts.once_calls.len(),
            program@ == with_barrier + parts.once_calls@.take(i as int).map_values(|c: Call| Step::Once(c)),
        decreases parts.once_calls.len() - i,
    {
        program.push(Step::Once(parts.once_calls[i]));
        i += 1;
    }
    let ghost with_onces = program@;
    i = 0;
    while i < parts.handle_spawns.len()
        invariant
            i <= parts.handle_spawns.len(),
            program@ == with_onces + parts.handle_spawns@.take(i as int).map_values(
                |h: HandleSpawn| Step::SpawnHandler(h),
            ),
        decreases parts.handle_spawns.len() - i,
    {
        program.push(Step::SpawnHandler(parts.handle_spawns[i]));
        i += 1;
    }
    let ghost with_handlers = program@;
    i = 0;
    while i < parts.active_spawns.len()
        invariant
            i <= parts.active_spawns.len(),
            program@ == with_handlers + parts.active_spawns@.take(i as int).map_values(
                |c: Call| Step::SpawnLoop(c),
            ),
        decreases parts.active_spawns.len() - i,
    {
        program.push(Step::SpawnLoop(parts.active_spawns[i]));
        i += 1;
    }
    program.push(Step::AwaitStop);
    let ghost with_stop_wait = program@;
    i = 0;
    while i < parts.stop_calls.len()
        invariant
            i <= parts.stop_calls.len(),
            program@ == with_stop_wait + parts.stop_calls@.take(i as int).map_values(|c: Call| Step::Stop(c)),
        decreases parts.stop_calls.len() - i,
    {
        program.push(Step::Stop(parts.stop_calls[i]));
        i += 1;
    }
    program.push(Step::Finish);
    program
}

/// In the program of a run, the barrier stands at `barrier_position`;
/// before it stand only lookups, init hooks, the freeze and every
/// subscription, and after it no lookup, no init hook and no subscription: every active method
/// that runs once and every worker comes after the barrier, and every
/// subscription before it.
pub proof fn lemma_barrier_splits_program(parts: RunParts)
    ensures
        0 <= barrier_position(parts) < run_program(parts).len(),
        run_program(parts)[barrier_position(parts)] == Step::ArriveAndWait,
        forall|i: int|
            0 <= i < barrier_position(parts) ==> (#[trigger] run_program(parts)[i] is Require
                || run_program(parts)[i] is Init || run_program(parts)[i] is Freeze
                || run_program(parts)[i] is Subscribe),
        forall|i: int|
            barrier_position(parts) < i < run_program(parts).len() ==> !(
            #[trigger] run_program(parts)[i] is Init) && !(run_program(parts)[i] is Require) && !(
            run_program(parts)[i] is Subscribe) && !(run_program(parts)[i] is ArriveAndWait),
        forall|k: int|
            0 <= k < parts.sub_decls@.len() ==> 0 <= #[trigger] subscribe_position(parts, k)
                < barrier_position(parts) && run_program(parts)[subscribe_position(parts, k)]
                == Step::Subscribe(parts.sub_decls@[k]),
        forall|i: int|
            0 <= i < run_program(parts).len() && (#[trigger] run_program(parts)[i] is Once
                || run_program(parts)[i] is SpawnHandler || run_program(parts)[i] is SpawnLoop)
                ==> barrier_position(parts) < i,
{
}

} // verus!
