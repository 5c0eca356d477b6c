//! Whole runs of a build: the calls made and the way a run ends, for every
//! course that the replies can take.

use crate::builder::{absent_or_nul_free, BuildView, Config, LogMode, PlanView, Stage};
use crate::call::{CallView, ReplyView, StepView, NO_LOG_FD};
use crate::error::ErrorView;
use crate::status::failed;
use vstd::prelude::*;

verus! {

/// The most calls that a run at `stage` still makes, the one under way
/// included.
pub open spec fn calls_left(stage: Stage) -> nat {
    match stage {
        Stage::Node => 10,
        Stage::Pipe => 9,
        Stage::Log => 8,
        Stage::Dir => 7,
        Stage::Hostname => 6,
        Stage::AuthKey => 5,
        Stage::ControlUrl => 4,
        Stage::Ephemeral => 3,
        Stage::Start => 2,
        Stage::Fetch => 1,
    }
}

/// A run as far as a sequence of replies takes it.
pub ghost struct Run {
    /// The calls that were answered, in the order in which they were made.
    pub calls: Seq<CallView>,
    /// How the run ended, if the replies took it to its end.
    pub result: Option<Result<i32, ErrorView>>,
}

/// The run from `build` on, when `replies` answer its calls one by one.
/// Replies that come after its end are left alone.
pub open spec fn run(build: BuildView, replies: Seq<ReplyView>) -> Run
    decreases replies.len(),
{
    if replies.len() == 0 {
        Run { calls: seq![], result: None }
    } else {
        match build.resolve(replies[0]) {
            StepView::Done(result) => Run { calls: seq![build.call], result: Some(result) },
            StepView::Next(next) => {
                let rest = run(next, replies.drop_first());
                Run { calls: seq![build.call] + rest.calls, result: rest.result }
            },
        }
    }
}

/// The calls of a run come in one fixed order: whatever the reply, the call
/// that follows belongs to a later stage, and it matches its stage as the
/// one before did.
pub proof fn resolve_moves_on(build: BuildView, reply: ReplyView)
    requires
        build.wf(),
    ensures
        build.resolve(reply) matches StepView::Next(next) ==> {
            &&& next.wf()
            &&& calls_left(next.stage) < calls_left(build.stage)
            &&& build.stage != Stage::Node ==> next.node == build.node
        },
{
}

/// A run is over after ten replies at most, and then it has ended in exactly
/// one way: with the handle of the node or with an error.
pub proof fn run_settles(build: BuildView, replies: Seq<ReplyView>)
    requires
        build.wf(),
        replies.len() >= calls_left(build.stage),
    ensures
        run(build, replies).result is Some,
        run(build, replies).calls.len() <= calls_left(build.stage),
    decreases replies.len(),
{
    resolve_moves_on(build, replies[0]);
    match build.resolve(replies[0]) {
        StepView::Done(_) => {},
        StepView::Next(next) => {
            run_settles(next, replies.drop_first());
        },
    }
}

/// A run that has not begun with the creation of the node keeps its node to
/// the end, and ends well only after the node's start was answered with
/// success: the last call answered is that start, and the result is the
/// node. A run that ends badly ends with the engine's message or with the
/// failure of the log pipe, never with an encoding error.
pub proof fn run_ends_started(build: BuildView, replies: Seq<ReplyView>)
    requires
        build.wf(),
        build.stage != Stage::Node,
    ensures
        run(build, replies).result matches Some(Ok(node)) ==> {
            &&& node == build.node
            &&& run(build, replies).calls.last() == (CallView::Start { node })
            &&& replies.len() >= run(build, replies).calls.len()
            &&& !failed(replies[run(build, replies).calls.len() - 1].status)
        },
        run(build, replies).result matches Some(Err(error)) ==> error is TSNet || error is IO,
    decreases replies.len(),
{
    if replies.len() > 0 {
        resolve_moves_on(build, replies[0]);
        match build.resolve(replies[0]) {
            StepView::Done(_) => {},
            StepView::Next(next) => {
                let rest = replies.drop_first();
                run_ends_started(next, rest);
                let tail = run(next, rest).calls;
                if run(next, rest).result is Some && run(next, rest).result->0 is Ok {
                    assert(tail.len() > 0);
                    assert((seq![build.call] + tail).last() == tail.last());
                    assert(replies[tail.len() as int] == rest[tail.len() - 1]);
                }
            },
        }
    }
}

/// A build from its beginning: for every configuration that could be handed
/// to the engine and every ten replies or more, the run ends, and it ends
/// either with a started node, whose handle is the one that the engine
/// handed out at the first call, or with one error, which is the engine's
/// message or the failure of the log pipe.
pub proof fn build_ends_started_or_failed(config: Config, replies: Seq<ReplyView>)
    requires
        config.encodable(),
        replies.len() >= 10,
    ensures
        ({
            let whole = run(BuildView::begin(config.plan()), replies);
            &&& whole.result is Some
            &&& whole.calls.len() <= 10
            &&& whole.calls[0] == CallView::NewNode
            &&& whole.result matches Some(Ok(node)) ==> {
                &&& node == replies[0].status
                &&& whole.calls.last() == (CallView::Start { node })
                &&& !failed(replies[whole.calls.len() - 1].status)
            }
            &&& whole.result matches Some(Err(error)) ==> error is TSNet || error is IO
        }),
{
    let build = BuildView::begin(config.plan());
    run_settles(build, replies);
    resolve_moves_on(build, replies[0]);
    match build.resolve(replies[0]) {
        StepView::Done(_) => {},
        StepView::Next(next) => {
            let rest = replies.drop_first();
            run_ends_started(next, rest);
            let tail = run(next, rest).calls;
            if run(next, rest).result is Some && run(next, rest).result->0 is Ok {
                assert(tail.len() > 0);
                assert((seq![build.call] + tail).last() == tail.last());
                assert(replies[tail.len() as int] == rest[tail.len() - 1]);
            }
        },
    }
}

/// A string with a zero byte never reaches the engine: a configuration whose
/// directory, hostname, auth key or control URL holds one cannot be handed
/// over, and what refuses it is an encoding error.
pub proof fn nul_is_refused(config: Config, error: ErrorView)
    requires
        !absent_or_nul_free(config.plan().dir) || !absent_or_nul_free(config.plan().hostname)
            || !absent_or_nul_free(config.plan().authkey) || !absent_or_nul_free(
            config.plan().control_url,
        ),
    ensures
        !config.encodable(),
        config.refused_with(error) ==> error is NullInString || error
            == ErrorView::CantConvertToString,
{
}

/// The calls that set the log target up.
pub open spec fn log_calls(log: LogMode, node: i32, pipe: i32) -> Seq<CallView> {
    match log {
        LogMode::Default => seq![],
        LogMode::Redirect => seq![CallView::OpenLogPipe, CallView::SetLogFd { node, fd: pipe }],
        LogMode::Disable => seq![CallView::SetLogFd { node, fd: NO_LOG_FD }],
    }
}

/// The call for a string that may be missing.
pub open spec fn optional_call(bytes: Option<Seq<u8>>, call: spec_fn(Seq<u8>) -> CallView) -> Seq<
    CallView,
> {
    match bytes {
        Some(bytes) => seq![call(bytes)],
        None => seq![],
    }
}

/// The calls that apply the strings of `plan` to `node`, in their order.
pub open spec fn string_calls(plan: PlanView, node: i32) -> Seq<CallView> {
    optional_call(plan.dir, |dir: Seq<u8>| CallView::SetDir { node, dir }) + optional_call(
        plan.hostname,
        |hostname: Seq<u8>| CallView::SetHostname { node, hostname },
    ) + optional_call(plan.authkey, |authkey: Seq<u8>| CallView::SetAuthKey { node, authkey })
        + optional_call(
        plan.control_url,
        |control_url: Seq<u8>| CallView::SetControlUrl { node, control_url },
    )
}

/// The calls that end a run: the ephemeral flag, then the start.
pub open spec fn closing_calls(plan: PlanView, node: i32) -> Seq<CallView> {
    seq![
        CallView::SetEphemeral { node, ephemeral: if plan.ephemeral { 1i32 } else { 0i32 } },
        CallView::Start { node },
    ]
}

/// All calls of a build that meets no failure: the node, the log target,
/// the strings that are set, the ephemeral flag, the start.
pub open spec fn calls_in_order(plan: PlanView, node: i32, pipe: i32) -> Seq<CallView> {
    seq![CallView::NewNode] + log_calls(plan.log, node, pipe) + string_calls(plan, node)
        + closing_calls(plan, node)
}

/// No reply reports a failure.
pub open spec fn all_succeed(replies: Seq<ReplyView>) -> bool {
    forall|i: int| 0 <= i < replies.len() ==> !failed(#[trigger] replies[i].status)
}

/// The run from a step on: that of the build inside, or none where the step
/// has ended the run.
pub open spec fn run_from(step: StepView<BuildView, i32>, replies: Seq<ReplyView>) -> Run {
    match step {
        StepView::Next(build) => run(build, replies),
        StepView::Done(result) => Run { calls: seq![], result: Some(result) },
    }
}

proof fn ends_in_order(node: i32, plan: PlanView, replies: Seq<ReplyView>)
    requires
        all_succeed(replies),
        replies.len() >= 2,
    ensures
        run_from(BuildView::enter_ephemeral(node, plan), replies).calls =~= closing_calls(
            plan,
            node,
        ),
        run_from(BuildView::enter_ephemeral(node, plan), replies).result == Some(
            Ok::<i32, ErrorView>(node),
        ),
{
    let rest = replies.drop_first();
    assert(!failed(replies[0].status));
    assert(!failed(rest[0].status));
    let start = BuildView::enter_start(node, plan)->Next_0;
    assert(run(start, rest).calls =~= seq![CallView::Start { node }]);
}

proof fn control_url_in_order(node: i32, plan: PlanView, replies: Seq<ReplyView>)
    requires
        all_succeed(replies),
        replies.len() >= 3,
    ensures
        run_from(BuildView::enter_control_url(node, plan), replies).calls =~= optional_call(
            plan.control_url,
            |control_url: Seq<u8>| CallView::SetControlUrl { node, control_url },
        ) + closing_calls(plan, node),
        run_from(BuildView::enter_control_url(node, plan), replies).result == Some(
            Ok::<i32, ErrorView>(node),
        ),
{
    if plan.control_url is Some {
        assert(!failed(replies[0].status));
        assert(all_succeed(replies.drop_first()));
        ends_in_order(node, PlanView { control_url: None, ..plan }, replies.drop_first());
    } else {
        ends_in_order(node, plan, replies);
    }
}

proof fn authkey_in_order(node: i32, plan: PlanView, replies: Seq<ReplyView>)
    requires
        all_succeed(replies),
        replies.len() >= 4,
    ensures
        run_from(BuildView::enter_authkey(node, plan), replies).calls =~= optional_call(
            plan.authkey,
            |authkey: Seq<u8>| CallView::SetAuthKey { node, authkey },
        ) + optional_call(
            plan.control_url,
            |control_url: Seq<u8>| CallView::SetControlUrl { node, control_url },
        ) + closing_calls(plan, node),
        run_from(BuildView::enter_authkey(node, plan), replies).result == Some(
            Ok::<i32, ErrorView>(node),
        ),
{
    if plan.authkey is Some {
        assert(!failed(replies[0].status));
        assert(all_succeed(replies.drop_first()));
        control_url_in_order(node, PlanView { authkey: None, ..plan }, replies.drop_first());
    } else {
        control_url_in_order(node, plan, replies);
    }
}

proof fn hostname_in_order(node: i32, plan: PlanView, replies: Seq<ReplyView>)
    requires
        all_succeed(replies),
        replies.len() >= 5,
    ensures
        run_from(BuildView::enter_hostname(node, plan), replies).calls =~= optional_call(
            plan.hostname,
            |hostname: Seq<u8>| CallView::SetHostname { node, hostname },
        ) + optional_call(
            plan.authkey,
            |authkey: Seq<u8>| CallView::SetAuthKey { node, authkey },
        ) + optional_call(
            plan.control_url,
            |control_url: Seq<u8>| CallView::SetControlUrl { node, control_url },
        ) + closing_calls(plan, node),
        run_from(BuildView::enter_hostname(node, plan), replies).result == Some(
            Ok::<i32, ErrorView>(node),
        ),
{
    if plan.hostname is Some {
        assert(!failed(replies[0].status));
        assert(all_succeed(replies.drop_first()));
        authkey_in_order(node, PlanView { hostname: None, ..plan }, replies.drop_first());
    } else {
        authkey_in_order(node, plan, replies);
    }
}

proof fn strings_in_order(node: i32, plan: PlanView, replies: Seq<ReplyView>)
    requires
        all_succeed(replies),
        replies.len() >= 6,
    ensures
        run_from(BuildView::enter_dir(node, plan), replies).calls =~= string_calls(plan, node)
            + closing_calls(plan, node),
        run_from(BuildView::enter_dir(node, plan), replies).result == Some(
            Ok::<i32, ErrorView>(node),
        ),
{
    if plan.dir is Some {
        assert(!failed(replies[0].status));
        assert(all_succeed(replies.drop_first()));
        hostname_in_order(node, PlanView { dir: None, ..plan }, replies.drop_first());
    } else {
        hostname_in_order(node, plan, replies);
    }
}

/// The order of a build is fixed. Where no call fails, a build makes exactly
/// these calls and ends with the started node: it creates the node, sets the
/// log target up, applies the directory, the hostname, the auth key and the
/// control URL as far as they are set, sets the ephemeral flag, and starts
/// the node. The node is the one that the first reply handed out, and the
/// log target of a redirected log is the pipe that the second reply handed
/// out.
pub proof fn build_calls_in_order(config: Config, replies: Seq<ReplyView>)
    requires
        config.encodable(),
        replies.len() >= 10,
        all_succeed(replies.drop_first()),
    ensures
        run(BuildView::begin(config.plan()), replies).calls == calls_in_order(
            config.plan(),
            replies[0].status,
            replies[1].out,
        ),
        run(BuildView::begin(config.plan()), replies).result == Some(
            Ok::<i32, ErrorView>(replies[0].status),
        ),
{
    let plan = config.plan();
    let node = replies[0].status;
    let pipe = replies[1].out;
    let build = BuildView::begin(plan);
    let after_node = replies.drop_first();
    let after_log = match plan.log {
        LogMode::Default => after_node,
        LogMode::Redirect => after_node.drop_first().drop_first(),
        LogMode::Disable => after_node.drop_first(),
    };
    assert(all_succeed(after_log));
    strings_in_order(node, plan, after_log);
    let from_dir = run_from(BuildView::enter_dir(node, plan), after_log);
    let from_log = run_from(BuildView::enter_log(node, plan), after_node);
    assert(!failed(after_node[0].status));
    assert(!failed(after_node[1].status));
    assert(after_node.drop_first()[0] == after_node[1]);
    assert(after_node[0].out == pipe);
    assert(from_log.calls =~= log_calls(plan.log, node, pipe) + from_dir.calls);
    assert(from_log.result == from_dir.result);
    assert(run(build, replies).calls =~= seq![CallView::NewNode] + from_log.calls);
    assert(run(build, replies).calls =~= calls_in_order(plan, node, pipe));
}

} // verus!
