//! The simulation orchestrator.
//!
//! One `check_transaction` run is a bounded detect-fix-reiterate state
//! machine: execute the call, and on a revert pick the responsible trace
//! node, let each registered checker identify and measure a shortfall,
//! remediate when auto-fix is on, and execute again — at most
//! `max_iterations` times. The engine work in between (execution, reads,
//! storage writes) is performed by whoever drives the run: the machine
//! emits one [`EngineAction`] at a time and consumes one [`EngineEvent`]
//! per step, so every decision along the way is a verified function of
//! the state and the engine's answer.

use crate::address::Address;
use crate::aggregate::{aggregate_missing_assets, infos_view, spec_aggregate};
use crate::amount::U256;
use crate::checkers::traits::{
    AssetChecker, PotentialMissingAsset, ReadRequest, ReadRequestView, StorageWrite,
};
use crate::error::{AssetSimulatorError, RemediationError};
use crate::types::{
    copy_bytes, spec_storage_accesses, AssetContext, AssetSpecView, Call, CallView, ForkInfo,
    MissingAssetInfo, MissingAssetInfoView, TraceNode, TraceNodeView,
};
use crate::utils::{find_last_non_proxy_call, nodes_view, spec_select};
use vstd::prelude::*;

verus! {

/// What the driver must ask the engine to do next.
pub enum EngineAction {
    /// Execute the transaction against current simulated state.
    Execute { from: Address, to: Address, data: Vec<u8>, value: U256 },
    /// Perform a read-only call whose effects do not persist.
    ReadCall(ReadRequest),
    /// Force one storage slot of a contract to a value.
    SetStorage(StorageWrite),
}

#[verifier::ext_equal]
pub enum EngineActionView {
    Execute { from: Address, to: Address, data: Seq<u8>, value: U256 },
    ReadCall(ReadRequestView),
    SetStorage(StorageWrite),
}

impl View for EngineAction {
    type V = EngineActionView;

    open spec fn view(&self) -> EngineActionView {
        match self {
            EngineAction::Execute { from, to, data, value } => EngineActionView::Execute {
                from: *from,
                to: *to,
                data: data@,
                value: *value,
            },
            EngineAction::ReadCall(q) => EngineActionView::ReadCall(q@),
            EngineAction::SetStorage(w) => EngineActionView::SetStorage(*w),
        }
    }
}

/// What the engine answered.
pub enum EngineEvent {
    /// The transaction executed: whether it reverted, and the captured
    /// call trace, where the tracer produced one.
    Executed { reverted: bool, trace: Option<Vec<TraceNode>> },
    /// The engine could not execute at all; fatal for the run.
    ExecutionFailed,
    /// The read-only call returned, with its output where it produced any.
    ReadReturned { output: Option<Vec<u8>> },
    /// The read-only call failed at engine level.
    ReadFailed,
    /// The storage write was applied.
    StorageSet,
    /// The engine rejected the storage write; fatal for the run.
    StorageSetFailed,
}

#[verifier::ext_equal]
pub enum EngineEventView {
    Executed { reverted: bool, trace: Option<Seq<TraceNodeView>> },
    ExecutionFailed,
    ReadReturned { output: Option<Seq<u8>> },
    ReadFailed,
    StorageSet,
    StorageSetFailed,
}

impl View for EngineEvent {
    type V = EngineEventView;

    open spec fn view(&self) -> EngineEventView {
        match self {
            EngineEvent::Executed { reverted, trace } => EngineEventView::Executed {
                reverted: *reverted,
                trace: match trace {
                    Some(ns) => Some(nodes_view(ns@)),
                    None => None,
                },
            },
            EngineEvent::ExecutionFailed => EngineEventView::ExecutionFailed,
            EngineEvent::ReadReturned { output } => EngineEventView::ReadReturned {
                output: match output {
                    Some(o) => Some(o@),
                    None => None,
                },
            },
            EngineEvent::ReadFailed => EngineEventView::ReadFailed,
            EngineEvent::StorageSet => EngineEventView::StorageSet,
            EngineEvent::StorageSetFailed => EngineEventView::StorageSetFailed,
        }
    }
}

/// Where a run stands between engine interactions.
pub enum Phase {
    /// An execution was issued; its outcome is awaited.
    AwaitExecution,
    /// `checkers[idx]` identified `pending` on `node`; the balance
    /// query's answer is awaited. `found_any` records whether an earlier
    /// checker already found a shortfall this iteration.
    AwaitBalance { node: TraceNode, idx: usize, found_any: bool, pending: PotentialMissingAsset },
    /// A remediation is being applied: the writes from `next_write` on
    /// are still to be performed, then the verification read follows.
    AwaitStorageSet {
        node: TraceNode,
        idx: usize,
        writes: Vec<StorageWrite>,
        next_write: usize,
        verify: ReadRequest,
    },
    /// The best-effort verification read's answer is awaited; it is not
    /// acted on.
    AwaitVerifyRead { node: TraceNode, idx: usize, verify: ReadRequest },
    /// The run ended; `report` is the aggregated history.
    Finished { report: Vec<MissingAssetInfo> },
    /// The run ended in a fatal error.
    Failed { error: AssetSimulatorError },
}

#[verifier::ext_equal]
pub enum PhaseView {
    AwaitExecution,
    AwaitBalance {
        node: TraceNodeView,
        idx: int,
        found_any: bool,
        pending: PotentialMissingAsset,
    },
    AwaitStorageSet {
        node: TraceNodeView,
        idx: int,
        writes: Seq<StorageWrite>,
        next_write: int,
        verify: ReadRequestView,
    },
    AwaitVerifyRead { node: TraceNodeView, idx: int, verify: ReadRequestView },
    Finished { report: Seq<MissingAssetInfoView> },
    Failed { error: AssetSimulatorError },
}

impl View for Phase {
    type V = PhaseView;

    open spec fn view(&self) -> PhaseView {
        match self {
            Phase::AwaitExecution => PhaseView::AwaitExecution,
            Phase::AwaitBalance { node, idx, found_any, pending } => PhaseView::AwaitBalance {
                node: node@,
                idx: *idx as int,
                found_any: *found_any,
                pending: *pending,
            },
            Phase::AwaitStorageSet {
                node,
                idx,
                writes,
                next_write,
                verify,
            } => PhaseView::AwaitStorageSet {
                node: node@,
                idx: *idx as int,
                writes: writes@,
                next_write: *next_write as int,
                verify: verify@,
            },
            Phase::AwaitVerifyRead { node, idx, verify } => PhaseView::AwaitVerifyRead {
                node: node@,
                idx: *idx as int,
                verify: verify@,
            },
            Phase::Finished { report } => PhaseView::Finished { report: infos_view(report@) },
            Phase::Failed { error } => PhaseView::Failed { error: *error },
        }
    }
}

/// One bounded detect-fix-reiterate run over one transaction.
pub struct SimulationRun<C: AssetChecker> {
    pub call: Call,
    pub auto_fix: bool,
    pub max_iterations: usize,
    pub checkers: Vec<C>,
    pub executions: usize,
    pub recorded: Vec<MissingAssetInfo>,
    pub phase: Phase,
}

#[verifier::ext_equal]
pub struct RunView<C: AssetChecker> {
    pub call: CallView,
    pub auto_fix: bool,
    pub max_iterations: int,
    pub checkers: Seq<C>,
    pub executions: int,
    pub recorded: Seq<MissingAssetInfoView>,
    pub phase: PhaseView,
}

impl<C: AssetChecker> View for SimulationRun<C> {
    type V = RunView<C>;

    open spec fn view(&self) -> RunView<C> {
        RunView {
            call: self.call@,
            auto_fix: self.auto_fix,
            max_iterations: self.max_iterations as int,
            checkers: self.checkers@,
            executions: self.executions as int,
            recorded: infos_view(self.recorded@),
            phase: self.phase@,
        }
    }
}

impl<C: AssetChecker> RunView<C> {
    /// Structural soundness of a run state.
    pub open spec fn wf(self) -> bool {
        &&& 0 <= self.executions <= self.max_iterations
        &&& (self.phase is AwaitExecution ==> self.executions >= 1)
        &&& (self.phase matches PhaseView::AwaitBalance { idx, .. } ==> 0 <= idx
            < self.checkers.len())
        &&& (self.phase matches PhaseView::AwaitStorageSet { idx, writes, next_write, .. } ==> 0
            <= idx < self.checkers.len() && 0 <= next_write < writes.len())
        &&& (self.phase matches PhaseView::AwaitVerifyRead { idx, .. } ==> 0 <= idx
            < self.checkers.len())
    }

    /// Which engine answers this state awaits. A terminal state awaits
    /// none.
    pub open spec fn expects(self, ev: EngineEventView) -> bool {
        match self.phase {
            PhaseView::AwaitExecution => ev is Executed || ev is ExecutionFailed,
            PhaseView::AwaitBalance { .. } => ev is ReadReturned || ev is ReadFailed,
            PhaseView::AwaitStorageSet { .. } => ev is StorageSet || ev is StorageSetFailed,
            PhaseView::AwaitVerifyRead { .. } => ev is ReadReturned || ev is ReadFailed,
            PhaseView::Finished { .. } => false,
            PhaseView::Failed { .. } => false,
        }
    }
}

/// The run, finished: aggregation runs exactly once, over the full
/// accumulated history.
pub open spec fn spec_finish<C: AssetChecker>(m: RunView<C>) -> RunView<C> {
    RunView { phase: PhaseView::Finished { report: spec_aggregate(m.recorded) }, ..m }
}

/// The run, failed.
pub open spec fn spec_fail<C: AssetChecker>(m: RunView<C>, e: AssetSimulatorError) -> RunView<C> {
    RunView { phase: PhaseView::Failed { error: e }, ..m }
}

/// End of one iteration: execute again when a shortfall was fixed this
/// iteration and the iteration budget allows; otherwise finish.
pub open spec fn spec_end_iteration<C: AssetChecker>(m: RunView<C>, found_any: bool) -> RunView<
    C,
> {
    if m.auto_fix && found_any && m.executions < m.max_iterations {
        RunView { executions: m.executions + 1, phase: PhaseView::AwaitExecution, ..m }
    } else {
        spec_finish(m)
    }
}

/// The walk over the remaining checkers, in registration order: the next
/// one that identifies a candidate gets its balance query issued; when
/// none is left the iteration ends.
pub open spec fn spec_advance<C: AssetChecker>(
    m: RunView<C>,
    node: TraceNodeView,
    idx: int,
    found_any: bool,
) -> RunView<C>
    decreases m.checkers.len() - idx,
{
    if idx < 0 || idx >= m.checkers.len() {
        spec_end_iteration(m, found_any)
    } else {
        match m.checkers[idx].spec_identify(node) {
            Some(pending) => RunView {
                phase: PhaseView::AwaitBalance { node, idx, found_any, pending },
                ..m
            },
            None => spec_advance(m, node, idx + 1, found_any),
        }
    }
}

/// The transition relation of a run: one engine answer consumed, the
/// next state. Events a state does not expect leave it unchanged.
pub open spec fn spec_step<C: AssetChecker>(m: RunView<C>, ev: EngineEventView) -> RunView<C> {
    match m.phase {
        PhaseView::AwaitExecution => match ev {
            EngineEventView::Executed { reverted, trace } => {
                if !reverted {
                    spec_finish(m)
                } else {
                    match trace {
                        Some(nodes) => match spec_select(nodes) {
                            Some(k) => spec_advance(
                                RunView { phase: PhaseView::AwaitExecution, ..m },
                                nodes[k],
                                0,
                                false,
                            ),
                            None => spec_finish(m),
                        },
                        None => spec_finish(m),
                    }
                }
            },
            EngineEventView::ExecutionFailed => spec_fail(m, AssetSimulatorError::EngineFailure),
            _ => m,
        },
        PhaseView::AwaitBalance { node, idx, found_any, pending } => match ev {
            EngineEventView::ReadReturned { output } => {
                match m.checkers[idx].spec_check_balance(pending, output) {
                    Ok(info) => {
                        if info.missing_amount.as_nat() > 0 {
                            let m2 = RunView {
                                recorded: m.recorded.push(info),
                                phase: PhaseView::AwaitExecution,
                                ..m
                            };
                            if m.auto_fix {
                                match m.checkers[idx].spec_deal_plan(
                                    info.account,
                                    info.required,
                                    spec_storage_accesses(node.steps),
                                ) {
                                    Ok(plan) => if plan.writes.len() == 0 {
                                        RunView {
                                            phase: PhaseView::AwaitVerifyRead {
                                                node,
                                                idx,
                                                verify: plan.verify,
                                            },
                                            ..m2
                                        }
                                    } else {
                                        RunView {
                                            phase: PhaseView::AwaitStorageSet {
                                                node,
                                                idx,
                                                writes: plan.writes,
                                                next_write: 0,
                                                verify: plan.verify,
                                            },
                                            ..m2
                                        }
                                    },
                                    Err(e) => spec_fail(m2, e),
                                }
                            } else {
                                spec_advance(m2, node, idx + 1, true)
                            }
                        } else {
                            spec_advance(
                                RunView { phase: PhaseView::AwaitExecution, ..m },
                                node,
                                idx + 1,
                                found_any,
                            )
                        }
                    },
                    Err(_) => spec_advance(
                        RunView { phase: PhaseView::AwaitExecution, ..m },
                        node,
                        idx + 1,
                        found_any,
                    ),
                }
            },
            EngineEventView::ReadFailed => spec_advance(
                RunView { phase: PhaseView::AwaitExecution, ..m },
                node,
                idx + 1,
                found_any,
            ),
            _ => m,
        },
        PhaseView::AwaitStorageSet { node, idx, writes, next_write, verify } => match ev {
            EngineEventView::StorageSet => if next_write + 1 < writes.len() {
                RunView {
                    phase: PhaseView::AwaitStorageSet {
                        node,
                        idx,
                        writes,
                        next_write: next_write + 1,
                        verify,
                    },
                    ..m
                }
            } else {
                RunView { phase: PhaseView::AwaitVerifyRead { node, idx, verify }, ..m }
            },
            EngineEventView::StorageSetFailed => spec_fail(
                m,
                AssetSimulatorError::RemediationFailed(RemediationError::StorageWriteRejected),
            ),
            _ => m,
        },
        PhaseView::AwaitVerifyRead { node, idx, verify } => match ev {
            EngineEventView::ReadReturned { .. } => spec_advance(
                RunView { phase: PhaseView::AwaitExecution, ..m },
                node,
                idx + 1,
                true,
            ),
            EngineEventView::ReadFailed => spec_advance(
                RunView { phase: PhaseView::AwaitExecution, ..m },
                node,
                idx + 1,
                true,
            ),
            _ => m,
        },
        PhaseView::Finished { .. } => m,
        PhaseView::Failed { .. } => m,
    }
}

/// The state a run starts in: the first execution already issued, or,
/// with a zero iteration budget, immediately finished with an empty
/// report.
pub open spec fn spec_begin<C: AssetChecker>(
    checkers: Seq<C>,
    call: CallView,
    auto_fix: bool,
    max_iterations: int,
) -> RunView<C> {
    if max_iterations >= 1 {
        RunView {
            call,
            auto_fix,
            max_iterations,
            checkers,
            executions: 1,
            recorded: Seq::empty(),
            phase: PhaseView::AwaitExecution,
        }
    } else {
        RunView {
            call,
            auto_fix,
            max_iterations,
            checkers,
            executions: 0,
            recorded: Seq::empty(),
            phase: PhaseView::Finished { report: Seq::empty() },
        }
    }
}

/// What the driver does next: perform an engine action, or stop.
pub enum DriverStep {
    Perform(EngineAction),
    Done,
}

#[verifier::ext_equal]
pub enum DriverStepView {
    Perform(EngineActionView),
    Done,
}

impl View for DriverStep {
    type V = DriverStepView;

    open spec fn view(&self) -> DriverStepView {
        match self {
            DriverStep::Perform(a) => DriverStepView::Perform(a@),
            DriverStep::Done => DriverStepView::Done,
        }
    }
}

/// The action a state asks for: the execution, the pending checker's
/// balance query, the next storage write, or the verification read.
pub open spec fn spec_next_action<C: AssetChecker>(m: RunView<C>) -> DriverStepView {
    match m.phase {
        PhaseView::AwaitExecution => DriverStepView::Perform(
            EngineActionView::Execute {
                from: m.call.from,
                to: m.call.to,
                data: m.call.data,
                value: m.call.value,
            },
        ),
        PhaseView::AwaitBalance { idx, pending, .. } => DriverStepView::Perform(
            EngineActionView::ReadCall(m.checkers[idx].spec_balance_query(pending)),
        ),
        PhaseView::AwaitStorageSet { writes, next_write, .. } => DriverStepView::Perform(
            EngineActionView::SetStorage(writes[next_write]),
        ),
        PhaseView::AwaitVerifyRead { verify, .. } => DriverStepView::Perform(
            EngineActionView::ReadCall(verify),
        ),
        PhaseView::Finished { .. } => DriverStepView::Done,
        PhaseView::Failed { .. } => DriverStepView::Done,
    }
}

impl<C: AssetChecker> SimulationRun<C> {
    /// Builds a finished run over the accumulated history.
    fn finish_run(
        call: Call,
        auto_fix: bool,
        max_iterations: usize,
        checkers: Vec<C>,
        executions: usize,
        recorded: Vec<MissingAssetInfo>,
    ) -> (r: SimulationRun<C>)
        ensures
            r@ == spec_finish(
                RunView {
                    call: call@,
                    auto_fix,
                    max_iterations: max_iterations as int,
                    checkers: checkers@,
                    executions: executions as int,
                    recorded: infos_view(recorded@),
                    phase: PhaseView::AwaitExecution,
                },
            ),
    {
        let report = aggregate_missing_assets(&recorded);
        let r = SimulationRun {
            call,
            auto_fix,
            max_iterations,
            checkers,
            executions,
            recorded,
            phase: Phase::Finished { report },
        };
        proof {
            assert(r@ =~~= spec_finish(
                RunView {
                    call: r.call@,
                    auto_fix: r.auto_fix,
                    max_iterations: r.max_iterations as int,
                    checkers: r.checkers@,
                    executions: r.executions as int,
                    recorded: infos_view(r.recorded@),
                    phase: PhaseView::AwaitExecution,
                },
            ));
        }
        r
    }

    /// Ends one iteration: another execution, or the finished run.
    fn end_iteration_run(
        call: Call,
        auto_fix: bool,
        max_iterations: usize,
        checkers: Vec<C>,
        executions: usize,
        recorded: Vec<MissingAssetInfo>,
        found_any: bool,
    ) -> (r: SimulationRun<C>)
        requires
            executions <= max_iterations,
        ensures
            r@ == spec_end_iteration(
                RunView {
                    call: call@,
                    auto_fix,
                    max_iterations: max_iterations as int,
                    checkers: checkers@,
                    executions: executions as int,
                    recorded: infos_view(recorded@),
                    phase: PhaseView::AwaitExecution,
                },
                found_any,
            ),
    {
        if auto_fix && found_any && executions < max_iterations {
            SimulationRun {
                call,
                auto_fix,
                max_iterations,
                checkers,
                executions: executions + 1,
                recorded,
                phase: Phase::AwaitExecution,
            }
        } else {
            Self::finish_run(call, auto_fix, max_iterations, checkers, executions, recorded)
        }
    }

    /// Walks the remaining checkers over the selected node.
    fn advance_run(
        call: Call,
        auto_fix: bool,
        max_iterations: usize,
        checkers: Vec<C>,
        executions: usize,
        recorded: Vec<MissingAssetInfo>,
        node: TraceNode,
        idx: usize,
        found_any: bool,
    ) -> (r: SimulationRun<C>)
        requires
            executions <= max_iterations,
            idx <= checkers@.len(),
        ensures
            r@ == spec_advance(
                RunView {
                    call: call@,
                    auto_fix,
                    max_iterations: max_iterations as int,
                    checkers: checkers@,
                    executions: executions as int,
                    recorded: infos_view(recorded@),
                    phase: PhaseView::AwaitExecution,
                },
                node@,
                idx as int,
                found_any,
            ),
        decreases checkers@.len() - idx,
    {
        if idx >= checkers.len() {
            Self::end_iteration_run(
                call,
                auto_fix,
                max_iterations,
                checkers,
                executions,
                recorded,
                found_any,
            )
        } else {
            let identified = checkers[idx].identify_asset(&node);
            match identified {
                Some(pending) => {
                    let r = SimulationRun {
                        call,
                        auto_fix,
                        max_iterations,
                        checkers,
                        executions,
                        recorded,
                        phase: Phase::AwaitBalance { node, idx, found_any, pending },
                    };
                    proof {
                        assert(r@ =~~= spec_advance(
                            RunView {
                                call: r.call@,
                                auto_fix: r.auto_fix,
                                max_iterations: r.max_iterations as int,
                                checkers: r.checkers@,
                                executions: r.executions as int,
                                recorded: infos_view(r.recorded@),
                                phase: PhaseView::AwaitExecution,
                            },
                            node@,
                            idx as int,
                            found_any,
                        ));
                    }
                    r
                },
                None => Self::advance_run(
                    call,
                    auto_fix,
                    max_iterations,
                    checkers,
                    executions,
                    recorded,
                    node,
                    idx + 1,
                    found_any,
                ),
            }
        }
    }

    /// Builds a failed run.
    fn fail_run(
        call: Call,
        auto_fix: bool,
        max_iterations: usize,
        checkers: Vec<C>,
        executions: usize,
        recorded: Vec<MissingAssetInfo>,
        error: AssetSimulatorError,
    ) -> (r: SimulationRun<C>)
        ensures
            r@ == spec_fail(
                RunView {
                    call: call@,
                    auto_fix,
                    max_iterations: max_iterations as int,
                    checkers: checkers@,
                    executions: executions as int,
                    recorded: infos_view(recorded@),
                    phase: PhaseView::AwaitExecution,
                },
                error,
            ),
    {
        SimulationRun {
            call,
            auto_fix,
            max_iterations,
            checkers,
            executions,
            recorded,
            phase: Phase::Failed { error },
        }
    }

    /// Consumes one engine answer and moves the run forward.
    pub fn step(self, event: EngineEvent) -> (r: SimulationRun<C>)
        requires
            self@.wf(),
            self@.expects(event@),
        ensures
            r@ == spec_step(self@, event@),
            r@.wf(),
    {
        let ghost m = self@;
        let ghost ev = event@;
        proof {
            lemma_step_props(m, ev);
        }
        let SimulationRun { call, auto_fix, max_iterations, checkers, executions, recorded, phase } =
            self;
        match phase {
            Phase::AwaitExecution => match event {
                EngineEvent::Executed { reverted, trace } => {
                    if !reverted {
                        Self::finish_run(
                            call,
                            auto_fix,
                            max_iterations,
                            checkers,
                            executions,
                            recorded,
                        )
                    } else {
                        match trace {
                            Some(mut nodes) => match find_last_non_proxy_call(&nodes) {
                                Some(k) => {
                                    let node = nodes.remove(k);
                                    Self::advance_run(
                                        call,
                                        auto_fix,
                                        max_iterations,
                                        checkers,
                                        executions,
                                        recorded,
                                        node,
                                        0,
                                        false,
                                    )
                                },
                                None => Self::finish_run(
                                    call,
                                    auto_fix,
                                    max_iterations,
                                    checkers,
                                    executions,
                                    recorded,
                                ),
                            },
                            None => Self::finish_run(
                                call,
                                auto_fix,
                                max_iterations,
                                checkers,
                                executions,
                                recorded,
                            ),
                        }
                    }
                },
                EngineEvent::ExecutionFailed => Self::fail_run(
                    call,
                    auto_fix,
                    max_iterations,
                    checkers,
                    executions,
                    recorded,
                    AssetSimulatorError::EngineFailure,
                ),
                _ => vstd::pervasive::unreached(),
            },
            Phase::AwaitBalance { node, idx, found_any, pending } => {
                proof {
                    assert(m.phase == PhaseView::AwaitBalance {
                        node: node@,
                        idx: idx as int,
                        found_any,
                        pending,
                    });
                    assert(idx < checkers.len());
                }
                match event {
                EngineEvent::ReadReturned { output } => {
                    let checked = checkers[idx].check_balance(&pending, &output);
                    match checked {
                        Ok(info) => {
                            if !info.missing_amount.is_zero() {
                                if auto_fix {
                                    let accesses = AssetContext::extract_storage_accesses(&node);
                                    let planned = checkers[idx].deal_plan(
                                        info.account,
                                        &info.required,
                                        &accesses,
                                    );
                                    let mut recorded = recorded;
                                    recorded.push(info);
                                    proof {
                                        assert(infos_view(recorded@) =~= m.recorded.push(
                                            recorded@.last()@,
                                        ));
                                    }
                                    match planned {
                                        Ok(plan) => {
                                            if plan.writes.len() == 0 {
                                                SimulationRun {
                                                    call,
                                                    auto_fix,
                                                    max_iterations,
                                                    checkers,
                                                    executions,
                                                    recorded,
                                                    phase: Phase::AwaitVerifyRead {
                                                        node,
                                                        idx,
                                                        verify: plan.verify,
                                                    },
                                                }
                                            } else {
                                                SimulationRun {
                                                    call,
                                                    auto_fix,
                                                    max_iterations,
                                                    checkers,
                                                    executions,
                                                    recorded,
                                                    phase: Phase::AwaitStorageSet {
                                                        node,
                                                        idx,
                                                        writes: plan.writes,
                                                        next_write: 0,
                                                        verify: plan.verify,
                                                    },
                                                }
                                            }
                                        },
                                        Err(e) => Self::fail_run(
                                            call,
                                            auto_fix,
                                            max_iterations,
                                            checkers,
                                            executions,
                                            recorded,
                                            e,
                                        ),
                                    }
                                } else {
                                    let mut recorded = recorded;
                                    recorded.push(info);
                                    proof {
                                        assert(infos_view(recorded@) =~= m.recorded.push(
                                            recorded@.last()@,
                                        ));
                                    }
                                    Self::advance_run(
                                        call,
                                        auto_fix,
                                        max_iterations,
                                        checkers,
                                        executions,
                                        recorded,
                                        node,
                                        idx + 1,
                                        true,
                                    )
                                }
                            } else {
                                Self::advance_run(
                                    call,
                                    auto_fix,
                                    max_iterations,
                                    checkers,
                                    executions,
                                    recorded,
                                    node,
                                    idx + 1,
                                    found_any,
                                )
                            }
                        },
                        Err(_) => Self::advance_run(
                            call,
                            auto_fix,
                            max_iterations,
                            checkers,
                            executions,
                            recorded,
                            node,
                            idx + 1,
                            found_any,
                        ),
                    }
                },
                EngineEvent::ReadFailed => Self::advance_run(
                    call,
                    auto_fix,
                    max_iterations,
                    checkers,
                    executions,
                    recorded,
                    node,
                    idx + 1,
                    found_any,
                ),
                _ => vstd::pervasive::unreached(),
            }
            },
            Phase::AwaitStorageSet { node, idx, writes, next_write, verify } => {
                proof {
                    assert(m.phase == PhaseView::AwaitStorageSet {
                        node: node@,
                        idx: idx as int,
                        writes: writes@,
                        next_write: next_write as int,
                        verify: verify@,
                    });
                    assert(next_write < writes.len());
                }
                match event {
                EngineEvent::StorageSet => {
                    if next_write + 1 < writes.len() {
                        SimulationRun {
                            call,
                            auto_fix,
                            max_iterations,
                            checkers,
                            executions,
                            recorded,
                            phase: Phase::AwaitStorageSet {
                                node,
                                idx,
                                writes,
                                next_write: next_write + 1,
                                verify,
                            },
                        }
                    } else {
                        SimulationRun {
                            call,
                            auto_fix,
                            max_iterations,
                            checkers,
                            executions,
                            recorded,
                            phase: Phase::AwaitVerifyRead { node, idx, verify },
                        }
                    }
                },
                EngineEvent::StorageSetFailed => Self::fail_run(
                    call,
                    auto_fix,
                    max_iterations,
                    checkers,
                    executions,
                    recorded,
                    AssetSimulatorError::RemediationFailed(
                        RemediationError::StorageWriteRejected,
                    ),
                ),
                _ => vstd::pervasive::unreached(),
            }
            },
            Phase::AwaitVerifyRead { node, idx, verify } => {
                proof {
                    assert(m.phase == PhaseView::AwaitVerifyRead {
                        node: node@,
                        idx: idx as int,
                        verify: verify@,
                    });
                    assert(idx < checkers.len());
                }
                match event {
                EngineEvent::ReadReturned { .. } => Self::advance_run(
                    call,
                    auto_fix,
                    max_iterations,
                    checkers,
                    executions,
                    recorded,
                    node,
                    idx + 1,
                    true,
                ),
                EngineEvent::ReadFailed => Self::advance_run(
                    call,
                    auto_fix,
                    max_iterations,
                    checkers,
                    executions,
                    recorded,
                    node,
                    idx + 1,
                    true,
                ),
                _ => vstd::pervasive::unreached(),
            }
            },
            Phase::Finished { .. } => vstd::pervasive::unreached(),
            Phase::Failed { .. } => vstd::pervasive::unreached(),
        }
    }

    /// The action the driver must perform now, or `Done` for a terminal
    /// state.
    pub fn next_action(&self) -> (r: DriverStep)
        requires
            self@.wf(),
        ensures
            r@ == spec_next_action(self@),
    {
        match &self.phase {
            Phase::AwaitExecution => DriverStep::Perform(
                EngineAction::Execute {
                    from: self.call.from,
                    to: self.call.to,
                    data: copy_bytes(&self.call.data),
                    value: self.call.value,
                },
            ),
            Phase::AwaitBalance { idx, pending, .. } => DriverStep::Perform(
                EngineAction::ReadCall(self.checkers[*idx].balance_query(pending)),
            ),
            Phase::AwaitStorageSet { writes, next_write, .. } => DriverStep::Perform(
                EngineAction::SetStorage(writes[*next_write]),
            ),
            Phase::AwaitVerifyRead { verify, .. } => DriverStep::Perform(
                EngineAction::ReadCall(verify.duplicate()),
            ),
            Phase::Finished { .. } => DriverStep::Done,
            Phase::Failed { .. } => DriverStep::Done,
        }
    }

    /// Whether the run has ended, successfully or not.
    pub fn is_terminal(&self) -> (r: bool)
        ensures
            r == (self@.phase is Finished || self@.phase is Failed),
    {
        match &self.phase {
            Phase::Finished { .. } => true,
            Phase::Failed { .. } => true,
            _ => false,
        }
    }

    /// The run's outcome: the complete, deduplicated list of shortfalls,
    /// or the fatal error.
    pub fn finish(self) -> (r: Result<Vec<MissingAssetInfo>, AssetSimulatorError>)
        requires
            self@.phase is Finished || self@.phase is Failed,
        ensures
            match r {
                Ok(v) => self@.phase matches PhaseView::Finished { report } && infos_view(v@)
                    == report,
                Err(e) => self@.phase matches PhaseView::Failed { error } && e == error,
            },
    {
        match self.phase {
            Phase::Finished { report } => Ok(report),
            Phase::Failed { error } => Err(error),
            _ => vstd::pervasive::unreached(),
        }
    }
}

/// How one transition moves the bookkeeping: well-formedness is kept, the
/// execution counter never decreases, and it increases exactly on the
/// transitions that issue another execution.
pub proof fn lemma_advance_props<C: AssetChecker>(
    m: RunView<C>,
    node: TraceNodeView,
    idx: int,
    found_any: bool,
)
    requires
        0 <= m.executions <= m.max_iterations,
        0 <= idx <= m.checkers.len(),
    ensures
        spec_advance(m, node, idx, found_any).wf(),
        spec_advance(m, node, idx, found_any).max_iterations == m.max_iterations,
        spec_advance(m, node, idx, found_any).checkers == m.checkers,
        spec_advance(m, node, idx, found_any).executions == m.executions || spec_advance(
            m,
            node,
            idx,
            found_any,
        ).executions == m.executions + 1,
        spec_advance(m, node, idx, found_any).phase is AwaitExecution <==> spec_advance(
            m,
            node,
            idx,
            found_any,
        ).executions == m.executions + 1,
        spec_advance(m, node, idx, found_any).phase is AwaitExecution ==> m.executions
            < m.max_iterations && m.auto_fix && found_any,
    decreases m.checkers.len() - idx,
{
    if idx < m.checkers.len() {
        if m.checkers[idx].spec_identify(node) is None {
            lemma_advance_props(m, node, idx + 1, found_any);
        }
    }
}

/// One step keeps the state well formed; the execution counter grows by
/// one exactly when the machine issues another execution, and a state
/// awaiting an execution never issues the next one in the same step.
pub proof fn lemma_step_props<C: AssetChecker>(m: RunView<C>, ev: EngineEventView)
    requires
        m.wf(),
        m.expects(ev),
    ensures
        spec_step(m, ev).wf(),
        spec_step(m, ev).max_iterations == m.max_iterations,
        spec_step(m, ev).executions == m.executions || spec_step(m, ev).executions == m.executions
            + 1,
        spec_step(m, ev).phase is AwaitExecution <==> spec_step(m, ev).executions == m.executions
            + 1,
        m.phase is AwaitExecution ==> !(spec_step(m, ev).phase is AwaitExecution),
{
    let base = RunView { phase: PhaseView::AwaitExecution, ..m };
    match m.phase {
        PhaseView::AwaitExecution => {
            match ev {
                EngineEventView::Executed { reverted, trace } => {
                    if reverted {
                        match trace {
                            Some(nodes) => {
                                crate::utils::lemma_select_characterizes(nodes);
                                match spec_select(nodes) {
                                    Some(k) => {
                                        lemma_advance_props(base, nodes[k], 0, false);
                                    },
                                    None => {},
                                }
                            },
                            None => {},
                        }
                    }
                },
                _ => {},
            }
        },
        PhaseView::AwaitBalance { node, idx, found_any, pending } => {
            match ev {
                EngineEventView::ReadReturned { output } => {
                    match m.checkers[idx].spec_check_balance(pending, output) {
                        Ok(info) => {
                            if info.missing_amount.as_nat() > 0 {
                                let m2 = RunView {
                                    recorded: m.recorded.push(info),
                                    phase: PhaseView::AwaitExecution,
                                    ..m
                                };
                                if !m.auto_fix {
                                    lemma_advance_props(m2, node, idx + 1, true);
                                }
                            } else {
                                lemma_advance_props(base, node, idx + 1, found_any);
                            }
                        },
                        Err(_) => {
                            lemma_advance_props(base, node, idx + 1, found_any);
                        },
                    }
                },
                _ => {
                    lemma_advance_props(base, node, idx + 1, found_any);
                },
            }
        },
        PhaseView::AwaitStorageSet { .. } => {},
        PhaseView::AwaitVerifyRead { node, idx, .. } => {
            lemma_advance_props(base, node, idx + 1, true);
        },
        PhaseView::Finished { .. } => {},
        PhaseView::Failed { .. } => {},
    }
}

/// A run whose execution does not revert finishes at once; one that has
/// recorded nothing finishes with an empty report, whatever the trace
/// says.
pub proof fn lemma_no_revert_empty_report<C: AssetChecker>(
    m: RunView<C>,
    trace: Option<Seq<TraceNodeView>>,
)
    requires
        m.phase is AwaitExecution,
        m.recorded == Seq::<MissingAssetInfoView>::empty(),
    ensures
        spec_step(m, EngineEventView::Executed { reverted: false, trace }) == (RunView {
            phase: PhaseView::Finished { report: Seq::<MissingAssetInfoView>::empty() },
            ..m
        }),
{
    assert(spec_aggregate(m.recorded) =~= Seq::<MissingAssetInfoView>::empty());
}

/// The success path of `check_transaction`: for every call whose first
/// execution does not revert, the run returns an empty sequence.
pub proof fn lemma_check_transaction_no_revert<C: AssetChecker>(
    checkers: Seq<C>,
    call: CallView,
    auto_fix: bool,
    max_iterations: int,
    trace: Option<Seq<TraceNodeView>>,
)
    requires
        max_iterations >= 1,
    ensures
        spec_step(
            spec_begin(checkers, call, auto_fix, max_iterations),
            EngineEventView::Executed { reverted: false, trace },
        ).phase == (PhaseView::Finished { report: Seq::<MissingAssetInfoView>::empty() }),
{
    lemma_no_revert_empty_report(spec_begin(checkers, call, auto_fix, max_iterations), trace);
}

/// The run protocol: each event is one the state at that point awaits.
pub open spec fn spec_wf_events<C: AssetChecker>(
    m: RunView<C>,
    evs: Seq<EngineEventView>,
) -> bool
    decreases evs.len(),
{
    evs.len() == 0 || (m.expects(evs.first()) && spec_wf_events(
        spec_step(m, evs.first()),
        evs.drop_first(),
    ))
}

/// How many execution results a run consumes along an event sequence: one
/// per step taken while awaiting an execution.
pub open spec fn spec_count_executions<C: AssetChecker>(
    m: RunView<C>,
    evs: Seq<EngineEventView>,
) -> int
    decreases evs.len(),
{
    if evs.len() == 0 {
        0
    } else {
        (if m.phase is AwaitExecution {
            1int
        } else {
            0int
        }) + spec_count_executions(spec_step(m, evs.first()), evs.drop_first())
    }
}

/// The driver is asked to execute exactly in the awaiting-execution
/// state, so the execution results counted along a run are exactly the
/// executions the driver performs.
pub proof fn lemma_execute_action_iff_awaiting<C: AssetChecker>(m: RunView<C>)
    ensures
        (spec_next_action(m) matches DriverStepView::Perform(a) && a is Execute) <==> m.phase
            is AwaitExecution,
{
}

/// The executions a well-formed run can still consume never exceed what
/// is left of the iteration budget.
pub proof fn lemma_execution_bound<C: AssetChecker>(m: RunView<C>, evs: Seq<EngineEventView>)
    requires
        m.wf(),
        spec_wf_events(m, evs),
    ensures
        spec_count_executions(m, evs) + m.executions <= m.max_iterations + (
        if m.phase is AwaitExecution {
            1int
        } else {
            0int
        }),
    decreases evs.len(),
{
    if evs.len() > 0 {
        lemma_step_props(m, evs.first());
        lemma_execution_bound(spec_step(m, evs.first()), evs.drop_first());
    }
}

/// Monotonic bound: a run started by `check_transaction` never consumes
/// more than `max_iterations` execution results — the engine is never
/// asked to execute the transaction more often than the iteration cap,
/// regardless of how many assets are missing.
pub proof fn lemma_check_transaction_execution_bound<C: AssetChecker>(
    checkers: Seq<C>,
    call: CallView,
    auto_fix: bool,
    max_iterations: int,
    evs: Seq<EngineEventView>,
)
    requires
        max_iterations >= 0,
        spec_wf_events(spec_begin(checkers, call, auto_fix, max_iterations), evs),
    ensures
        spec_count_executions(spec_begin(checkers, call, auto_fix, max_iterations), evs)
            <= max_iterations,
{
    let m = spec_begin(checkers, call, auto_fix, max_iterations);
    if max_iterations >= 1 {
        lemma_execution_bound(m, evs);
    } else {
        assert(evs.len() == 0);
    }
}

/// Simulator configuration: the ordered checker set and the fork choice.
/// The engine built from the fork choice is owned by whoever drives the
/// runs; the simulator holds only what the verified decisions need.
pub struct AssetSimulator<C: AssetChecker> {
    pub checkers: Vec<C>,
    pub fork_info: Option<ForkInfo>,
}

impl<C: AssetChecker> AssetSimulator<C> {
    /// A simulator with no checkers and no fork selected.
    pub fn new() -> (r: AssetSimulator<C>)
        ensures
            r.checkers@.len() == 0,
            r.fork_info is None,
    {
        AssetSimulator { checkers: Vec::new(), fork_info: None }
    }

    /// Entry point for users: the fluent builder.
    pub fn builder() -> (r: crate::builder::AssetSimulatorBuilder<C>)
        ensures
            r.checkers@.len() == 0,
            r.fork_info is None,
    {
        crate::builder::AssetSimulatorBuilder::new()
    }

    /// Registers one checker; checkers act in registration order, which
    /// governs tie-breaking when several could claim the same call node.
    pub fn with_checker(self, checker: C) -> (r: AssetSimulator<C>)
        ensures
            r.checkers@ == self.checkers@.push(checker),
            r.fork_info == self.fork_info,
    {
        let mut checkers = self.checkers;
        checkers.push(checker);
        AssetSimulator { checkers, fork_info: self.fork_info }
    }

    /// Selects the fork source: an RPC endpoint and, optionally, a pinned
    /// block.
    pub fn with_fork(self, rpc_url: String, block_number: Option<u64>) -> (r: AssetSimulator<C>)
        ensures
            r.checkers@ == self.checkers@,
            r.fork_info matches Some(f) && f.rpc_url matches Some(u) && u@ == rpc_url@
                && f.block_number == block_number,
    {
        AssetSimulator {
            checkers: self.checkers,
            fork_info: Some(ForkInfo { rpc_url: Some(rpc_url), block_number }),
        }
    }

    /// Starts one check of a transaction with auto-fix on and the default
    /// iteration cap of 10.
    pub fn check_transaction(self, call: Call) -> (r: SimulationRun<C>)
        ensures
            r@ == spec_begin(self.checkers@, call@, true, 10),
            r@.wf(),
    {
        self.check_transaction_with_options(call, true, 10)
    }

    /// Starts one bounded detect-fix-reiterate check of a transaction.
    /// The returned run asks for engine actions through `next_action` and
    /// consumes the answers through `step` until it is terminal.
    pub fn check_transaction_with_options(
        self,
        call: Call,
        auto_fix: bool,
        max_iterations: usize,
    ) -> (r: SimulationRun<C>)
        ensures
            r@ == spec_begin(self.checkers@, call@, auto_fix, max_iterations as int),
            r@.wf(),
    {
        if max_iterations == 0 {
            let r = SimulationRun {
                call,
                auto_fix,
                max_iterations,
                checkers: self.checkers,
                executions: 0,
                recorded: Vec::new(),
                phase: Phase::Finished { report: Vec::new() },
            };
            proof {
                assert(r@ =~~= spec_begin(r.checkers@, r.call@, auto_fix, max_iterations as int));
            }
            r
        } else {
            let r = SimulationRun {
                call,
                auto_fix,
                max_iterations,
                checkers: self.checkers,
                executions: 1,
                recorded: Vec::new(),
                phase: Phase::AwaitExecution,
            };
            proof {
                assert(r@ =~~= spec_begin(r.checkers@, r.call@, auto_fix, max_iterations as int));
            }
            r
        }
    }
}

impl AssetSimulator<crate::checkers::erc20::ERC20Checker> {
    /// Registers the fungible-token checker.
    pub fn with_erc20_checker(self) -> (r: AssetSimulator<crate::checkers::erc20::ERC20Checker>)
        ensures
            r.checkers@ == self.checkers@.push(crate::checkers::erc20::ERC20Checker {  }),
            r.fork_info == self.fork_info,
    {
        self.with_checker(crate::checkers::erc20::ERC20Checker::new())
    }
}


/// For a token transfer reverting solely for lack of balance, when the
/// debited account holds nothing, the run (without auto-fix) reports
/// exactly one entry: that account, short by exactly the required amount,
/// with a zero recorded balance.
pub proof fn lemma_insufficient_balance_single_entry(
    call: CallView,
    max_iterations: int,
    node: TraceNodeView,
    cand: PotentialMissingAsset,
    out: Seq<u8>,
)
    requires
        max_iterations >= 1,
        crate::checkers::erc20::spec_identify_erc20(node) == Some(cand),
        cand.required_amount.as_nat() > 0,
        out.len() == 32,
        crate::amount::spec_u256_of_bytes(out) == (U256 { hi: 0, lo: 0 }),
    ensures
        ({
            let m0 = spec_begin(
                seq![crate::checkers::erc20::ERC20Checker {  }],
                call,
                false,
                max_iterations,
            );
            let m1 = spec_step(
                m0,
                EngineEventView::Executed { reverted: true, trace: Some(seq![node]) },
            );
            let m2 = spec_step(m1, EngineEventView::ReadReturned { output: Some(out) });
            m2.phase == (PhaseView::Finished {
                report: seq![
                    MissingAssetInfoView {
                        account: cand.account,
                        required: AssetSpecView::ERC20 {
                            token: cand.token_address,
                            amount: cand.required_amount,
                        },
                        current_balance: U256 { hi: 0, lo: 0 },
                        missing_amount: cand.required_amount,
                    },
                ],
            })
        }),
{
    let checkers: Seq<crate::checkers::erc20::ERC20Checker> = seq![
        crate::checkers::erc20::ERC20Checker {  },
    ];
    let m0 = spec_begin(checkers, call, false, max_iterations);
    let nodes = seq![node];
    assert(spec_select(nodes) == Some(0int));
    let m1 = spec_step(
        m0,
        EngineEventView::Executed { reverted: true, trace: Some(nodes) },
    );
    assert(m1 == RunView {
        phase: PhaseView::AwaitBalance { node, idx: 0, found_any: false, pending: cand },
        ..m0
    });
    let info = MissingAssetInfoView {
        account: cand.account,
        required: AssetSpecView::ERC20 {
            token: cand.token_address,
            amount: cand.required_amount,
        },
        current_balance: U256 { hi: 0, lo: 0 },
        missing_amount: cand.required_amount,
    };
    crate::amount::lemma_sat_sub_zero(cand.required_amount);
    assert(crate::checkers::erc20::spec_check_balance_erc20(cand, Some(out))
        == Ok::<MissingAssetInfoView, crate::error::CheckerError>(info));
    let pushed = RunView {
        recorded: m0.recorded.push(info),
        phase: PhaseView::AwaitExecution,
        ..m0
    };
    assert(spec_advance(pushed, node, 1, true) == spec_end_iteration(pushed, true));
    crate::aggregate::lemma_aggregate_singleton(info);
    assert(m0.recorded.push(info) =~= seq![info]);
}

/// A revert whose identified candidate has a sufficient balance reports
/// nothing: in particular, a transfer-from held up only by a missing
/// spending allowance, with the balance covering the amount, yields an
/// empty result.
pub proof fn lemma_sufficient_balance_empty_report(
    call: CallView,
    auto_fix: bool,
    max_iterations: int,
    node: TraceNodeView,
    cand: PotentialMissingAsset,
    out: Seq<u8>,
)
    requires
        max_iterations >= 1,
        crate::checkers::erc20::spec_identify_erc20(node) == Some(cand),
        out.len() == 32,
        cand.required_amount.as_nat() <= crate::amount::spec_u256_of_bytes(out).as_nat(),
    ensures
        ({
            let m0 = spec_begin(
                seq![crate::checkers::erc20::ERC20Checker {  }],
                call,
                auto_fix,
                max_iterations,
            );
            let m1 = spec_step(
                m0,
                EngineEventView::Executed { reverted: true, trace: Some(seq![node]) },
            );
            let m2 = spec_step(m1, EngineEventView::ReadReturned { output: Some(out) });
            m2.phase == (PhaseView::Finished { report: Seq::<MissingAssetInfoView>::empty() })
        }),
{
    let checkers: Seq<crate::checkers::erc20::ERC20Checker> = seq![
        crate::checkers::erc20::ERC20Checker {  },
    ];
    let m0 = spec_begin(checkers, call, auto_fix, max_iterations);
    let nodes = seq![node];
    assert(spec_select(nodes) == Some(0int));
    let m1 = spec_step(
        m0,
        EngineEventView::Executed { reverted: true, trace: Some(nodes) },
    );
    assert(m1 == RunView {
        phase: PhaseView::AwaitBalance { node, idx: 0, found_any: false, pending: cand },
        ..m0
    });
    let bal = crate::amount::spec_u256_of_bytes(out);
    let info = crate::checkers::erc20::spec_check_balance_erc20(cand, Some(out))->Ok_0;
    assert(info.missing_amount == crate::amount::spec_sat_sub(cand.required_amount, bal));
    assert(info.missing_amount.as_nat() == 0);
    let base = RunView { phase: PhaseView::AwaitExecution, ..m0 };
    assert(spec_advance(base, node, 1, false) == spec_end_iteration(base, false));
    assert(spec_aggregate(m0.recorded) =~= Seq::<MissingAssetInfoView>::empty());
}

/// A revert on a call node that no recognized shape matches (an allowance
/// call, for one) yields no candidate and an empty result.
pub proof fn lemma_unrecognized_call_empty_report(
    call: CallView,
    auto_fix: bool,
    max_iterations: int,
    node: TraceNodeView,
)
    requires
        max_iterations >= 1,
        crate::checkers::erc20::spec_identify_erc20(node) is None,
    ensures
        ({
            let m0 = spec_begin(
                seq![crate::checkers::erc20::ERC20Checker {  }],
                call,
                auto_fix,
                max_iterations,
            );
            let m1 = spec_step(
                m0,
                EngineEventView::Executed { reverted: true, trace: Some(seq![node]) },
            );
            m1.phase == (PhaseView::Finished { report: Seq::<MissingAssetInfoView>::empty() })
        }),
{
    let checkers: Seq<crate::checkers::erc20::ERC20Checker> = seq![
        crate::checkers::erc20::ERC20Checker {  },
    ];
    let m0 = spec_begin(checkers, call, auto_fix, max_iterations);
    let nodes = seq![node];
    assert(spec_select(nodes) == Some(0int));
    let base = RunView { phase: PhaseView::AwaitExecution, ..m0 };
    assert(spec_advance(base, node, 1, false) == spec_end_iteration(base, false));
    assert(spec_advance(base, node, 0, false) == spec_end_iteration(base, false));
    assert(spec_aggregate(m0.recorded) =~= Seq::<MissingAssetInfoView>::empty());
}

} // verus!
