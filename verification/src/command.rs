//! Commands the UI thread sends to the render loop, and how a drained
//! batch of them collapses into one plan.
//!
//! The render loop drains every queued command before producing a frame
//! and applies them in arrival order. Each `UpdateConfig` is a full
//! replacement, so only the last one before a `Shutdown` can matter;
//! `Shutdown` is terminal and everything after it is ignored.

use vstd::prelude::*;

use crate::config::ViewportConfig;

verus! {

/// The closed set of commands carried by the command channel.
#[derive(Clone, Copy, Debug, PartialEq, Eq, Structural)]
pub enum ViewportCommand {
    UpdateConfig(ViewportConfig),
    ResetCamera,
    Shutdown,
}

/// What one drained batch amounts to: the configuration to apply (the
/// last one sent before any shutdown), whether the camera is to be
/// reset, and whether the loop is to stop.
#[derive(Clone, Copy, Debug, PartialEq, Eq, Structural)]
pub struct BatchPlan {
    pub config: Option<ViewportConfig>,
    pub reset_camera: bool,
    pub shutdown: bool,
}

/// The plan an empty batch amounts to: nothing to do.
pub open spec fn empty_plan() -> BatchPlan {
    BatchPlan { config: None, reset_camera: false, shutdown: false }
}

/// One command folded into a plan, in arrival order. After a shutdown
/// the plan is frozen: no later command is processed.
pub open spec fn step_plan(acc: BatchPlan, cmd: ViewportCommand) -> BatchPlan {
    if acc.shutdown {
        acc
    } else {
        match cmd {
            ViewportCommand::UpdateConfig(c) => BatchPlan { config: Some(c), ..acc },
            ViewportCommand::ResetCamera => BatchPlan { reset_camera: true, ..acc },
            ViewportCommand::Shutdown => BatchPlan { shutdown: true, ..acc },
        }
    }
}

/// A whole batch folded into a plan, front to back.
pub open spec fn plan_after(acc: BatchPlan, cmds: Seq<ViewportCommand>) -> BatchPlan
    decreases cmds.len(),
{
    if cmds.len() == 0 {
        acc
    } else {
        plan_after(step_plan(acc, cmds[0]), cmds.subrange(1, cmds.len() as int))
    }
}

/// The plan a drained batch amounts to.
pub open spec fn plan_of(cmds: Seq<ViewportCommand>) -> BatchPlan {
    plan_after(empty_plan(), cmds)
}

/// Folding one more command at the back is one more step, as long as the
/// fold is taken from the same starting plan.
pub proof fn lemma_plan_after_push(acc: BatchPlan, cmds: Seq<ViewportCommand>, cmd: ViewportCommand)
    ensures
        plan_after(acc, cmds.push(cmd)) == step_plan(plan_after(acc, cmds), cmd),
    decreases cmds.len(),
{
    if cmds.len() == 0 {
        assert(cmds.push(cmd)[0] == cmd);
        assert(cmds.push(cmd).subrange(1, 1) =~= Seq::<ViewportCommand>::empty());
        assert(plan_after(step_plan(acc, cmd), Seq::<ViewportCommand>::empty()) == step_plan(
            acc,
            cmd,
        ));
    } else {
        assert(cmds.push(cmd)[0] == cmds[0]);
        assert(cmds.push(cmd).subrange(1, cmds.len() as int + 1) =~= cmds.subrange(
            1,
            cmds.len() as int,
        ).push(cmd));
        lemma_plan_after_push(step_plan(acc, cmds[0]), cmds.subrange(1, cmds.len() as int), cmd);
    }
}

/// Collapses a drained batch into its plan, in arrival order.
pub fn plan_batch(cmds: &Vec<ViewportCommand>) -> (plan: BatchPlan)
    ensures
        plan == plan_of(cmds@),
{
    let mut plan = BatchPlan { config: None, reset_camera: false, shutdown: false };
    let mut i: usize = 0;
    while i < cmds.len()
        invariant
            i <= cmds@.len(),
            plan == plan_after(empty_plan(), cmds@.subrange(0, i as int)),
        decreases cmds@.len() - i,
    {
        proof {
            assert(cmds@.subrange(0, i + 1) =~= cmds@.subrange(0, i as int).push(cmds@[i as int]));
            lemma_plan_after_push(empty_plan(), cmds@.subrange(0, i as int), cmds@[i as int]);
        }
        if !plan.shutdown {
            match cmds[i] {
                ViewportCommand::UpdateConfig(c) => {
                    plan = BatchPlan { config: Some(c), ..plan };
                },
                ViewportCommand::ResetCamera => {
                    plan = BatchPlan { reset_camera: true, ..plan };
                },
                ViewportCommand::Shutdown => {
                    plan = BatchPlan { shutdown: true, ..plan };
                },
            }
        }
        i = i + 1;
    }
    proof {
        assert(cmds@.subrange(0, cmds@.len() as int) =~= cmds@);
    }
    plan
}

/// Two configuration updates in immediate succession collapse to the
/// later one: whatever was queued before them, as long as no shutdown
/// was, the plan carries exactly the second configuration — never the
/// first, never a mixture.
pub proof fn lemma_last_update_wins(
    cmds: Seq<ViewportCommand>,
    c1: ViewportConfig,
    c2: ViewportConfig,
)
    requires
        !plan_of(cmds).shutdown,
    ensures
        plan_of(
            cmds.push(ViewportCommand::UpdateConfig(c1)).push(ViewportCommand::UpdateConfig(c2)),
        ) == (BatchPlan {
            config: Some(c2),
            reset_camera: plan_of(cmds).reset_camera,
            shutdown: false,
        }),
{
    lemma_plan_after_push(empty_plan(), cmds, ViewportCommand::UpdateConfig(c1));
    lemma_plan_after_push(
        empty_plan(),
        cmds.push(ViewportCommand::UpdateConfig(c1)),
        ViewportCommand::UpdateConfig(c2),
    );
}

/// A plan never invents a configuration: whatever it carries was one of
/// the drained commands.
pub proof fn lemma_plan_config_from_batch(cmds: Seq<ViewportCommand>)
    ensures
        plan_of(cmds).config matches Some(c) ==> cmds.contains(ViewportCommand::UpdateConfig(c)),
    decreases cmds.len(),
{
    lemma_plan_after_config_from_batch(empty_plan(), cmds);
}

/// Helper for `lemma_plan_config_from_batch`, generalized over the
/// starting plan.
proof fn lemma_plan_after_config_from_batch(acc: BatchPlan, cmds: Seq<ViewportCommand>)
    ensures
        plan_after(acc, cmds).config matches Some(c) ==> acc.config == Some(c) || cmds.contains(
            ViewportCommand::UpdateConfig(c),
        ),
    decreases cmds.len(),
{
    if cmds.len() > 0 {
        let rest = cmds.subrange(1, cmds.len() as int);
        lemma_plan_after_config_from_batch(step_plan(acc, cmds[0]), rest);
        assert forall|c: ViewportConfig| rest.contains(ViewportCommand::UpdateConfig(c)) implies cmds
            .contains(ViewportCommand::UpdateConfig(c)) by {
            let i = choose|i: int|
                0 <= i < rest.len() && rest[i] == ViewportCommand::UpdateConfig(c);
            assert(cmds[i + 1] == ViewportCommand::UpdateConfig(c));
        }
    }
}

} // verus!
