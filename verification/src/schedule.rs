//! The timing rules of a run: what each background task does next, how long
//! it rests between cycles, and when the controller ends the run.
//!
//! Each rule is a step function from a state to the next state and the action
//! to perform. The caller performs the action (touching the table, writing a
//! file, sleeping, reading the clock) and comes back for the next step.

use vstd::prelude::*;

verus! {

/// Seconds the updater rests after a pass.
pub const UPDATE_INTERVAL_SECS: u64 = 30;

/// Seconds the snapshot writer rests after a snapshot.
pub const SNAPSHOT_INTERVAL_SECS: u64 = 60;

/// Seconds a run lasts before the controller signals shutdown.
pub const RUN_BUDGET_SECS: u64 = 300;

/// The two background tasks.
#[derive(Clone, Copy, Debug, PartialEq, Eq, Structural)]
pub enum Task {
    Updater,
    Writer,
}

/// Where a task stands in its cycle.
#[derive(Clone, Copy, Debug, PartialEq, Eq, Structural)]
pub enum TaskPhase {
    /// The task's work is due.
    Due,
    /// The work is done and the rest has not been taken yet.
    Worked,
}

/// What a task does next.
#[derive(Clone, Copy, Debug, PartialEq, Eq, Structural)]
pub enum TaskAction {
    /// Take the table exclusively, run one update pass, release it.
    UpdateTable,
    /// Take the table exclusively, copy it, release it, and write the copy to
    /// a newly named file.
    WriteSnapshot,
    /// Rest for this many seconds.
    Sleep { secs: u64 },
}

impl Task {
    /// The rest a task of this kind takes between two cycles.
    pub open spec fn spec_interval_secs(self) -> u64 {
        match self {
            Task::Updater => UPDATE_INTERVAL_SECS,
            Task::Writer => SNAPSHOT_INTERVAL_SECS,
        }
    }

    /// The work a task of this kind does.
    pub open spec fn spec_work(self) -> TaskAction {
        match self {
            Task::Updater => TaskAction::UpdateTable,
            Task::Writer => TaskAction::WriteSnapshot,
        }
    }

    /// The rest between two cycles, in seconds.
    #[verifier::when_used_as_spec(spec_interval_secs)]
    pub fn interval_secs(self) -> (secs: u64)
        ensures
            secs == self.spec_interval_secs(),
    {
        match self {
            Task::Updater => UPDATE_INTERVAL_SECS,
            Task::Writer => SNAPSHOT_INTERVAL_SECS,
        }
    }
}

/// The step of a task: work when it is due, then rest for the task's
/// interval, then work again, without end. A task never stops of its own
/// accord; it ends when the process does.
pub open spec fn task_step_spec(task: Task, phase: TaskPhase) -> (TaskPhase, TaskAction) {
    match phase {
        TaskPhase::Due => (TaskPhase::Worked, task.spec_work()),
        TaskPhase::Worked => (TaskPhase::Due, TaskAction::Sleep { secs: task.spec_interval_secs() }),
    }
}

/// The next phase of `task` and the action that leads there.
pub fn task_step(task: Task, phase: TaskPhase) -> (next: (TaskPhase, TaskAction))
    ensures
        next == task_step_spec(task, phase),
{
    match phase {
        TaskPhase::Due => {
            let work = match task {
                Task::Updater => TaskAction::UpdateTable,
                Task::Writer => TaskAction::WriteSnapshot,
            };
            (TaskPhase::Worked, work)
        },
        TaskPhase::Worked => (TaskPhase::Due, TaskAction::Sleep { secs: task.interval_secs() }),
    }
}

/// The states of a run.
#[derive(Clone, Copy, Debug, PartialEq, Eq, Structural)]
pub enum RunPhase {
    /// Nothing has been launched.
    Idle,
    /// Both tasks are running and the budget has not been used up.
    Running,
    /// The budget is used up and shutdown has been signalled.
    ShuttingDown,
    /// The controller has returned.
    Exited,
}

/// What the controller does next.
#[derive(Clone, Copy, Debug, PartialEq, Eq, Structural)]
pub enum ControllerAction {
    /// Launch the updater and the writer and start the clock.
    LaunchTasks,
    /// Read the clock again.
    Wait,
    /// Signal both tasks to stop, without waiting for them.
    SignalShutdown,
    /// Return to the caller.
    Return,
}

impl RunPhase {
    /// How far along a run is: 0 for `Idle` up to 3 for `Exited`.
    pub open spec fn rank(self) -> nat {
        match self {
            RunPhase::Idle => 0,
            RunPhase::Running => 1,
            RunPhase::ShuttingDown => 2,
            RunPhase::Exited => 3,
        }
    }
}

/// The step of the controller. Only the time elapsed since launch decides
/// when a run leaves `Running`; the other phases are passed through at once.
pub open spec fn controller_step_spec(phase: RunPhase, elapsed_secs: u64) -> (
    RunPhase,
    ControllerAction,
) {
    match phase {
        RunPhase::Idle => (RunPhase::Running, ControllerAction::LaunchTasks),
        RunPhase::Running => if elapsed_secs < RUN_BUDGET_SECS {
            (RunPhase::Running, ControllerAction::Wait)
        } else {
            (RunPhase::ShuttingDown, ControllerAction::SignalShutdown)
        },
        RunPhase::ShuttingDown => (RunPhase::Exited, ControllerAction::Return),
        RunPhase::Exited => (RunPhase::Exited, ControllerAction::Return),
    }
}

/// The next phase of the run and the action that leads there, given the whole
/// seconds elapsed since launch.
pub fn controller_step(phase: RunPhase, elapsed_secs: u64) -> (next: (RunPhase, ControllerAction))
    ensures
        next == controller_step_spec(phase, elapsed_secs),
{
    match phase {
        RunPhase::Idle => (RunPhase::Running, ControllerAction::LaunchTasks),
        RunPhase::Running => {
            if elapsed_secs < RUN_BUDGET_SECS {
                (RunPhase::Running, ControllerAction::Wait)
            } else {
                (RunPhase::ShuttingDown, ControllerAction::SignalShutdown)
            }
        },
        RunPhase::ShuttingDown => (RunPhase::Exited, ControllerAction::Return),
        RunPhase::Exited => (RunPhase::Exited, ControllerAction::Return),
    }
}

/// The seconds a task has rested after `steps` steps from `phase`.
pub open spec fn rested_secs(task: Task, phase: TaskPhase, steps: nat) -> nat
    decreases steps,
{
    if steps == 0 {
        0
    } else {
        let (next, action) = task_step_spec(task, phase);
        let rest: nat = match action {
            TaskAction::Sleep { secs } => secs as nat,
            _ => 0,
        };
        rest + rested_secs(task, next, (steps - 1) as nat)
    }
}

/// How often a task has done its work after `steps` steps from `phase`.
pub open spec fn cycles_worked(task: Task, phase: TaskPhase, steps: nat) -> nat
    decreases steps,
{
    if steps == 0 {
        0
    } else {
        let (next, action) = task_step_spec(task, phase);
        let work: nat = if action == task.spec_work() {
            1
        } else {
            0
        };
        work + cycles_worked(task, next, (steps - 1) as nat)
    }
}

/// A task alternates between its work and a rest of its own interval: two
/// steps bring it back to the phase it was in, and of any two steps in a row
/// one is the work and the other the rest.
pub proof fn lemma_task_alternates(task: Task, phase: TaskPhase)
    ensures
        task_step_spec(task, task_step_spec(task, phase).0).0 == phase,
        task_step_spec(task, TaskPhase::Due).1 == task.spec_work(),
        task_step_spec(task, TaskPhase::Worked).1 == (TaskAction::Sleep {
            secs: task.spec_interval_secs(),
        }),
        task_step_spec(task, phase).0 != phase,
{
}

/// Cycles keep their distance: a task whose work is due has, `2 * cycles`
/// steps later, worked `cycles` times and rested one full interval after each
/// of them, so it begins its next cycle no sooner than `cycles` intervals
/// after the first.
pub proof fn lemma_cycles_keep_their_distance(task: Task, cycles: nat)
    ensures
        cycles_worked(task, TaskPhase::Due, 2 * cycles) == cycles,
        rested_secs(task, TaskPhase::Due, 2 * cycles) == cycles * task.spec_interval_secs(),
    decreases cycles,
{
    if cycles > 0 {
        lemma_cycles_keep_their_distance(task, (cycles - 1) as nat);
        let after_work: nat = (2 * cycles - 1) as nat;
        let after_rest: nat = (2 * cycles - 2) as nat;
        assert(cycles_worked(task, TaskPhase::Worked, after_work) == cycles_worked(
            task,
            TaskPhase::Due,
            after_rest,
        ));
        assert(rested_secs(task, TaskPhase::Worked, after_work) == task.spec_interval_secs()
            + rested_secs(task, TaskPhase::Due, after_rest));
        assert(cycles * task.spec_interval_secs() == (cycles - 1) * task.spec_interval_secs()
            + task.spec_interval_secs()) by (nonlinear_arith);
    }
}

/// The phase of a run that started `Idle` and has taken one step for each
/// clock reading in `readings`, each reading being the whole seconds elapsed
/// since launch at that step.
pub open spec fn run_phase_after(readings: Seq<u64>) -> RunPhase
    decreases readings.len(),
{
    if readings.len() == 0 {
        RunPhase::Idle
    } else {
        controller_step_spec(run_phase_after(readings.drop_last()), readings.last()).0
    }
}

/// A run only moves forward, one phase at a time; it launches the tasks when
/// it leaves `Idle` and at no other step, and it signals shutdown when it
/// leaves `Running` and at no other step.
pub proof fn lemma_run_moves_forward(phase: RunPhase, elapsed_secs: u64)
    ensures
        ({
            let (next, action) = controller_step_spec(phase, elapsed_secs);
            &&& next.rank() == phase.rank() || next.rank() == phase.rank() + 1
            &&& action is LaunchTasks <==> phase is Idle
            &&& action is SignalShutdown <==> phase is Running && next is ShuttingDown
            &&& action is Wait <==> phase is Running && next is Running
            &&& action is Return <==> next is Exited
        }),
{
}

/// A run lasts its whole budget and no longer: once launched it stays
/// `Running` as long as every clock reading is below the budget, and the
/// first reading at or above the budget makes it signal shutdown.
pub proof fn lemma_run_lasts_its_budget(readings: Seq<u64>)
    requires
        readings.len() >= 1,
        forall|i: int| 1 <= i < readings.len() - 1 ==> readings[i] < RUN_BUDGET_SECS,
    ensures
        readings.len() == 1 ==> run_phase_after(readings) is Running,
        readings.len() > 1 && readings.last() < RUN_BUDGET_SECS ==> run_phase_after(
            readings,
        ) is Running,
        readings.len() > 1 && readings.last() >= RUN_BUDGET_SECS ==> run_phase_after(
            readings,
        ) is ShuttingDown && controller_step_spec(
            run_phase_after(readings.drop_last()),
            readings.last(),
        ).1 is SignalShutdown,
    decreases readings.len(),
{
    let earlier = readings.drop_last();
    if readings.len() == 1 {
        assert(earlier.len() == 0);
    } else {
        if earlier.len() > 1 {
            assert(earlier.last() == readings[readings.len() - 2]);
        }
        lemma_run_lasts_its_budget(earlier);
    }
}

} // verus!
