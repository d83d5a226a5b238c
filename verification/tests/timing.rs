use process_monitor::monitor::Monitor;
use process_monitor::monitor::MonitorData;
use process_monitor::monitor::MonitorResult;
use process_monitor::schedule::controller_step;
use process_monitor::schedule::task_step;
use process_monitor::schedule::ControllerAction;
use process_monitor::schedule::RunPhase;
use process_monitor::schedule::Task;
use process_monitor::schedule::TaskAction;
use process_monitor::schedule::TaskPhase;
use process_monitor::schedule::RUN_BUDGET_SECS;
use process_monitor::schedule::SNAPSHOT_INTERVAL_SECS;
use process_monitor::schedule::UPDATE_INTERVAL_SECS;
use process_monitor::timestamp::Timestamp;

#[test]
fn intervals_and_budget() {
    assert_eq!(UPDATE_INTERVAL_SECS, 30);
    assert_eq!(SNAPSHOT_INTERVAL_SECS, 60);
    assert_eq!(RUN_BUDGET_SECS, 5 * 60);
    assert_eq!(Task::Updater.interval_secs(), 30);
    assert_eq!(Task::Writer.interval_secs(), 60);
}

#[test]
fn updater_works_then_rests_thirty_seconds() {
    assert_eq!(
        task_step(Task::Updater, TaskPhase::Due),
        (TaskPhase::Worked, TaskAction::UpdateTable)
    );
    assert_eq!(
        task_step(Task::Updater, TaskPhase::Worked),
        (TaskPhase::Due, TaskAction::Sleep { secs: 30 })
    );
}

#[test]
fn writer_works_then_rests_sixty_seconds() {
    assert_eq!(
        task_step(Task::Writer, TaskPhase::Due),
        (TaskPhase::Worked, TaskAction::WriteSnapshot)
    );
    assert_eq!(
        task_step(Task::Writer, TaskPhase::Worked),
        (TaskPhase::Due, TaskAction::Sleep { secs: 60 })
    );
}

#[test]
fn tasks_alternate_without_end() {
    for task in [Task::Updater, Task::Writer] {
        let mut phase = TaskPhase::Due;
        let mut worked: u32 = 0;
        let mut rested: u64 = 0;
        for step in 0..200 {
            let (next, action) = task_step(task, phase);
            assert_ne!(next, phase);
            match action {
                TaskAction::Sleep { secs } => {
                    assert_eq!(step % 2, 1);
                    rested += secs;
                }
                _ => {
                    assert_eq!(step % 2, 0);
                    worked += 1;
                }
            }
            phase = next;
        }
        assert_eq!(worked, 100);
        assert_eq!(rested, 100 * task.interval_secs());
    }
}

#[test]
fn updater_run_for_65_seconds_completes_cycles_thirty_seconds_apart() {
    let launch: i64 = 1_700_000_000;
    let mut table = MonitorData {
        monitors: vec![Monitor {
            name: "A".to_string(),
            script: None,
            result: None,
            code: String::new(),
        }],
    };
    let mut observed: Vec<Timestamp> = Vec::new();
    let mut clock: u64 = 0;
    let mut phase = TaskPhase::Due;
    while clock <= 65 {
        let (next, action) = task_step(Task::Updater, phase);
        phase = next;
        match action {
            TaskAction::UpdateTable => {
                let stamp = Timestamp::from_parts(launch + clock as i64, 0).expect("in range");
                assert!(table.apply_readings(&vec![MonitorResult { value: 1, processed_at: stamp }]));
                observed.push(table.monitors[0].result.expect("a result").processed_at);
            }
            TaskAction::Sleep { secs } => clock += secs,
            TaskAction::WriteSnapshot => unreachable!("the updater never writes"),
        }
    }

    assert!(observed.len() >= 2);
    assert_eq!(observed.len(), 3);
    for pair in observed.windows(2) {
        assert_ne!(pair[0], pair[1]);
        assert!(pair[1].secs() - pair[0].secs() >= 30);
    }
}

#[test]
fn controller_launches_from_idle_whatever_the_clock_says() {
    assert_eq!(
        controller_step(RunPhase::Idle, 0),
        (RunPhase::Running, ControllerAction::LaunchTasks)
    );
    assert_eq!(
        controller_step(RunPhase::Idle, u64::MAX),
        (RunPhase::Running, ControllerAction::LaunchTasks)
    );
}

#[test]
fn controller_waits_until_five_minutes_have_elapsed() {
    assert_eq!(controller_step(RunPhase::Running, 0), (RunPhase::Running, ControllerAction::Wait));
    assert_eq!(
        controller_step(RunPhase::Running, 299),
        (RunPhase::Running, ControllerAction::Wait)
    );
    assert_eq!(
        controller_step(RunPhase::Running, 300),
        (RunPhase::ShuttingDown, ControllerAction::SignalShutdown)
    );
    assert_eq!(
        controller_step(RunPhase::Running, u64::MAX),
        (RunPhase::ShuttingDown, ControllerAction::SignalShutdown)
    );
}

#[test]
fn controller_exits_after_signalling_and_stays_exited() {
    assert_eq!(
        controller_step(RunPhase::ShuttingDown, 0),
        (RunPhase::Exited, ControllerAction::Return)
    );
    assert_eq!(
        controller_step(RunPhase::ShuttingDown, 301),
        (RunPhase::Exited, ControllerAction::Return)
    );
    assert_eq!(controller_step(RunPhase::Exited, 0), (RunPhase::Exited, ControllerAction::Return));
    assert_eq!(
        controller_step(RunPhase::Exited, 1_000),
        (RunPhase::Exited, ControllerAction::Return)
    );
}

#[test]
fn a_whole_run_launches_once_waits_out_the_budget_and_signals_once() {
    let mut phase = RunPhase::Idle;
    let mut clock: u64 = 0;
    let mut actions: Vec<ControllerAction> = Vec::new();
    while phase != RunPhase::Exited {
        let (next, action) = controller_step(phase, clock);
        actions.push(action);
        phase = next;
        if action == ControllerAction::Wait {
            clock += 1;
        }
    }

    assert_eq!(clock, 300);
    assert_eq!(actions.len(), 303);
    assert_eq!(actions[0], ControllerAction::LaunchTasks);
    assert!(actions[1..301].iter().all(|action| *action == ControllerAction::Wait));
    assert_eq!(actions[301], ControllerAction::SignalShutdown);
    assert_eq!(actions[302], ControllerAction::Return);
}
