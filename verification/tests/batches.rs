use pacquet_install::fs_batch::{
    batch_result, first_unchecked_step, first_worker_step, run_bounded_fs_batch,
    run_bounded_fs_batch_unchecked, UncheckedEvent, UncheckedStep, WorkerEvent, WorkerStep,
};
use pacquet_install::host::Host;
use pacquet_install::scheduler::{
    permits, FsBatch, InstallScheduler, Resource, TaskAction, TaskEvent,
};

/// The shared memory of a batch, and the workers that take turns on it.
struct Simulation {
    next: usize,
    failed: bool,
    first_error: Option<String>,
    steps: Vec<WorkerStep<String>>,
    started: Vec<usize>,
    moves: usize,
    failures: usize,
}

/// Runs a batch in which `order` says, over and over, which worker moves next.
fn simulate(
    items: usize,
    workers: usize,
    order: &[usize],
    work: fn(usize) -> Result<(), String>,
) -> Simulation {
    let mut sim = Simulation {
        next: 0,
        failed: false,
        first_error: None,
        steps: (0..workers).map(|_| first_worker_step()).collect(),
        started: Vec::new(),
        moves: 0,
        failures: 0,
    };
    let mut turn = 0;
    while sim.steps.iter().any(|step| !matches!(step, WorkerStep::Stop)) {
        let worker = order[turn % order.len()];
        turn += 1;
        let step = std::mem::replace(&mut sim.steps[worker], WorkerStep::Stop);
        let event = match &step {
            WorkerStep::LoadFailed => WorkerEvent::FailedLoaded(sim.failed),
            WorkerStep::ClaimIndex => {
                let index = sim.next;
                sim.next += 1;
                if index < items {
                    sim.started.push(index);
                }
                WorkerEvent::IndexClaimed(index)
            }
            WorkerStep::Work(index) => {
                let result = work(*index);
                sim.failures += usize::from(result.is_err());
                WorkerEvent::Worked(result)
            }
            WorkerStep::SwapFailed(_) => {
                let before = sim.failed;
                sim.failed = true;
                WorkerEvent::FailedSwapped(before)
            }
            WorkerStep::StoreError(error) => {
                sim.first_error = Some(error.clone());
                sim.moves += 1;
                continue;
            }
            WorkerStep::Stop => continue,
        };
        sim.moves += 1;
        sim.steps[worker] = run_bounded_fs_batch(step, event, items);
    }
    sim
}

fn always_ok(_: usize) -> Result<(), String> {
    Ok(())
}

fn fails_on_multiples_of_three(index: usize) -> Result<(), String> {
    if index % 3 == 0 {
        Err(format!("item {index}"))
    } else {
        Ok(())
    }
}

#[test]
fn a_worker_claims_after_it_saw_no_failure() {
    let step: WorkerStep<String> = first_worker_step();
    assert!(matches!(step, WorkerStep::LoadFailed));
    let step = run_bounded_fs_batch(step, WorkerEvent::FailedLoaded(false), 2);
    assert!(matches!(step, WorkerStep::ClaimIndex));
    let step = run_bounded_fs_batch(step, WorkerEvent::IndexClaimed(1), 2);
    assert!(matches!(step, WorkerStep::Work(1)));
    let step = run_bounded_fs_batch(step, WorkerEvent::Worked(Ok(())), 2);
    assert!(matches!(step, WorkerStep::LoadFailed));
    let step = run_bounded_fs_batch(step, WorkerEvent::FailedLoaded(true), 2);
    assert!(matches!(step, WorkerStep::Stop));
}

#[test]
fn a_worker_stops_past_the_last_item() {
    let step: WorkerStep<String> = WorkerStep::ClaimIndex;
    let step = run_bounded_fs_batch(step, WorkerEvent::IndexClaimed(2), 2);
    assert!(matches!(step, WorkerStep::Stop));
}

#[test]
fn only_the_first_failure_is_kept() {
    let failing = || {
        let step = WorkerStep::Work(0);
        run_bounded_fs_batch(step, WorkerEvent::Worked(Err("broken".to_string())), 1)
    };
    match run_bounded_fs_batch(failing(), WorkerEvent::FailedSwapped(false), 1) {
        WorkerStep::StoreError(error) => assert_eq!(error, "broken"),
        other => panic!("{other:?}"),
    }
    let step = run_bounded_fs_batch(failing(), WorkerEvent::FailedSwapped(true), 1);
    assert!(matches!(step, WorkerStep::Stop));
}

#[test]
fn a_batch_without_failures_does_every_item_once() {
    for order in [&[0, 1, 2][..], &[2, 1, 0], &[0, 0, 0, 0, 1, 2], &[1, 0, 1, 2, 2]] {
        let sim = simulate(7, 3, order, always_ok);
        assert_eq!(sim.started, vec![0, 1, 2, 3, 4, 5, 6]);
        assert_eq!(sim.first_error, None);
        assert!(sim.next <= 7 + 3);
        assert!(sim.moves <= 3 * 7 + 4 * 3);
        assert_eq!(batch_result(sim.first_error), Ok(()));
    }
}

#[test]
fn a_batch_reports_an_error_of_one_of_its_items() {
    for order in [&[0, 1, 2][..], &[2, 1, 0], &[0, 0, 0, 0, 1, 2], &[1, 0, 1, 2, 2]] {
        let sim = simulate(7, 3, order, fails_on_multiples_of_three);
        let error = batch_result(sim.first_error).unwrap_err();
        assert!(["item 0", "item 3", "item 6"].contains(&error.as_str()));
        let mut once = sim.started.clone();
        once.dedup();
        assert_eq!(once, sim.started);
        assert!(sim.moves <= 3 * 7 + 4 * 3);
    }
}

#[test]
fn one_worker_stops_at_the_first_failing_item() {
    let sim = simulate(7, 1, &[0], |index| {
        if index == 2 {
            Err("item 2".to_string())
        } else {
            Ok(())
        }
    });
    assert_eq!(sim.started, vec![0, 1, 2]);
    assert_eq!(batch_result(sim.first_error), Err("item 2".to_string()));
}

#[test]
fn an_empty_batch_is_a_success() {
    let sim = simulate(0, 0, &[0], always_ok);
    assert_eq!(batch_result(sim.first_error), Ok(()));
}

#[test]
fn an_unchecked_batch_does_every_item_once() {
    let items = 5;
    for order in [&[0, 1][..], &[1, 0, 0], &[0, 0, 0, 1]] {
        let mut steps = [first_unchecked_step(), first_unchecked_step()];
        let mut next = 0;
        let mut done = Vec::new();
        let mut turn = 0;
        while steps.iter().any(|step| *step != UncheckedStep::Stop) {
            let worker = order[turn % order.len()];
            turn += 1;
            let event = match steps[worker] {
                UncheckedStep::ClaimIndex => {
                    next += 1;
                    UncheckedEvent::IndexClaimed(next - 1)
                }
                UncheckedStep::Work(index) => {
                    done.push(index);
                    UncheckedEvent::Worked
                }
                UncheckedStep::Stop => continue,
            };
            steps[worker] = run_bounded_fs_batch_unchecked(steps[worker], event, items);
        }
        done.sort();
        assert_eq!(done, vec![0, 1, 2, 3, 4]);
        assert!(next <= items + 2);
    }
}

fn linux(available: usize) -> Host {
    Host { macos: false, available_parallelism: Some(available) }
}

#[test]
fn a_batch_has_no_more_workers_than_items() {
    let scheduler = InstallScheduler::current();
    let workers = |batch: FsBatch| (batch.item_count, batch.worker_count);
    assert_eq!(workers(scheduler.run_fs_batch(3, &linux(8))), (3, 3));
    assert_eq!(workers(scheduler.run_fs_batch(100, &linux(8))), (100, 16));
    assert_eq!(workers(scheduler.run_fs_batch(0, &linux(8))), (0, 0));
    assert_eq!(workers(scheduler.run_fs_batch_unchecked(100, &linux(1))), (100, 4));
    assert_eq!(workers(scheduler.run_fs_batch_unchecked(2, &linux(1))), (2, 2));
}

#[test]
fn permits_depend_on_the_resource() {
    assert_eq!(permits(Resource::Cpu, &linux(8)), 8);
    assert_eq!(permits(Resource::Fs, &linux(8)), 16);
}

#[test]
fn a_task_runs_under_its_permit() {
    let scheduler = InstallScheduler::current();
    let action: TaskAction<u8> = scheduler.run_cpu(TaskEvent::Submitted);
    assert!(matches!(action, TaskAction::AcquirePermit(Resource::Cpu)));
    let action: TaskAction<u8> = scheduler.run_fs(TaskEvent::Submitted);
    assert!(matches!(action, TaskAction::AcquirePermit(Resource::Fs)));
    let action: TaskAction<u8> = scheduler.run_fs(TaskEvent::PermitAcquired);
    assert!(matches!(action, TaskAction::SpawnBlocking));
    assert!(matches!(scheduler.run_cpu(TaskEvent::Joined(7)), TaskAction::Finish(7)));
}

#[test]
fn each_worker_sees_at_most_one_failure() {
    for workers in 1..5 {
        let order: Vec<usize> = (0..workers).collect();
        let sim = simulate(20, workers, &order, |index| Err(format!("item {index}")));
        assert!((1..=workers).contains(&sim.failures));
        assert_eq!(sim.first_error, Some("item 0".to_string()));
    }
}

#[test]
fn tasks_stay_within_their_permits_and_return() {
    let host = linux(2);
    let scheduler = InstallScheduler::current();
    let resources: Vec<Resource> =
        (0..20).map(|task| if task % 2 == 0 { Resource::Cpu } else { Resource::Fs }).collect();
    let limit = |resource| permits(resource, &host);
    assert_eq!((limit(Resource::Cpu), limit(Resource::Fs)), (2, 4));
    let decide = |task: usize, event: TaskEvent<usize>| match resources[task] {
        Resource::Cpu => scheduler.run_cpu(event),
        Resource::Fs => scheduler.run_fs(event),
    };
    let mut taken = [0, 0];
    let slot = |resource| usize::from(resource == Resource::Fs);
    let mut actions: Vec<_> = (0..20).map(|task| Some(decide(task, TaskEvent::Submitted))).collect();
    let mut most = [0, 0];
    let mut returned = 0;
    for round in 0..1000 {
        let task = (round * 7) % 20;
        let resource = resources[task];
        actions[task] = match actions[task].take() {
            Some(TaskAction::AcquirePermit(wanted)) => {
                assert_eq!(wanted, resource);
                if taken[slot(wanted)] < limit(wanted) {
                    taken[slot(wanted)] += 1;
                    most[slot(wanted)] = most[slot(wanted)].max(taken[slot(wanted)]);
                    Some(decide(task, TaskEvent::PermitAcquired))
                } else {
                    Some(TaskAction::AcquirePermit(wanted))
                }
            }
            Some(TaskAction::SpawnBlocking) => Some(decide(task, TaskEvent::Joined(task))),
            Some(TaskAction::Finish(outcome)) => {
                assert_eq!(outcome, task);
                taken[slot(resource)] -= 1;
                returned += 1;
                None
            }
            None => None,
        };
    }
    assert_eq!(returned, 20);
    assert_eq!(taken, [0, 0]);
    assert_eq!(most, [2, 4]);
}
