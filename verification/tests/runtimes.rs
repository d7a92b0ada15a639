use pacquet_install::install_scheduler::InstallScheduler;
use pacquet_install::runtime::{run_blocking_in, RuntimeFlavor};
use pacquet_install::scheduler;
use std::sync::atomic::{AtomicUsize, Ordering};
use tokio::task::block_in_place;

fn multi_thread() -> tokio::runtime::Runtime {
    tokio::runtime::Builder::new_multi_thread().worker_threads(2).build().unwrap()
}

fn current_thread() -> tokio::runtime::Runtime {
    tokio::runtime::Builder::new_current_thread().build().unwrap()
}

#[test]
fn only_a_multi_thread_runtime_blocks_in_place() {
    let way = |flavor| {
        run_blocking_in(flavor, || "inline", |work| {
            assert_eq!(work(), "inline");
            "in place"
        })
    };
    assert_eq!(way(Some(RuntimeFlavor::MultiThread)), "in place");
    assert_eq!(way(Some(RuntimeFlavor::CurrentThread)), "inline");
    assert_eq!(way(Some(RuntimeFlavor::Other)), "inline");
    assert_eq!(way(None), "inline");
}

#[test]
fn blocking_work_returns_its_result_in_every_runtime() {
    let package_manager = InstallScheduler::current();
    let install = scheduler::InstallScheduler::current();
    assert_eq!(package_manager.run_blocking(|| 1, block_in_place), 1);
    assert_eq!(install.run_blocking(|| 2, block_in_place), 2);
    let single = current_thread();
    assert_eq!(single.block_on(async { package_manager.run_blocking(|| 3, block_in_place) }), 3);
    assert_eq!(single.block_on(async { install.run_blocking(|| 4, block_in_place) }), 4);
    let many = multi_thread();
    assert_eq!(many.block_on(async { package_manager.run_blocking(|| 5, block_in_place) }), 5);
    let spawned = many.spawn(async {
        scheduler::InstallScheduler::current().run_blocking(|| 6, block_in_place)
    });
    assert_eq!(many.block_on(spawned).unwrap(), 6);
}

#[test]
fn blocking_work_leaves_a_multi_thread_runtime() {
    // A runtime may be blocked on again only from work that was moved out of it.
    let many = multi_thread();
    let inner = many.handle().clone();
    let answer = many.block_on(async move {
        scheduler::InstallScheduler::current()
            .run_blocking(move || inner.block_on(async { 11 }), block_in_place)
    });
    assert_eq!(answer, 11);
}

#[test]
fn a_batch_runs_on_every_item() {
    let items: Vec<usize> = (1..=100).collect();
    let sum = AtomicUsize::new(0);
    let scheduler = InstallScheduler::current();
    let work = |item: &usize| -> Result<(), String> {
        sum.fetch_add(*item, Ordering::Relaxed);
        Ok(())
    };
    let result = scheduler.run_fs_batch(&items, work, |batch| batch.run());
    assert_eq!(result, Ok(()));
    assert_eq!(sum.load(Ordering::Relaxed), 5050);
}

#[test]
fn a_batch_returns_the_error_of_an_item() {
    let items = [1, 2, 3, 4];
    let scheduler = InstallScheduler::current();
    let work = |item: &i32| {
        if *item == 3 {
            Err(format!("item {item}"))
        } else {
            Ok(())
        }
    };
    let result = scheduler.run_fs_batch(&items, work, |batch| batch.run());
    assert_eq!(result, Err("item 3".to_string()));
    let nothing: [u8; 0] = [];
    let never = |_: &u8| Err("never");
    assert_eq!(scheduler.run_fs_batch(&nothing, never, |batch| batch.run()), Ok(()));
}

#[test]
fn an_unchecked_batch_runs_on_every_item() {
    let items: Vec<usize> = (1..=100).collect();
    let sum = AtomicUsize::new(0);
    let many = multi_thread();
    many.block_on(async {
        let scheduler = InstallScheduler::current();
        let work = |item: &usize| {
            sum.fetch_add(*item, Ordering::Relaxed);
        };
        scheduler.run_fs_batch_unchecked(&items, work, |batch| {
            block_in_place(|| batch.run_unchecked())
        })
    });
    assert_eq!(sum.load(Ordering::Relaxed), 5050);
}

#[test]
fn the_flavor_of_the_runtime_decides_the_way() {
    fn way() -> &'static str {
        scheduler::InstallScheduler::current().run_blocking(|| "inline", |_| "in place")
    }
    assert_eq!(way(), "inline");
    assert_eq!(current_thread().block_on(async { way() }), "inline");
    assert_eq!(multi_thread().block_on(async { way() }), "in place");
    let package_manager = InstallScheduler::current();
    let answer =
        multi_thread().block_on(async { package_manager.run_blocking(|| 1, |work| work() + 1) });
    assert_eq!(answer, 2);
}

#[test]
fn a_batch_is_handed_over_only_inside_a_multi_thread_runtime() {
    fn handed_over() -> bool {
        let handed = AtomicUsize::new(0);
        let sum = AtomicUsize::new(0);
        let scheduler = InstallScheduler::current();
        let work = |item: &usize| -> Result<(), String> {
            sum.fetch_add(*item, Ordering::Relaxed);
            Ok(())
        };
        let result = scheduler.run_fs_batch(&[1, 2, 3], work, |batch| {
            handed.fetch_add(1, Ordering::Relaxed);
            block_in_place(|| batch.run())
        });
        assert_eq!(result, Ok(()));
        assert_eq!(sum.load(Ordering::Relaxed), 6);
        let unchecked = |item: &usize| {
            sum.fetch_add(*item, Ordering::Relaxed);
        };
        scheduler.run_fs_batch_unchecked(&[4, 5], unchecked, |batch| {
            handed.fetch_add(1, Ordering::Relaxed);
            block_in_place(|| batch.run_unchecked())
        });
        assert_eq!(sum.load(Ordering::Relaxed), 15);
        match handed.load(Ordering::Relaxed) {
            0 => false,
            2 => true,
            other => panic!("{other}"),
        }
    }
    assert!(!handed_over());
    assert!(!current_thread().block_on(async { handed_over() }));
    assert!(multi_thread().block_on(async { handed_over() }));
}
