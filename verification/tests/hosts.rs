use pacquet_install::host::{
    configure_linked_rayon_pool, configure_rayon_pool, configured_rayon_threads, cpu_parallelism,
    fs_parallelism, Host,
};

fn host(macos: bool, available_parallelism: Option<usize>) -> Host {
    Host { macos, available_parallelism }
}

#[test]
fn file_system_work_gets_two_threads_per_core() {
    assert_eq!(fs_parallelism(&host(false, Some(8))), 16);
    assert_eq!(configured_rayon_threads(&host(false, Some(8))), 16);
}

#[test]
fn file_system_work_gets_at_least_four_threads() {
    assert_eq!(fs_parallelism(&host(false, Some(1))), 4);
    assert_eq!(fs_parallelism(&host(false, Some(2))), 4);
    assert_eq!(fs_parallelism(&host(false, Some(3))), 6);
    assert_eq!(fs_parallelism(&host(false, None)), 4);
    assert_eq!(configured_rayon_threads(&host(false, None)), 4);
}

#[test]
fn macos_gets_four_threads() {
    assert_eq!(fs_parallelism(&host(true, Some(64))), 4);
    assert_eq!(configured_rayon_threads(&host(true, Some(64))), 4);
}

#[test]
fn thread_counts_do_not_overflow() {
    assert_eq!(fs_parallelism(&host(false, Some(usize::MAX))), usize::MAX);
    assert_eq!(fs_parallelism(&host(false, Some(usize::MAX / 2))), usize::MAX - 1);
    assert_eq!(configured_rayon_threads(&host(false, Some(usize::MAX))), usize::MAX);
}

#[test]
fn computation_gets_one_thread_per_core() {
    assert_eq!(cpu_parallelism(&host(false, Some(8))), 8);
    assert_eq!(cpu_parallelism(&host(true, Some(8))), 8);
    assert_eq!(cpu_parallelism(&host(false, Some(0))), 1);
    assert_eq!(cpu_parallelism(&host(false, None)), 1);
}

#[test]
fn the_pool_is_asked_for_the_configured_threads() {
    let mut asked = Vec::new();
    let mut build = |answer: bool| {
        configure_rayon_pool(false, &host(false, Some(3)), |threads| {
            asked.push(threads);
            answer
        })
    };
    assert_eq!(build(true), Some(true));
    assert_eq!(build(false), Some(false));
    assert_eq!(asked, vec![6, 6]);
    let untouched = configure_rayon_pool(true, &host(false, Some(3)), |_| panic!("not asked for"));
    assert_eq!(untouched, None);
}

#[test]
fn the_linked_pool_is_sized_once() {
    assert_eq!(configure_linked_rayon_pool(true, &host(false, Some(1))), None);
    assert_eq!(configure_linked_rayon_pool(false, &host(false, Some(3))), Some(true));
    assert_eq!(rayon::current_num_threads(), 6);
    // The pool cannot be sized again.
    assert_eq!(configure_linked_rayon_pool(false, &host(true, Some(3))), Some(false));
    assert_eq!(rayon::current_num_threads(), 6);
}
