//! What the install knows of the machine it runs on, and the thread counts that
//! follow from it.

use vstd::prelude::*;

verus! {

/// The least number of threads given to file-system work, and the number given
/// to it on macOS.
pub const FS_THREADS: usize = 4;

/// Facts about the machine.
#[derive(Debug, Clone, Copy)]
pub struct Host {
    /// Whether the operating system is macOS.
    pub macos: bool,
    /// How many threads the machine runs at once, with the limits set on this
    /// process taken into account; `None` where it cannot be told.
    pub available_parallelism: Option<usize>,
}

impl Host {
    /// The threads that run at once, one where that is unknown.
    pub open spec fn threads(self) -> nat {
        match self.available_parallelism {
            Some(threads) => threads as nat,
            None => 1,
        }
    }

    /// How many threads file-system work gets: four on macOS, elsewhere two for
    /// each thread that runs at once but at least four, and never more than a
    /// machine word can count.
    pub open spec fn fs_threads(self) -> nat {
        if self.macos || 2 * self.threads() <= FS_THREADS {
            FS_THREADS as nat
        } else if 2 * self.threads() <= usize::MAX {
            2 * self.threads()
        } else {
            usize::MAX as nat
        }
    }

    fn doubled_threads(&self) -> (count: usize)
        ensures
            !self.macos ==> count == self.fs_threads(),
    {
        let threads: usize = match self.available_parallelism {
            Some(threads) => threads,
            None => 1,
        };
        let doubled: usize = match threads.checked_mul(2) {
            Some(doubled) => doubled,
            None => usize::MAX,
        };
        if doubled < FS_THREADS {
            FS_THREADS
        } else {
            doubled
        }
    }
}

/// The number of workers for file-system work.
pub fn fs_parallelism(host: &Host) -> (count: usize)
    ensures
        count == host.fs_threads(),
{
    if host.macos {
        FS_THREADS
    } else {
        host.doubled_threads()
    }
}

/// The number of workers for computation: the threads that run at once, at least
/// one.
pub fn cpu_parallelism(host: &Host) -> (count: usize)
    ensures
        count == if host.threads() == 0 {
            1
        } else {
            host.threads()
        },
{
    match host.available_parallelism {
        Some(threads) => {
            if threads < 1 {
                1
            } else {
                threads
            }
        },
        None => 1,
    }
}

/// The number of threads for rayon's global pool.
///
/// On macOS a package is one clone of a directory tree, and four threads keep
/// the file system busy. Elsewhere an install may still link or copy file by
/// file, where more threads than cores hide calls that block.
pub fn configured_rayon_threads(host: &Host) -> (count: usize)
    ensures
        count == host.fs_threads(),
{
    if host.macos {
        return FS_THREADS;
    }
    host.doubled_threads()
}

/// Calls `rayon::ThreadPoolBuilder::build_global` with `num_threads` threads, and
/// says whether that set up the pool.
///
/// Nothing is claimed of the answer: it depends on whether the process has a
/// global pool already, and on whether its threads can be started.
#[verifier::external_body]
fn build_global_pool(num_threads: usize) -> bool {
    rayon::ThreadPoolBuilder::new().num_threads(num_threads).build_global().is_ok()
}

/// Sizes rayon's global pool, unless the `RAYON_NUM_THREADS` variable does.
///
/// `build_global` sets up the pool with a number of threads and says whether it
/// did; it is called once, or not at all where the variable is set. Its answer is
/// handed back: a pool that could not be set up is left as it is.
pub fn configure_rayon_pool<B>(num_threads_set: bool, host: &Host, build_global: B) -> (built:
    Option<bool>) where B: FnOnce(usize) -> bool
    requires
        !num_threads_set ==> call_requires(build_global, (host.fs_threads() as usize,)),
    ensures
        num_threads_set ==> built is None,
        !num_threads_set ==> built is Some && call_ensures(
            build_global,
            (host.fs_threads() as usize,),
            built->0,
        ),
{
    if num_threads_set {
        return None;
    }
    let threads: usize = configured_rayon_threads(host);
    Some(build_global(threads))
}

/// Whether rayon may answer `built` when it is asked for a global pool with this
/// many threads.
pub closed spec fn pool_answer(num_threads: usize, built: bool) -> bool {
    call_ensures(build_global_pool, (num_threads,), built)
}

/// Sizes the global pool of the rayon that this library is linked with, by
/// [`configure_rayon_pool`].
pub fn configure_linked_rayon_pool(num_threads_set: bool, host: &Host) -> (built: Option<bool>)
    ensures
        num_threads_set ==> built is None,
        !num_threads_set ==> built is Some && pool_answer(host.fs_threads() as usize, built->0),
{
    configure_rayon_pool(num_threads_set, host, build_global_pool)
}

/// The threads of file-system work are never below four, are four on macOS, and
/// grow with the machine: elsewhere there are at least two for each thread that
/// runs at once, as far as a machine word can count them.
pub proof fn fs_threads_grow_with_the_machine(small: Host, large: Host)
    requires
        small.macos == large.macos,
        small.threads() <= large.threads(),
    ensures
        FS_THREADS <= small.fs_threads() <= large.fs_threads() <= usize::MAX,
        small.macos ==> small.fs_threads() == FS_THREADS,
        !small.macos && 2 * small.threads() <= usize::MAX ==> small.fs_threads() >= 2
            * small.threads(),
{
}

/// Work on files, and rayon's pool for it, get four threads on macOS, whatever the
/// machine. Elsewhere they get two for each thread that runs at once, but never
/// fewer than four. Computation gets one for each thread on every system, and never
/// none.
pub proof fn threads_follow_the_machine(
    host: Host,
    fs_threads: usize,
    rayon_threads: usize,
    cpu_threads: usize,
)
    requires
        call_ensures(fs_parallelism, (&host,), fs_threads),
        call_ensures(configured_rayon_threads, (&host,), rayon_threads),
        call_ensures(cpu_parallelism, (&host,), cpu_threads),
    ensures
        fs_threads == rayon_threads,
        fs_threads >= 4,
        host.macos ==> fs_threads == 4,
        cpu_threads >= 1,
        host.available_parallelism is None ==> cpu_threads == 1 && fs_threads == 4,
        host.available_parallelism matches Some(threads) ==> {
            &&& threads > 0 ==> cpu_threads == threads
            &&& threads == 0 ==> cpu_threads == 1
            &&& !host.macos && threads <= 2 ==> fs_threads == 4
            &&& !host.macos && threads > 2 && 2 * threads <= usize::MAX ==> fs_threads == 2
                * threads
            &&& !host.macos && 2 * threads > usize::MAX ==> fs_threads == usize::MAX
        },
{
}

/// Without the variable the pool is asked for exactly the configured threads, and
/// its answer comes back; with it no answer does.
pub proof fn the_pool_is_asked_for_the_configured_threads<B>(
    num_threads_set: bool,
    host: Host,
    build_global: B,
    threads: usize,
    built: Option<bool>,
    linked: Option<bool>,
) where B: FnOnce(usize) -> bool
    requires
        call_ensures(configured_rayon_threads, (&host,), threads),
        call_ensures(configure_rayon_pool::<B>, (num_threads_set, &host, build_global), built),
        call_ensures(configure_linked_rayon_pool, (num_threads_set, &host), linked),
    ensures
        num_threads_set <==> built is None,
        num_threads_set <==> linked is None,
        built matches Some(answer) ==> call_ensures(build_global, (threads,), answer),
        linked matches Some(answer) ==> pool_answer(threads, answer),
{
}

proof fn lemma_pool_answers_are_rayons(num_threads: usize, built: bool)
    ensures
        pool_answer(num_threads, built) <==> call_ensures(
            build_global_pool,
            (num_threads,),
            built,
        ),
{
}

} // verus!
