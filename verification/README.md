# pacquet-install

The decisions behind a package install, verified with Verus.

- `host` counts threads; `scheduler`, `install_scheduler` and `runtime` decide how
  work is run.
- `fs_batch` is the loop of one worker of a file-system batch. `batch_model` proves
  what any number of such workers do together: items are begun in order and no
  item is begun twice, the batch ends, and its answer is right.
- `task_model` proves that tasks of a resource stay within its permits, and that
  every task returns.
- `create_virtual_dir_by_snapshot` fills the slot of one package in the virtual
  store.
- `package_instance_cache` and `project_layout_cache` decide when a cached tree can
  take the place of a fresh import; `layout_key` and `text` hold the texts that
  caches are keyed by, `replace_dir` and `io_error` what they do on disk.
- `layout_model` proves that a restore brings back the tree that was stored, and
  `instance_model` that a populated package holds its own files.

A procedure that works on disk is a function from the latest event to the next
action (see `protocol`). `app/` performs the actions: it owns threads, the async
runtime and the file system.
