//! Decisions behind a package install: how file-system work is scheduled, how a
//! package reaches its slot of the virtual store, and when a cached tree may
//! take the place of a fresh import.

pub mod batch_model;
pub mod create_virtual_dir_by_snapshot;
pub mod fs_batch;
pub mod host;
pub mod import_method;
pub mod install_scheduler;
pub mod instance_model;
pub mod io_error;
pub mod layout_key;
pub mod layout_model;
pub mod package_instance_cache;
pub mod project_layout_cache;
pub mod protocol;
pub mod replace_dir;
pub mod runtime;
pub mod scheduler;
pub mod task_model;
pub mod text;
