//! The suite's test programs, one module each, as scripts.

pub mod fd_allocate;
pub mod fd_fdstat_get;
pub mod fd_fdstat_set_rights;
pub mod fd_filestat_get;
pub mod fd_prestat_dir_name;
pub mod fd_prestat_get;
pub mod path_create_directory;
pub mod path_open;
pub mod path_unlink_file;
