pub mod lockfile_structure;
pub mod lock_file_actor;
