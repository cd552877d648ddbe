pub mod file_entry;
