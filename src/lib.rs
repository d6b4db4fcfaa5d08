//! Command handlers of a small desktop shell: a greeting, a fixed list of
//! dropdown entries, an echo of the chosen entry, and acknowledgements for
//! saved and updated key/value entries.
pub mod dropdown;
pub mod entries;
pub mod greeting;

pub use dropdown::{get_dropdown_options, process_dropdown_value, DropdownOption, PROCESS_DELAY_MS};
pub use entries::{save_file, updated_entry, Payload};
pub use greeting::greet;
