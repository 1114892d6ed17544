//! The decision-making half of the LUKSbox desktop application.
//!
//! Everything here is plain computation with a proved contract; the window
//! toolkit, the file system and the key hardware are driven by the binary that
//! sits on top of this library.

pub mod bootstrap;
pub mod bootstrap_flow;
pub mod bootstrap_laws;
pub mod bootstrap_plans;
pub mod bootstrap_slots;
pub mod clipboard_guard;
pub mod clock;
pub mod create;
pub mod create_laws;
pub mod destroy;
pub mod devices;
pub mod dialogs;
pub mod enclave_tries;
pub mod enroll;
pub mod enroll_laws;
pub mod extract;
pub mod extract_laws;
pub mod form_laws;
pub mod forms;
pub mod host;
pub mod icon;
pub mod kinds;
pub mod label_laws;
pub mod listing;
pub mod offers;
pub mod opened;
pub mod passgen;
pub mod path_laws;
pub mod paths;
pub mod plan_laws;
pub mod plans;
pub mod preferences;
pub mod recent;
pub mod requests;
pub mod rotate;
pub mod script;
pub mod seed_laws;
pub mod session;
pub mod session_laws;
pub mod sidecar;
pub mod slot_laws;
pub mod slots;
pub mod strength;
pub mod text;
pub mod text_laws;
pub mod unlock;
pub mod unlock_asked;
pub mod unlock_deniable;
pub mod unlock_form;
pub mod unlock_laws;
pub mod unlock_search;
pub mod unlock_sep;
pub mod unlock_tries;
