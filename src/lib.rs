//! Identity model and module-to-host command protocol for dynamically loaded
//! extension modules.
//!
//! An activity is named by the pair `(module, activity)`; the metadata that
//! travels with it never takes part in equality or hashing. Modules talk to
//! the host through a closed set of commands and are driven through the
//! lifecycle capabilities of [`SabiModule`].

pub mod activity_identifier;
pub mod annotations;
pub mod module;
pub mod text_order;

pub use activity_identifier::{ActivityIdentifier, ActivityMetadata};
pub use module::{apply_config, not_implemented, ModuleError, SabiModule, UIServerCommand};
