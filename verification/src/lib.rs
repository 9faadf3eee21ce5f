//! An interactive wizard, modelled as a pure state machine, that assembles a
//! validated package manifest: validators for each field, a retry-until-valid
//! prompt loop over an injected sequence of answers, a collection loop for
//! module entries, and an idempotent ignore-list update.
use vstd::prelude::*;

pub mod ignore;
pub mod manifest;
pub mod prompt;
pub mod script;
pub mod session;
pub mod text;
pub mod validate;

pub use ignore::init_gitignore;
pub use manifest::{construct_template_manifest_from_data, seed_manifest};
pub use prompt::{ask, ask_until_valid};
pub use script::Script;
pub use session::init;
pub use validate::{validate_commands, validate_wasm_source};

verus! {

/// The failures a session can surface. A validation rejection is never one of
/// them: it only re-prompts.
#[derive(Debug)]
pub enum InitError {
    /// Declared for callers whose contract expects no manifest to be present
    /// yet; the assembly itself never raises it, and whether the loader
    /// should is left to the code that owns the filesystem boundary.
    ManifestAlreadyExists { dir: String },
    /// The answer source ran out before the session finished: the counterpart
    /// of a console read failure.
    AnswersExhausted,
}

} // verus!
