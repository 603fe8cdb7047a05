//! Challenge descriptor generator: turns the fields an author fills in for a
//! capture-the-flag challenge into the `challenge.yaml` document that the
//! hosting platform reads.
//!
//! A filled-in form is a [`GenApp`]. [`GenApp::synthesize`] gives its
//! document as typed data, following the rules that `synthesis` states over
//! the form's view; [`GenApp::to_yaml`] writes that document out with
//! `serde_yaml`, under the keys that `encoding` states. `laws` and `plain`
//! hold what is proved of every form and every document.

pub mod challenge;
pub mod document;
pub mod encoding;
pub mod laws;
pub mod limits;
pub mod nodes;
pub mod paths;
pub mod plain;
pub mod synthesis;
pub mod yaml;

pub use challenge::{ChallengeType, GenApp};
