//! A registry of named rigid 2D coordinate frames and points.
//!
//! Every placement is stored relative to a single implicit master frame.
//! Frames and points live in two independent tables keyed by name; entries
//! are registered once and never change. The registry decides when to look a
//! placement up, when to combine placements, and how to report failure; the
//! arithmetic on placements themselves is the collaborator's, handed in as a
//! function value where an operation needs it.

mod error;
mod registry;
mod table;
mod transform;

pub use error::FrameError;
pub use registry::Frame;
pub use registry::Frames;
pub use registry::Point;
pub use registry::lemma_context_round_trip;
pub use registry::lemma_failed_context_registration_inserts_nothing;
pub use registry::lemma_namespaces_independent;
pub use registry::lemma_reregistration_rejected;
pub use transform::Transform;
