//! An interactive 2D-canvas viewer shell: the frame composition and
//! surface-lifecycle core of a windowed vector-graphics application.
//!
//! The platform layer opens the window and owns the GPU; this crate owns
//! and verifies the decisions in between:
//!
//! - [`rat`] and [`transform`]: exact rational arithmetic and the affine
//!   viewport model, with the pan, zoom and inversion laws proved;
//! - [`viewport`]: the executable viewport operations, each exact and
//!   explicit about the machine range;
//! - [`surface`]: the surface backend state — device and queue handles,
//!   presentation kind, and the clamped, idempotent resize;
//! - [`overlay`]: the overlay compositor — texture cache, buffer sizing
//!   and the load-existing pass over the shared frame target;
//! - [`pipeline`]: the per-frame state machine, with one resize-and-retry
//!   on a lost surface;
//! - [`router`]: the event router, from plain input events to state
//!   changes and platform effects;
//! - [`shell`]: the deferred-initialization lifecycle that ties the parts
//!   together;
//! - [`errors`]: the failure taxonomy.

pub mod errors;
pub mod overlay;
pub mod pipeline;
pub mod rat;
pub mod router;
pub mod shell;
pub mod surface;
pub mod transform;
pub mod viewport;
