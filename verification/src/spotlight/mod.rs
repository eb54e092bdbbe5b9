//! The spotlight itself: its state, its transitions, the radius animation and
//! the geometry of the clip region.

pub mod animation;
pub mod overlay;
pub mod region;
pub mod state;
pub mod window;

pub use state::GlobalState;
