//! Notification lifecycle engine for a terminal-multiplexer overlay: a bounded
//! priority queue of notifications, a per-pane visual state machine, a
//! tick-driven animation engine and a colour model.
//!
//! The crate computes in integers only. Quantities that are fractions by
//! nature (brightness, animation phase, luminance, blend factors) are held in
//! thousandths, or as an explicit numerator and denominator.

pub mod animation;
pub mod clock;
pub mod colors;
pub mod config;
pub mod depth;
pub mod document;
pub mod event_bridge;
pub mod notification;
pub mod panes;
pub mod plugin;
pub mod queue;
pub mod queue_laws;
pub mod renderer;
pub mod settings;
pub mod state;
pub mod text;
