//! A schema-driven telemetry panel: a declarative document names the widgets
//! and data channels of a display, a bounded store keeps the latest value and
//! the recent history of every channel, a producer advances each channel by a
//! random walk, and a reader takes snapshots for rendering.

pub mod graph;
pub mod key_number;
pub mod laws;
pub mod persist;
pub mod producer;
pub mod reader;
pub mod schema;
pub mod seeding;
pub mod store;
pub mod text;
