//! A verified spatial interaction engine for a point-and-click game.
//!
//! The engine converts pointer positions from screen space to world space,
//! detects which entities the cursor hovers over, runs a per-entity drag
//! state machine, resolves drop targets when a drag ends, and drives the
//! press/release state machine of UI buttons as well as the scene state
//! machine that those buttons feed. All coordinates are whole numbers of
//! pixels; the surrounding application quantises real-valued pointer input
//! before handing it to the engine.

pub mod button;
pub mod cursor;
pub mod drag;
pub mod frame;
pub mod geom;
pub mod hover;
pub mod jam;
pub mod laws;
pub mod resolve;
pub mod scene;
pub mod world;
