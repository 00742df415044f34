//! Rules of a small 2D physics playground: which bodies make up the level,
//! and how the pressed movement keys turn into impulses on the player bodies.
//!
//! All quantities are whole world units (one unit is one pixel under the
//! default 2D camera), so the rules are exact integer arithmetic; the engine
//! side converts them into its own vector types.
pub mod vector;
pub mod controls;
pub mod level;
