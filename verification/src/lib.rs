//! Telera: the decisions behind a small desktop interface — which page of the
//! sidebar is selected, how its buttons look, how window input changes the
//! interface state, how the drawing surface follows the window size, and what
//! vertex data goes to the GPU — stated and proved with Verus.

pub mod icon;
pub mod input;
pub mod layout;
pub mod mesh;
pub mod pipeline;
pub mod sidebar;
pub mod surface;
