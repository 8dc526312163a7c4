//! A minimal retained-mode UI toolkit: integer geometry, an input-event
//! model, a button and a label widget, and two linear layout containers
//! that divide an available rectangle equally among their children.

pub mod button;
pub mod event;
pub mod geometry;
pub mod graphics;
pub mod label;
pub mod layout;
