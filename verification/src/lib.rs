//! The verified core of a presenter for software-rendered frames.
//!
//! A backend takes a frame of packed 32-bit pixels and decides what has to be
//! done to show it in a window that somebody else owns: which store and which
//! objects of the display server are needed, what goes into the store, and in
//! which order the steps have to be taken. It hands that back as a plan. The
//! caller owns the connection to the display server and performs the plan.
//!
//! Two backends share one contract, [`presenter::GraphicsContextImpl`]:
//! [`wayland::WaylandImpl`] goes through shared memory, and
//! [`x11::X11Impl`] lets the server draw straight from the caller's pixels.
//! [`wayland_model`] and [`x11_model`] say what the steps of a plan mean, and
//! prove that a plan, once performed, shows the frame.

pub mod error;
pub mod frame;
pub mod pixels;
pub mod presenter;
pub mod wayland;
pub mod wayland_model;
pub mod x11;
pub mod x11_model;
