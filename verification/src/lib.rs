//! Core of a tray-resident overlay-window toggler.
//!
//! A tray icon shows and hides a borderless, always-on-top, translucent
//! window and opens further such windows. This crate holds the decisions of
//! that application: which tray and menu events count, what each event does
//! to the shared visibility flag, which platform calls give a window its
//! chrome, and who owns a native handle. The calls themselves (the window
//! system, the tray, the channels between the callback thread and the
//! application loop) are made by the program around it.

pub mod app_tray_icon;
pub mod bridge;
pub mod chrome;
pub mod event_loop;
pub mod handle;
pub mod platform;
pub mod window;
