//! Input debouncing, screen navigation and timed animation for a one-button
//! device with a small monochrome display.
//!
//! The device is polled: once per tick the caller reads the button, the clock
//! and a random number and hands them to [`main_loop::MainLoop::tick`], which
//! answers with the level of the indicator and the drawing operations for the
//! display. Nothing in here blocks, sleeps or touches hardware.

pub mod animation;
pub mod button;
pub mod button_laws;
pub mod clock;
pub mod http;
pub mod main_loop;
pub mod main_loop_laws;
pub mod navigation;
pub mod screens;
pub mod text;
pub mod weather;
