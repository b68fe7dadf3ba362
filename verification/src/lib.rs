//! A runner of short multiple-choice language tests for the terminal: the
//! tests and their results, the store that keeps them, the import of tests
//! from text files, the run of a test with its timers, and the screens of the
//! application with the moves between them.

pub mod app;
pub mod clock;
pub mod input;
pub mod screens;
pub mod service;
pub mod text;
pub mod ui;
