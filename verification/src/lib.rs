//! The verified core of a desktop front end for package management.
//!
//! The front end runs package tools on a pseudo-terminal and shows what they
//! print, and it lists packages, updates, firmware and desktop widgets from
//! what other tools and files say.  All outside work (processes, files,
//! threads, the package database) is the caller's.  This library holds the
//! logic, and every function in it is verified against its contract.
//!
//! The interactive terminal session:
//! - [`normalizer`] turns raw terminal output into clean text, and
//!   [`normalizer_laws`] says what holds of it for every input;
//! - [`session`] is the supervisor, a state machine from what happened
//!   outside to what is to be done next, and [`session_laws`] says what holds
//!   of every run of it;
//! - [`relay`] decides what the two relay threads do with each read and each
//!   line, [`exit_status`] reads a wait status, and [`window`] keeps the end
//!   of the output for display.
//!
//! Packages:
//! - [`package`] and [`version_order`] hold the package types and the order
//!   of versions; [`error`] holds the error type;
//! - [`backend`], [`record`], [`queries`], [`orphan`], [`operation`] and
//!   [`transaction`] are the pacman backend, working on records read from
//!   the package databases.
//!
//! What is shown:
//! - [`ui`] makes rows from packages, [`category`] puts them in order,
//!   [`names`] finds display names and [`size`] writes sizes;
//! - [`desktop`], [`appstream`], [`repos`], [`store`] and [`firmware`] read
//!   what files and tools provide, with [`json`] for JSON documents;
//! - [`sync`] holds the decisions of the check for updates.
//!
//! Texts are handled as sequences of characters by [`text`], [`split`],
//! [`chars`], [`number`] and [`paths`].

pub mod appstream;
pub mod backend;
pub mod category;
pub mod chars;
pub mod desktop;
pub mod error;
pub mod exit_status;
pub mod firmware;
pub mod json;
pub mod names;
pub mod normalizer;
pub mod normalizer_laws;
pub mod number;
pub mod operation;
pub mod orphan;
pub mod package;
pub mod paths;
pub mod queries;
pub mod record;
pub mod relay;
pub mod repos;
pub mod session;
pub mod session_laws;
pub mod size;
pub mod split;
pub mod store;
pub mod sync;
pub mod text;
pub mod transaction;
pub mod ui;
pub mod version_order;
pub mod window;
