//! Retrieval and assembly of albums from a remote music catalog.
//!
//! A run resolves the whole catalog, one album or one song into files on
//! disk: for each album a directory with its cover, and in it one tagged
//! lossless file for each song. Work whose result is already on disk is
//! skipped, so a run can be repeated.
//!
//! The crate holds the decisions of such a run and performs no input or
//! output itself. A run hands out one [`steps::Action`] at a time; a driver
//! carries it out and answers with one [`steps::Event`]:
//!
//! ```text
//! let (mut run, mut action) = run::launch(all, album_id, song_id, root)?;
//! while the action does not end the run {
//!     let event = carry out the action;
//!     (run, action) = run.step(event);
//! }
//! ```
//!
//! - [`selector`] maps an invocation to the scope of the run.
//! - [`run`], [`catalog`], [`album`] and [`song`] are the runs, each a state
//!   machine whose step is a function of the state and the event.
//! - [`steps`] holds the actions and the events.
//! - [`endpoints`] and [`layout`] say where things are: on the service and on
//!   disk.
//! - [`transcoder`] builds the command that writes a finished file.
//! - [`records`] are the replies of the service; [`text`] reads and writes
//!   their identifiers; [`error`] names the ways a run can fail.
//! - [`disk`] models the disk for the proofs in [`song_laws`],
//!   [`album_laws`], [`album_disk_laws`], [`catalog_laws`] and [`run_laws`],
//!   which state what holds of every run, whatever the driver reports.

pub mod album;
pub mod album_disk_laws;
pub mod album_laws;
pub mod catalog;
pub mod catalog_laws;
pub mod disk;
pub mod endpoints;
pub mod error;
pub mod layout;
pub mod records;
pub mod run;
pub mod run_laws;
pub mod selector;
pub mod song;
pub mod song_laws;
pub mod steps;
pub mod text;
pub mod transcoder;
