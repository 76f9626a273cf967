//! The core of a personal fitness log.
//!
//! A user records weights, step counts and workouts, and looks at them over
//! ranges of dates. This library holds what such a program has to get
//! right, apart from windows and files:
//!
//! - [`formats`] and [`i18n`]: the codecs between the values a user edits
//!   (masses, distances, durations, times of day, step counts) and their
//!   text, in the units and the words of the user;
//! - [`range`]: ranges of calendar dates, and records grouped by the date
//!   on which they fall in a time zone;
//! - [`context`]: the controller, which is unconfigured or has an open
//!   series, and says for each command what changes and what observers are
//!   told;
//! - [`components`]: the state behind the widgets: what an edit means,
//!   what a day shows;
//! - [`trax`], [`dates`], [`si`]: the records, calendar dates and instants,
//!   and quantities as exact counts of small units.
pub mod components;
pub mod config;
pub mod context;
pub mod dates;
pub mod errors;
pub mod formats;
pub mod i18n;
pub mod range;
pub mod settings;
pub mod si;
pub mod strings;
pub mod trax;
