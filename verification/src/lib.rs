//! A terminal client for a music player daemon, as a library: the decoding
//! of the daemon's line protocol, the session with its cursor and search,
//! and the template engine that lays a screen out and fills it in.
//!
//! The library computes and decides; it neither reads nor draws. A program
//! around it reads the daemon's lines and hands them to [`mpd`], hands the
//! user's input to [`app`], and draws the [`layout::Scene`] that
//! [`layout::render`] gives it.
//!
//! Three things come from outside and are taken on trust, each behind one
//! small function that says what is relied on: the text operations of the
//! standard library in [`strings`], the table of lower-case letters without
//! diacritics in [`strings`], and the constraint solver that divides an area
//! in [`geometry`].

pub mod app;
pub mod config;
pub mod defaults;
pub mod geometry;
pub mod layout;
pub mod mpd;
pub mod strings;
pub mod style;
