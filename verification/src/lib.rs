//! The rules of an always-on radio feed and of the service around it.
//!
//! The feed plays one track after the other to any number of listeners, in
//! two forms at once: the track's own compressed bytes, paced to real time,
//! and a one-bit delta-coded form for clients that can play little else.
//!
//! - [`radio`] decides what plays next and what is on air; [`playlist`] is
//!   the queue that listeners fill.
//! - [`pacing`] times the passthrough stream.
//! - [`pcm`], [`dfpwm`] and [`transcode`] turn decoded audio into delta-coded
//!   chunks; [`wire`] writes the events that tell listeners what plays.
//! - [`auth`], [`sign_up`], [`restore`], [`otp`], [`token`] and [`smtp`] hold
//!   the rules of accounts; [`track`] those of choosing a track; [`config`],
//!   [`cache_keys`], [`models`], [`repository`], [`player`] and [`error`]
//!   what the service is set up with and what it answers.
//!
//! Nothing here reads a file, a socket or a clock but for the few calls that
//! say so; the caller does the work and reports what came of it.

pub mod arith;
pub mod auth;
pub mod cache_keys;
pub mod config;
pub mod dfpwm;
pub mod error;
pub mod models;
pub mod otp;
pub mod pacing;
pub mod pcm;
pub mod player;
pub mod playlist;
pub mod radio;
pub mod repository;
pub mod restore;
pub mod sign_up;
pub mod smtp;
pub mod text;
pub mod token;
pub mod track;
pub mod transcode;
pub mod wire;
