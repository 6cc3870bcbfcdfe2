//! Verified core of Kitty Media, a service that streams YouTube videos through ffmpeg and
//! yt-dlp and caches them.
//!
//! - [`youtube`]: which request paths name a video, and which video.
//! - [`format`], [`remote_components`], [`ytdlp`], [`media_url`]: what the service asks of
//!   the embedded yt-dlp and how it reads the answer.
//! - [`command`]: the same for yt-dlp run as a command.
//! - [`service`]: the decisions of the HTTP handlers.
//! - [`downloads`]: the download slots, claimed and given back.
//! - [`stream`]: streaming a video while caching it.
//! - [`config`]: settings read from the environment.
//! - [`text`]: the character-level text handling the rest is built on.

pub mod command;
pub mod config;
pub mod downloads;
pub mod format;
pub mod media_url;
pub mod remote_components;
pub mod service;
pub mod stream;
pub mod text;
pub mod youtube;
pub mod ytdlp;
