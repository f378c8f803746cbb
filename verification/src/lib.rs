//! Request handling of a collaborative workspace service.
//!
//! The service stands between its clients and the services that store, guard and synchronize their
//! work. This library holds what it decides, and nothing that waits or communicates:
//!
//! - [`routes`] holds the tables by which requests are matched to handlers.
//! - A handler ([`workspaces`], [`members`], [`collabs`], [`pages`], [`databases`], [`publishing`],
//!   [`comments`], [`quick_notes`]) lays down the course of its requests as a [`plan::Plan`]: what
//!   has to hold, the operation and the reply. [`session::Session`] carries a plan out, one question
//!   to the other services at a time.
//! - Requests whose bodies take more than that pass through stages of their own:
//!   [`create_collab`], [`batch`], [`full_sync`], [`realtime`] and [`publish`].
//! - [`frames`], [`ids`], [`clock`], [`call`], [`compression`] and [`text`] are what these are built
//!   on.

pub mod batch;
pub mod call;
pub mod clock;
pub mod collabs;
pub mod comments;
pub mod compression;
pub mod create_collab;
pub mod databases;
pub mod error;
pub mod frames;
pub mod full_sync;
pub mod ids;
pub mod members;
pub mod operation;
pub mod pages;
pub mod plan;
pub mod publish;
pub mod publishing;
pub mod quick_notes;
pub mod realtime;
pub mod reply;
pub mod routes;
pub mod session;
pub mod text;
pub mod user;
pub mod workspaces;
