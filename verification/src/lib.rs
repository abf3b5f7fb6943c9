//! Decision core of a policy admission server.
//!
//! The server receives admission reviews over HTTP, hands each to one of a
//! set of sandboxed policies and answers with a verdict. Fetching, compiling
//! and running policies, serving HTTP and watching files is outside work; what
//! the server decides between two pieces of outside work lives here, as
//! functions on plain values with machine-checked contracts:
//!
//! - [`boot`]: the order in which the server boots, and which failures end it;
//! - [`config`] and [`download`]: which artifacts are fetched, how one download
//!   proceeds, and how policies are given their modules;
//! - [`precompile`]: which artifacts are compiled and what becomes of the rest;
//! - [`policy`], [`group`] and [`environment`]: when a sandbox is invoked and how
//!   its outcome becomes an admission response, for a single policy and for a
//!   group of policies;
//! - [`admission`] and [`api`]: the response itself, the routes, and the HTTP
//!   status of a reply;
//! - [`tls`] and [`tls_reload`]: which TLS material is acceptable, and when a
//!   certificate rotation is complete;
//! - [`server`]: the order in which the tasks of the server start and stop;
//! - [`tracing`]: what the log settings ask for.

pub mod admission;
pub mod api;
pub mod boot;
pub mod config;
pub mod download;
pub mod environment;
pub mod group;
pub mod policy;
pub mod precompile;
pub mod server;
pub mod tls;
pub mod tls_reload;
pub mod tracing;
