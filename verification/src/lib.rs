//! Client-side logic for the pCloud REST API.
//!
//! Nothing in this crate performs I/O. Every builder ends in a
//! [`request::Request`] that describes the call to make, every interpreter
//! takes the decoded answer as a plain value, and everything that runs for
//! longer than one call is a state machine that is told what happened and
//! answers with what to do next.
//!
//! * [`events`]: the change feed, one call at a time or as a stream that
//!   resumes by cursor, retries timeouts and respects a slow consumer;
//!   [`stream_laws`] states what holds of every run of such a stream.
//! * [`filter`]: a stage that republishes the elements a predicate accepts.
//! * [`folder_ops`], [`file_ops`], [`remote_zip`], [`low_level_file`]: the
//!   calls on folders, files, archives and open files.
//! * [`pcloud_client`]: host, session token and the calls around a session.
//! * [`pcloud_model`]: the answers of the service; [`request`]: a call as data.
pub mod pcloud_model;
pub mod request;
pub mod pcloud_client;
pub mod events;
pub mod stream_laws;
pub mod filter;
pub mod folder_ops;
pub mod file_ops;
pub mod low_level_file;
pub mod remote_zip;
