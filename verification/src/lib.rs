//! A log sink that prepares log lines for an append-only remote log stream.
//!
//! The library decides what is sent: how raw bytes become a line, how a line
//! becomes an event, and how remote answers are absorbed. Performing the remote
//! calls is left to the caller.

use std::sync::Arc;
use vstd::prelude::*;
use crate::cloudwatch::{CloudWatchClient, CloudWatchClientTrait, RemoteOutcome};
use crate::logger::CloudWatchWriter;

pub mod ansi;
pub mod cloudwatch;
pub mod logger;
pub mod text;

verus! {

/// A session on one remote log stream, provisioned before any writer is handed
/// out.
pub struct Watchman {
    writer: CloudWatchWriter,
}

impl Watchman {
    /// The client that every writer of this session submits to.
    pub closed spec fn client(&self) -> CloudWatchClient {
        self.writer.client()
    }

    /// Opens a session for `client`, given the remote answers to the creation
    /// of its group and of its stream. Whatever they were, the session is
    /// ready.
    pub fn new(client: CloudWatchClient, group: RemoteOutcome, stream: RemoteOutcome) -> (session:
        Self)
        ensures
            session.client() == client,
    {
        match client.init(group, stream) {
            Ok(_) => {},
            Err(_) => {},
        }
        let cloudwatch_client = Arc::new(client);
        Watchman { writer: CloudWatchWriter::new(cloudwatch_client) }
    }

    /// A writer onto this session's client.
    pub fn get_writer(&self) -> (writer: CloudWatchWriter)
        ensures
            writer.client() == self.client(),
    {
        self.writer.make_writer()
    }
}

} // verus!
