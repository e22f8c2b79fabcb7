//! The byte sink that a logging frontend writes to.

use std::sync::Arc;
use vstd::prelude::*;
use crate::cloudwatch::{remote_message, CloudWatchClient, Submission};
use crate::text::{decode_line, trimmed, utf8_lossy};

verus! {

/// What one `write` did: the number of bytes taken, and the batch to
/// dispatch.
#[derive(Clone, Debug)]
pub struct WriteReport {
    pub written: usize,
    pub submission: Submission,
}

/// A view onto one shared client. Every clone writes to the same remote stream.
#[derive(Clone, Debug)]
pub struct CloudWatchWriter {
    cloudwatch_client: Arc<CloudWatchClient>,
}

/// Calls `Arc::clone`: another handle to the same shared client.
#[verifier::external_body]
fn share(client: &Arc<CloudWatchClient>) -> (handle: Arc<CloudWatchClient>)
    ensures
        handle == *client,
{
    Arc::clone(client)
}

/// The line that a write of `bytes` stands for: the bytes decoded as text,
/// without surrounding whitespace.
pub open spec fn written_line(bytes: Seq<u8>) -> Seq<char> {
    trimmed(utf8_lossy(bytes))
}

/// `report` is what a write of `bytes` through a view of `client` gives: all
/// bytes are counted as written, and the batch holds that one line as its one
/// event, bound for the client's stream.
pub open spec fn is_report_of(report: WriteReport, client: CloudWatchClient, bytes: Seq<u8>) -> bool {
    &&& report.written == bytes.len()
    &&& client.targets(report.submission.request)
    &&& report.submission.echo.len() == 1
    &&& report.submission.echo[0]@ == written_line(bytes)
    &&& report.submission.request.log_events.len() == 1
    &&& report.submission.request.log_events[0].message@ == remote_message(
        client.pattern(),
        written_line(bytes),
    )
}

impl CloudWatchWriter {
    /// The client that this writer submits to.
    pub closed spec fn client(&self) -> CloudWatchClient {
        *self.cloudwatch_client
    }

    pub fn new(cloudwatch_client: Arc<CloudWatchClient>) -> (writer: Self)
        ensures
            writer.client() == *cloudwatch_client,
    {
        CloudWatchWriter { cloudwatch_client }
    }

    /// The shared client.
    pub fn cloudwatch_client(&self) -> (client: &CloudWatchClient)
        ensures
            *client == self.client(),
    {
        &self.cloudwatch_client
    }

    /// Takes all of `buf` as one line and prepares a batch of one event for
    /// it. The full length is reported as written, whatever becomes of the
    /// batch.
    pub fn write(&mut self, buf: &[u8]) -> (report: WriteReport)
        ensures
            report.written == buf.len(),
            is_report_of(report, old(self).client(), buf@),
            final(self).client() == old(self).client(),
    {
        let line = decode_line(buf);
        let mut lines: Vec<String> = Vec::new();
        lines.push(line);
        WriteReport { written: buf.len(), submission: self.cloudwatch_client.submit(lines) }
    }

    /// Does nothing: no line is held back by a write.
    pub fn flush(&mut self)
        ensures
            *final(self) == *old(self),
    {
    }

    /// A fresh writer onto the same client.
    pub fn make_writer(&self) -> (writer: Self)
        ensures
            writer.client() == self.client(),
    {
        Self::new(share(&self.cloudwatch_client))
    }
}

/// Writes through views of one client stay apart: each is counted in full,
/// and each gives a batch of its own that holds the one line of its own write
/// and nothing of the other, bound for the same stream.
pub proof fn lemma_writes_stay_apart(
    client: CloudWatchClient,
    first: Seq<u8>,
    second: Seq<u8>,
    a: WriteReport,
    b: WriteReport,
)
    requires
        is_report_of(a, client, first),
        is_report_of(b, client, second),
    ensures
        a.written == first.len(),
        b.written == second.len(),
        a.submission.request.log_events.len() == 1,
        b.submission.request.log_events.len() == 1,
        a.submission.request.log_events[0].message@ == remote_message(
            client.pattern(),
            written_line(first),
        ),
        b.submission.request.log_events[0].message@ == remote_message(
            client.pattern(),
            written_line(second),
        ),
        a.submission.request.log_group_name@ == b.submission.request.log_group_name@,
        a.submission.request.log_stream_name@ == b.submission.request.log_stream_name@,
{
}

} // verus!
