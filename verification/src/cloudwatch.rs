//! The client of one remote log stream: what it asks of the remote service,
//! and what it makes of the answers.

use vstd::prelude::*;
use vstd::string::*;
use crate::ansi::{
    lemma_removal_keeps_unmatched, regex_compiles, regex_matches, regex_new, regex_replace_all,
    regex_source, stripped, ANSI_PATTERN,
};
use crate::text::{drop_leading_token, without_leading_token};

verus! {

/// Why a client could not be made.
#[derive(Clone, Copy, Debug, PartialEq, Eq, Structural)]
pub enum ClientError {
    /// The expression for control sequences did not compile.
    InvalidPattern,
}

/// How the remote service answered a request to create a group or a stream.
#[derive(Clone, Copy, Debug, PartialEq, Eq, Structural)]
pub enum RemoteOutcome {
    Created,
    AlreadyExists,
    Failed,
}

/// One message bound for the remote stream, with the time it was batched at,
/// in milliseconds since the epoch.
#[derive(Clone, Debug)]
pub struct LogEvent {
    pub message: String,
    pub timestamp: i64,
}

/// A request to create the log group.
#[derive(Clone, Debug)]
pub struct CreateLogGroupRequest {
    pub log_group_name: String,
}

/// A request to create the log stream within its group.
#[derive(Clone, Debug)]
pub struct CreateLogStreamRequest {
    pub log_group_name: String,
    pub log_stream_name: String,
}

/// A request to append one batch of events to the stream.
#[derive(Clone, Debug)]
pub struct PutLogEventsRequest {
    pub log_group_name: String,
    pub log_stream_name: String,
    pub log_events: Vec<LogEvent>,
}

/// How far the provisioning of a stream has come.
#[derive(Clone, Copy, Debug, PartialEq, Eq, Structural)]
pub enum Provisioning {
    NotStarted,
    GroupRequested,
    StreamRequested,
    Ready,
}

/// The remote call that provisioning asks for next.
#[derive(Clone, Debug)]
pub enum ProvisioningCall {
    CreateLogGroup(CreateLogGroupRequest),
    CreateLogStream(CreateLogStreamRequest),
    Nothing,
}

impl Provisioning {
    /// The stage that follows, whatever the remote service answered: the
    /// group is asked for first, then the stream, then the stream is ready.
    pub open spec fn successor(self) -> Provisioning {
        match self {
            Provisioning::NotStarted => Provisioning::GroupRequested,
            Provisioning::GroupRequested => Provisioning::StreamRequested,
            Provisioning::StreamRequested => Provisioning::Ready,
            Provisioning::Ready => Provisioning::Ready,
        }
    }
}

/// What one submission asks of the caller: the raw lines to echo locally, and
/// the request to dispatch without waiting for its answer.
#[derive(Clone, Debug)]
pub struct Submission {
    pub echo: Vec<String>,
    pub request: PutLogEventsRequest,
}

/// The message sent for a raw line by a client that strips the matches of
/// `pattern`: the line without its leading token and without those matches.
pub open spec fn remote_message(pattern: Seq<char>, line: Seq<char>) -> Seq<char> {
    stripped(pattern, without_leading_token(line))
}

/// What `init` reports: the group's report if that is an error, else the stream's.
pub open spec fn init_report<C: CloudWatchClientTrait>(
    client: &C,
    group: RemoteOutcome,
    stream: RemoteOutcome,
) -> Result<(), ClientError> {
    match client.log_group_report(group) {
        Err(e) => Err(e),
        Ok(_) => client.log_stream_report(stream),
    }
}

/// The operations of a client of one remote log stream. The remote calls
/// themselves are made by the caller, who hands their outcomes in.
pub trait CloudWatchClientTrait: Sized {
    /// What `create_log_group` reports for a remote answer.
    spec fn log_group_report(&self, outcome: RemoteOutcome) -> Result<(), ClientError>;

    /// What `create_log_stream` reports for a remote answer.
    spec fn log_stream_report(&self, outcome: RemoteOutcome) -> Result<(), ClientError>;

    /// Reports on the creation of the log group, given the remote answer.
    fn create_log_group(&self, outcome: RemoteOutcome) -> (r: Result<(), ClientError>)
        ensures
            r == self.log_group_report(outcome),
    ;

    /// Reports on the creation of the log stream, given the remote answer.
    fn create_log_stream(&self, outcome: RemoteOutcome) -> (r: Result<(), ClientError>)
        ensures
            r == self.log_stream_report(outcome),
    ;

    /// Prepares one batch from raw lines, in their order.
    fn put_log_events(&self, log_events: Vec<String>) -> (r: Result<Submission, ClientError>);

    /// Reports on provisioning, the group first, then the stream: the
    /// `init_report` of the two answers.
    fn init(&self, group: RemoteOutcome, stream: RemoteOutcome) -> (r: Result<(), ClientError>)
        ensures
            r == (match self.log_group_report(group) {
                Err(e) => Err(e),
                Ok(_) => self.log_stream_report(stream),
            }),
    {
        match self.create_log_group(group) {
            Err(e) => Err(e),
            Ok(_) => self.create_log_stream(stream),
        }
    }
}

/// The identity of one remote log stream, a group name and a stream name set
/// once, and the compiled expression whose matches are stripped from every
/// message.
#[derive(Debug)]
pub struct CloudWatchClient {
    log_group_name: String,
    log_stream_name: String,
    expression: regex::Regex,
}

/// Calls `chrono::Utc::now` and `DateTime::timestamp_millis`: the wall clock in
/// milliseconds since the epoch, on a machine whose clock is not set before
/// it. Nothing is promised of the value.
#[verifier::external_body]
fn now_millis() -> i64 {
    chrono::Utc::now().timestamp_millis()
}

impl CloudWatchClient {
    /// The group name.
    pub closed spec fn group(&self) -> Seq<char> {
        self.log_group_name@
    }

    /// The stream name.
    pub closed spec fn stream(&self) -> Seq<char> {
        self.log_stream_name@
    }

    /// The pattern whose matches this client strips from its messages.
    pub closed spec fn pattern(&self) -> Seq<char> {
        regex_source(self.expression)
    }

    /// `request` appends to this client's stream.
    pub open spec fn targets(&self, request: PutLogEventsRequest) -> bool {
        &&& request.log_group_name@ == self.group()
        &&& request.log_stream_name@ == self.stream()
    }

    /// A client for the stream `log_stream_name` of the group
    /// `log_group_name` that strips terminal control sequences. It fails only
    /// where the expression for them does not compile.
    pub fn new(log_group_name: String, log_stream_name: String) -> (r: Result<Self, ClientError>)
        ensures
            r is Ok <==> regex_compiles(ANSI_PATTERN@),
            r matches Ok(client) ==> {
                &&& client.group() == log_group_name@
                &&& client.stream() == log_stream_name@
                &&& client.pattern() == ANSI_PATTERN@
            },
            r matches Err(e) ==> e == ClientError::InvalidPattern,
    {
        Self::with_expression(log_group_name, log_stream_name, regex_new(ANSI_PATTERN))
    }

    /// A client that strips the matches of a compiled expression, or the
    /// error where there is none.
    pub fn with_expression(
        log_group_name: String,
        log_stream_name: String,
        compiled: Result<regex::Regex, regex::Error>,
    ) -> (r: Result<Self, ClientError>)
        ensures
            compiled is Err ==> (r matches Err(e) && e == ClientError::InvalidPattern),
            compiled matches Ok(re) ==> (r matches Ok(client) && {
                &&& client.group() == log_group_name@
                &&& client.stream() == log_stream_name@
                &&& client.pattern() == regex_source(re)
            }),
    {
        match compiled {
            Ok(expression) => Ok(CloudWatchClient { log_group_name, log_stream_name, expression }),
            Err(_) => Err(ClientError::InvalidPattern),
        }
    }

    pub fn log_group_name(&self) -> (name: &str)
        ensures
            name@ == self.group(),
    {
        self.log_group_name.as_str()
    }

    pub fn log_stream_name(&self) -> (name: &str)
        ensures
            name@ == self.stream(),
    {
        self.log_stream_name.as_str()
    }

    /// The request that creates this client's group.
    pub fn log_group_request(&self) -> (request: CreateLogGroupRequest)
        ensures
            request.log_group_name@ == self.group(),
    {
        CreateLogGroupRequest { log_group_name: self.log_group_name.clone() }
    }

    /// The request that creates this client's stream within its group.
    pub fn log_stream_request(&self) -> (request: CreateLogStreamRequest)
        ensures
            request.log_group_name@ == self.group(),
            request.log_stream_name@ == self.stream(),
    {
        CreateLogStreamRequest {
            log_group_name: self.log_group_name.clone(),
            log_stream_name: self.log_stream_name.clone(),
        }
    }

    /// One step of provisioning: the stage reached from `stage` once the call
    /// asked for at `stage` was answered with `answer` (there is none before
    /// the first call), and the call to make now. No answer holds
    /// provisioning up or changes what is asked next.
    pub fn provision(&self, stage: Provisioning, answer: Option<RemoteOutcome>) -> (step: (
        Provisioning,
        ProvisioningCall,
    ))
        ensures
            step.0 == stage.successor(),
            stage == Provisioning::NotStarted ==> (step.1 matches ProvisioningCall::CreateLogGroup(
                request,
            ) && request.log_group_name@ == self.group()),
            stage == Provisioning::GroupRequested ==> (step.1 matches ProvisioningCall::CreateLogStream(
                request,
            ) && request.log_group_name@ == self.group() && request.log_stream_name@
                == self.stream()),
            stage == Provisioning::StreamRequested || stage == Provisioning::Ready ==> step.1
                is Nothing,
    {
        match stage {
            Provisioning::NotStarted => (
                Provisioning::GroupRequested,
                ProvisioningCall::CreateLogGroup(self.log_group_request()),
            ),
            Provisioning::GroupRequested => (
                Provisioning::StreamRequested,
                ProvisioningCall::CreateLogStream(self.log_stream_request()),
            ),
            Provisioning::StreamRequested => (Provisioning::Ready, ProvisioningCall::Nothing),
            Provisioning::Ready => (Provisioning::Ready, ProvisioningCall::Nothing),
        }
    }

    /// `sub` is the submission for `lines`: the lines handed back for the
    /// local echo, and a request bound for this client's stream that holds one
    /// event per line, in the lines' order, each with the line's message.
    pub open spec fn submits(&self, lines: Vec<String>, sub: Submission) -> bool {
        &&& sub.echo == lines
        &&& self.targets(sub.request)
        &&& sub.request.log_events.len() == lines.len()
        &&& forall|i: int|
            0 <= i < lines.len() ==> (#[trigger] sub.request.log_events[i]).message@
                == remote_message(self.pattern(), lines[i]@)
    }

    /// Removes terminal control sequences from `input`, or whatever else this
    /// client's expression matches: what is left is the text outside the
    /// matches.
    pub fn remove_ansi_codes(&self, input: &str) -> (s: String)
        ensures
            s@ == stripped(self.pattern(), input@),
    {
        proof {
            reveal_strlit("");
        }
        let s = regex_replace_all(&self.expression, input, "");
        proof {
            assert(""@ =~= Seq::<char>::empty());
            lemma_removal_keeps_unmatched(input@, regex_matches(self.pattern(), input@), 0);
        }
        s
    }

    /// Makes the event for one raw line, batched at `timestamp`.
    pub fn make_event(&self, line: &str, timestamp: i64) -> (event: LogEvent)
        ensures
            event.message@ == remote_message(self.pattern(), line@),
            event.timestamp == timestamp,
    {
        let rest = drop_leading_token(line);
        LogEvent { message: self.remove_ansi_codes(rest.as_str()), timestamp }
    }
}

impl CloudWatchClient {
    /// Prepares one batch from raw lines: one event per line, in the lines'
    /// order, each stamped with the clock at the moment it is batched. The
    /// lines themselves are handed back for the local echo.
    pub fn submit(&self, log_events: Vec<String>) -> (sub: Submission)
        ensures
            self.submits(log_events, sub),
    {
        let mut batch: Vec<LogEvent> = Vec::new();
        let n: usize = log_events.len();
        let mut k: usize = 0;
        while k < n
            invariant
                n == log_events.len(),
                k <= n,
                batch.len() == k,
                forall|i: int|
                    0 <= i < k ==> (#[trigger] batch[i]).message@ == remote_message(
                        self.pattern(),
                        log_events[i]@,
                    ),
            decreases n - k,
        {
            let timestamp: i64 = now_millis();
            batch.push(self.make_event(log_events[k].as_str(), timestamp));
            k = k + 1;
        }
        Submission {
            echo: log_events,
            request: PutLogEventsRequest {
                log_group_name: self.log_group_name.clone(),
                log_stream_name: self.log_stream_name.clone(),
                log_events: batch,
            },
        }
    }
}

impl CloudWatchClientTrait for CloudWatchClient {
    /// Every answer is absorbed: creation failures are not observable.
    open spec fn log_group_report(&self, outcome: RemoteOutcome) -> Result<(), ClientError> {
        Ok(())
    }

    /// Every answer is absorbed: creation failures are not observable.
    open spec fn log_stream_report(&self, outcome: RemoteOutcome) -> Result<(), ClientError> {
        Ok(())
    }

    fn create_log_group(&self, outcome: RemoteOutcome) -> (r: Result<(), ClientError>) {
        match outcome {
            RemoteOutcome::Created => Ok(()),
            RemoteOutcome::AlreadyExists => Ok(()),
            RemoteOutcome::Failed => Ok(()),
        }
    }

    fn create_log_stream(&self, outcome: RemoteOutcome) -> (r: Result<(), ClientError>) {
        match outcome {
            RemoteOutcome::Created => Ok(()),
            RemoteOutcome::AlreadyExists => Ok(()),
            RemoteOutcome::Failed => Ok(()),
        }
    }

    /// Accepts every batch: the submission for the lines.
    fn put_log_events(&self, log_events: Vec<String>) -> (r: Result<Submission, ClientError>)
        ensures
            r matches Ok(sub) && self.submits(log_events, sub),
    {
        Ok(self.submit(log_events))
    }
}

/// Provisioning is ready after three steps at most, whatever was answered on
/// the way, and stays ready from then on.
pub proof fn lemma_provisioning_reaches_ready(stage: Provisioning)
    ensures
        stage.successor().successor().successor() == Provisioning::Ready,
        Provisioning::Ready.successor() == Provisioning::Ready,
{
}

/// Provisioning never fails observably: whatever the remote service answered
/// for the group and for the stream, `init` reports success, and so it does
/// when it is run again, whatever is answered then (that both exist already,
/// for one).
pub proof fn lemma_init_always_succeeds(
    client: &CloudWatchClient,
    first: (RemoteOutcome, RemoteOutcome),
    second: (RemoteOutcome, RemoteOutcome),
)
    ensures
        init_report(client, first.0, first.1) == Ok::<(), ClientError>(()),
        init_report(client, second.0, second.1) == Ok::<(), ClientError>(()),
{
}

} // verus!
