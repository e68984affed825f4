//! The requests that the samples send to a Fabric gateway, as plain data:
//! chaincode calls (channel, chaincode, function and arguments) and
//! chaincode event queries.
use vstd::prelude::*;
use crate::report::CallFailure;
use crate::report::CallFailureView;

verus! {

/// How a chaincode call is sent: submitted to the ledger and waited for
/// until it is committed, submitted without waiting for the commit, or
/// evaluated, which reads the ledger and never writes it.
#[derive(Clone, Copy, PartialEq, Eq, Structural, Debug)]
pub enum CallKind {
    Submit,
    SubmitAsync,
    Evaluate,
}

/// A chaincode function invocation on a channel, and how it is sent.
#[derive(Debug)]
pub struct ChaincodeCall {
    pub kind: CallKind,
    pub channel_name: String,
    pub chaincode_name: String,
    pub function_name: String,
    pub args: Vec<String>,
}

/// A chaincode call as a value of the specification.
pub struct ChaincodeCallView {
    pub kind: CallKind,
    pub channel_name: Seq<char>,
    pub chaincode_name: Seq<char>,
    pub function_name: Seq<char>,
    pub args: Seq<Seq<char>>,
}

/// The texts of a vector of strings.
pub open spec fn texts(strings: Seq<String>) -> Seq<Seq<char>> {
    strings.map_values(|s: String| s@)
}

impl View for ChaincodeCall {
    type V = ChaincodeCallView;

    open spec fn view(&self) -> ChaincodeCallView {
        ChaincodeCallView {
            kind: self.kind,
            channel_name: self.channel_name@,
            chaincode_name: self.chaincode_name@,
            function_name: self.function_name@,
            args: texts(self.args@),
        }
    }
}

/// The call of `function` with `args` on chaincode `chaincode` of channel
/// `channel`, sent as `kind` says.
pub open spec fn call_view(
    kind: CallKind,
    channel: Seq<char>,
    chaincode: Seq<char>,
    function: Seq<char>,
    args: Seq<Seq<char>>,
) -> ChaincodeCallView {
    ChaincodeCallView { kind, channel_name: channel, chaincode_name: chaincode, function_name: function, args }
}

/// Builds the call of `function` with `args` on chaincode `chaincode` of
/// channel `channel`, sent as `kind` says.
pub fn chaincode_call(
    kind: CallKind,
    channel: &str,
    chaincode: &str,
    function: &str,
    args: Vec<String>,
) -> (call: ChaincodeCall)
    ensures
        call@ == call_view(kind, channel@, chaincode@, function@, texts(args@)),
{
    ChaincodeCall {
        kind,
        channel_name: String::from_str(channel),
        chaincode_name: String::from_str(chaincode),
        function_name: String::from_str(function),
        args,
    }
}

/// A request for the events that a chaincode emits on a channel, from the
/// given block on where one is given, else from the next block.
#[derive(Debug)]
pub struct EventsQuery {
    pub channel_name: String,
    pub chaincode_name: String,
    pub start_block: Option<u64>,
}

/// An event query as a value of the specification.
pub struct EventsQueryView {
    pub channel_name: Seq<char>,
    pub chaincode_name: Seq<char>,
    pub start_block: Option<u64>,
}

impl View for EventsQuery {
    type V = EventsQueryView;

    open spec fn view(&self) -> EventsQueryView {
        EventsQueryView {
            channel_name: self.channel_name@,
            chaincode_name: self.chaincode_name@,
            start_block: self.start_block,
        }
    }
}

/// A request for the commit status of a transaction on a channel.
#[derive(Debug)]
pub struct CommitStatusQuery {
    pub transaction_id: String,
    pub channel_name: String,
}

/// A commit status request as a value of the specification.
pub struct CommitStatusQueryView {
    pub transaction_id: Seq<char>,
    pub channel_name: Seq<char>,
}

impl View for CommitStatusQuery {
    type V = CommitStatusQueryView;

    open spec fn view(&self) -> CommitStatusQueryView {
        CommitStatusQueryView { transaction_id: self.transaction_id@, channel_name: self.channel_name@ }
    }
}

/// The commit status request for the transaction `transaction_id`, the id
/// that the asynchronous submission answered with, on the channel `channel`
/// to which it was submitted.
pub fn commit_status_query(transaction_id: String, channel: &str) -> (query: CommitStatusQuery)
    ensures
        query@ == (CommitStatusQueryView { transaction_id: transaction_id@, channel_name: channel@ }),
{
    CommitStatusQuery { transaction_id, channel_name: String::from_str(channel) }
}

/// The result of a commit status request: the transaction validation code
/// and the number of the block that holds the transaction.
#[derive(Clone, Copy, Debug)]
pub struct CommitStatus {
    pub result: i32,
    pub block_number: u64,
}

/// An outcome carrying bytes, as a value of the specification.
pub open spec fn bytes_outcome(outcome: Result<Vec<u8>, CallFailure>) -> Result<Seq<u8>, CallFailureView> {
    match outcome {
        Ok(bytes) => Ok(bytes@),
        Err(f) => Err(f@),
    }
}

/// The setting read from the environment where there is one, else the
/// default.
pub open spec fn setting_or(env: Option<Seq<char>>, default: Seq<char>) -> Seq<char> {
    match env {
        Some(v) => v,
        None => default,
    }
}

/// The text of an optional string.
pub open spec fn opt_text(s: Option<String>) -> Option<Seq<char>> {
    match s {
        Some(v) => Some(v@),
        None => None,
    }
}

/// The value of an environment setting where it is set, else `default`.
pub fn setting(env: Option<String>, default: &str) -> (value: String)
    ensures
        value@ == setting_or(opt_text(env), default@),
{
    match env {
        Some(v) => v,
        None => String::from_str(default),
    }
}

} // verus!
