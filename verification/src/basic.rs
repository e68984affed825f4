//! The asset-transfer-basic sample: the calls it makes to the `basic`
//! chaincode and what it prints and does for each outcome.
use vstd::prelude::*;
use crate::json::{pretty_json_text, reformat_json_text};
use crate::ledger::{
    CallKind,
    ChaincodeCall, CommitStatus, bytes_outcome, call_view, chaincode_call,
    opt_text, setting, setting_or, texts,
};
use crate::report::{
    Stream,
    CallFailure, CallFailureView, Line, LineView, Report, ReportView, Verdict, VerdictView, err,
    err_line, joined, lines_view, one_line, out, out_line, two_lines,
};
use crate::text::{decimal, decode_utf8_lossy, push_decimal, push_signed_decimal, signed_decimal, utf8_lossy};

verus! {

/// What each step of the basic sample does next, for every outcome:
/// - a failed evaluation or submission stops the sample with its error,
///   reported on standard error; a successful one lets it go on;
/// - the asynchronous transfer goes on to ask for the commit status once it
///   is submitted, and the commit-status step always ends with the
///   confirmation and goes on;
/// - the update of the missing asset panics only when it succeeds, and goes
///   on when it fails;
/// - `init_ledger` prints the result and the confirmation, or the error, and
///   goes on either way.
pub proof fn lemma_basic_step_verdicts(bytes: Seq<u8>, failure: CallFailureView, missing: Seq<char>, code: int, block: nat)
    ensures
        init_ledger_lines(Ok(bytes)).len() == 2,
        init_ledger_lines(Ok(bytes))[1] == out("*** Transaction committed successfully"@),
        init_ledger_lines(Err(failure)) == seq![out(failure.display)],
        evaluation_view(Ok(bytes), missing).verdict == VerdictView::Proceed,
        evaluation_view(Ok(bytes), missing).lines.len() == 1,
        evaluation_view(Ok(bytes), missing).lines[0].stream == Stream::Stdout,
        evaluation_view(Err(failure), missing).verdict == VerdictView::Stop,
        evaluation_view(Err(failure), missing).lines == seq![err("Failed to evaluate transaction: "@ + failure.debug)],
        submission_view(Ok(bytes), "Failed to submit transaction: "@).verdict == VerdictView::Proceed,
        submission_view(Ok(bytes), "Failed to submit transaction: "@).lines
            == seq![out("*** Transaction committed successfully"@)],
        submission_view(Err(failure), "Failed to submit transaction: "@).verdict == VerdictView::Stop,
        submission_view(Err(failure), "Failed to submit transaction: "@).lines
            == seq![err("Failed to submit transaction: "@ + failure.debug)],
        transfer_submitted_view(Ok(bytes)).verdict == VerdictView::Proceed,
        transfer_submitted_view(Ok(bytes)).lines.len() == 2,
        transfer_submitted_view(Ok(bytes)).lines[0].stream == Stream::Stdout,
        transfer_submitted_view(Ok(bytes)).lines[1]
            == out("*** Transaction submitted asynchronously. Checking commit status..."@),
        transfer_submitted_view(Err(failure)).verdict == VerdictView::Stop,
        transfer_submitted_view(Err(failure)).lines
            == seq![err("Failed to submit transaction asynchronously: "@ + failure.debug)],
        commit_status_lines(Ok((code, block))).len() == 2,
        commit_status_lines(Ok((code, block)))[1] == out("*** Transaction committed successfully"@),
        commit_status_lines(Err(failure)).len() == 2,
        commit_status_lines(Err(failure))[0] == err("Failed to get commit status: "@ + failure.debug),
        commit_status_lines(Err(failure))[1] == out("*** Transaction committed successfully"@),
        error_handling_view(Ok(bytes)).verdict == VerdictView::Abort("******** FAILED to return an error"@),
        error_handling_view(Ok(bytes)).lines.len() == 0,
        error_handling_view(Err(failure)).verdict == VerdictView::Proceed,
        error_handling_view(Err(failure)).lines.len() == 2,
        error_handling_view(Err(failure)).lines[0] == out("*** Successfully caught the error:"@),
{
}

/// The chaincode that the sample calls: `CHAINCODE_NAME` where it is set,
/// else `basic`.
pub fn chaincode_name(env: Option<String>) -> (name: String)
    ensures
        name@ == setting_or(opt_text(env), "basic"@),
{
    setting(env, "basic")
}

/// The channel that the sample uses: `CHANNEL_NAME` where it is set, else
/// `mychannel`.
pub fn channel_name(env: Option<String>) -> (name: String)
    ensures
        name@ == setting_or(opt_text(env), "mychannel"@),
{
    setting(env, "mychannel")
}

/// The pretty-printed form of a JSON text, or the message of the error that
/// `serde_json` reports for a text that is not a JSON document.
pub fn format_json(data: &str) -> (formatted: Result<String, String>)
    ensures
        formatted is Ok == pretty_json_text(data@) is Ok,
        formatted matches Ok(p) ==> pretty_json_text(data@)->Ok_0 == p@,
        formatted matches Err(m) ==> pretty_json_text(data@)->Err_0 == m@,
{
    reformat_json_text(data)
}

/// What `*** Result:` is followed by: the pretty form of the text where it
/// is JSON, else the text itself.
pub open spec fn shown_result(text: Seq<char>) -> Seq<char> {
    match pretty_json_text(text) {
        Ok(p) => p,
        Err(_) => text,
    }
}

/// The line `init_ledger` prints before it sends its call.
pub fn init_ledger_header() -> (line: Line)
    ensures
        line@ == out("\n--> Submit Transaction: InitLedger, function creates the initial set of assets on the ledger"@),
{
    out_line(String::from_str("\n--> Submit Transaction: InitLedger, function creates the initial set of assets on the ledger"))
}

/// The line `get_all_assets` prints before it sends its call.
pub fn get_all_assets_header() -> (line: Line)
    ensures
        line@ == out("\n--> Evaluate Transaction: GetAllAssets, function returns all the current assets on the ledger"@),
{
    out_line(String::from_str("\n--> Evaluate Transaction: GetAllAssets, function returns all the current assets on the ledger"))
}

/// The line `create_asset` prints before it sends its call.
pub fn create_asset_header() -> (line: Line)
    ensures
        line@ == out("\n--> Submit Transaction: CreateAsset, creates new asset with ID, Color, Size, Owner and AppraisedValue arguments"@),
{
    out_line(String::from_str("\n--> Submit Transaction: CreateAsset, creates new asset with ID, Color, Size, Owner and AppraisedValue arguments"))
}

/// The line `read_asset_by_id` prints before it sends its call.
pub fn read_asset_by_id_header() -> (line: Line)
    ensures
        line@ == out("\n--> Evaluate Transaction: ReadAsset, function returns asset attributes"@),
{
    out_line(String::from_str("\n--> Evaluate Transaction: ReadAsset, function returns asset attributes"))
}

/// The line `transfer_asset_async` prints before it sends its call.
pub fn transfer_asset_async_header() -> (line: Line)
    ensures
        line@ == out("\n--> Async Submit Transaction: TransferAsset, updates existing asset owner"@),
{
    out_line(String::from_str("\n--> Async Submit Transaction: TransferAsset, updates existing asset owner"))
}

/// The line `example_error_handling` prints before it sends its call.
pub fn example_error_handling_header() -> (line: Line)
    ensures
        line@ == out("\n--> Submit Transaction: UpdateAsset asset70, asset70 does not exist and should return an error"@),
{
    out_line(String::from_str("\n--> Submit Transaction: UpdateAsset asset70, asset70 does not exist and should return an error"))
}

/// `InitLedger`, submitted and waited for: creates the initial set of
/// assets.
pub fn init_ledger_call(channel: &str, chaincode: &str) -> (call: ChaincodeCall)
    ensures
        call@ == call_view(CallKind::Submit, channel@, chaincode@, "InitLedger"@, seq![]),
{
    let call = chaincode_call(CallKind::Submit, channel, chaincode, "InitLedger", Vec::new());
    proof { assert(texts(Seq::<String>::empty()) =~= seq![]); }
    call
}

/// What `init_ledger` prints for the outcome of its submission: the result
/// and a confirmation, or the error; it goes on either way.
pub open spec fn init_ledger_lines(outcome: Result<Seq<u8>, CallFailureView>) -> Seq<LineView> {
    match outcome {
        Ok(bytes) => seq![out(utf8_lossy(bytes)), out("*** Transaction committed successfully"@)],
        Err(f) => seq![out(f.display)],
    }
}

/// The lines `init_ledger` prints after submitting `InitLedger`.
pub fn init_ledger_report(outcome: &Result<Vec<u8>, CallFailure>) -> (lines: Vec<Line>)
    ensures
        lines_view(lines@) == init_ledger_lines(bytes_outcome(*outcome)),
{
    match outcome {
        Ok(bytes) => two_lines(
            out_line(decode_utf8_lossy(bytes.as_slice())),
            out_line(String::from_str("*** Transaction committed successfully")),
        ),
        Err(f) => one_line(out_line(f.display.clone())),
    }
}

/// `GetAllAssets`, evaluated, so the ledger is only read: returns all
/// current assets.
pub fn get_all_assets_call(channel: &str, chaincode: &str) -> (call: ChaincodeCall)
    ensures
        call@ == call_view(CallKind::Evaluate, channel@, chaincode@, "GetAllAssets"@, seq![]),
{
    let call = chaincode_call(CallKind::Evaluate, channel, chaincode, "GetAllAssets", Vec::new());
    proof { assert(texts(Seq::<String>::empty()) =~= seq![]); }
    call
}

/// What an evaluation step prints and does: for an empty answer the
/// `missing` notice, else the answer (pretty where it is JSON), and it goes
/// on; for a failure the error's `Debug` form on standard error, and it
/// stops with that error.
pub open spec fn evaluation_view(outcome: Result<Seq<u8>, CallFailureView>, missing: Seq<char>) -> ReportView {
    match outcome {
        Ok(bytes) => {
            let text = utf8_lossy(bytes);
            ReportView {
                lines: if text.len() == 0 {
                    seq![out(missing)]
                } else {
                    seq![out("*** Result:"@ + shown_result(text))]
                },
                verdict: VerdictView::Proceed,
            }
        },
        Err(f) => ReportView {
            lines: seq![err("Failed to evaluate transaction: "@ + f.debug)],
            verdict: VerdictView::Stop,
        },
    }
}

fn evaluation_report(outcome: &Result<Vec<u8>, CallFailure>, missing: &str) -> (report: Report)
    requires
        !("*** Result:"@.is_prefix_of(missing@)),
    ensures
        report@ == evaluation_view(bytes_outcome(*outcome), missing@),
        outcome matches Ok(b) ==> (b@.len() == 0 <==> report@.lines == seq![out(missing@)]),
{
    match outcome {
        Ok(bytes) => {
            let text = decode_utf8_lossy(bytes.as_slice());
            if text.as_str().is_empty() {
                Report { lines: one_line(out_line(String::from_str(missing))), verdict: Verdict::Proceed }
            } else {
                let shown = match format_json(text.as_str()) {
                    Ok(json) => json,
                    Err(_) => text,
                };
                let report = Report {
                    lines: one_line(out_line(joined("*** Result:", shown.as_str()))),
                    verdict: Verdict::Proceed,
                };
                proof {
                    let shown_text = report@.lines[0].text;
                    if report@.lines == seq![out(missing@)] {
                        assert(shown_text == missing@);
                        assert("*** Result:"@.is_prefix_of(missing@)) by {
                            assert(missing@.subrange(0, "*** Result:"@.len() as int) =~= "*** Result:"@);
                        }
                    }
                }
                report
            }
        },
        Err(f) => Report {
            lines: one_line(err_line(joined("Failed to evaluate transaction: ", f.debug.as_str()))),
            verdict: Verdict::Stop,
        },
    }
}

/// What `get_all_assets` prints and does for the outcome of evaluating
/// `GetAllAssets`.
pub fn get_all_assets_report(outcome: &Result<Vec<u8>, CallFailure>) -> (report: Report)
    ensures
        report@ == evaluation_view(bytes_outcome(*outcome), "*** No assets found"@),
        outcome matches Ok(b) ==> (b@.len() == 0 <==> report@.lines == seq![out("*** No assets found"@)]),
        outcome is Ok ==> report@.verdict == VerdictView::Proceed,
        outcome is Err ==> report@.verdict == VerdictView::Stop,
{
    proof {
        reveal_strlit("*** Result:");
        reveal_strlit("*** No assets found");
        assert("*** No assets found"@[4] != "*** Result:"@[4]);
    }
    evaluation_report(outcome, "*** No assets found")
}

/// `CreateAsset` of the asset `asset_id`, submitted and waited for: yellow,
/// size 5, owned by Tom, appraised at 1300.
pub fn create_asset_call(channel: &str, chaincode: &str, asset_id: &str) -> (call: ChaincodeCall)
    ensures
        call@ == call_view(CallKind::Submit, channel@, chaincode@, "CreateAsset"@,
            seq![asset_id@, "yellow"@, "5"@, "Tom"@, "1300"@]),
{
    let args = vec![
        String::from_str(asset_id),
        String::from_str("yellow"),
        String::from_str("5"),
        String::from_str("Tom"),
        String::from_str("1300"),
    ];
    let call = chaincode_call(CallKind::Submit, channel, chaincode, "CreateAsset", args);
    proof {
        assert(texts(args@) =~= seq![asset_id@, "yellow"@, "5"@, "Tom"@, "1300"@]);
    }
    call
}

/// What a submission step prints and does: a confirmation and it goes on,
/// or the error's `Debug` form after `failure_prefix` on standard error and
/// it stops with that error.
pub open spec fn submission_view(outcome: Result<Seq<u8>, CallFailureView>, failure_prefix: Seq<char>) -> ReportView {
    match outcome {
        Ok(_) => ReportView {
            lines: seq![out("*** Transaction committed successfully"@)],
            verdict: VerdictView::Proceed,
        },
        Err(f) => ReportView {
            lines: seq![err(failure_prefix + f.debug)],
            verdict: VerdictView::Stop,
        },
    }
}

/// What `create_asset` prints and does for the outcome of submitting
/// `CreateAsset`.
pub fn create_asset_report(outcome: &Result<Vec<u8>, CallFailure>) -> (report: Report)
    ensures
        report@ == submission_view(bytes_outcome(*outcome), "Failed to submit transaction: "@),
        outcome is Ok ==> report@.verdict == VerdictView::Proceed,
        outcome is Err ==> report@.verdict == VerdictView::Stop,
{
    match outcome {
        Ok(_) => Report {
            lines: one_line(out_line(String::from_str("*** Transaction committed successfully"))),
            verdict: Verdict::Proceed,
        },
        Err(f) => Report {
            lines: one_line(err_line(joined("Failed to submit transaction: ", f.debug.as_str()))),
            verdict: Verdict::Stop,
        },
    }
}

/// `ReadAsset` of the asset `asset_id`, evaluated, so the ledger is only
/// read.
pub fn read_asset_by_id_call(channel: &str, chaincode: &str, asset_id: &str) -> (call: ChaincodeCall)
    ensures
        call@ == call_view(CallKind::Evaluate, channel@, chaincode@, "ReadAsset"@, seq![asset_id@]),
{
    let args = vec![String::from_str(asset_id)];
    let call = chaincode_call(CallKind::Evaluate, channel, chaincode, "ReadAsset", args);
    proof { assert(texts(args@) =~= seq![asset_id@]); }
    call
}

/// What `read_asset_by_id` prints and does for the outcome of evaluating
/// `ReadAsset`.
pub fn read_asset_by_id_report(outcome: &Result<Vec<u8>, CallFailure>) -> (report: Report)
    ensures
        report@ == evaluation_view(bytes_outcome(*outcome), "*** Asset not found"@),
        outcome matches Ok(b) ==> (b@.len() == 0 <==> report@.lines == seq![out("*** Asset not found"@)]),
        outcome is Ok ==> report@.verdict == VerdictView::Proceed,
        outcome is Err ==> report@.verdict == VerdictView::Stop,
{
    proof {
        reveal_strlit("*** Result:");
        reveal_strlit("*** Asset not found");
        assert("*** Asset not found"@[4] != "*** Result:"@[4]);
    }
    evaluation_report(outcome, "*** Asset not found")
}

/// `TransferAsset` of `asset1`, a known asset, to Mark, submitted without
/// waiting for the commit.
pub fn transfer_asset_async_call(channel: &str, chaincode: &str) -> (call: ChaincodeCall)
    ensures
        call@ == call_view(CallKind::SubmitAsync, channel@, chaincode@, "TransferAsset"@, seq!["asset1"@, "Mark"@]),
{
    let args = vec![String::from_str("asset1"), String::from_str("Mark")];
    let call = chaincode_call(CallKind::SubmitAsync, channel, chaincode, "TransferAsset", args);
    proof { assert(texts(args@) =~= seq!["asset1"@, "Mark"@]); }
    call
}

/// What `transfer_asset_async` prints and does once the asynchronous
/// submission is answered: the previous owner that the chaincode returned and
/// a notice, and it goes on to ask for the commit status; or the error's
/// `Debug` form on standard error, and it stops with that error.
pub open spec fn transfer_submitted_view(outcome: Result<Seq<u8>, CallFailureView>) -> ReportView {
    match outcome {
        Ok(bytes) => ReportView {
            lines: seq![
                out("\n*** Successfully submitted transaction to transfer ownership from "@
                    + utf8_lossy(bytes) + " to Mark."@),
                out("*** Transaction submitted asynchronously. Checking commit status..."@),
            ],
            verdict: VerdictView::Proceed,
        },
        Err(f) => ReportView {
            lines: seq![err("Failed to submit transaction asynchronously: "@ + f.debug)],
            verdict: VerdictView::Stop,
        },
    }
}

/// What `transfer_asset_async` prints and does for the outcome of its
/// asynchronous submission; `outcome` holds the chaincode's result.
pub fn transfer_submitted_report(outcome: &Result<Vec<u8>, CallFailure>) -> (report: Report)
    ensures
        report@ == transfer_submitted_view(bytes_outcome(*outcome)),
        outcome is Ok ==> report@.verdict == VerdictView::Proceed,
        outcome is Err ==> report@.verdict == VerdictView::Stop,
{
    match outcome {
        Ok(bytes) => {
            let mut first = String::from_str("\n*** Successfully submitted transaction to transfer ownership from ");
            first.append(decode_utf8_lossy(bytes.as_slice()).as_str());
            first.append(" to Mark.");
            Report {
                lines: two_lines(
                    out_line(first),
                    out_line(String::from_str("*** Transaction submitted asynchronously. Checking commit status...")),
                ),
                verdict: Verdict::Proceed,
            }
        },
        Err(f) => Report {
            lines: one_line(err_line(joined("Failed to submit transaction asynchronously: ", f.debug.as_str()))),
            verdict: Verdict::Stop,
        },
    }
}

/// The commit status as a value of the specification.
pub open spec fn commit_outcome(outcome: Result<CommitStatus, CallFailure>) -> Result<(int, nat), CallFailureView> {
    match outcome {
        Ok(s) => Ok((s.result as int, s.block_number as nat)),
        Err(f) => Err(f@),
    }
}

/// What `transfer_asset_async` prints once the commit status is answered:
/// the validation code and block number, or the error's `Debug` form on
/// standard error; then the confirmation either way.
pub open spec fn commit_status_lines(outcome: Result<(int, nat), CallFailureView>) -> Seq<LineView> {
    match outcome {
        Ok((code, block)) => seq![
            out("Commit result: "@ + signed_decimal(code) + " block num: "@ + decimal(block)),
            out("*** Transaction committed successfully"@),
        ],
        Err(f) => seq![
            err("Failed to get commit status: "@ + f.debug),
            out("*** Transaction committed successfully"@),
        ],
    }
}

/// The lines `transfer_asset_async` prints for the outcome of asking for the
/// commit status; it goes on either way.
pub fn commit_status_report(outcome: &Result<CommitStatus, CallFailure>) -> (lines: Vec<Line>)
    ensures
        lines_view(lines@) == commit_status_lines(commit_outcome(*outcome)),
{
    let done = out_line(String::from_str("*** Transaction committed successfully"));
    match outcome {
        Ok(status) => {
            let mut first = String::from_str("Commit result: ");
            push_signed_decimal(&mut first, status.result as i64);
            first.append(" block num: ");
            push_decimal(&mut first, status.block_number as u128);
            two_lines(out_line(first), done)
        },
        Err(f) => two_lines(err_line(joined("Failed to get commit status: ", f.debug.as_str())), done),
    }
}

/// `UpdateAsset` of `asset70`, which does not exist, submitted and waited
/// for: blue, size 5, owned by Tomoko, appraised at 300.
pub fn example_error_handling_call(channel: &str, chaincode: &str) -> (call: ChaincodeCall)
    ensures
        call@ == call_view(CallKind::Submit, channel@, chaincode@, "UpdateAsset"@,
            seq!["asset70"@, "blue"@, "5"@, "Tomoko"@, "300"@]),
{
    let args = vec![
        String::from_str("asset70"),
        String::from_str("blue"),
        String::from_str("5"),
        String::from_str("Tomoko"),
        String::from_str("300"),
    ];
    let call = chaincode_call(CallKind::Submit, channel, chaincode, "UpdateAsset", args);
    proof { assert(texts(args@) =~= seq!["asset70"@, "blue"@, "5"@, "Tomoko"@, "300"@]); }
    call
}

/// What `example_error_handling` prints and does: a submission that
/// succeeds is a fault of the sample, which panics; a failure is reported,
/// with the node's message where the gateway gave one, and the sample goes
/// on.
pub open spec fn error_handling_view(outcome: Result<Seq<u8>, CallFailureView>) -> ReportView {
    match outcome {
        Ok(_) => ReportView {
            lines: seq![],
            verdict: VerdictView::Abort("******** FAILED to return an error"@),
        },
        Err(f) => ReportView {
            lines: seq![
                out("*** Successfully caught the error:"@),
                match f.node_message {
                    Some(m) => out("endorse error: "@ + m),
                    None => out("Unexpected error: "@ + f.debug),
                },
            ],
            verdict: VerdictView::Proceed,
        },
    }
}

/// What `example_error_handling` prints and does for the outcome of
/// submitting the update of a missing asset.
pub fn example_error_handling_report(outcome: &Result<Vec<u8>, CallFailure>) -> (report: Report)
    ensures
        report@ == error_handling_view(bytes_outcome(*outcome)),
        outcome is Ok ==> report@.verdict == VerdictView::Abort("******** FAILED to return an error"@),
        outcome is Err ==> report@.verdict == VerdictView::Proceed,
{
    match outcome {
        Ok(_) => {
            let lines: Vec<Line> = Vec::new();
            let report = Report { lines, verdict: Verdict::Abort(String::from_str("******** FAILED to return an error")) };
            proof { assert(report@.lines =~= seq![]); }

            report
        },
        Err(f) => {
            let second = match &f.node_message {
                Some(m) => out_line(joined("endorse error: ", m.as_str())),
                None => out_line(joined("Unexpected error: ", f.debug.as_str())),
            };
            let report = Report {
                lines: two_lines(out_line(String::from_str("*** Successfully caught the error:")), second),
                verdict: Verdict::Proceed,
            };
            proof {
                assert(report@.lines =~= error_handling_view(bytes_outcome(*outcome)).lines);
            }
            report
        },
    }
}

} // verus!
