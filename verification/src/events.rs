//! The asset-transfer-events sample: the calls it makes to the `events`
//! chaincode, what it prints for their outcomes, and how it follows the
//! stream of chaincode events, live or replayed.
use vstd::prelude::*;
use crate::json::{pretty_json_bytes, reformat_json_bytes};
use crate::ledger::{
    CallKind,
    ChaincodeCall, EventsQuery, EventsQueryView, bytes_outcome, call_view, chaincode_call, opt_text,
    setting, setting_or, texts,
};
use crate::report::{
    CallFailure, CallFailureView, Line, LineView, Report, ReportView, Verdict, VerdictView, err,
    err_line, joined, lines_view, one_line, out, out_line, two_lines,
};
use crate::text::{decimal, decode_utf8_lossy, push_decimal, utf8_lossy};

verus! {

/// The chaincode that the sample calls: `CHAINCODE_NAME` where it is set,
/// else `events`.
pub fn chaincode_name(env: Option<String>) -> (name: String)
    ensures
        name@ == setting_or(opt_text(env), "events"@),
{
    setting(env, "events")
}

/// The channel that the sample uses: `CHANNEL_NAME` where it is set, else
/// `mychannel`.
pub fn channel_name(env: Option<String>) -> (name: String)
    ensures
        name@ == setting_or(opt_text(env), "mychannel"@),
{
    setting(env, "mychannel")
}

/// What an event payload is shown as: its pretty form where it is JSON,
/// else its text with invalid UTF-8 replaced.
pub open spec fn shown_payload(bytes: Seq<u8>) -> Seq<char> {
    match pretty_json_bytes(bytes) {
        Some(p) => p,
        None => utf8_lossy(bytes),
    }
}

/// The text in which an event payload is shown.
pub fn format_json(data: &[u8]) -> (shown: String)
    ensures
        shown@ == shown_payload(data@),
{
    match reformat_json_bytes(data) {
        Some(p) => p,
        None => decode_utf8_lossy(data),
    }
}

/// The line `create_asset` prints before it sends its call for `asset_id`.
pub fn create_asset_header(asset_id: &str) -> (line: Line)
    ensures
        line@ == out("\n--> Submit transaction: CreateAsset, "@ + asset_id@ + " owned by Sam with appraised value 100"@),
{
    let mut text = String::from_str("\n--> Submit transaction: CreateAsset, ");
    text.append(asset_id);
    text.append(" owned by Sam with appraised value 100");
    out_line(text)
}

/// The line `update_asset` prints before it sends its call for `asset_id`.
pub fn update_asset_header(asset_id: &str) -> (line: Line)
    ensures
        line@ == out("\n--> Submit transaction: UpdateAsset, "@ + asset_id@ + " update appraised value to 200"@),
{
    let mut text = String::from_str("\n--> Submit transaction: UpdateAsset, ");
    text.append(asset_id);
    text.append(" update appraised value to 200");
    out_line(text)
}

/// The line `transfer_asset` prints before it sends its call for `asset_id`.
pub fn transfer_asset_header(asset_id: &str) -> (line: Line)
    ensures
        line@ == out("\n--> Submit transaction: TransferAsset, "@ + asset_id@ + " to Mary"@),
{
    let mut text = String::from_str("\n--> Submit transaction: TransferAsset, ");
    text.append(asset_id);
    text.append(" to Mary");
    out_line(text)
}

/// The line `delete_asset` prints before it sends its call for `asset_id`.
pub fn delete_asset_header(asset_id: &str) -> (line: Line)
    ensures
        line@ == out("\n--> Submit transaction: DeleteAsset, "@ + asset_id@),
{
    out_line(joined("\n--> Submit transaction: DeleteAsset, ", asset_id))
}

/// The line `replay_chaincode_events` prints before it sends its query.
pub fn replay_chaincode_events_header() -> (line: Line)
    ensures
        line@ == out("\n*** Start chaincode event replay"@),
{
    out_line(String::from_str("\n*** Start chaincode event replay"))
}

/// The line printed when following the live events fails.
pub fn listener_failure_line(failure: &str) -> (line: Line)
    ensures
        line@ == err("Event listener failed: "@ + failure@),
{
    err_line(joined("Event listener failed: ", failure))
}

/// `CreateAsset` of the asset `asset_id`, submitted without waiting for the
/// commit: blue, size 10, owned by Sam, appraised at 100.
pub fn create_asset_call(channel: &str, chaincode: &str, asset_id: &str) -> (call: ChaincodeCall)
    ensures
        call@ == call_view(CallKind::SubmitAsync, channel@, chaincode@, "CreateAsset"@,
            seq![asset_id@, "blue"@, "10"@, "Sam"@, "100"@]),
{
    let args = vec![
        String::from_str(asset_id),
        String::from_str("blue"),
        String::from_str("10"),
        String::from_str("Sam"),
        String::from_str("100"),
    ];
    let call = chaincode_call(CallKind::SubmitAsync, channel, chaincode, "CreateAsset", args);
    proof { assert(texts(args@) =~= seq![asset_id@, "blue"@, "10"@, "Sam"@, "100"@]); }
    call
}

/// `UpdateAsset` of the asset `asset_id`, submitted and waited for: blue,
/// size 10, owned by Sam, appraised at 200.
pub fn update_asset_call(channel: &str, chaincode: &str, asset_id: &str) -> (call: ChaincodeCall)
    ensures
        call@ == call_view(CallKind::Submit, channel@, chaincode@, "UpdateAsset"@,
            seq![asset_id@, "blue"@, "10"@, "Sam"@, "200"@]),
{
    let args = vec![
        String::from_str(asset_id),
        String::from_str("blue"),
        String::from_str("10"),
        String::from_str("Sam"),
        String::from_str("200"),
    ];
    let call = chaincode_call(CallKind::Submit, channel, chaincode, "UpdateAsset", args);
    proof { assert(texts(args@) =~= seq![asset_id@, "blue"@, "10"@, "Sam"@, "200"@]); }
    call
}

/// `TransferAsset` of the asset `asset_id` to Mary, submitted and waited
/// for.
pub fn transfer_asset_call(channel: &str, chaincode: &str, asset_id: &str) -> (call: ChaincodeCall)
    ensures
        call@ == call_view(CallKind::Submit, channel@, chaincode@, "TransferAsset"@, seq![asset_id@, "Mary"@]),
{
    let args = vec![String::from_str(asset_id), String::from_str("Mary")];
    let call = chaincode_call(CallKind::Submit, channel, chaincode, "TransferAsset", args);
    proof { assert(texts(args@) =~= seq![asset_id@, "Mary"@]); }
    call
}

/// `DeleteAsset` of the asset `asset_id`, submitted and waited for.
pub fn delete_asset_call(channel: &str, chaincode: &str, asset_id: &str) -> (call: ChaincodeCall)
    ensures
        call@ == call_view(CallKind::Submit, channel@, chaincode@, "DeleteAsset"@, seq![asset_id@]),
{
    let args = vec![String::from_str(asset_id)];
    let call = chaincode_call(CallKind::Submit, channel, chaincode, "DeleteAsset", args);
    proof { assert(texts(args@) =~= seq![asset_id@]); }
    call
}

/// What `create_asset` prints and does once its asynchronous submission is
/// answered: the chaincode's result, and it goes on to wait for the commit;
/// or nothing, and it stops with the error.
pub open spec fn create_submitted_view(outcome: Result<Seq<u8>, CallFailureView>) -> ReportView {
    match outcome {
        Ok(bytes) => ReportView { lines: seq![out(utf8_lossy(bytes))], verdict: VerdictView::Proceed },
        Err(_) => ReportView { lines: seq![], verdict: VerdictView::Stop },
    }
}

/// What each submission step of the events sample does next, for every
/// outcome: a successful submission, whatever result the chaincode returned
/// (an empty one included), prints that result and lets the sample go on;
/// a failed one prints nothing and stops the sample with its error. The
/// update, transfer and deletion then confirm the commit on a line of their
/// own that names the function.
pub proof fn lemma_events_step_verdicts(bytes: Seq<u8>, failure: CallFailureView, function: Seq<char>)
    ensures
        create_submitted_view(Ok(bytes)).verdict == VerdictView::Proceed,
        create_submitted_view(Ok(bytes)).lines == seq![out(utf8_lossy(bytes))],
        create_submitted_view(Err(failure)).verdict == VerdictView::Stop,
        create_submitted_view(Err(failure)).lines.len() == 0,
        committed_view(Ok(bytes), function).verdict == VerdictView::Proceed,
        committed_view(Ok(bytes), function).lines.len() == 2,
        committed_view(Ok(bytes), function).lines[0] == out(utf8_lossy(bytes)),
        committed_view(Ok(bytes), function).lines[1] == out("\n*** "@ + function + " committed successfully"@),
        committed_view(Err(failure), function).verdict == VerdictView::Stop,
        committed_view(Err(failure), function).lines.len() == 0,
{
}

/// What `create_asset` prints and does for the outcome of its asynchronous
/// submission; `outcome` holds the chaincode's result.
pub fn create_asset_submitted_report(outcome: &Result<Vec<u8>, CallFailure>) -> (report: Report)
    ensures
        report@ == create_submitted_view(bytes_outcome(*outcome)),
        outcome is Ok ==> report@.verdict == VerdictView::Proceed,
        outcome is Err ==> report@.verdict == VerdictView::Stop,
{
    match outcome {
        Ok(bytes) => Report { lines: one_line(out_line(decode_utf8_lossy(bytes.as_slice()))), verdict: Verdict::Proceed },
        Err(_) => {
            let lines: Vec<Line> = Vec::new();
            let report = Report { lines, verdict: Verdict::Stop };
            proof { assert(report@.lines =~= seq![]); }
            report
        },
    }
}

/// The line `create_asset` prints once the transaction is committed.
pub fn create_asset_committed_line() -> (line: Line)
    ensures
        line@ == out("*** CreateAsset committed successfully"@),
{
    out_line(String::from_str("*** CreateAsset committed successfully"))
}

/// The line that reports the block in which the asset was created.
pub fn first_block_line(block_number: u64) -> (line: Line)
    ensures
        line@ == out("First block number: "@ + decimal(block_number as nat)),
{
    let mut text = String::from_str("First block number: ");
    push_decimal(&mut text, block_number as u128);
    out_line(text)
}

/// What `update_asset`, `transfer_asset` and `delete_asset` print and do for
/// the outcome of submitting `function`: the chaincode's result and a
/// confirmation, and they go on; or nothing, and they stop with the error.
pub open spec fn committed_view(outcome: Result<Seq<u8>, CallFailureView>, function: Seq<char>) -> ReportView {
    match outcome {
        Ok(bytes) => ReportView {
            lines: seq![out(utf8_lossy(bytes)), out("\n*** "@ + function + " committed successfully"@)],
            verdict: VerdictView::Proceed,
        },
        Err(_) => ReportView { lines: seq![], verdict: VerdictView::Stop },
    }
}

fn committed_report(outcome: &Result<Vec<u8>, CallFailure>, function: &str) -> (report: Report)
    ensures
        report@ == committed_view(bytes_outcome(*outcome), function@),
        outcome is Ok ==> report@.verdict == VerdictView::Proceed,
        outcome is Err ==> report@.verdict == VerdictView::Stop,
{
    match outcome {
        Ok(bytes) => {
            let mut second = String::from_str("\n*** ");
            second.append(function);
            second.append(" committed successfully");
            Report {
                lines: two_lines(out_line(decode_utf8_lossy(bytes.as_slice())), out_line(second)),
                verdict: Verdict::Proceed,
            }
        },
        Err(_) => {
            let lines: Vec<Line> = Vec::new();
            let report = Report { lines, verdict: Verdict::Stop };
            proof { assert(report@.lines =~= seq![]); }
            report
        },
    }
}

/// What `update_asset` prints and does for the outcome of submitting
/// `UpdateAsset`.
pub fn update_asset_report(outcome: &Result<Vec<u8>, CallFailure>) -> (report: Report)
    ensures
        report@ == committed_view(bytes_outcome(*outcome), "UpdateAsset"@),
        outcome is Ok ==> report@.verdict == VerdictView::Proceed,
        outcome is Err ==> report@.verdict == VerdictView::Stop,
{
    committed_report(outcome, "UpdateAsset")
}

/// What `transfer_asset` prints and does for the outcome of submitting
/// `TransferAsset`.
pub fn transfer_asset_report(outcome: &Result<Vec<u8>, CallFailure>) -> (report: Report)
    ensures
        report@ == committed_view(bytes_outcome(*outcome), "TransferAsset"@),
        outcome is Ok ==> report@.verdict == VerdictView::Proceed,
        outcome is Err ==> report@.verdict == VerdictView::Stop,
{
    committed_report(outcome, "TransferAsset")
}

/// What `delete_asset` prints and does for the outcome of submitting
/// `DeleteAsset`.
pub fn delete_asset_report(outcome: &Result<Vec<u8>, CallFailure>) -> (report: Report)
    ensures
        report@ == committed_view(bytes_outcome(*outcome), "DeleteAsset"@),
        outcome is Ok ==> report@.verdict == VerdictView::Proceed,
        outcome is Err ==> report@.verdict == VerdictView::Stop,
{
    committed_report(outcome, "DeleteAsset")
}

/// The query that `listen_for_events` sends: the chaincode's events on the
/// channel, from the next block on.
pub fn listen_for_events_query(channel: &str, chaincode: &str) -> (query: EventsQuery)
    ensures
        query@ == (EventsQueryView { channel_name: channel@, chaincode_name: chaincode@, start_block: None }),
{
    EventsQuery { channel_name: String::from_str(channel), chaincode_name: String::from_str(chaincode), start_block: None }
}

/// The query that `replay_chaincode_events` sends: the chaincode's events
/// on the channel, from block `start_block` on.
pub fn replay_chaincode_events_query(channel: &str, chaincode: &str, start_block: u64) -> (query: EventsQuery)
    ensures
        query@ == (EventsQueryView {
            channel_name: channel@,
            chaincode_name: chaincode@,
            start_block: Some(start_block),
        }),
{
    EventsQuery {
        channel_name: String::from_str(channel),
        chaincode_name: String::from_str(chaincode),
        start_block: Some(start_block),
    }
}

/// Whether the events are followed live (`listen_for_events`) or replayed
/// from a block (`replay_chaincode_events`).
#[derive(Clone, Copy, PartialEq, Eq, Structural, Debug)]
pub enum EventMode {
    Live,
    Replay,
}

/// A chaincode event: its name and payload.
#[derive(Debug)]
pub struct ChaincodeEventData {
    pub event_name: String,
    pub payload: Vec<u8>,
}

/// A chaincode event as a value of the specification.
pub struct EventView {
    pub event_name: Seq<char>,
    pub payload: Seq<u8>,
}

impl View for ChaincodeEventData {
    type V = EventView;

    open spec fn view(&self) -> EventView {
        EventView { event_name: self.event_name@, payload: self.payload@ }
    }
}

/// The events of a vector, as values of the specification.
pub open spec fn events_view(events: Seq<ChaincodeEventData>) -> Seq<EventView> {
    events.map_values(|e: ChaincodeEventData| e@)
}

/// The line printed for an event.
pub open spec fn event_line_view(mode: EventMode, event: EventView) -> LineView {
    let lead = match mode {
        EventMode::Live => "\n<-- Chaincode event received: "@,
        EventMode::Replay => "\n<-- Chaincode event replayed: "@,
    };
    out(lead + event.event_name + " - "@ + shown_payload(event.payload))
}

/// The event after which a replay ends: the deletion of the asset.
pub open spec fn ends_replay(event: EventView) -> bool {
    event.event_name == "DeleteAsset"@
}

/// `k` is the position of the first event of `events` that ends a replay.
pub open spec fn first_end(events: Seq<EventView>, k: int) -> bool {
    &&& 0 <= k < events.len()
    &&& ends_replay(events[k])
    &&& forall|j: int| 0 <= j < k ==> !ends_replay(#[trigger] events[j])
}

/// Whether a batch of events ends the following of the stream: only a
/// replay ends, at the deletion of the asset.
pub open spec fn batch_ends(mode: EventMode, events: Seq<EventView>) -> bool {
    mode == EventMode::Replay && exists|k: int| 0 <= k < events.len() && ends_replay(#[trigger] events[k])
}

/// How many events of a batch are printed: all of them, except that a
/// replay stops after the first one that ends it.
pub open spec fn printed_count(mode: EventMode, events: Seq<EventView>) -> int {
    if batch_ends(mode, events) {
        (choose|k: int| first_end(events, k)) + 1
    } else {
        events.len() as int
    }
}

/// The lines printed for a batch of events.
pub open spec fn batch_lines(mode: EventMode, events: Seq<EventView>) -> Seq<LineView> {
    events.take(printed_count(mode, events)).map_values(|e: EventView| event_line_view(mode, e))
}

/// There is one first event that ends a replay, where any does.
pub proof fn lemma_first_end(events: Seq<EventView>)
    requires
        exists|k: int| 0 <= k < events.len() && ends_replay(#[trigger] events[k]),
    ensures
        exists|k: int| first_end(events, k),
        forall|a: int, b: int| first_end(events, a) && first_end(events, b) ==> a == b,
    decreases events.len(),
{
    let w = choose|k: int| 0 <= k < events.len() && ends_replay(#[trigger] events[k]);
    if ends_replay(events[0]) {
        assert(first_end(events, 0));
    } else {
        let rest = events.drop_first();
        assert(ends_replay(rest[w - 1]));
        lemma_first_end(rest);
        let k = choose|k: int| first_end(rest, k);
        assert forall|j: int| 0 <= j < k + 1 implies !ends_replay(#[trigger] events[j]) by {
            if j > 0 {
                assert(events[j] == rest[j - 1]);
            }
        }
        assert(first_end(events, k + 1));
    }
    assert forall|a: int, b: int| first_end(events, a) && first_end(events, b) implies a == b by {
        if a < b {
            assert(!ends_replay(events[a]));
        } else if b < a {
            assert(!ends_replay(events[b]));
        }
    }
}

/// A live listener prints every event of a batch and goes on. A replay
/// prints the events up to and including the first deletion of the asset
/// and none after it, and ends there; a batch without a deletion it prints
/// whole and goes on.
pub proof fn lemma_replay_ends_at_first_deletion(events: Seq<EventView>)
    ensures
        !batch_ends(EventMode::Live, events),
        batch_lines(EventMode::Live, events).len() == events.len(),
        !batch_ends(EventMode::Replay, events) ==> batch_lines(EventMode::Replay, events).len() == events.len(),
        batch_ends(EventMode::Replay, events) ==> {
            let n = batch_lines(EventMode::Replay, events).len() as int;
            &&& 1 <= n <= events.len()
            &&& ends_replay(events[n - 1])
            &&& forall|j: int| 0 <= j < n - 1 ==> !ends_replay(#[trigger] events[j])
        },
{
    if batch_ends(EventMode::Replay, events) {
        lemma_first_end(events);
        let k = choose|k: int| first_end(events, k);
        assert(first_end(events, k));
        assert(printed_count(EventMode::Replay, events) == k + 1);
    }
}

/// The stop rule of the event stream, in terms of event names. Following
/// live never ends at a batch and prints one line per event, each naming its
/// event. A replay ends at a batch exactly when some event of the batch, at
/// any position, is named `DeleteAsset`; it then prints the events up to and
/// including the first such event, none after it, and otherwise every event.
pub proof fn lemma_replay_stop_rule(events: Seq<EventView>)
    ensures
        !batch_ends(EventMode::Live, events),
        batch_ends(EventMode::Replay, events)
            <==> exists|k: int| 0 <= k < events.len() && #[trigger] events[k].event_name == "DeleteAsset"@,
        batch_lines(EventMode::Live, events).len() == events.len(),
        forall|j: int| 0 <= j < events.len() ==> #[trigger] batch_lines(EventMode::Live, events)[j]
            == out("\n<-- Chaincode event received: "@ + events[j].event_name + " - "@ + shown_payload(events[j].payload)),
        forall|k: int| 0 <= k < events.len() && events[k].event_name == "DeleteAsset"@
            && (forall|j: int| 0 <= j < k ==> events[j].event_name != "DeleteAsset"@)
            ==> #[trigger] batch_lines(EventMode::Replay, events).len() == k + 1,
        (forall|j: int| 0 <= j < events.len() ==> events[j].event_name != "DeleteAsset"@)
            ==> batch_lines(EventMode::Replay, events).len() == events.len(),
        forall|j: int| 0 <= j < batch_lines(EventMode::Replay, events).len() ==> #[trigger] batch_lines(EventMode::Replay, events)[j]
            == out("\n<-- Chaincode event replayed: "@ + events[j].event_name + " - "@ + shown_payload(events[j].payload)),
{
    lemma_replay_ends_at_first_deletion(events);
    if exists|k: int| 0 <= k < events.len() && #[trigger] events[k].event_name == "DeleteAsset"@ {
        let k = choose|k: int| 0 <= k < events.len() && #[trigger] events[k].event_name == "DeleteAsset"@;
        assert(ends_replay(events[k]));
        assert(batch_ends(EventMode::Replay, events));
    }
    if batch_ends(EventMode::Replay, events) {
        lemma_first_end(events);
        let k0 = choose|k: int| first_end(events, k);
        assert(first_end(events, k0));
        assert forall|k: int| 0 <= k < events.len() && events[k].event_name == "DeleteAsset"@
            && (forall|j: int| 0 <= j < k ==> events[j].event_name != "DeleteAsset"@)
            implies #[trigger] batch_lines(EventMode::Replay, events).len() == k + 1 by {
            assert(first_end(events, k));
        }
    } else {
        assert forall|k: int| 0 <= k < events.len() && events[k].event_name == "DeleteAsset"@
            && (forall|j: int| 0 <= j < k ==> events[j].event_name != "DeleteAsset"@)
            implies #[trigger] batch_lines(EventMode::Replay, events).len() == k + 1 by {
            assert(ends_replay(events[k]));
        }
    }
}

/// The line printed for one event.
pub fn event_line(mode: EventMode, event: &ChaincodeEventData) -> (line: Line)
    ensures
        line@ == event_line_view(mode, event@),
{
    let mut text = match mode {
        EventMode::Live => String::from_str("\n<-- Chaincode event received: "),
        EventMode::Replay => String::from_str("\n<-- Chaincode event replayed: "),
    };
    text.append(event.event_name.as_str());
    text.append(" - ");
    text.append(format_json(event.payload.as_slice()).as_str());
    out_line(text)
}

/// What `listen_for_events` and `replay_chaincode_events` print for one
/// batch of events of the stream, and whether they stop following it.
pub fn follow_events(mode: EventMode, events: &Vec<ChaincodeEventData>) -> (res: (Vec<Line>, bool))
    ensures
        lines_view(res.0@) == batch_lines(mode, events_view(events@)),
        res.1 == batch_ends(mode, events_view(events@)),
        res.1 <==> (mode == EventMode::Replay
            && exists|k: int| 0 <= k < events@.len() && #[trigger] events@[k].event_name@ == "DeleteAsset"@),
{
    let ghost ev = events_view(events@);
    let ghost f = |e: EventView| event_line_view(mode, e);
    let mut lines: Vec<Line> = Vec::new();
    let end_name = String::from_str("DeleteAsset");
    let mut i: usize = 0;
    while i < events.len()
        invariant
            i <= events.len(),
            ev == events_view(events@),
            f == (|e: EventView| event_line_view(mode, e)),
            end_name@ == "DeleteAsset"@,
            lines_view(lines@) == ev.take(i as int).map_values(f),
            mode == EventMode::Replay ==> forall|j: int| 0 <= j < i ==> !ends_replay(#[trigger] ev[j]),
        decreases events.len() - i,
    {
        let line = event_line(mode, &events[i]);
        let ghost before = lines@;
        let ghost shown = line@;
        lines.push(line);
        proof {
            assert(ev[i as int] == events@[i as int]@);
            assert(lines_view(lines@) =~= lines_view(before).push(shown));
            assert(ev.take(i + 1) =~= ev.take(i as int).push(ev[i as int]));
            assert(ev.take(i + 1).map_values(f) =~= ev.take(i as int).map_values(f).push(f(ev[i as int])));
        }
        let ends = match mode {
            EventMode::Replay => events[i].event_name == end_name,
            EventMode::Live => false,
        };
        if ends {
            proof {
                assert(ends_replay(ev[i as int]));
                lemma_first_end(ev);
                assert(first_end(ev, i as int));
                assert(batch_ends(mode, ev));
            }
            return (lines, true);
        }
        i = i + 1;
    }
    proof {
        assert(ev.take(events.len() as int) =~= ev);
        if mode == EventMode::Replay {
            assert forall|k: int| 0 <= k < ev.len() implies !ends_replay(#[trigger] ev[k]) by {}
        }
        assert(!batch_ends(mode, ev));
        if mode == EventMode::Replay {
            assert forall|k: int| 0 <= k < events@.len() implies #[trigger] events@[k].event_name@ != "DeleteAsset"@ by {
                assert(ev[k] == events@[k]@);
                assert(!ends_replay(ev[k]));
            }
        }
    }
    (lines, false)
}

/// The line printed when the event stream fails; following it ends there.
pub fn stream_failure_line(failure: &str) -> (line: Line)
    ensures
        line@ == err("Error receiving chaincode event: "@ + failure@),
{
    err_line(joined("Error receiving chaincode event: ", failure))
}

/// What `listen_for_events` and `replay_chaincode_events` print for one
/// item of the event stream, and whether they stop following it: for a
/// failure, the failure on standard error, and they stop (returning without
/// error); for a batch of events, what `follow_events` says.
pub open spec fn stream_item_view(mode: EventMode, item: Result<Seq<EventView>, Seq<char>>) -> (Seq<LineView>, bool) {
    match item {
        Ok(events) => (batch_lines(mode, events), batch_ends(mode, events)),
        Err(failure) => (seq![err("Error receiving chaincode event: "@ + failure)], true),
    }
}

/// An item of the event stream as a value of the specification.
pub open spec fn stream_item(item: Result<Vec<ChaincodeEventData>, String>) -> Result<Seq<EventView>, Seq<char>> {
    match item {
        Ok(events) => Ok(events_view(events@)),
        Err(failure) => Err(failure@),
    }
}

/// What is printed for one item of the event stream, a batch of events or
/// the failure described by its message, and whether following stops there.
pub fn follow_stream_item(mode: EventMode, item: &Result<Vec<ChaincodeEventData>, String>) -> (res: (Vec<Line>, bool))
    ensures
        (lines_view(res.0@), res.1) == stream_item_view(mode, stream_item(*item)),
{
    match item {
        Ok(events) => follow_events(mode, events),
        Err(failure) => (one_line(stream_failure_line(failure.as_str())), true),
    }
}

} // verus!
