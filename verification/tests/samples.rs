use application_gateway::asset_id::{asset_id_from_millis, generate_asset_id};
use application_gateway::basic;
use application_gateway::directory::{choose_first_file, name_precedes};
use application_gateway::events;
use application_gateway::events::{ChaincodeEventData, EventMode};
use application_gateway::ledger::{commit_status_query, CallKind, CommitStatus};
use application_gateway::report::{CallFailure, Line, Stream, Verdict};

fn text(line: &Line) -> &str {
    line.text.as_str()
}

fn failure(node: Option<&str>) -> CallFailure {
    CallFailure {
        node_message: node.map(|m| m.to_string()),
        display: "Submitting to node failed: boom".to_string(),
        debug: "NodeError(\"boom\")".to_string(),
    }
}

#[test]
fn asset_id_is_asset_then_millis() {
    assert_eq!(asset_id_from_millis(0), "asset0");
    assert_eq!(asset_id_from_millis(7), "asset7");
    assert_eq!(asset_id_from_millis(1700000000123), "asset1700000000123");
    assert_eq!(asset_id_from_millis(u128::MAX), format!("asset{}", u128::MAX));
}

#[test]
fn asset_ids_differ_for_different_millis() {
    assert_ne!(asset_id_from_millis(10), asset_id_from_millis(100));
    assert_ne!(asset_id_from_millis(12), asset_id_from_millis(21));
}

#[test]
fn generated_asset_id_has_digits_after_prefix() {
    let id = generate_asset_id().expect("clock after the epoch");
    assert!(id.starts_with("asset"));
    let digits = &id["asset".len()..];
    assert!(!digits.is_empty());
    assert!(digits.chars().all(|c| c.is_ascii_digit()));
}

#[test]
fn first_file_is_smallest_name() {
    let names = vec![b"b.pem".to_vec(), b"a_sk".to_vec(), b"c".to_vec()];
    assert_eq!(choose_first_file("dir", &names), Ok(1));
}

#[test]
fn first_file_prefix_comes_first() {
    let names = vec![b"key2".to_vec(), b"key".to_vec(), b"key10".to_vec()];
    assert_eq!(choose_first_file("dir", &names), Ok(1));
}

#[test]
fn first_file_ignores_listing_order() {
    let a = vec![b"x".to_vec(), b"m".to_vec(), b"q".to_vec()];
    let b = vec![b"q".to_vec(), b"x".to_vec(), b"m".to_vec()];
    let ia = choose_first_file("d", &a).unwrap();
    let ib = choose_first_file("d", &b).unwrap();
    assert_eq!(a[ia], b[ib]);
    assert_eq!(a[ia], b"m".to_vec());
}

#[test]
fn first_file_of_equal_names_is_earliest() {
    let names = vec![b"z".to_vec(), b"a".to_vec(), b"a".to_vec()];
    assert_eq!(choose_first_file("d", &names), Ok(1));
}

#[test]
fn empty_directory_is_an_error() {
    let names: Vec<Vec<u8>> = vec![];
    assert_eq!(
        choose_first_file("../keystore", &names),
        Err("No files found in directory: ../keystore".to_string())
    );
}

#[test]
fn name_order_is_bytewise() {
    assert!(name_precedes(&b"A".to_vec(), &b"a".to_vec()));
    assert!(!name_precedes(&b"a".to_vec(), &b"a".to_vec()));
    assert!(name_precedes(&b"".to_vec(), &b"a".to_vec()));
    assert!(!name_precedes(&b"ab".to_vec(), &b"a".to_vec()));
    assert!(name_precedes(&vec![0x7f], &vec![0x80]));
}

#[test]
fn basic_settings_default() {
    assert_eq!(basic::chaincode_name(None), "basic");
    assert_eq!(basic::chaincode_name(Some("other".to_string())), "other");
    assert_eq!(basic::channel_name(None), "mychannel");
    assert_eq!(events::chaincode_name(None), "events");
    assert_eq!(events::channel_name(Some("ch2".to_string())), "ch2");
}

#[test]
fn basic_format_json_pretty_prints() {
    assert_eq!(basic::format_json("{\"a\":1}").unwrap(), "{\n  \"a\": 1\n}");
    assert_eq!(basic::format_json("[1,2]").unwrap(), "[\n  1,\n  2\n]");
    assert_eq!(basic::format_json("not json"), Err("expected ident at line 1 column 2".to_string()));
    assert_eq!(basic::format_json(""), Err("EOF while parsing a value at line 1 column 0".to_string()));
}

#[test]
fn events_format_json_falls_back_to_text() {
    assert_eq!(events::format_json(b"{\"ID\":\"asset1\"}"), "{\n  \"ID\": \"asset1\"\n}");
    assert_eq!(events::format_json(b"plain"), "plain");
    assert_eq!(events::format_json(&[0x61, 0xff]), "a\u{fffd}");
}

#[test]
fn basic_calls() {
    let c = basic::init_ledger_call("mychannel", "basic");
    assert_eq!(c.channel_name, "mychannel");
    assert_eq!(c.chaincode_name, "basic");
    assert_eq!(c.function_name, "InitLedger");
    assert_eq!(c.kind, CallKind::Submit);
    assert!(c.args.is_empty());
    let c = basic::get_all_assets_call("ch", "cc");
    assert_eq!(c.function_name, "GetAllAssets");
    assert_eq!(c.kind, CallKind::Evaluate);
    assert!(c.args.is_empty());
    let c = basic::create_asset_call("ch", "cc", "asset9");
    assert_eq!(c.function_name, "CreateAsset");
    assert_eq!(c.args, vec!["asset9", "yellow", "5", "Tom", "1300"]);
    let c = basic::read_asset_by_id_call("ch", "cc", "asset9");
    assert_eq!(c.function_name, "ReadAsset");
    assert_eq!(c.kind, CallKind::Evaluate);
    assert_eq!(c.args, vec!["asset9"]);
    let c = basic::transfer_asset_async_call("ch", "cc");
    assert_eq!(c.function_name, "TransferAsset");
    assert_eq!(c.args, vec!["asset1", "Mark"]);
    assert_eq!(c.kind, CallKind::SubmitAsync);
    let c = basic::example_error_handling_call("ch", "cc");
    assert_eq!(c.function_name, "UpdateAsset");
    assert_eq!(c.args, vec!["asset70", "blue", "5", "Tomoko", "300"]);
}

#[test]
fn init_ledger_reports() {
    let lines = basic::init_ledger_report(&Ok(b"done".to_vec()));
    assert_eq!(lines.len(), 2);
    assert_eq!(text(&lines[0]), "done");
    assert_eq!(text(&lines[1]), "*** Transaction committed successfully");
    assert_eq!(lines[1].stream, Stream::Stdout);
    let lines = basic::init_ledger_report(&Err(failure(None)));
    assert_eq!(lines.len(), 1);
    assert_eq!(text(&lines[0]), "Submitting to node failed: boom");
    assert_eq!(lines[0].stream, Stream::Stdout);
}

#[test]
fn get_all_assets_reports() {
    let r = basic::get_all_assets_report(&Ok(vec![]));
    assert_eq!(r.lines.len(), 1);
    assert_eq!(text(&r.lines[0]), "*** No assets found");
    assert!(matches!(r.verdict, Verdict::Proceed));
    let r = basic::get_all_assets_report(&Ok(b"[{\"ID\":\"asset1\"}]".to_vec()));
    assert_eq!(text(&r.lines[0]), "*** Result:[\n  {\n    \"ID\": \"asset1\"\n  }\n]");
    let r = basic::get_all_assets_report(&Ok(b"raw".to_vec()));
    assert_eq!(text(&r.lines[0]), "*** Result:raw");
    let r = basic::get_all_assets_report(&Err(failure(Some("boom"))));
    assert_eq!(text(&r.lines[0]), "Failed to evaluate transaction: NodeError(\"boom\")");
    assert_eq!(r.lines[0].stream, Stream::Stderr);
    assert!(matches!(r.verdict, Verdict::Stop));
}

#[test]
fn read_asset_reports() {
    let r = basic::read_asset_by_id_report(&Ok(vec![]));
    assert_eq!(text(&r.lines[0]), "*** Asset not found");
    let r = basic::read_asset_by_id_report(&Ok(b"{\"ID\":\"a\",\"Size\":5}".to_vec()));
    assert_eq!(text(&r.lines[0]), "*** Result:{\n  \"ID\": \"a\",\n  \"Size\": 5\n}");
    assert!(matches!(r.verdict, Verdict::Proceed));
}

#[test]
fn create_asset_reports() {
    let r = basic::create_asset_report(&Ok(vec![]));
    assert_eq!(text(&r.lines[0]), "*** Transaction committed successfully");
    assert!(matches!(r.verdict, Verdict::Proceed));
    let r = basic::create_asset_report(&Err(failure(None)));
    assert_eq!(text(&r.lines[0]), "Failed to submit transaction: NodeError(\"boom\")");
    assert_eq!(r.lines[0].stream, Stream::Stderr);
    assert!(matches!(r.verdict, Verdict::Stop));
}

#[test]
fn transfer_async_reports() {
    let r = basic::transfer_submitted_report(&Ok(b"Tom".to_vec()));
    assert_eq!(r.lines.len(), 2);
    assert_eq!(
        text(&r.lines[0]),
        "\n*** Successfully submitted transaction to transfer ownership from Tom to Mark."
    );
    assert_eq!(
        text(&r.lines[1]),
        "*** Transaction submitted asynchronously. Checking commit status..."
    );
    let r = basic::transfer_submitted_report(&Err(failure(None)));
    assert_eq!(
        text(&r.lines[0]),
        "Failed to submit transaction asynchronously: NodeError(\"boom\")"
    );
    assert!(matches!(r.verdict, Verdict::Stop));
}

#[test]
fn commit_status_reports() {
    let lines = basic::commit_status_report(&Ok(CommitStatus { result: 0, block_number: 42 }));
    assert_eq!(text(&lines[0]), "Commit result: 0 block num: 42");
    assert_eq!(text(&lines[1]), "*** Transaction committed successfully");
    let lines = basic::commit_status_report(&Ok(CommitStatus { result: -3, block_number: 0 }));
    assert_eq!(text(&lines[0]), "Commit result: -3 block num: 0");
    let lines = basic::commit_status_report(&Ok(CommitStatus { result: i32::MIN, block_number: u64::MAX }));
    assert_eq!(text(&lines[0]), format!("Commit result: {} block num: {}", i32::MIN, u64::MAX));
    let lines = basic::commit_status_report(&Err(failure(None)));
    assert_eq!(text(&lines[0]), "Failed to get commit status: NodeError(\"boom\")");
    assert_eq!(lines[0].stream, Stream::Stderr);
    assert_eq!(text(&lines[1]), "*** Transaction committed successfully");
}

#[test]
fn error_handling_reports() {
    let r = basic::example_error_handling_report(&Err(failure(Some("asset asset70 does not exist"))));
    assert_eq!(text(&r.lines[0]), "*** Successfully caught the error:");
    assert_eq!(text(&r.lines[1]), "endorse error: asset asset70 does not exist");
    assert!(matches!(r.verdict, Verdict::Proceed));
    let r = basic::example_error_handling_report(&Err(failure(None)));
    assert_eq!(text(&r.lines[1]), "Unexpected error: NodeError(\"boom\")");
    let r = basic::example_error_handling_report(&Ok(vec![]));
    assert!(r.lines.is_empty());
    match r.verdict {
        Verdict::Abort(m) => assert_eq!(m, "******** FAILED to return an error"),
        _ => panic!("expected abort"),
    }
}

#[test]
fn events_calls() {
    let c = events::create_asset_call("mychannel", "events", "asset5");
    assert_eq!(c.function_name, "CreateAsset");
    assert_eq!(c.args, vec!["asset5", "blue", "10", "Sam", "100"]);
    assert_eq!(c.kind, CallKind::SubmitAsync);
    let c = events::update_asset_call("mychannel", "events", "asset5");
    assert_eq!(c.function_name, "UpdateAsset");
    assert_eq!(c.args, vec!["asset5", "blue", "10", "Sam", "200"]);
    let c = events::transfer_asset_call("mychannel", "events", "asset5");
    assert_eq!(c.args, vec!["asset5", "Mary"]);
    assert_eq!(c.kind, CallKind::Submit);
    let c = events::delete_asset_call("mychannel", "events", "asset5");
    assert_eq!(c.function_name, "DeleteAsset");
    assert_eq!(c.args, vec!["asset5"]);
    let q = events::listen_for_events_query("mychannel", "events");
    assert_eq!(q.start_block, None);
    let q = events::replay_chaincode_events_query("mychannel", "events", 17);
    assert_eq!(q.start_block, Some(17));
    assert_eq!(q.chaincode_name, "events");
}

#[test]
fn events_reports() {
    let r = events::create_asset_submitted_report(&Ok(b"".to_vec()));
    assert_eq!(r.lines.len(), 1);
    assert_eq!(text(&r.lines[0]), "");
    let r = events::create_asset_submitted_report(&Err(failure(None)));
    assert!(r.lines.is_empty());
    assert!(matches!(r.verdict, Verdict::Stop));
    assert_eq!(text(&events::create_asset_committed_line()), "*** CreateAsset committed successfully");
    assert_eq!(text(&events::first_block_line(9)), "First block number: 9");
    let r = events::update_asset_report(&Ok(b"ok".to_vec()));
    assert_eq!(text(&r.lines[0]), "ok");
    assert_eq!(text(&r.lines[1]), "\n*** UpdateAsset committed successfully");
    let r = events::transfer_asset_report(&Ok(vec![]));
    assert_eq!(text(&r.lines[1]), "\n*** TransferAsset committed successfully");
    let r = events::delete_asset_report(&Err(failure(None)));
    assert!(r.lines.is_empty());
    assert!(matches!(r.verdict, Verdict::Stop));
}

fn event(name: &str, payload: &[u8]) -> ChaincodeEventData {
    ChaincodeEventData { event_name: name.to_string(), payload: payload.to_vec() }
}

#[test]
fn live_events_print_every_event() {
    let batch = vec![event("CreateAsset", b"{\"ID\":\"a\"}"), event("DeleteAsset", b"x"), event("Other", b"y")];
    let (lines, done) = events::follow_events(EventMode::Live, &batch);
    assert!(!done);
    assert_eq!(lines.len(), 3);
    assert_eq!(
        text(&lines[0]),
        "\n<-- Chaincode event received: CreateAsset - {\n  \"ID\": \"a\"\n}"
    );
    assert_eq!(text(&lines[1]), "\n<-- Chaincode event received: DeleteAsset - x");
}

#[test]
fn replay_stops_after_delete_asset() {
    let batch = vec![event("UpdateAsset", b"u"), event("DeleteAsset", b"d"), event("CreateAsset", b"c")];
    let (lines, done) = events::follow_events(EventMode::Replay, &batch);
    assert!(done);
    assert_eq!(lines.len(), 2);
    assert_eq!(text(&lines[0]), "\n<-- Chaincode event replayed: UpdateAsset - u");
    assert_eq!(text(&lines[1]), "\n<-- Chaincode event replayed: DeleteAsset - d");
}

#[test]
fn replay_without_delete_goes_on() {
    let batch = vec![event("CreateAsset", b"c")];
    let (lines, done) = events::follow_events(EventMode::Replay, &batch);
    assert!(!done);
    assert_eq!(lines.len(), 1);
    let (lines, done) = events::follow_events(EventMode::Replay, &vec![]);
    assert!(!done);
    assert!(lines.is_empty());
}

#[test]
fn stream_failure_goes_to_stderr() {
    let line = events::stream_failure_line("status: Unavailable");
    assert_eq!(line.stream, Stream::Stderr);
    assert_eq!(text(&line), "Error receiving chaincode event: status: Unavailable");
}

#[test]
fn commit_status_query_uses_transaction_and_channel() {
    let q = commit_status_query("tx123".to_string(), "mychannel");
    assert_eq!(q.transaction_id, "tx123");
    assert_eq!(q.channel_name, "mychannel");
}

#[test]
fn header_lines() {
    assert_eq!(
        text(&basic::init_ledger_header()),
        "\n--> Submit Transaction: InitLedger, function creates the initial set of assets on the ledger"
    );
    assert_eq!(
        text(&basic::get_all_assets_header()),
        "\n--> Evaluate Transaction: GetAllAssets, function returns all the current assets on the ledger"
    );
    assert_eq!(
        text(&basic::read_asset_by_id_header()),
        "\n--> Evaluate Transaction: ReadAsset, function returns asset attributes"
    );
    assert_eq!(
        text(&basic::transfer_asset_async_header()),
        "\n--> Async Submit Transaction: TransferAsset, updates existing asset owner"
    );
    assert!(text(&basic::create_asset_header()).starts_with("\n--> Submit Transaction: CreateAsset, "));
    assert!(text(&basic::example_error_handling_header()).contains("asset70 does not exist"));
    assert_eq!(
        text(&events::create_asset_header("asset7")),
        "\n--> Submit transaction: CreateAsset, asset7 owned by Sam with appraised value 100"
    );
    assert_eq!(
        text(&events::update_asset_header("asset7")),
        "\n--> Submit transaction: UpdateAsset, asset7 update appraised value to 200"
    );
    assert_eq!(
        text(&events::transfer_asset_header("asset7")),
        "\n--> Submit transaction: TransferAsset, asset7 to Mary"
    );
    assert_eq!(text(&events::delete_asset_header("asset7")), "\n--> Submit transaction: DeleteAsset, asset7");
    assert_eq!(text(&events::replay_chaincode_events_header()), "\n*** Start chaincode event replay");
    let line = events::listener_failure_line("boom");
    assert_eq!(line.stream, Stream::Stderr);
    assert_eq!(text(&line), "Event listener failed: boom");
}

#[test]
fn asset_id_digits_read_back_as_millis() {
    for millis in [0u128, 9, 10, 1700000000123, u128::MAX] {
        let id = asset_id_from_millis(millis);
        assert_eq!(id["asset".len()..].parse::<u128>().unwrap(), millis);
    }
    let earlier = asset_id_from_millis(999);
    let later = asset_id_from_millis(1000);
    assert!(earlier["asset".len()..].parse::<u128>().unwrap() <= later["asset".len()..].parse::<u128>().unwrap());
}

#[test]
fn stream_items_stop_on_failure_or_replay_end() {
    let failed: Result<Vec<ChaincodeEventData>, String> = Err("status: Unavailable".to_string());
    let (lines, done) = events::follow_stream_item(EventMode::Live, &failed);
    assert!(done);
    assert_eq!(lines.len(), 1);
    assert_eq!(lines[0].stream, Stream::Stderr);
    assert_eq!(text(&lines[0]), "Error receiving chaincode event: status: Unavailable");
    let batch: Result<Vec<ChaincodeEventData>, String> = Ok(vec![event("DeleteAsset", b"d"), event("X", b"x")]);
    let (lines, done) = events::follow_stream_item(EventMode::Live, &batch);
    assert!(!done);
    assert_eq!(lines.len(), 2);
    let (lines, done) = events::follow_stream_item(EventMode::Replay, &batch);
    assert!(done);
    assert_eq!(lines.len(), 1);
}
