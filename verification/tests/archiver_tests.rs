use block_archiver::archive_block::{archive_round_trip, build_calldata, decode_calldata};
use block_archiver::block_type::{envelope_round_trip, Block as PayloadBlock};
use block_archiver::compress::{brotli_compress, compress_round_trip, try_brotli_decompress};
use block_archiver::coordinator::{
    blocks_behind, resolve_target, ArchiveError, ConfigError, Network, PollDecision, StreamCursor,
    StreamKind,
};
use block_archiver::get_block::parse_head_number;
use block_archiver::json::{json_to_string, parse_u64, JsonValue};
use block_archiver::progress::{total_blocks_count, StreamLedger};
use block_archiver::schema::{Block, DataValue, DecodeError, InfoServerResponse};

fn jstr(x: &str) -> JsonValue {
    JsonValue::Str(x.to_string())
}

fn obj(fields: Vec<(&str, JsonValue)>) -> JsonValue {
    JsonValue::Obj(fields.into_iter().map(|(k, v)| (k.to_string(), v)).collect())
}

fn method_value() -> JsonValue {
    obj(vec![("pallet", jstr("timestamp")), ("method", jstr("set"))])
}

fn extrinsic_value(args: JsonValue, info: JsonValue, event_data: Option<JsonValue>) -> JsonValue {
    let mut event_fields = vec![("method", method_value())];
    if let Some(d) = event_data {
        event_fields.push(("data", d));
    }
    obj(vec![
        ("method", method_value()),
        ("signature", JsonValue::Null),
        ("nonce", JsonValue::Null),
        ("args", args),
        ("tip", JsonValue::Null),
        ("hash", jstr("0xabc")),
        ("info", info),
        ("era", obj(vec![("immortalEra", jstr("0x00"))])),
        ("events", JsonValue::Arr(vec![obj(event_fields)])),
        ("success", JsonValue::Bool(true)),
        ("paysFee", JsonValue::Bool(false)),
    ])
}

fn block_value(extrinsics: Vec<JsonValue>, hook_events: Vec<JsonValue>) -> JsonValue {
    obj(vec![
        ("number", jstr("100")),
        ("hash", jstr("0xh")),
        ("parentHash", jstr("0xp")),
        ("stateRoot", jstr("0xs")),
        ("extrinsicsRoot", jstr("0xe")),
        ("authorId", jstr("author")),
        (
            "logs",
            JsonValue::Arr(vec![obj(vec![
                ("type", jstr("seal")),
                ("index", jstr("5")),
                ("value", JsonValue::Arr(vec![jstr("0x01"), jstr("0x02")])),
            ])]),
        ),
        (
            "onInitialize",
            obj(vec![("events", JsonValue::Arr(hook_events))]),
        ),
        ("extrinsics", JsonValue::Arr(extrinsics)),
        ("onFinalize", obj(vec![("events", JsonValue::Arr(vec![]))])),
        ("finalized", JsonValue::Bool(true)),
    ])
}

fn network() -> Network {
    match Network::from_parts(
        "testnet".to_string(),
        9496,
        "http://source.example".to_string(),
        "http://archive.example".to_string(),
        2,
        500,
        "0xarchiver".to_string(),
        "0xbackfill".to_string(),
        "0xpool".to_string(),
    ) {
        Ok(n) => n,
        Err(_) => panic!("valid configuration was rejected"),
    }
}

#[test]
fn config_rejects_archiver_self_send() {
    let r = Network::from_parts(
        "t".to_string(),
        1,
        "a".to_string(),
        "b".to_string(),
        2,
        500,
        "0xpool".to_string(),
        "0xbackfill".to_string(),
        "0xpool".to_string(),
    );
    assert!(matches!(r, Err(ConfigError::SelfSend)));
}

#[test]
fn config_rejects_backfill_self_send() {
    let r = Network::from_parts(
        "t".to_string(),
        1,
        "a".to_string(),
        "b".to_string(),
        2,
        500,
        "0xarchiver".to_string(),
        "0xpool".to_string(),
        "0xpool".to_string(),
    );
    assert!(matches!(r, Err(ConfigError::SelfSend)));
}

#[test]
fn config_accepts_distinct_addresses() {
    let n = network();
    assert_eq!(n.start_block, 500);
    assert_eq!(n.block_time, 2);
}

#[test]
fn fresh_store_resumes_from_configured_starts() {
    let cfg = network();
    let live = StreamCursor::resume(StreamKind::LiveSync, &cfg, 0, None);
    assert_eq!(live.next, 500);
    let back = StreamCursor::resume(StreamKind::Backfill, &cfg, 7, None);
    assert_eq!(back.next, 7);
}

#[test]
fn resume_continues_after_latest_record() {
    let cfg = network();
    let live = StreamCursor::resume(StreamKind::LiveSync, &cfg, 0, Some(100));
    assert_eq!(live.next, 101);
}

#[test]
fn polling_selects_height_101_when_last_is_100_and_head_105() {
    let cfg = network();
    let cursor = StreamCursor::resume(StreamKind::LiveSync, &cfg, 0, Some(100));
    match cursor.step(&cfg, 105) {
        PollDecision::Archive { height } => assert_eq!(height, 101),
        PollDecision::Wait { .. } => panic!("expected an archiving decision"),
    }
}

#[test]
fn livesync_waits_when_next_is_adjacent_to_head() {
    let cfg = network();
    let cursor = StreamCursor { kind: StreamKind::LiveSync, next: 104 };
    match cursor.step(&cfg, 105) {
        PollDecision::Wait { seconds } => assert_eq!(seconds, 2),
        PollDecision::Archive { .. } => panic!("must wait while adjacent to the head"),
    }
}

#[test]
fn backfill_archives_strictly_below_checkpoint() {
    let cfg = network();
    let below = StreamCursor { kind: StreamKind::Backfill, next: 499 };
    match below.step(&cfg, 1000) {
        PollDecision::Archive { height } => assert_eq!(height, 499),
        PollDecision::Wait { .. } => panic!("499 is still backfill territory"),
    }
    let at = StreamCursor { kind: StreamKind::Backfill, next: 500 };
    assert!(matches!(at.step(&cfg, 1000), PollDecision::Wait { .. }));
}

#[test]
fn backfill_target_at_checkpoint_is_refused() {
    let cfg = network();
    let r = resolve_target(Some(500), StreamKind::Backfill, &cfg, 0);
    assert!(matches!(r, Err(ArchiveError::ContinuityViolation)));
    let r2 = resolve_target(Some(700), StreamKind::Backfill, &cfg, 0);
    assert!(matches!(r2, Err(ArchiveError::ContinuityViolation)));
    let ok = resolve_target(Some(499), StreamKind::Backfill, &cfg, 0);
    assert!(matches!(ok, Ok(499)));
}

#[test]
fn resolve_target_falls_back_to_stream_defaults() {
    let cfg = network();
    assert!(matches!(resolve_target(None, StreamKind::LiveSync, &cfg, 3), Ok(500)));
    assert!(matches!(resolve_target(None, StreamKind::Backfill, &cfg, 3), Ok(3)));
}

#[test]
fn cursor_advances_one_height_at_a_time() {
    let mut cursor = StreamCursor { kind: StreamKind::LiveSync, next: 500 };
    cursor.advance();
    assert_eq!(cursor.next, 501);
    cursor.advance();
    assert_eq!(cursor.next, 502);
}

#[test]
fn fresh_ledger_has_no_records() {
    let led = StreamLedger::new();
    assert!(led.latest_archived().is_none());
    assert!(led.first_archived().is_none());
}

#[test]
fn last_archived_is_monotonic_across_cycles() {
    let mut led = StreamLedger::new();
    led.record_archived(100, "tx100".to_string());
    let a = led.latest_archived().unwrap().block_id;
    led.record_archived(101, "tx101".to_string());
    let b = led.latest_archived().unwrap().block_id;
    led.record_archived(102, "tx102".to_string());
    let c = led.latest_archived().unwrap().block_id;
    assert!(a <= b && b <= c);
    assert_eq!(c, 102);
}

#[test]
fn rerecording_a_height_keeps_latest_and_answers_last_txid() {
    let mut led = StreamLedger::new();
    led.record_archived(100, "tx-first".to_string());
    led.record_archived(100, "tx-second".to_string());
    assert_eq!(led.latest_archived().unwrap().block_id, 100);
    let txid = led.get_block_txid(100).unwrap().wvm_archive_txid;
    assert_eq!(txid, "tx-second");
}

#[test]
fn extreme_and_count_queries() {
    let mut live = StreamLedger::new();
    live.record_archived(502, "a".to_string());
    live.record_archived(500, "b".to_string());
    live.record_archived(501, "c".to_string());
    assert_eq!(live.first_archived().unwrap().block_id, 500);
    assert_eq!(live.latest_archived().unwrap().block_id, 502);
    let mut back = StreamLedger::new();
    back.record_archived(3, "d".to_string());
    assert_eq!(total_blocks_count(&live, &back).count, 4);
    assert!(back.get_block_txid(9).is_none());
}

#[test]
fn decompress_inverts_compress_on_empty_input() {
    let out = compress_round_trip(&[]);
    assert_eq!(out, Vec::<u8>::new());
}

#[test]
fn decompress_inverts_compress_on_bytes() {
    let data: Vec<u8> = vec![0, 1, 2, 3, 255, 254, 0, 0, 0, 42];
    let out = compress_round_trip(data.as_slice());
    assert_eq!(out, data);
    let compressed = brotli_compress(data.as_slice());
    let back = try_brotli_decompress(compressed.as_slice()).unwrap();
    assert_eq!(back, data);
}

#[test]
fn compression_actually_transforms_its_input() {
    let data: Vec<u8> = b"hello hello hello hello".to_vec();
    let compressed = brotli_compress(data.as_slice());
    assert_ne!(compressed, data);
}

#[test]
fn empty_payload_envelope_is_just_the_zero_prefix() {
    let block = PayloadBlock::new(String::new());
    let bytes = PayloadBlock::borsh_ser(&block);
    assert_eq!(bytes, vec![0, 0, 0, 0]);
    let back = PayloadBlock::try_borsh_der(&bytes).unwrap();
    assert_eq!(back.wvm_data, "");
}

#[test]
fn envelope_lays_out_length_prefix_then_bytes() {
    let block = PayloadBlock::new("hello".to_string());
    let bytes = PayloadBlock::borsh_ser(&block);
    assert_eq!(bytes, vec![5, 0, 0, 0, b'h', b'e', b'l', b'l', b'o']);
}

#[test]
fn envelope_decodes_back_to_the_same_block() {
    let block = PayloadBlock::new("{\"k\":\"v\"}".to_string());
    let again = envelope_round_trip(&block);
    assert_eq!(again, block);
    let direct = PayloadBlock::try_borsh_der(&PayloadBlock::borsh_ser(&block)).unwrap();
    assert_eq!(direct.wvm_data, "{\"k\":\"v\"}");
}

#[test]
fn envelope_rejects_wrong_prefix_or_invalid_utf8() {
    assert!(PayloadBlock::try_borsh_der(&vec![1, 0, 0, 0]).is_none());
    assert!(PayloadBlock::try_borsh_der(&vec![2, 0, 0, 0, b'a']).is_none());
    assert!(PayloadBlock::try_borsh_der(&vec![1, 0, 0, 0, 0xFF]).is_none());
    assert!(PayloadBlock::try_borsh_der(&vec![0, 0, 0]).is_none());
}

#[test]
fn archive_pipeline_is_reversible() {
    let raw = "{\"number\":\"100\",\"hash\":\"0xh\"}".to_string();
    let recovered = archive_round_trip(raw.clone()).unwrap();
    assert_eq!(recovered, raw);
}

#[test]
fn calldata_builds_and_decodes() {
    let raw = "{\"finalized\":true}".to_string();
    let calldata = build_calldata(raw.clone()).unwrap();
    let back = decode_calldata(calldata).unwrap();
    assert_eq!(back, raw);
}

#[test]
fn decode_calldata_rejects_empty_stream() {
    assert!(decode_calldata(Vec::new()).is_none());
}

#[test]
fn args_object_is_reencoded_as_json_string() {
    let ext = extrinsic_value(
        obj(vec![("a", JsonValue::Num(1))]),
        jstr("plain"),
        None,
    );
    let block = Block::load_block_from_value(&block_value(vec![ext], vec![])).unwrap();
    assert_eq!(block.extrinsics[0].args, "{\"a\":1}");
    assert_eq!(block.extrinsics[0].info, "plain");
}

#[test]
fn args_string_stays_as_is() {
    let ext = extrinsic_value(jstr("already-a-string"), jstr("i"), None);
    let block = Block::load_block_from_value(&block_value(vec![ext], vec![])).unwrap();
    assert_eq!(block.extrinsics[0].args, "already-a-string");
}

#[test]
fn info_array_is_reencoded_as_json_string() {
    let ext = extrinsic_value(jstr("a"), JsonValue::Arr(vec![JsonValue::Num(7), jstr("x")]), None);
    let block = Block::load_block_from_value(&block_value(vec![ext], vec![])).unwrap();
    assert_eq!(block.extrinsics[0].info, "[7,\"x\"]");
}

#[test]
fn event_data_array_keeps_only_strings() {
    let data = JsonValue::Arr(vec![jstr("x"), jstr("y"), JsonValue::Num(3)]);
    let ext = extrinsic_value(jstr("a"), jstr("i"), Some(data));
    let block = Block::load_block_from_value(&block_value(vec![ext], vec![])).unwrap();
    let decoded = &block.extrinsics[0].events[0].data;
    assert_eq!(decoded.len(), 2);
    assert!(matches!(&decoded[0], DataValue::Str(s) if s == "x"));
    assert!(matches!(&decoded[1], DataValue::Str(s) if s == "y"));
}

#[test]
fn extrinsic_event_data_must_be_an_array_when_present() {
    let ext = extrinsic_value(jstr("a"), jstr("i"), Some(obj(vec![("k", jstr("v"))])));
    let r = Block::load_block_from_value(&block_value(vec![ext], vec![]));
    assert!(matches!(r, Err(DecodeError::Malformed)));
}

#[test]
fn hook_events_decode_structured_and_numeric_data() {
    let weight = obj(vec![("refTime", jstr("1000")), ("proofSize", JsonValue::Null)]);
    let structured = obj(vec![
        ("weight", weight),
        ("class", jstr("Mandatory")),
        ("paysFee", jstr("No")),
    ]);
    let hook_event = obj(vec![
        ("method", method_value()),
        ("data", JsonValue::Arr(vec![structured, JsonValue::Num(42)])),
    ]);
    let block = Block::load_block_from_value(&block_value(vec![], vec![hook_event])).unwrap();
    let data = &block.on_initialize.events[0].data;
    assert_eq!(data.len(), 2);
    match &data[0] {
        DataValue::EventData(ed) => {
            assert_eq!(ed.weight.ref_time.as_deref(), Some("1000"));
            assert!(ed.weight.proof_size.is_none());
            assert_eq!(ed.class, "Mandatory");
            assert_eq!(ed.pays_fee, "No");
        },
        _ => panic!("expected the structured record"),
    }
    assert!(matches!(data[1], DataValue::Numeric(42)));
}

#[test]
fn decoded_block_carries_all_fields() {
    let block = Block::load_block_from_value(&block_value(vec![], vec![])).unwrap();
    assert_eq!(block.number, "100");
    assert_eq!(block.hash, "0xh");
    assert_eq!(block.parent_hash, "0xp");
    assert_eq!(block.state_root, "0xs");
    assert_eq!(block.extrinsics_root, "0xe");
    assert_eq!(block.author_id, "author");
    assert!(block.finalized);
    assert_eq!(block.logs.len(), 1);
    assert_eq!(block.logs[0].log_type, "seal");
    assert_eq!(block.logs[0].index, "5");
    assert_eq!(block.logs[0].value, vec!["0x01".to_string(), "0x02".to_string()]);
    assert!(block.on_finalize.events.is_empty());
}

#[test]
fn missing_required_field_is_a_permanent_error() {
    let mut incomplete = vec![("number", jstr("100"))];
    incomplete.push(("hash", jstr("0xh")));
    let r = Block::load_block_from_value(&obj(incomplete));
    assert!(matches!(r, Err(DecodeError::Malformed)));
    let r2 = Block::load_block_from_value(&JsonValue::Arr(vec![]));
    assert!(matches!(r2, Err(DecodeError::Malformed)));
}

#[test]
fn printer_renders_compact_json() {
    let v = obj(vec![
        ("a", JsonValue::Num(1)),
        ("b", JsonValue::Arr(vec![jstr("x"), JsonValue::Bool(true), JsonValue::Null])),
    ]);
    assert_eq!(json_to_string(&v), "{\"a\":1,\"b\":[\"x\",true,null]}");
}

#[test]
fn printer_escapes_string_literals() {
    let v = jstr("a\"b\\c\nd\te\u{8}f\u{c}g\rh\u{1}i");
    assert_eq!(
        json_to_string(&v),
        "\"a\\\"b\\\\c\\nd\\te\\bf\\fg\\rh\\u0001i\""
    );
}

#[test]
fn printer_renders_numbers_in_decimal() {
    assert_eq!(json_to_string(&JsonValue::Num(0)), "0");
    assert_eq!(json_to_string(&JsonValue::Num(105)), "105");
    assert_eq!(
        json_to_string(&JsonValue::Num(18446744073709551615)),
        "18446744073709551615"
    );
}

#[test]
fn parse_u64_reads_decimal_strings() {
    assert_eq!(parse_u64("0"), Some(0));
    assert_eq!(parse_u64("105"), Some(105));
    assert_eq!(parse_u64("007"), Some(7));
    assert_eq!(parse_u64("18446744073709551615"), Some(18446744073709551615));
}

#[test]
fn parse_u64_rejects_bad_input() {
    assert_eq!(parse_u64(""), None);
    assert_eq!(parse_u64("12a"), None);
    assert_eq!(parse_u64("-3"), None);
    assert_eq!(parse_u64(" 3"), None);
    assert_eq!(parse_u64("18446744073709551616"), None);
}

#[test]
fn head_number_is_read_from_the_number_field() {
    let v = obj(vec![("number", jstr("105")), ("hash", jstr("0xh"))]);
    assert_eq!(parse_head_number(&v), Some(105));
}

#[test]
fn head_response_of_any_other_shape_is_refused() {
    assert_eq!(parse_head_number(&obj(vec![("number", JsonValue::Num(105))])), None);
    assert_eq!(parse_head_number(&obj(vec![("height", jstr("105"))])), None);
    assert_eq!(parse_head_number(&jstr("105")), None);
}

#[test]
fn blocks_behind_reports_the_gap() {
    assert_eq!(blocks_behind(105, Some(100)), 5);
    assert_eq!(blocks_behind(105, None), 105);
    assert_eq!(blocks_behind(100, Some(100)), 0);
    assert_eq!(blocks_behind(99, Some(100)), 0);
}

#[test]
fn info_response_assembles_queried_values() {
    let cfg = network();
    let info = InfoServerResponse::new(
        Some(500),
        Some(520),
        Some(3),
        Some(40),
        525,
        58,
        "1000".to_string(),
        "2000".to_string(),
        &cfg,
    );
    assert_eq!(info.first_livesync_archived_block, Some(500));
    assert_eq!(info.last_livesync_archived_block, Some(520));
    assert_eq!(info.first_backfill_archived_block, Some(3));
    assert_eq!(info.last_backfill_archived_block, Some(40));
    assert_eq!(info.livesync_start_block, 500);
    assert_eq!(info.total_archived_blocks, 58);
    assert_eq!(info.blocks_behind_live_blockheight, 5);
    assert_eq!(info.archiver_balance, "1000");
    assert_eq!(info.backfill_balance, "2000");
    assert_eq!(info.archiver_address, "0xarchiver");
    assert_eq!(info.backfill_address, "0xbackfill");
    assert_eq!(info.network_name, "testnet");
    assert_eq!(info.network_rpc, "http://source.example");
}
