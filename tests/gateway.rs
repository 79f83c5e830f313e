use block_explorer::block::{describe_block, BlockMetadata, QueryOutcome};
use block_explorer::interactive::{GuiApp, UiCommand, UiEvent, UiPhase};
use block_explorer::number::parse_block_number;
use block_explorer::query::{Query, QueryPhase};
use block_explorer::response::{outcome_message, reply_for, reply_invalid, reply_to, HttpReply};
use block_explorer::shutdown::{exit_code, AwaitDecision, Frontend, ShutdownCoordinator, POLL_INTERVAL_MS};
use block_explorer::text::{digit_to_char, push_decimal, push_hex};

fn sample_hash() -> [u8; 32] {
    let mut hash = [0u8; 32];
    hash[0] = 0xab;
    hash[1] = 0xc0;
    hash[31] = 0x0f;
    hash
}

fn run_query(raw: &str, remote: QueryOutcome) -> (Option<u64>, Option<HttpReply>) {
    let mut q = Query::start(raw);
    let asked = q.pending_fetch();
    if asked.is_some() {
        assert!(q.deliver(remote));
    }
    (asked, reply_to(&q))
}

#[test]
fn found_block_reply() {
    let meta = BlockMetadata { hash: sample_hash(), timestamp: 1690000000 };
    let (asked, reply) = run_query("12345", QueryOutcome::Found(meta));
    assert_eq!(asked, Some(12345));
    let reply = reply.unwrap();
    assert_eq!(reply.status, 200);
    assert!(reply.body.contains("12345"));
    assert!(reply.body.contains("0xabc0"));
    assert!(reply.body.contains("1690000000"));
    assert_eq!(
        reply.body,
        "Block 12345: Hash: 0xabc000000000000000000000000000000000000000000000000000000000000f, Timestamp: 1690000000"
    );
}

#[test]
fn not_found_reply() {
    let (asked, reply) = run_query("999999999999", QueryOutcome::NotFound);
    assert_eq!(asked, Some(999999999999));
    let reply = reply.unwrap();
    assert_eq!(reply.status, 404);
    assert_eq!(reply.body, "block not found");
}

#[test]
fn negative_number_rejected() {
    let (asked, reply) = run_query("-5", QueryOutcome::NotFound);
    assert_eq!(asked, None);
    let reply = reply.unwrap();
    assert_eq!(reply.status, 400);
    assert_eq!(reply.body, "invalid block number");
}

#[test]
fn upstream_failure_reply() {
    let (asked, reply) = run_query("7", QueryOutcome::Failed("connection refused".to_string()));
    assert_eq!(asked, Some(7));
    let reply = reply.unwrap();
    assert_eq!(reply.status, 500);
    assert!(reply.body.contains("connection refused"));
    assert_eq!(reply.body, "failed to fetch block 7: connection refused");
}

#[test]
fn close_while_querying() {
    let mut coord = ShutdownCoordinator::new();
    let mut ui = GuiApp::new();
    let cmd = ui.step(UiEvent::Submit(Some("42".to_string())), &mut coord);
    assert_eq!(cmd, UiCommand::Dispatch(42));
    assert_eq!(ui.phase, UiPhase::Querying(42));
    let cmd = ui.step(UiEvent::Close, &mut coord);
    assert_eq!(cmd, UiCommand::Quit);
    assert_eq!(ui.phase, UiPhase::ShuttingDown);
    assert!(coord.is_signaled());
    assert!(coord.is_terminal(Frontend::Interactive));
    // The worker's late answer changes nothing.
    let cmd = ui.step(UiEvent::WorkerFinished(QueryOutcome::NotFound), &mut coord);
    assert_eq!(cmd, UiCommand::Nothing);
    assert_eq!(ui.phase, UiPhase::ShuttingDown);
    // The network side ends too, and the wait finishes cleanly.
    coord.mark_terminal(Frontend::Network);
    let d = coord.await_step(0, 1000);
    assert_eq!(d, AwaitDecision::Finished);
    assert_eq!(exit_code(d), 0);
}

#[test]
fn valid_query_asks_remote_once() {
    let mut q = Query::start("100");
    assert_eq!(q.number, Some(100));
    assert_eq!(q.pending_fetch(), Some(100));
    assert!(q.outcome().is_none());
    assert!(q.deliver(QueryOutcome::NotFound));
    assert_eq!(q.pending_fetch(), None);
    assert!(!q.deliver(QueryOutcome::Failed("late".to_string())));
    assert_eq!(q.outcome(), Some(&QueryOutcome::NotFound));
}

#[test]
fn malformed_inputs_never_ask_remote() {
    for raw in ["", "-5", "+5", " 5", "5 ", "12a", "0x10", "1.5", "18446744073709551616"] {
        let mut q = Query::start(raw);
        assert_eq!(q.pending_fetch(), None, "input {:?}", raw);
        assert_eq!(q.phase, QueryPhase::Done(QueryOutcome::Failed("invalid number".to_string())));
        assert!(!q.deliver(QueryOutcome::NotFound));
        assert_eq!(reply_to(&q), Some(reply_invalid()));
    }
}

#[test]
fn parse_accepts_digits_only() {
    assert_eq!(parse_block_number("0"), Some(0));
    assert_eq!(parse_block_number("007"), Some(7));
    assert_eq!(parse_block_number("12345"), Some(12345));
    assert_eq!(parse_block_number("18446744073709551615"), Some(u64::MAX));
    assert_eq!(parse_block_number("18446744073709551616"), None);
    assert_eq!(parse_block_number("99999999999999999999"), None);
    assert_eq!(parse_block_number(""), None);
    assert_eq!(parse_block_number("٣"), None);
}

#[test]
fn decimal_and_hex_rendering() {
    let mut s = String::from("n=");
    push_decimal(&mut s, 0);
    assert_eq!(s, "n=0");
    let mut s = String::new();
    push_decimal(&mut s, u64::MAX);
    assert_eq!(s, "18446744073709551615");
    let mut s = String::new();
    let mut bytes = [0u8; 32];
    for (i, b) in bytes.iter_mut().enumerate() {
        *b = (i * 8) as u8;
    }
    push_hex(&mut s, &bytes);
    assert_eq!(s, "0008101820283038404850586068707880889098a0a8b0b8c0c8d0d8e0e8f0f8");
    assert_eq!(digit_to_char(9), '9');
    assert_eq!(digit_to_char(15), 'f');
}

#[test]
fn describe_block_formats_all_fields() {
    let meta = BlockMetadata { hash: [0xff; 32], timestamp: 5 };
    let text = describe_block(1, &meta);
    assert_eq!(text, format!("Block 1: Hash: 0x{}, Timestamp: 5", "ff".repeat(32)));
    assert_eq!(outcome_message(1, &QueryOutcome::Found(meta)), text);
}

#[test]
fn replies_map_each_outcome() {
    let meta = BlockMetadata { hash: [0; 32], timestamp: 0 };
    assert_eq!(reply_for(3, &QueryOutcome::Found(meta)).status, 200);
    assert_eq!(reply_for(3, &QueryOutcome::NotFound).status, 404);
    assert_eq!(reply_for(3, &QueryOutcome::Failed("x".to_string())).status, 500);
    let invalid = reply_invalid();
    assert_eq!(invalid.status, 400);
    assert_eq!(invalid.body, "invalid block number");
}

#[test]
fn concurrent_requests_keep_their_numbers() {
    let numbers: Vec<u64> = (1..=20).map(|i| i * 1000 + i).collect();
    let mut queries: Vec<Query> = numbers.iter().map(|n| Query::start(&n.to_string())).collect();
    // Answers arrive in reverse order, each for the number its query asked.
    for q in queries.iter_mut().rev() {
        let n = q.pending_fetch().unwrap();
        let meta = BlockMetadata { hash: [(n % 256) as u8; 32], timestamp: n * 2 };
        assert!(q.deliver(QueryOutcome::Found(meta)));
    }
    for (q, n) in queries.iter().zip(numbers.iter()) {
        let reply = reply_to(q).unwrap();
        assert_eq!(reply.status, 200);
        assert!(reply.body.starts_with(&format!("Block {}:", n)));
        assert!(reply.body.ends_with(&format!("Timestamp: {}", n * 2)));
    }
}

#[test]
fn pending_query_has_no_reply_yet() {
    let q = Query::start("5");
    assert_eq!(reply_to(&q), None);
}

#[test]
fn trigger_is_idempotent() {
    let mut coord = ShutdownCoordinator::new();
    assert!(!coord.is_signaled());
    assert!(coord.trigger());
    for _ in 0..5 {
        assert!(!coord.trigger());
        assert!(coord.is_signaled());
    }
    assert!(!coord.all_terminal());
}

#[test]
fn await_finishes_once_both_terminal() {
    let mut coord = ShutdownCoordinator::new();
    coord.trigger();
    assert_eq!(coord.await_step(0, 1000), AwaitDecision::Wait(POLL_INTERVAL_MS));
    coord.mark_terminal(Frontend::Network);
    assert_eq!(coord.await_step(50, 1000), AwaitDecision::Wait(POLL_INTERVAL_MS));
    coord.mark_terminal(Frontend::Interactive);
    assert!(coord.all_terminal());
    assert_eq!(coord.await_step(100, 1000), AwaitDecision::Finished);
    assert_eq!(coord.await_step(5000, 1000), AwaitDecision::Finished);
}

#[test]
fn await_times_out_exactly_at_timeout() {
    let mut coord = ShutdownCoordinator::new();
    coord.trigger();
    coord.mark_terminal(Frontend::Network);
    let timeout: u64 = 1030;
    let mut elapsed: u64 = 0;
    let decision = loop {
        match coord.await_step(elapsed, timeout) {
            AwaitDecision::Wait(ms) => {
                assert!(ms > 0 && elapsed + ms <= timeout);
                elapsed += ms;
            }
            other => break other,
        }
    };
    assert_eq!(decision, AwaitDecision::TimedOut);
    assert_eq!(elapsed, timeout);
    assert_eq!(exit_code(decision), 1);
}

#[test]
fn ui_round_trip_and_errors() {
    let mut coord = ShutdownCoordinator::new();
    let mut ui = GuiApp::new();
    assert_eq!(ui.phase, UiPhase::Idle);
    // Nothing entered is a validation failure, not a crash.
    let cmd = ui.step(UiEvent::Submit(None), &mut coord);
    assert_eq!(cmd, UiCommand::Show("invalid block number".to_string()));
    assert_eq!(ui.phase, UiPhase::Displaying);
    assert_eq!(ui.step(UiEvent::Displayed, &mut coord), UiCommand::Nothing);
    assert_eq!(ui.phase, UiPhase::Idle);
    // A second submission while querying is ignored.
    assert_eq!(ui.step(UiEvent::Submit(Some("9".to_string())), &mut coord), UiCommand::Dispatch(9));
    assert_eq!(ui.step(UiEvent::Submit(Some("10".to_string())), &mut coord), UiCommand::Nothing);
    assert_eq!(ui.phase, UiPhase::Querying(9));
    let cmd = ui.step(UiEvent::WorkerFinished(QueryOutcome::NotFound), &mut coord);
    assert_eq!(cmd, UiCommand::Show("block not found".to_string()));
    assert_eq!(ui.display, "block not found");
    ui.step(UiEvent::Displayed, &mut coord);
    // A crashed worker still ends in a displayed error.
    ui.step(UiEvent::Submit(Some("11".to_string())), &mut coord);
    let cmd = ui.step(UiEvent::WorkerCrashed, &mut coord);
    assert_eq!(cmd, UiCommand::Show("failed to fetch block info".to_string()));
    assert_eq!(ui.phase, UiPhase::Displaying);
    assert!(!coord.is_signaled());
    // Closing twice quits once.
    assert_eq!(ui.step(UiEvent::Close, &mut coord), UiCommand::Quit);
    assert_eq!(ui.step(UiEvent::Close, &mut coord), UiCommand::Nothing);
}

#[test]
fn gui_shutdown_from_idle() {
    let mut coord = ShutdownCoordinator::new();
    let mut ui = GuiApp::new();
    assert_eq!(ui.shutdown(&mut coord), UiCommand::Quit);
    assert_eq!(ui.phase, UiPhase::ShuttingDown);
    assert!(coord.is_signaled());
    assert!(coord.is_terminal(Frontend::Interactive));
    assert!(!coord.is_terminal(Frontend::Network));
    assert_eq!(ui.shutdown(&mut coord), UiCommand::Nothing);
    assert_eq!(ui.step(UiEvent::Submit(Some("1".to_string())), &mut coord), UiCommand::Nothing);
}
