use command_bridge::bridge::{decode_outcome, BridgeFailure, FailureKind, SpawnOutcome};
use command_bridge::op::Operation;
use command_bridge::text::trim;

const ALL_OPERATIONS: [Operation; 13] = [
    Operation::Login,
    Operation::CreateRecord,
    Operation::ListRecords,
    Operation::UpdateRecord,
    Operation::DeleteRecord,
    Operation::CreateStaff,
    Operation::ListStaff,
    Operation::UpdateStaff,
    Operation::DeleteStaff,
    Operation::ListAuditLogs,
    Operation::ListUsers,
    Operation::BackupDatabase,
    Operation::ImportDatabase,
];

fn completed(exit_ok: bool, stdout: &str, stderr: &str) -> SpawnOutcome {
    SpawnOutcome::Completed {
        exit_ok,
        stdout: stdout.to_string(),
        stderr: stderr.to_string(),
    }
}

fn expect_failure(r: Result<String, BridgeFailure>) -> BridgeFailure {
    match r {
        Ok(payload) => panic!("expected a failure, got payload {payload:?}"),
        Err(failure) => failure,
    }
}

#[test]
fn success_returns_trimmed_payload_for_every_operation() {
    for op in ALL_OPERATIONS {
        let outcome = completed(true, "  {\"ok\":true} \n", "ignored");
        let r = decode_outcome(op, &outcome);
        assert_eq!(r.unwrap(), "{\"ok\":true}");
    }
}

#[test]
fn failure_carries_stderr_for_every_operation() {
    for op in ALL_OPERATIONS {
        let outcome = completed(false, "ignored", "boom");
        let failure = expect_failure(decode_outcome(op, &outcome));
        assert_eq!(failure.kind, FailureKind::Execution);
        assert!(failure.message.contains("boom"));
        assert_eq!(failure.message, format!("{}boom", op.error_prefix()));
    }
}

#[test]
fn error_prefixes_match_the_catalogue() {
    let outcome = completed(false, "", "no such user");
    let failure = expect_failure(decode_outcome(Operation::Login, &outcome));
    assert_eq!(failure.message, "Authentication failed: no such user");

    let outcome = completed(false, "", "duplicate entry");
    let failure = expect_failure(decode_outcome(Operation::CreateRecord, &outcome));
    assert_eq!(failure.message, "Failed to create record: duplicate entry");

    let outcome = completed(false, "", "disk full");
    let failure = expect_failure(decode_outcome(Operation::BackupDatabase, &outcome));
    assert_eq!(failure.message, "Backup failed: disk full");

    let outcome = completed(false, "", "bad archive");
    let failure = expect_failure(decode_outcome(Operation::ImportDatabase, &outcome));
    assert_eq!(failure.message, "Import failed: bad archive");
}

#[test]
fn spawn_failure_is_a_distinct_category() {
    let missing = SpawnOutcome::SpawnFailed {
        message: "No such file or directory".to_string(),
    };
    let spawn_failure = expect_failure(decode_outcome(Operation::Login, &missing));
    assert_eq!(spawn_failure.kind, FailureKind::Spawn);
    assert_eq!(
        spawn_failure.message,
        "Failed to execute node process: No such file or directory"
    );

    let ran = completed(false, "", "No such file or directory");
    let execution_failure = expect_failure(decode_outcome(Operation::Login, &ran));
    assert_eq!(execution_failure.kind, FailureKind::Execution);
    assert_ne!(spawn_failure.kind, execution_failure.kind);
}

#[test]
fn spawn_failure_prefix_for_backup_and_import() {
    let missing = SpawnOutcome::SpawnFailed { message: "interpreter missing".to_string() };
    let failure = expect_failure(decode_outcome(Operation::BackupDatabase, &missing));
    assert_eq!(failure.message, "Failed to execute backup command: interpreter missing");
    let missing = SpawnOutcome::SpawnFailed { message: "interpreter missing".to_string() };
    let failure = expect_failure(decode_outcome(Operation::ImportDatabase, &missing));
    assert_eq!(failure.message, "Failed to execute import command: interpreter missing");
}

#[test]
fn results_correspond_to_their_own_invocation() {
    let invocations = [
        (Operation::ListRecords, completed(true, "records\n", "")),
        (Operation::ListStaff, completed(true, "staff\n", "")),
        (Operation::ListUsers, completed(false, "", "users unavailable")),
    ];
    let results: Vec<Result<String, BridgeFailure>> = invocations
        .iter()
        .map(|(op, outcome)| decode_outcome(*op, outcome))
        .collect();
    assert_eq!(results[0].as_ref().unwrap(), "records");
    assert_eq!(results[1].as_ref().unwrap(), "staff");
    let failure = results[2].as_ref().unwrap_err();
    assert_eq!(failure.message, "Failed to fetch users: users unavailable");
}

#[test]
fn empty_output_decodes_to_empty_payload() {
    let outcome = completed(true, "", "");
    assert_eq!(decode_outcome(Operation::ListUsers, &outcome).unwrap(), "");
    let outcome = completed(true, " \t\r\n", "");
    assert_eq!(decode_outcome(Operation::ListUsers, &outcome).unwrap(), "");
}

#[test]
fn trim_removes_only_surrounding_whitespace() {
    assert_eq!(trim(""), "");
    assert_eq!(trim("   \t\n\r"), "");
    assert_eq!(trim("a b"), "a b");
    assert_eq!(trim("\n x y \r\n"), "x y");
    assert_eq!(trim("no-space"), "no-space");
}

#[test]
fn trim_matches_the_unicode_whitespace_set() {
    for wrapped in [
        "x\u{000C}",
        "\u{000B}x",
        "\u{0085}\u{00A0}x\u{1680}",
        "\u{2000}\u{2007}\u{200A}x\u{2028}\u{2029}",
        "\u{202F}\u{205F}x\u{3000}",
    ] {
        assert_eq!(trim(wrapped), "x");
        assert_eq!(trim(wrapped), wrapped.trim());
    }
    // Characters outside the White_Space set stay, zero-width space included.
    assert_eq!(trim("\u{200B}x\u{200B}"), "\u{200B}x\u{200B}");
}

#[test]
fn success_payload_sheds_a_form_feed() {
    for op in ALL_OPERATIONS {
        let outcome = completed(true, "x\u{000C}", "");
        assert_eq!(decode_outcome(op, &outcome).unwrap(), "x");
    }
}
