use bitwarden_secret_operator::bitwarden_cli::{
    parse_session_token, BitwardenCliClient, BitwardenCliWrapperStorage, BitwardenError,
    BitwardenGetItemResponse, BitwardenItem, BitwardenItemField, CliInvocation, CliOutcome,
};
use bitwarden_secret_operator::time::Timestamp;

fn text(s: &str) -> String {
    s.to_string()
}

fn client() -> BitwardenCliClient {
    BitwardenCliClient::from_env(Some(text("id")), Some(text("secret")), Some(text("password")))
        .unwrap()
}

fn exited(code: i32, stdout: &[u8], stderr: &[u8]) -> CliOutcome {
    CliOutcome::Exited { code: Some(code), stdout: stdout.to_vec(), stderr: stderr.to_vec() }
}

fn not_run(reason: &str) -> CliOutcome {
    CliOutcome::NotRun { reason: text(reason) }
}

fn at(secs: i64) -> Timestamp {
    Timestamp { secs, nanos: 0 }
}

const UNLOCK_OUTPUT: &[u8] = b"Your vault is now unlocked!\n\nTo unlock your vault, set your session key to the `BW_SESSION` environment variable. ex:\n$ export BW_SESSION=\"c2Vzc2lvbi10b2tlbg==\"\n> $env:BW_SESSION=\"c2Vzc2lvbi10b2tlbg==\"\n";

fn unlocked() -> BitwardenCliClient {
    let mut c = client();
    c.unlock_at(exited(0, UNLOCK_OUTPUT, b""), at(100)).unwrap();
    c
}

fn pairs(list: &[(&str, &str)]) -> Vec<(String, String)> {
    list.iter().map(|(k, v)| (text(k), text(v))).collect()
}

fn words(list: &[&str]) -> Vec<String> {
    list.iter().map(|w| text(w)).collect()
}

fn assert_invocation(command: &CliInvocation, args: &[&str], env: &[(&str, &str)]) {
    assert_eq!(command.program, "bw");
    assert_eq!(command.args, words(args));
    assert_eq!(command.env, pairs(env));
}

fn item() -> BitwardenItem {
    BitwardenItem {
        id: text("00000000-0000-0000-0000-000000000000"),
        note: None,
        fields: Some(vec![BitwardenItemField {
            name: text("super-secret-field"),
            value: text("super-secret"),
        }]),
    }
}

#[test]
fn a_client_needs_all_three_credentials() {
    let missing = |name: &str| BitwardenError::MissingEnvVariable(text(name));
    let some = |s: &str| Some(text(s));
    assert_eq!(
        BitwardenCliClient::from_env(None, some("s"), some("p")).unwrap_err(),
        missing("BW_CLIENTID")
    );
    assert_eq!(
        BitwardenCliClient::from_env(some("i"), None, some("p")).unwrap_err(),
        missing("BW_CLIENTSECRET")
    );
    assert_eq!(
        BitwardenCliClient::from_env(some("i"), some("s"), None).unwrap_err(),
        missing("BW_PASSWORD")
    );
    assert_eq!(BitwardenCliClient::from_env(None, None, None).unwrap_err(), missing("BW_CLIENTID"));
    assert_eq!(
        BitwardenCliClient::from_env(some("i"), None, None).unwrap_err(),
        missing("BW_CLIENTSECRET")
    );
}

#[test]
fn a_new_session_holds_nothing() {
    let c = client();
    assert_eq!(c.storage().session_token(), None);
    assert_eq!(c.storage().last_unlock(), None);
    assert_eq!(c.storage().last_sync(), None);
    assert!(!c.storage().needs_relog());
    let storage = BitwardenCliWrapperStorage::default();
    assert_eq!(storage.session_token(), None);
    assert!(!storage.needs_relog());
}

#[test]
fn the_login_command_carries_the_api_key() {
    assert_invocation(
        &client().login_command(),
        &["login", "--apikey", "--nointeraction"],
        &[("BW_CLIENTID", "id"), ("BW_CLIENTSECRET", "secret")],
    );
}

#[test]
fn login_succeeds_on_exit_status_zero() {
    assert_eq!(client().login(exited(0, b"You are logged in!", b"")), Ok(()));
}

#[test]
fn login_succeeds_where_a_login_is_already_in_place() {
    let outcome = exited(1, b"", b"You are already logged in as someone@example.com.");
    assert_eq!(client().login(outcome), Ok(()));
    let bare = exited(1, b"", b"You are already logged in as");
    assert_eq!(client().login(bare), Ok(()));
}

#[test]
fn login_fails_on_exit_status_one_with_another_complaint() {
    let expected = Err(BitwardenError::LoginFailed(text(
        "Login Error: CLI returned exitCode 1 but not 'already logged in'",
    )));
    assert_eq!(client().login(exited(1, b"", b"client_id or client_secret is incorrect")), expected);
    assert_eq!(client().login(exited(1, b"", b"")), expected);
    assert_eq!(client().login(exited(1, b"", b"You are already logged in a")), expected);
    assert_eq!(client().login(exited(1, b"", b" You are already logged in as x")), expected);
    assert_eq!(client().login(exited(1, b"You are already logged in as x", b"")), expected);
}

#[test]
fn login_fails_on_error_output_that_is_no_text() {
    let expected = Err(BitwardenError::LoginFailed(text("Couldn't get stderr")));
    assert_eq!(client().login(exited(1, b"", &[0xff, 0xfe])), expected);
    let mut stderr = b"You are already logged in as ".to_vec();
    stderr.push(0xc3);
    assert_eq!(client().login(exited(1, b"", &stderr)), expected);
}

#[test]
fn login_fails_on_any_other_exit_status() {
    let failed = |code: &str| {
        Err(BitwardenError::LoginFailed(format!(
            "Login Error: CLI returned unhandled exitCode: {}",
            code
        )))
    };
    assert_eq!(client().login(exited(2, b"", b"")), failed("2"));
    assert_eq!(client().login(exited(127, b"", b"You are already logged in as")), failed("127"));
    assert_eq!(client().login(exited(-1, b"", b"")), failed("-1"));
    assert_eq!(client().login(exited(i32::MIN, b"", b"")), failed("-2147483648"));
}

#[test]
fn login_counts_a_run_without_exit_code_as_exit_status_zero() {
    let outcome = CliOutcome::Exited { code: None, stdout: vec![], stderr: vec![] };
    assert_eq!(client().login(outcome), Ok(()));
}

#[test]
fn login_reports_a_tool_that_could_not_be_run() {
    assert_eq!(
        client().login(not_run("No such file or directory (os error 2)")),
        Err(BitwardenError::IoError(text("No such file or directory (os error 2)")))
    );
}

#[test]
fn the_unlock_command_carries_the_password() {
    assert_invocation(
        &client().unlock_command(),
        &["unlock", "--passwordenv", "BW_PASSWORD", "--nointeraction"],
        &[("BW_CLIENTID", "id"), ("BW_CLIENTSECRET", "secret"), ("BW_PASSWORD", "password")],
    );
}

#[test]
fn the_token_stands_between_the_marker_and_the_next_quote() {
    assert_eq!(parse_session_token(UNLOCK_OUTPUT), Some(text("c2Vzc2lvbi10b2tlbg==")));
    assert_eq!(parse_session_token(b"BW_SESSION=\"t\""), Some(text("t")));
    assert_eq!(parse_session_token(b"BW_SESSION=\"\""), Some(text("")));
    assert_eq!(parse_session_token(b"xBW_SESSION=\"first\" BW_SESSION=\"second\""), Some(text("first")));
    assert_eq!(parse_session_token("BW_SESSION=\"schl\u{fc}ssel\"".as_bytes()), Some(text("schl\u{fc}ssel")));
}

#[test]
fn output_without_marker_or_closing_quote_holds_no_token() {
    assert_eq!(parse_session_token(b""), None);
    assert_eq!(parse_session_token(b"Invalid master password."), None);
    assert_eq!(parse_session_token(b"BW_SESSION=token"), None);
    assert_eq!(parse_session_token(b"BW_SESSION=\"token"), None);
    assert_eq!(parse_session_token(b"\"BW_SESSION=\""), None);
    assert_eq!(parse_session_token(b"bw_session=\"token\""), None);
}

#[test]
fn a_token_that_is_no_text_is_no_token() {
    let mut output = b"BW_SESSION=\"".to_vec();
    output.extend_from_slice(&[0xff, 0x41]);
    output.push(b'"');
    assert_eq!(parse_session_token(&output), None);
}

#[test]
fn unlock_stores_the_token_and_the_time() {
    let mut c = client();
    let now = Timestamp { secs: 1_700_000_000, nanos: 5 };
    assert_eq!(c.unlock_at(exited(0, UNLOCK_OUTPUT, b""), now), Ok(()));
    assert_eq!(c.storage().session_token(), Some(&text("c2Vzc2lvbi10b2tlbg==")));
    assert_eq!(c.storage().last_unlock(), Some(now));
    assert_eq!(c.storage().last_sync(), None);
    assert!(!c.storage().needs_relog());
}

#[test]
fn unlock_without_marker_fails_and_stores_no_token() {
    let mut c = client();
    assert_eq!(
        c.unlock_at(exited(0, b"Invalid master password.", b""), at(1)),
        Err(BitwardenError::UnlockFailed)
    );
    assert_eq!(c.storage().session_token(), None);
    assert_eq!(c.storage().last_unlock(), None);
    assert_eq!(c.sync_command().unwrap_err(), BitwardenError::SyncFailedTokenMissing);
    assert_eq!(c.sync_at(exited(0, b"", b""), at(2)), Err(BitwardenError::SyncFailedTokenMissing));
    assert_eq!(c.get_item_command("abc").unwrap_err(), BitwardenError::SyncFailedTokenMissing);
    assert_eq!(
        c.get_item(
            text("abc"),
            exited(0, b"", b""),
            Some(BitwardenGetItemResponse { data: Some(item()), success: true })
        )
        .unwrap_err(),
        BitwardenError::SyncFailedTokenMissing
    );
    assert_eq!(c.storage().last_sync(), None);
    assert!(!c.storage().needs_relog());
}

#[test]
fn unlock_fails_where_the_tool_fails() {
    let mut c = client();
    assert_eq!(c.unlock_at(exited(1, UNLOCK_OUTPUT, b""), at(1)), Err(BitwardenError::UnlockFailed));
    assert_eq!(c.unlock_at(not_run("boom"), at(1)), Err(BitwardenError::UnlockFailed));
    assert_eq!(c.storage().session_token(), None);
    assert_eq!(c.storage().last_unlock(), None);
}

#[test]
fn a_failed_unlock_keeps_the_old_token() {
    let mut c = unlocked();
    assert_eq!(c.unlock_at(exited(0, b"nothing here", b""), at(200)), Err(BitwardenError::UnlockFailed));
    assert_eq!(c.storage().session_token(), Some(&text("c2Vzc2lvbi10b2tlbg==")));
    assert_eq!(c.storage().last_unlock(), Some(at(100)));
}

#[test]
fn unlock_by_the_clock_stores_a_time() {
    let mut c = client();
    assert_eq!(c.unlock(exited(0, UNLOCK_OUTPUT, b"")), Ok(()));
    assert_eq!(c.storage().session_token(), Some(&text("c2Vzc2lvbi10b2tlbg==")));
    assert!(c.storage().last_unlock().unwrap().secs > 1_600_000_000);
}

#[test]
fn the_sync_command_carries_the_token() {
    assert_invocation(
        &unlocked().sync_command().unwrap(),
        &["sync"],
        &[("BW_SESSION", "c2Vzc2lvbi10b2tlbg==")],
    );
}

#[test]
fn sync_records_the_time() {
    let mut c = unlocked();
    assert_eq!(c.sync_at(exited(0, b"Syncing complete.", b""), at(300)), Ok(()));
    assert_eq!(c.storage().last_sync(), Some(at(300)));
    assert!(!c.storage().needs_relog());
    assert_eq!(c.sync(exited(0, b"Syncing complete.", b"")), Ok(()));
    assert!(c.storage().last_sync().unwrap().secs > 1_600_000_000);
}

#[test]
fn a_failed_sync_calls_for_a_new_login() {
    let mut c = unlocked();
    assert_eq!(c.sync_at(exited(1, b"", b"Not found"), at(300)), Err(BitwardenError::SyncFailed));
    assert!(c.storage().needs_relog());
    assert_eq!(c.storage().last_sync(), None);
    let mut d = unlocked();
    assert_eq!(d.sync_at(not_run("boom"), at(300)), Err(BitwardenError::SyncFailed));
    assert!(d.storage().needs_relog());
}

#[test]
fn nothing_takes_the_call_for_a_new_login_back() {
    let mut c = unlocked();
    assert_eq!(c.sync_at(not_run("boom"), at(300)), Err(BitwardenError::SyncFailed));
    assert!(c.storage().needs_relog());
    assert_eq!(c.sync_at(exited(0, b"", b""), at(400)), Ok(()));
    assert!(c.storage().needs_relog());
    assert_eq!(c.unlock_at(exited(0, UNLOCK_OUTPUT, b""), at(500)), Ok(()));
    assert!(c.storage().needs_relog());
    let response = BitwardenGetItemResponse { data: Some(item()), success: true };
    assert!(c.get_item(text("abc"), exited(0, b"", b""), Some(response)).is_ok());
    assert!(c.storage().needs_relog());
}

#[test]
fn the_item_command_carries_the_id_and_the_token() {
    assert_invocation(
        &unlocked().get_item_command("abc").unwrap(),
        &["--response", "get", "item", "abc", "--nointeraction"],
        &[("BW_SESSION", "c2Vzc2lvbi10b2tlbg==")],
    );
}

#[test]
fn an_item_is_handed_out() {
    let mut c = unlocked();
    let response = BitwardenGetItemResponse { data: Some(item()), success: true };
    let got = c.get_item(text("abc"), exited(0, b"{}", b""), Some(response)).unwrap();
    assert_eq!(got.id, "00000000-0000-0000-0000-000000000000");
    let fields = got.fields.unwrap();
    assert_eq!(fields.len(), 1);
    assert_eq!(fields[0].name, "super-secret-field");
    assert_eq!(fields[0].value, "super-secret");
    assert_eq!(got.note, None);
    assert!(!c.storage().needs_relog());
}

#[test]
fn an_item_counts_as_not_found() {
    let not_found = BitwardenError::ItemNotFound(text("abc"));
    let mut c = unlocked();
    assert_eq!(c.get_item(text("abc"), exited(0, b"garbage", b""), None).unwrap_err(), not_found);
    let failed = BitwardenGetItemResponse { data: Some(item()), success: false };
    assert_eq!(c.get_item(text("abc"), exited(0, b"", b""), Some(failed)).unwrap_err(), not_found);
    let empty = BitwardenGetItemResponse { data: None, success: true };
    assert_eq!(c.get_item(text("abc"), exited(0, b"", b""), Some(empty)).unwrap_err(), not_found);
    let neither = BitwardenGetItemResponse { data: None, success: false };
    assert_eq!(c.get_item(text("abc"), exited(0, b"", b""), Some(neither)).unwrap_err(), not_found);
    assert!(!c.storage().needs_relog());
}

#[test]
fn a_failed_item_request_calls_for_a_new_login() {
    let mut c = unlocked();
    let response = BitwardenGetItemResponse { data: Some(item()), success: true };
    assert_eq!(
        c.get_item(text("abc"), exited(1, b"", b"oops"), Some(response)).unwrap_err(),
        BitwardenError::GetItemGenericFail(text("abc"), text("CLI returned exitCode: 1"))
    );
    assert!(c.storage().needs_relog());

    let mut d = unlocked();
    assert_eq!(
        d.get_item(text("xyz"), not_run("spawn failed"), None).unwrap_err(),
        BitwardenError::GetItemGenericFail(text("xyz"), text("spawn failed"))
    );
    assert!(d.storage().needs_relog());
}

#[test]
fn a_failed_item_request_does_not_heal_by_itself() {
    let mut c = unlocked();
    assert!(c.get_item(text("abc"), exited(1, b"", b""), None).is_err());
    assert!(c.storage().needs_relog());
    assert_eq!(c.storage().session_token(), Some(&text("c2Vzc2lvbi10b2tlbg==")));
    assert_invocation(
        &c.get_item_command("abc").unwrap(),
        &["--response", "get", "item", "abc", "--nointeraction"],
        &[("BW_SESSION", "c2Vzc2lvbi10b2tlbg==")],
    );
    assert!(c.get_item(text("abc"), exited(1, b"", b""), None).is_err());
    assert!(c.storage().needs_relog());

    assert_eq!(c.unlock_at(exited(0, b"BW_SESSION=\"fresh\"", b""), at(900)), Ok(()));
    assert_eq!(c.storage().session_token(), Some(&text("fresh")));
    assert_invocation(
        &c.get_item_command("abc").unwrap(),
        &["--response", "get", "item", "abc", "--nointeraction"],
        &[("BW_SESSION", "fresh")],
    );
}

fn token_by_text_search(output: &str) -> Option<String> {
    let marker = "BW_SESSION=\"";
    let begin = output.find(marker)? + marker.len();
    let end = output[begin..].find('"')?;
    Some(output[begin..(begin + end)].to_string())
}

#[test]
fn the_token_is_the_one_a_search_in_the_text_finds() {
    let outputs = [
        "",
        "\"",
        "BW_SESSION=",
        "BW_SESSION=\"",
        "BW_SESSION=\"\"",
        "BW_SESSION=\"a\"",
        "BW_SESSION=\"a\"b\"",
        "BW_SESSION=\"BW_SESSION=\"x\"",
        "BW_SESSIO=\"x\" BW_SESSION=\"y\" BW_SESSION=\"z\"",
        "gr\u{fc}\u{df}e BW_SESSION=\"t\u{f6}ken\" \u{2713}",
        "\u{1f511}BW_SESSION=\"\u{1f511}\"",
        "export BW_SESSION=\"abc==\"\n$env:BW_SESSION=\"abc==\"\n",
    ];
    for output in outputs {
        assert_eq!(parse_session_token(output.as_bytes()), token_by_text_search(output));
    }
}
