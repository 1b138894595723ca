//! The session against the vault's command line tool.

use crate::text::{
    bytes_match_at, copy_range, decimal_string, decimal_text, find_bytes, first_occurrence,
    lemma_first_occurrence_none, occurs_at, string_from_utf8,
};
use crate::time::{current_time, Timestamp};
use crate::views::result_view;
use vstd::prelude::*;
use vstd::string::*;
use vstd::utf8::*;

verus! {

/// One named field of a vault item.
#[derive(Clone, Debug)]
pub struct BitwardenItemField {
    pub name: String,
    pub value: String,
}

/// The mathematical value of a `BitwardenItemField`.
pub struct BitwardenItemFieldView {
    pub name: Seq<char>,
    pub value: Seq<char>,
}

impl View for BitwardenItemField {
    type V = BitwardenItemFieldView;

    open spec fn view(&self) -> BitwardenItemFieldView {
        BitwardenItemFieldView { name: self.name@, value: self.value@ }
    }
}

impl DeepView for BitwardenItemField {
    type V = BitwardenItemFieldView;

    open spec fn deep_view(&self) -> BitwardenItemFieldView {
        self@
    }
}

/// A vault item as the tool hands it out.
#[derive(Clone, Debug)]
pub struct BitwardenItem {
    pub id: String,
    pub note: Option<String>,
    pub fields: Option<Vec<BitwardenItemField>>,
}

/// The mathematical value of a `BitwardenItem`.
#[verifier::ext_equal]
pub struct BitwardenItemView {
    pub id: Seq<char>,
    pub note: Option<Seq<char>>,
    pub fields: Option<Seq<BitwardenItemFieldView>>,
}

impl View for BitwardenItem {
    type V = BitwardenItemView;

    open spec fn view(&self) -> BitwardenItemView {
        BitwardenItemView {
            id: self.id@,
            note: self.note.deep_view(),
            fields: self.fields.deep_view(),
        }
    }
}

impl DeepView for BitwardenItem {
    type V = BitwardenItemView;

    open spec fn deep_view(&self) -> BitwardenItemView {
        self@
    }
}

/// The tool's answer to a request for one item.
#[derive(Clone, Debug)]
pub struct BitwardenGetItemResponse {
    pub data: Option<BitwardenItem>,
    pub success: bool,
}

/// The mathematical value of a `BitwardenGetItemResponse`.
pub struct BitwardenGetItemResponseView {
    pub data: Option<BitwardenItemView>,
    pub success: bool,
}

impl View for BitwardenGetItemResponse {
    type V = BitwardenGetItemResponseView;

    open spec fn view(&self) -> BitwardenGetItemResponseView {
        BitwardenGetItemResponseView { data: self.data.deep_view(), success: self.success }
    }
}

impl DeepView for BitwardenGetItemResponse {
    type V = BitwardenGetItemResponseView;

    open spec fn deep_view(&self) -> BitwardenGetItemResponseView {
        self@
    }
}

/// Why an operation on the session failed.
#[derive(Debug, PartialEq, Eq)]
pub enum BitwardenError {
    /// The environment lacks the variable of this name.
    MissingEnvVariable(String),
    /// The tool refused the login; the text says how.
    LoginFailed(String),
    /// The tool could not bring the vault up to date.
    SyncFailed,
    /// The session holds no token, so the tool was not run.
    SyncFailedTokenMissing,
    /// The tool did not unlock the vault, or handed out no token.
    UnlockFailed,
    /// The tool found no item of this id.
    ItemNotFound(String),
    /// The tool failed while it looked for the item of this id; the second
    /// text says how.
    GetItemGenericFail(String, String),
    /// The tool could not be run; the text says why.
    IoError(String),
}

/// The mathematical value of a `BitwardenError`.
pub enum BitwardenErrorView {
    MissingEnvVariable(Seq<char>),
    LoginFailed(Seq<char>),
    SyncFailed,
    SyncFailedTokenMissing,
    UnlockFailed,
    ItemNotFound(Seq<char>),
    GetItemGenericFail(Seq<char>, Seq<char>),
    IoError(Seq<char>),
}

impl View for BitwardenError {
    type V = BitwardenErrorView;

    open spec fn view(&self) -> BitwardenErrorView {
        match self {
            BitwardenError::MissingEnvVariable(name) => BitwardenErrorView::MissingEnvVariable(
                name@,
            ),
            BitwardenError::LoginFailed(text) => BitwardenErrorView::LoginFailed(text@),
            BitwardenError::SyncFailed => BitwardenErrorView::SyncFailed,
            BitwardenError::SyncFailedTokenMissing => BitwardenErrorView::SyncFailedTokenMissing,
            BitwardenError::UnlockFailed => BitwardenErrorView::UnlockFailed,
            BitwardenError::ItemNotFound(id) => BitwardenErrorView::ItemNotFound(id@),
            BitwardenError::GetItemGenericFail(id, text) => BitwardenErrorView::GetItemGenericFail(
                id@,
                text@,
            ),
            BitwardenError::IoError(text) => BitwardenErrorView::IoError(text@),
        }
    }
}

impl DeepView for BitwardenError {
    type V = BitwardenErrorView;

    open spec fn deep_view(&self) -> BitwardenErrorView {
        self@
    }
}

/// The text that describes an error.
pub open spec fn error_text(error: BitwardenErrorView) -> Seq<char> {
    match error {
        BitwardenErrorView::MissingEnvVariable(name) => "missing env variable "@ + name,
        BitwardenErrorView::LoginFailed(_) => "bw login failed"@,
        BitwardenErrorView::SyncFailed => "`bw sync` failed"@,
        BitwardenErrorView::SyncFailedTokenMissing => {
            "`bw sync` failed because session token was not initialized"@
        },
        BitwardenErrorView::UnlockFailed => "`bw unlock` failed"@,
        BitwardenErrorView::ItemNotFound(id) => "bw get item failed: "@ + id + ", not found"@,
        BitwardenErrorView::GetItemGenericFail(id, text) => "bw get item failed: "@ + id
            + ", error: "@ + text,
        BitwardenErrorView::IoError(text) => "bitwarden command: "@ + text + " failed"@,
    }
}

impl BitwardenError {
    /// Describes the error in words.
    pub fn message(&self) -> (text: String)
        ensures
            text@ == error_text(self@),
    {
        match self {
            BitwardenError::MissingEnvVariable(name) => {
                let mut text = String::from_str("missing env variable ");
                text.append(name.as_str());
                text
            },
            BitwardenError::LoginFailed(_) => String::from_str("bw login failed"),
            BitwardenError::SyncFailed => String::from_str("`bw sync` failed"),
            BitwardenError::SyncFailedTokenMissing => String::from_str(
                "`bw sync` failed because session token was not initialized",
            ),
            BitwardenError::UnlockFailed => String::from_str("`bw unlock` failed"),
            BitwardenError::ItemNotFound(id) => {
                let mut text = String::from_str("bw get item failed: ");
                text.append(id.as_str());
                text.append(", not found");
                text
            },
            BitwardenError::GetItemGenericFail(id, cause) => {
                let mut text = String::from_str("bw get item failed: ");
                text.append(id.as_str());
                text.append(", error: ");
                text.append(cause.as_str());
                text
            },
            BitwardenError::IoError(cause) => {
                let mut text = String::from_str("bitwarden command: ");
                text.append(cause.as_str());
                text.append(" failed");
                text
            },
        }
    }
}

/// A store of secrets that hands out one item at a time.
pub trait SecretStoreGetItem {
    type Error;

    fn get_item(&mut self, item_id: String) -> Result<(), Self::Error>;
}

/// A store of secrets that can be brought up to date.
pub trait SecretStoreSynchronize {
    type Error;

    fn sync(&mut self) -> Result<(), Self::Error>;
}

/// Name of the tool's program.
pub const BW_PROGRAM: &'static str = "bw";

/// Variable that carries the client id of the API key.
pub const BW_CLIENTID: &'static str = "BW_CLIENTID";

/// Variable that carries the client secret of the API key.
pub const BW_CLIENTSECRET: &'static str = "BW_CLIENTSECRET";

/// Variable that carries the vault's password.
pub const BW_PASSWORD: &'static str = "BW_PASSWORD";

/// Variable that carries the session token.
pub const BW_SESSION: &'static str = "BW_SESSION";

/// How the tool's complaint begins when a login is already in place.
pub const ALREADY_LOGGED_IN: &'static str = "You are already logged in as";

/// What stands before the session token in the tool's output.
pub const SESSION_MARKER: &'static str = "BW_SESSION=\"";

/// What stands behind the session token in the tool's output.
pub const SESSION_END: &'static str = "\"";

/// Text of the login failure for an error output that is no text.
pub const LOGIN_NO_STDERR: &'static str = "Couldn't get stderr";

/// Text of the login failure for exit code 1 without the known complaint.
pub const LOGIN_NOT_ALREADY: &'static str =
    "Login Error: CLI returned exitCode 1 but not 'already logged in'";

/// Start of the text of the login failure for any other exit code.
pub const LOGIN_UNHANDLED: &'static str = "Login Error: CLI returned unhandled exitCode: ";

/// Start of the text that reports the exit code of a failed item request.
pub const EXIT_CODE_REPORT: &'static str = "CLI returned exitCode: ";

/// One run of the tool: the program, its arguments, and the variables to add
/// to its environment.
#[derive(Clone, Debug)]
pub struct CliInvocation {
    pub program: String,
    pub args: Vec<String>,
    pub env: Vec<(String, String)>,
}

/// The mathematical value of a `CliInvocation`.
#[verifier::ext_equal]
pub struct CliInvocationView {
    pub program: Seq<char>,
    pub args: Seq<Seq<char>>,
    pub env: Seq<(Seq<char>, Seq<char>)>,
}

impl View for CliInvocation {
    type V = CliInvocationView;

    open spec fn view(&self) -> CliInvocationView {
        CliInvocationView {
            program: self.program@,
            args: self.args.deep_view(),
            env: self.env.deep_view(),
        }
    }
}

impl DeepView for CliInvocation {
    type V = CliInvocationView;

    open spec fn deep_view(&self) -> CliInvocationView {
        self@
    }
}

/// What became of one run of the tool.
#[derive(Clone, Debug)]
pub enum CliOutcome {
    /// The tool ran to its end. `code` is its exit code, absent where it
    /// ended without one.
    Exited { code: Option<i32>, stdout: Vec<u8>, stderr: Vec<u8> },
    /// The tool could not be run; `reason` says why.
    NotRun { reason: String },
}

/// The mathematical value of a `CliOutcome`.
#[verifier::ext_equal]
pub enum CliOutcomeView {
    Exited { code: Option<i32>, stdout: Seq<u8>, stderr: Seq<u8> },
    NotRun { reason: Seq<char> },
}

impl View for CliOutcome {
    type V = CliOutcomeView;

    open spec fn view(&self) -> CliOutcomeView {
        match self {
            CliOutcome::Exited { code, stdout, stderr } => CliOutcomeView::Exited {
                code: *code,
                stdout: stdout@,
                stderr: stderr@,
            },
            CliOutcome::NotRun { reason } => CliOutcomeView::NotRun { reason: reason@ },
        }
    }
}

/// The exit status that an exit code stands for: a run that ended without a
/// code counts as one that ended with 0.
pub open spec fn exit_status(code: Option<i32>) -> int {
    match code {
        Some(code) => code as int,
        None => 0,
    }
}

/// Whether the tool ran to its end with exit status 0.
pub open spec fn ran_well(outcome: CliOutcomeView) -> bool {
    match outcome {
        CliOutcomeView::Exited { code, .. } => exit_status(code) == 0,
        CliOutcomeView::NotRun { .. } => false,
    }
}

/// Tells the exit status that an exit code stands for.
fn exit_status_of(code: &Option<i32>) -> (status: i32)
    ensures
        status == exit_status(*code),
{
    match code {
        Some(code) => *code,
        None => 0,
    }
}

/// The state of the session: the token that the last unlock handed out, when
/// the vault was last unlocked and brought up to date, and whether a failure
/// has called for a new login.
#[derive(Clone, Debug)]
pub struct BitwardenCliWrapperStorage {
    session_token: Option<String>,
    last_unlock: Option<Timestamp>,
    last_sync: Option<Timestamp>,
    needs_relog: bool,
}

/// The mathematical value of a `BitwardenCliWrapperStorage`.
pub struct BitwardenCliWrapperStorageView {
    pub session_token: Option<Seq<char>>,
    pub last_unlock: Option<Timestamp>,
    pub last_sync: Option<Timestamp>,
    pub needs_relog: bool,
}

impl View for BitwardenCliWrapperStorage {
    type V = BitwardenCliWrapperStorageView;

    closed spec fn view(&self) -> BitwardenCliWrapperStorageView {
        BitwardenCliWrapperStorageView {
            session_token: self.session_token.deep_view(),
            last_unlock: self.last_unlock,
            last_sync: self.last_sync,
            needs_relog: self.needs_relog,
        }
    }
}

/// The state of a session on which nothing has been done.
pub open spec fn fresh_storage() -> BitwardenCliWrapperStorageView {
    BitwardenCliWrapperStorageView {
        session_token: None,
        last_unlock: None,
        last_sync: None,
        needs_relog: false,
    }
}

impl Default for BitwardenCliWrapperStorage {
    fn default() -> (storage: BitwardenCliWrapperStorage)
        ensures
            storage@ == fresh_storage(),
    {
        BitwardenCliWrapperStorage {
            session_token: None,
            last_unlock: None,
            last_sync: None,
            needs_relog: false,
        }
    }
}

impl BitwardenCliWrapperStorage {
    /// The session token, where the vault has been unlocked.
    pub fn session_token(&self) -> (token: Option<&String>)
        ensures
            token.deep_view() == self@.session_token,
    {
        self.session_token.as_ref()
    }

    /// When the vault was last unlocked.
    pub fn last_unlock(&self) -> (at: Option<Timestamp>)
        ensures
            at == self@.last_unlock,
    {
        self.last_unlock
    }

    /// When the vault was last brought up to date.
    pub fn last_sync(&self) -> (at: Option<Timestamp>)
        ensures
            at == self@.last_sync,
    {
        self.last_sync
    }

    /// Whether a failure has called for a new login.
    pub fn needs_relog(&self) -> (needed: bool)
        ensures
            needed == self@.needs_relog,
    {
        self.needs_relog
    }
}

/// A client of the tool: the credentials it logs in and unlocks with, and the
/// state of its session.
#[derive(Debug)]
pub struct BitwardenCliClient {
    client_id: String,
    client_secret: String,
    client_password: String,
    storage: BitwardenCliWrapperStorage,
}

/// The mathematical value of a `BitwardenCliClient`.
pub struct BitwardenCliClientView {
    pub client_id: Seq<char>,
    pub client_secret: Seq<char>,
    pub client_password: Seq<char>,
    pub storage: BitwardenCliWrapperStorageView,
}

impl View for BitwardenCliClient {
    type V = BitwardenCliClientView;

    closed spec fn view(&self) -> BitwardenCliClientView {
        BitwardenCliClientView {
            client_id: self.client_id@,
            client_secret: self.client_secret@,
            client_password: self.client_password@,
            storage: self.storage@,
        }
    }
}

/// The client that the three credentials make, or the error that names the
/// variable of the first one that is missing.
pub open spec fn client_from_env(
    client_id: Option<Seq<char>>,
    client_secret: Option<Seq<char>>,
    client_password: Option<Seq<char>>,
) -> Result<BitwardenCliClientView, BitwardenErrorView> {
    if client_id is None {
        Err(BitwardenErrorView::MissingEnvVariable(BW_CLIENTID@))
    } else if client_secret is None {
        Err(BitwardenErrorView::MissingEnvVariable(BW_CLIENTSECRET@))
    } else if client_password is None {
        Err(BitwardenErrorView::MissingEnvVariable(BW_PASSWORD@))
    } else {
        Ok(
            BitwardenCliClientView {
                client_id: client_id->0,
                client_secret: client_secret->0,
                client_password: client_password->0,
                storage: fresh_storage(),
            },
        )
    }
}

/// The run of the tool that logs in with the API key.
pub open spec fn login_invocation(client: BitwardenCliClientView) -> CliInvocationView {
    CliInvocationView {
        program: BW_PROGRAM@,
        args: seq!["login"@, "--apikey"@, "--nointeraction"@],
        env: seq![(BW_CLIENTID@, client.client_id), (BW_CLIENTSECRET@, client.client_secret)],
    }
}

/// What a login comes to, given how the tool ran.
///
/// Exit status 0 is a success. So is exit status 1 where the error output is
/// text that begins with the complaint that a login is already in place.
/// Every other run is a failure, and so is a tool that could not be run.
pub open spec fn login_result(outcome: CliOutcomeView) -> Result<(), BitwardenErrorView> {
    match outcome {
        CliOutcomeView::NotRun { reason } => Err(BitwardenErrorView::IoError(reason)),
        CliOutcomeView::Exited { code, stdout, stderr } => if exit_status(code) == 0 {
            Ok(())
        } else if exit_status(code) == 1 {
            if !valid_utf8(stderr) {
                Err(BitwardenErrorView::LoginFailed(LOGIN_NO_STDERR@))
            } else if !occurs_at(stderr, ALREADY_LOGGED_IN.spec_bytes(), 0) {
                Err(BitwardenErrorView::LoginFailed(LOGIN_NOT_ALREADY@))
            } else {
                Ok(())
            }
        } else {
            Err(
                BitwardenErrorView::LoginFailed(
                    LOGIN_UNHANDLED@ + decimal_text(exit_status(code)),
                ),
            )
        },
    }
}

/// The run of the tool that unlocks the vault.
pub open spec fn unlock_invocation(client: BitwardenCliClientView) -> CliInvocationView {
    CliInvocationView {
        program: BW_PROGRAM@,
        args: seq!["unlock"@, "--passwordenv"@, BW_PASSWORD@, "--nointeraction"@],
        env: seq![
            (BW_CLIENTID@, client.client_id),
            (BW_CLIENTSECRET@, client.client_secret),
            (BW_PASSWORD@, client.client_password),
        ],
    }
}

/// The session token that the tool's output holds: the text between the
/// first marker and the first quotation mark behind it. There is none where
/// the marker or the quotation mark is missing, or where the bytes between
/// them are no text.
pub open spec fn session_token_in(stdout: Seq<u8>) -> Option<Seq<char>> {
    match first_occurrence(stdout, SESSION_MARKER.spec_bytes(), 0) {
        None => None,
        Some(at) => {
            let begin = at + SESSION_MARKER.spec_bytes().len();
            match first_occurrence(stdout, SESSION_END.spec_bytes(), begin) {
                None => None,
                Some(end) => {
                    let token = stdout.subrange(begin, end);
                    if valid_utf8(token) {
                        Some(decode_utf8(token))
                    } else {
                        None
                    }
                },
            }
        },
    }
}

/// The session token that an unlock has won, if it has won one: the tool must
/// have run well, and its output must hold a token.
pub open spec fn unlocked_token(outcome: CliOutcomeView) -> Option<Seq<char>> {
    match outcome {
        CliOutcomeView::Exited { code, stdout, stderr } => if exit_status(code) == 0 {
            session_token_in(stdout)
        } else {
            None
        },
        CliOutcomeView::NotRun { .. } => None,
    }
}

/// The session after an unlock at `now`, and what the unlock comes to.
///
/// A token that was won is stored together with the time. A failed unlock
/// leaves the session as it was.
pub open spec fn unlock_step(
    storage: BitwardenCliWrapperStorageView,
    outcome: CliOutcomeView,
    now: Timestamp,
) -> (BitwardenCliWrapperStorageView, Result<(), BitwardenErrorView>) {
    match unlocked_token(outcome) {
        Some(token) => (
            BitwardenCliWrapperStorageView {
                session_token: Some(token),
                last_unlock: Some(now),
                ..storage
            },
            Ok(()),
        ),
        None => (storage, Err(BitwardenErrorView::UnlockFailed)),
    }
}

/// The run of the tool that brings the vault up to date, or the error where
/// the session holds no token.
pub open spec fn sync_invocation(client: BitwardenCliClientView) -> Result<
    CliInvocationView,
    BitwardenErrorView,
> {
    match client.storage.session_token {
        None => Err(BitwardenErrorView::SyncFailedTokenMissing),
        Some(token) => Ok(
            CliInvocationView {
                program: BW_PROGRAM@,
                args: seq!["sync"@],
                env: seq![(BW_SESSION@, token)],
            },
        ),
    }
}

/// The session after a sync at `now`, and what the sync comes to.
///
/// Without a token nothing changes. A run that went well records the time.
/// Any other run, and a tool that could not be run, calls for a new login.
pub open spec fn sync_step(
    storage: BitwardenCliWrapperStorageView,
    outcome: CliOutcomeView,
    now: Timestamp,
) -> (BitwardenCliWrapperStorageView, Result<(), BitwardenErrorView>) {
    if storage.session_token is None {
        (storage, Err(BitwardenErrorView::SyncFailedTokenMissing))
    } else if ran_well(outcome) {
        (BitwardenCliWrapperStorageView { last_sync: Some(now), ..storage }, Ok(()))
    } else {
        (
            BitwardenCliWrapperStorageView { needs_relog: true, ..storage },
            Err(BitwardenErrorView::SyncFailed),
        )
    }
}

/// The run of the tool that fetches the item `item_id`, or the error where
/// the session holds no token.
pub open spec fn get_item_invocation(client: BitwardenCliClientView, item_id: Seq<char>) -> Result<
    CliInvocationView,
    BitwardenErrorView,
> {
    match client.storage.session_token {
        None => Err(BitwardenErrorView::SyncFailedTokenMissing),
        Some(token) => Ok(
            CliInvocationView {
                program: BW_PROGRAM@,
                args: seq!["--response"@, "get"@, "item"@, item_id, "--nointeraction"@],
                env: seq![(BW_SESSION@, token)],
            },
        ),
    }
}

/// The session after a request for the item `item_id`, and what the request
/// comes to. `response` is what the tool's output decodes to, absent where it
/// does not decode.
///
/// Without a token nothing changes. A tool that could not be run, or ended
/// with another exit status than 0, calls for a new login. A run that went
/// well hands out the item where the response reports success and holds one;
/// else the item counts as not found.
pub open spec fn get_item_step(
    storage: BitwardenCliWrapperStorageView,
    item_id: Seq<char>,
    outcome: CliOutcomeView,
    response: Option<BitwardenGetItemResponseView>,
) -> (BitwardenCliWrapperStorageView, Result<BitwardenItemView, BitwardenErrorView>) {
    if storage.session_token is None {
        (storage, Err(BitwardenErrorView::SyncFailedTokenMissing))
    } else {
        match outcome {
            CliOutcomeView::NotRun { reason } => (
                BitwardenCliWrapperStorageView { needs_relog: true, ..storage },
                Err(BitwardenErrorView::GetItemGenericFail(item_id, reason)),
            ),
            CliOutcomeView::Exited { code, stdout, stderr } => if exit_status(code) != 0 {
                (
                    BitwardenCliWrapperStorageView { needs_relog: true, ..storage },
                    Err(
                        BitwardenErrorView::GetItemGenericFail(
                            item_id,
                            EXIT_CODE_REPORT@ + decimal_text(exit_status(code)),
                        ),
                    ),
                )
            } else if response is Some && response->0.success && response->0.data is Some {
                (storage, Ok(response->0.data->0))
            } else {
                (storage, Err(BitwardenErrorView::ItemNotFound(item_id)))
            },
        }
    }
}

/// A sync or an item request succeeds only on a session that holds a token.
pub proof fn lemma_success_needs_a_token(
    storage: BitwardenCliWrapperStorageView,
    item_id: Seq<char>,
    outcome: CliOutcomeView,
    response: Option<BitwardenGetItemResponseView>,
    now: Timestamp,
)
    ensures
        sync_step(storage, outcome, now).1 is Ok ==> storage.session_token is Some,
        get_item_step(storage, item_id, outcome, response).1 is Ok ==> storage.session_token
            is Some,
        storage.session_token is None ==> sync_step(storage, outcome, now) == (
            storage,
            Err::<(), BitwardenErrorView>(BitwardenErrorView::SyncFailedTokenMissing),
        ),
        storage.session_token is None ==> get_item_step(storage, item_id, outcome, response) == (
            storage,
            Err::<BitwardenItemView, BitwardenErrorView>(
                BitwardenErrorView::SyncFailedTokenMissing,
            ),
        ),
{
}

/// No operation takes back the call for a new login, and only a sync or an
/// item request that failed on the tool raises it.
pub proof fn lemma_relogin_is_never_cleared(
    storage: BitwardenCliWrapperStorageView,
    item_id: Seq<char>,
    outcome: CliOutcomeView,
    response: Option<BitwardenGetItemResponseView>,
    now: Timestamp,
)
    ensures
        unlock_step(storage, outcome, now).0.needs_relog == storage.needs_relog,
        storage.needs_relog ==> sync_step(storage, outcome, now).0.needs_relog,
        storage.needs_relog ==> get_item_step(storage, item_id, outcome, response).0.needs_relog,
        !storage.needs_relog && sync_step(storage, outcome, now).0.needs_relog ==> sync_step(
            storage,
            outcome,
            now,
        ).1 == Err::<(), BitwardenErrorView>(BitwardenErrorView::SyncFailed),
        !storage.needs_relog && get_item_step(storage, item_id, outcome, response).0.needs_relog
            ==> get_item_step(storage, item_id, outcome, response).1 is Err && get_item_step(
            storage,
            item_id,
            outcome,
            response,
        ).1->Err_0 is GetItemGenericFail,
{
}

/// A sync or an item request leaves the token as it is, also where it fails:
/// only an unlock that wins a token puts a new one in its place.
pub proof fn lemma_token_changes_only_on_unlock(
    storage: BitwardenCliWrapperStorageView,
    item_id: Seq<char>,
    outcome: CliOutcomeView,
    response: Option<BitwardenGetItemResponseView>,
    now: Timestamp,
)
    ensures
        sync_step(storage, outcome, now).0.session_token == storage.session_token,
        get_item_step(storage, item_id, outcome, response).0.session_token
            == storage.session_token,
        unlock_step(storage, outcome, now).1 is Err ==> unlock_step(storage, outcome, now).0
            == storage,
        unlock_step(storage, outcome, now).1 is Ok ==> unlock_step(
            storage,
            outcome,
            now,
        ).0.session_token == unlocked_token(outcome),
{
}

/// Output that lacks the marker holds no token, so an unlock that hands it
/// out fails and stores nothing.
pub proof fn lemma_no_marker_no_token(
    storage: BitwardenCliWrapperStorageView,
    code: Option<i32>,
    stdout: Seq<u8>,
    stderr: Seq<u8>,
    now: Timestamp,
)
    requires
        forall|i: int| !occurs_at(stdout, SESSION_MARKER.spec_bytes(), i),
    ensures
        session_token_in(stdout) is None,
        unlock_step(storage, CliOutcomeView::Exited { code, stdout, stderr }, now) == (
            storage,
            Err::<(), BitwardenErrorView>(BitwardenErrorView::UnlockFailed),
        ),
{
    lemma_first_occurrence_none(stdout, SESSION_MARKER.spec_bytes(), 0);
}

/// Reads the session token out of the tool's output.
pub fn parse_session_token(stdout: &[u8]) -> (token: Option<String>)
    ensures
        token.deep_view() == session_token_in(stdout@),
{
    let marker = SESSION_MARKER.as_bytes();
    match find_bytes(stdout, marker, 0) {
        None => None,
        Some(at) => {
            let begin = at + marker.len();
            match find_bytes(stdout, SESSION_END.as_bytes(), begin) {
                None => None,
                Some(end) => {
                    string_from_utf8(copy_range(stdout, begin, end))
                },
            }
        },
    }
}

impl BitwardenCliClient {
    /// Makes a client from the three credentials as the environment gives
    /// them, each absent where its variable is not set.
    pub fn from_env(
        client_id: Option<String>,
        client_secret: Option<String>,
        client_password: Option<String>,
    ) -> (client: Result<BitwardenCliClient, BitwardenError>)
        ensures
            result_view(client) == client_from_env(
                client_id.deep_view(),
                client_secret.deep_view(),
                client_password.deep_view(),
            ),
    {
        let client_id = match client_id {
            Some(value) => value,
            None => {
                return Err(BitwardenError::MissingEnvVariable(String::from_str(BW_CLIENTID)));
            },
        };
        let client_secret = match client_secret {
            Some(value) => value,
            None => {
                return Err(BitwardenError::MissingEnvVariable(String::from_str(BW_CLIENTSECRET)));
            },
        };
        let client_password = match client_password {
            Some(value) => value,
            None => {
                return Err(BitwardenError::MissingEnvVariable(String::from_str(BW_PASSWORD)));
            },
        };
        Ok(
            BitwardenCliClient {
                client_id,
                client_secret,
                client_password,
                storage: BitwardenCliWrapperStorage::default(),
            },
        )
    }

    /// The state of the session.
    pub fn storage(&self) -> (storage: &BitwardenCliWrapperStorage)
        ensures
            storage@ == self@.storage,
    {
        &self.storage
    }

    /// The run of the tool that logs in.
    pub fn login_command(&self) -> (command: CliInvocation)
        ensures
            command@ == login_invocation(self@),
    {
        let mut args: Vec<String> = Vec::new();
        args.push(String::from_str("login"));
        args.push(String::from_str("--apikey"));
        args.push(String::from_str("--nointeraction"));
        let mut env: Vec<(String, String)> = Vec::new();
        env.push((String::from_str(BW_CLIENTID), self.client_id.clone()));
        env.push((String::from_str(BW_CLIENTSECRET), self.client_secret.clone()));
        let command = CliInvocation { program: String::from_str(BW_PROGRAM), args, env };
        proof {
            assert(command@.args =~= login_invocation(self@).args);
            assert(command@.env =~= login_invocation(self@).env);
        }
        command
    }

    /// Judges a login by how the tool ran. The session is not touched: a
    /// login is no part of it.
    pub fn login(&self, outcome: CliOutcome) -> (done: Result<(), BitwardenError>)
        ensures
            result_view(done) == login_result(outcome@),
    {
        match outcome {
            CliOutcome::NotRun { reason } => Err(BitwardenError::IoError(reason)),
            CliOutcome::Exited { code, stdout, stderr } => {
                let status = exit_status_of(&code);
                if status == 0 {
                    Ok(())
                } else if status == 1 {
                    let already = bytes_match_at(
                        stderr.as_slice(),
                        ALREADY_LOGGED_IN.as_bytes(),
                        0,
                    );
                    match string_from_utf8(stderr) {
                        None => Err(
                            BitwardenError::LoginFailed(String::from_str(LOGIN_NO_STDERR)),
                        ),
                        Some(_) => if already {
                            Ok(())
                        } else {
                            Err(BitwardenError::LoginFailed(String::from_str(LOGIN_NOT_ALREADY)))
                        },
                    }
                } else {
                    let mut text = String::from_str(LOGIN_UNHANDLED);
                    text.append(decimal_string(status as i64).as_str());
                    Err(BitwardenError::LoginFailed(text))
                }
            },
        }
    }

    /// The run of the tool that unlocks the vault.
    pub fn unlock_command(&self) -> (command: CliInvocation)
        ensures
            command@ == unlock_invocation(self@),
    {
        let mut args: Vec<String> = Vec::new();
        args.push(String::from_str("unlock"));
        args.push(String::from_str("--passwordenv"));
        args.push(String::from_str(BW_PASSWORD));
        args.push(String::from_str("--nointeraction"));
        let mut env: Vec<(String, String)> = Vec::new();
        env.push((String::from_str(BW_CLIENTID), self.client_id.clone()));
        env.push((String::from_str(BW_CLIENTSECRET), self.client_secret.clone()));
        env.push((String::from_str(BW_PASSWORD), self.client_password.clone()));
        let command = CliInvocation { program: String::from_str(BW_PROGRAM), args, env };
        proof {
            assert(command@.args =~= unlock_invocation(self@).args);
            assert(command@.env =~= unlock_invocation(self@).env);
        }
        command
    }

    /// Takes in how the tool ran when asked to unlock the vault at `now`.
    pub fn unlock_at(&mut self, outcome: CliOutcome, now: Timestamp) -> (done: Result<
        (),
        BitwardenError,
    >)
        ensures
            final(self)@.client_id == old(self)@.client_id,
            final(self)@.client_secret == old(self)@.client_secret,
            final(self)@.client_password == old(self)@.client_password,
            (final(self)@.storage, result_view(done)) == unlock_step(
                old(self)@.storage,
                outcome@,
                now,
            ),
    {
        let token = match outcome {
            CliOutcome::Exited { code, stdout, stderr } => if exit_status_of(&code) == 0 {
                parse_session_token(stdout.as_slice())
            } else {
                None
            },
            CliOutcome::NotRun { reason } => None,
        };
        match token {
            Some(session_token) => {
                self.storage.session_token = Some(session_token);
                self.storage.last_unlock = Some(now);
                Ok(())
            },
            None => Err(BitwardenError::UnlockFailed),
        }
    }

    /// Takes in how the tool ran when asked to unlock the vault, as of the
    /// time the clock shows.
    pub fn unlock(&mut self, outcome: CliOutcome) -> (done: Result<(), BitwardenError>)
        ensures
            final(self)@.client_id == old(self)@.client_id,
            final(self)@.client_secret == old(self)@.client_secret,
            final(self)@.client_password == old(self)@.client_password,
            exists|now: Timestamp|
                (final(self)@.storage, result_view(done)) == #[trigger] unlock_step(
                    old(self)@.storage,
                    outcome@,
                    now,
                ),
    {
        let now = current_time();
        self.unlock_at(outcome, now)
    }

    /// The run of the tool that brings the vault up to date.
    pub fn sync_command(&self) -> (command: Result<CliInvocation, BitwardenError>)
        ensures
            result_view(command) == sync_invocation(self@),
    {
        match &self.storage.session_token {
            None => Err(BitwardenError::SyncFailedTokenMissing),
            Some(session_token) => {
                let mut args: Vec<String> = Vec::new();
                args.push(String::from_str("sync"));
                let mut env: Vec<(String, String)> = Vec::new();
                env.push((String::from_str(BW_SESSION), session_token.clone()));
                let command = CliInvocation { program: String::from_str(BW_PROGRAM), args, env };
                proof {
                    assert(command@.args =~= sync_invocation(self@)->Ok_0.args);
                    assert(command@.env =~= sync_invocation(self@)->Ok_0.env);
                }
                Ok(command)
            },
        }
    }

    /// Takes in how the tool ran when asked at `now` to bring the vault up to
    /// date.
    pub fn sync_at(&mut self, outcome: CliOutcome, now: Timestamp) -> (done: Result<
        (),
        BitwardenError,
    >)
        ensures
            final(self)@.client_id == old(self)@.client_id,
            final(self)@.client_secret == old(self)@.client_secret,
            final(self)@.client_password == old(self)@.client_password,
            (final(self)@.storage, result_view(done)) == sync_step(
                old(self)@.storage,
                outcome@,
                now,
            ),
    {
        if self.storage.session_token.is_none() {
            return Err(BitwardenError::SyncFailedTokenMissing);
        }
        let well = match outcome {
            CliOutcome::Exited { code, stdout, stderr } => exit_status_of(&code) == 0,
            CliOutcome::NotRun { reason } => false,
        };
        if well {
            self.storage.last_sync = Some(now);
            Ok(())
        } else {
            self.storage.needs_relog = true;
            Err(BitwardenError::SyncFailed)
        }
    }

    /// Takes in how the tool ran when asked to bring the vault up to date, as
    /// of the time the clock shows.
    pub fn sync(&mut self, outcome: CliOutcome) -> (done: Result<(), BitwardenError>)
        ensures
            final(self)@.client_id == old(self)@.client_id,
            final(self)@.client_secret == old(self)@.client_secret,
            final(self)@.client_password == old(self)@.client_password,
            exists|now: Timestamp|
                (final(self)@.storage, result_view(done)) == #[trigger] sync_step(
                    old(self)@.storage,
                    outcome@,
                    now,
                ),
    {
        let now = current_time();
        self.sync_at(outcome, now)
    }

    /// The run of the tool that fetches the item `item_id`.
    pub fn get_item_command(&self, item_id: &str) -> (command: Result<
        CliInvocation,
        BitwardenError,
    >)
        ensures
            result_view(command) == get_item_invocation(self@, item_id@),
    {
        match &self.storage.session_token {
            None => Err(BitwardenError::SyncFailedTokenMissing),
            Some(session_token) => {
                let mut args: Vec<String> = Vec::new();
                args.push(String::from_str("--response"));
                args.push(String::from_str("get"));
                args.push(String::from_str("item"));
                args.push(String::from_str(item_id));
                args.push(String::from_str("--nointeraction"));
                let mut env: Vec<(String, String)> = Vec::new();
                env.push((String::from_str(BW_SESSION), session_token.clone()));
                let command = CliInvocation { program: String::from_str(BW_PROGRAM), args, env };
                proof {
                    assert(command@.args =~= get_item_invocation(self@, item_id@)->Ok_0.args);
                    assert(command@.env =~= get_item_invocation(self@, item_id@)->Ok_0.env);
                }
                Ok(command)
            },
        }
    }

    /// Takes in how the tool ran when asked for the item `item_id`, and what
    /// its output decodes to, absent where it does not decode.
    pub fn get_item(
        &mut self,
        item_id: String,
        outcome: CliOutcome,
        response: Option<BitwardenGetItemResponse>,
    ) -> (item: Result<BitwardenItem, BitwardenError>)
        ensures
            final(self)@.client_id == old(self)@.client_id,
            final(self)@.client_secret == old(self)@.client_secret,
            final(self)@.client_password == old(self)@.client_password,
            (final(self)@.storage, result_view(item)) == get_item_step(
                old(self)@.storage,
                item_id@,
                outcome@,
                response.deep_view(),
            ),
    {
        if self.storage.session_token.is_none() {
            return Err(BitwardenError::SyncFailedTokenMissing);
        }
        match outcome {
            CliOutcome::NotRun { reason } => {
                self.storage.needs_relog = true;
                Err(BitwardenError::GetItemGenericFail(item_id, reason))
            },
            CliOutcome::Exited { code, stdout, stderr } => {
                let status = exit_status_of(&code);
                if status != 0 {
                    self.storage.needs_relog = true;
                    let mut text = String::from_str(EXIT_CODE_REPORT);
                    text.append(decimal_string(status as i64).as_str());
                    return Err(BitwardenError::GetItemGenericFail(item_id, text));
                }
                match response {
                    Some(data) => {
                        if !data.success {
                            return Err(BitwardenError::ItemNotFound(item_id));
                        }
                        match data.data {
                            Some(item) => Ok(item),
                            None => Err(BitwardenError::ItemNotFound(item_id)),
                        }
                    },
                    None => Err(BitwardenError::ItemNotFound(item_id)),
                }
            },
        }
    }
}

} // verus!
