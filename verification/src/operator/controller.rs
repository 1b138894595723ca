//! One reconciliation pass over a resource, step by step.
//!
//! A pass starts with `reconcile_bitwarden_secret`. Each step names what the
//! caller has to do next: fetch a vault item, look for the secret in the
//! cluster, write it, or record the pass on the resource. The caller does it
//! and resumes the pass with what came of it, until the pass is done.

use crate::bitwarden_cli::{BitwardenError, BitwardenErrorView, BitwardenItem, BitwardenItemView};
use crate::operator::schemas::{
    BitwardenSecret, BitwardenSecretError, BitwardenSecretErrorView, BitwardenSecretStatus,
    BitwardenSecretStatusView, BitwardenSecretView, MaterializedSecret, MaterializedSecretView,
    OwnerReference, OwnerReferenceView,
};
use crate::operator::{fetch_plan, generate_secret_at, generated_secret, try_get_to_fetch};
use crate::string_map::StringMap;
use crate::time::{current_time, Timestamp};
use crate::views::result_view;
use vstd::prelude::*;
use vstd::string::*;

verus! {

/// Seconds for which a generated secret counts as up to date.
pub const REFRESH_TTL_SECS: u64 = 3600;

/// Seconds after which a resource whose secret is up to date is looked at
/// again.
pub const RECENT_REQUEUE_SECS: u64 = 60;

/// Seconds after which a failed pass is tried again.
pub const ERROR_REQUEUE_SECS: u64 = 5;

/// Seconds between two runs of the background task that brings the vault up
/// to date.
pub const RESYNC_INTERVAL_SECS: u64 = 60;

/// Checksum that a pass records on the resource.
pub const STATUS_CHECKSUM: &'static str = "todo";

/// When a resource is to be reconciled again: after so many seconds, or, with
/// no number, when a change to it is seen.
#[derive(Clone, Copy, Debug, PartialEq, Eq)]
pub struct Action {
    pub requeue_after: Option<u64>,
}

impl View for Action {
    type V = Action;

    open spec fn view(&self) -> Action {
        *self
    }
}

impl Action {
    /// Reconcile again after `seconds` seconds.
    pub fn requeue(seconds: u64) -> (action: Action)
        ensures
            action == (Action { requeue_after: Some(seconds) }),
    {
        Action { requeue_after: Some(seconds) }
    }

    /// Reconcile again when a change is seen.
    pub fn await_change() -> (action: Action)
        ensures
            action == (Action { requeue_after: None }),
    {
        Action { requeue_after: None }
    }
}

/// Why a pass failed.
#[derive(Debug, PartialEq, Eq)]
pub enum BitwardenOperatorError {
    /// The secret could not be generated.
    BitwardenSecretError(BitwardenSecretError),
    /// The cluster refused a call; the text is its error.
    KubernetesError(String),
}

/// The mathematical value of a `BitwardenOperatorError`.
pub enum BitwardenOperatorErrorView {
    BitwardenSecretError(BitwardenSecretErrorView),
    KubernetesError(Seq<char>),
}

impl View for BitwardenOperatorError {
    type V = BitwardenOperatorErrorView;

    open spec fn view(&self) -> BitwardenOperatorErrorView {
        match self {
            BitwardenOperatorError::BitwardenSecretError(error) => {
                BitwardenOperatorErrorView::BitwardenSecretError(error@)
            },
            BitwardenOperatorError::KubernetesError(text) => {
                BitwardenOperatorErrorView::KubernetesError(text@)
            },
        }
    }
}

/// Whether the resource carries the name and the namespace under which the
/// cluster holds it.
pub open spec fn has_identity(secret: BitwardenSecretView) -> bool {
    secret.metadata.name is Some && secret.metadata.namespace is Some
}

/// A pass that waits for a vault item.
#[derive(Debug)]
pub struct FetchPending {
    secret: BitwardenSecret,
    owner: OwnerReference,
    item_id: String,
    plan: Vec<String>,
    position: usize,
    fetched: StringMap<BitwardenItem>,
}

/// The mathematical value of a `FetchPending`: the resource and its owner
/// reference, the vault item waited for, the items to fetch after it, and the
/// items fetched so far.
#[verifier::ext_equal]
pub struct FetchPendingView {
    pub secret: BitwardenSecretView,
    pub owner: OwnerReferenceView,
    pub item_id: Seq<char>,
    pub rest: Seq<Seq<char>>,
    pub fetched: Map<Seq<char>, BitwardenItemView>,
}

impl FetchPending {
    #[verifier::type_invariant]
    spec fn well_formed(self) -> bool {
        has_identity(self.secret@) && self.position <= self.plan.len()
    }
}

impl View for FetchPending {
    type V = FetchPendingView;

    closed spec fn view(&self) -> FetchPendingView {
        FetchPendingView {
            secret: self.secret@,
            owner: self.owner@,
            item_id: self.item_id@,
            rest: self.plan.deep_view().skip(self.position as int),
            fetched: self.fetched@,
        }
    }
}

/// A pass that waits to learn whether the cluster holds the secret already.
#[derive(Debug)]
pub struct LookupPending {
    secret: BitwardenSecret,
    candidate: MaterializedSecret,
}

/// The mathematical value of a `LookupPending`: the resource, and the secret
/// generated for it.
pub struct LookupPendingView {
    pub secret: BitwardenSecretView,
    pub candidate: MaterializedSecretView,
}

impl LookupPending {
    #[verifier::type_invariant]
    spec fn well_formed(self) -> bool {
        has_identity(self.secret@)
    }
}

impl View for LookupPending {
    type V = LookupPendingView;

    closed spec fn view(&self) -> LookupPendingView {
        LookupPendingView { secret: self.secret@, candidate: self.candidate@ }
    }
}

/// A pass that waits for the secret to be written.
#[derive(Debug)]
pub struct WritePending {
    secret: BitwardenSecret,
    candidate: MaterializedSecret,
    replace: bool,
}

/// The mathematical value of a `WritePending`: the resource, the secret to
/// write, and whether it replaces the one that the cluster holds or is
/// created.
pub struct WritePendingView {
    pub secret: BitwardenSecretView,
    pub candidate: MaterializedSecretView,
    pub replace: bool,
}

impl WritePending {
    #[verifier::type_invariant]
    spec fn well_formed(self) -> bool {
        has_identity(self.secret@)
    }
}

impl View for WritePending {
    type V = WritePendingView;

    closed spec fn view(&self) -> WritePendingView {
        WritePendingView {
            secret: self.secret@,
            candidate: self.candidate@,
            replace: self.replace,
        }
    }
}

/// A pass that waits for its status to be recorded on the resource.
#[derive(Debug)]
pub struct PatchPending {
    namespace: String,
    name: String,
    status: BitwardenSecretStatus,
}

/// The mathematical value of a `PatchPending`: the namespace and the name of
/// the resource, and the status to record on it.
pub struct PatchPendingView {
    pub namespace: Seq<char>,
    pub name: Seq<char>,
    pub status: BitwardenSecretStatusView,
}

impl View for PatchPending {
    type V = PatchPendingView;

    closed spec fn view(&self) -> PatchPendingView {
        PatchPendingView { namespace: self.namespace@, name: self.name@, status: self.status@ }
    }
}

/// Where a pass stands: what it waits for, or how it ended.
#[derive(Debug)]
pub enum ReconcileStep {
    /// Fetch the vault item that the state names.
    Fetch(FetchPending),
    /// Look for the generated secret in the cluster.
    Lookup(LookupPending),
    /// Write the generated secret to the cluster.
    Write(WritePending),
    /// Record the status on the resource.
    Patch(PatchPending),
    /// The pass is over.
    Done(Result<Action, BitwardenOperatorError>),
}

/// The mathematical value of a `ReconcileStep`.
pub enum ReconcileStepView {
    Fetch(FetchPendingView),
    Lookup(LookupPendingView),
    Write(WritePendingView),
    Patch(PatchPendingView),
    Done(Result<Action, BitwardenOperatorErrorView>),
}

impl View for ReconcileStep {
    type V = ReconcileStepView;

    open spec fn view(&self) -> ReconcileStepView {
        match self {
            ReconcileStep::Fetch(state) => ReconcileStepView::Fetch(state@),
            ReconcileStep::Lookup(state) => ReconcileStepView::Lookup(state@),
            ReconcileStep::Write(state) => ReconcileStepView::Write(state@),
            ReconcileStep::Patch(state) => ReconcileStepView::Patch(state@),
            ReconcileStep::Done(end) => ReconcileStepView::Done(result_view(*end)),
        }
    }
}

/// Whether the secret of a resource with this status counts as up to date at
/// `now`: it was generated less than `REFRESH_TTL_SECS` seconds ago.
pub open spec fn is_recent(status: Option<BitwardenSecretStatusView>, now: Timestamp) -> bool {
    &&& status is Some
    &&& status->0.last_updated is Some
    &&& now.is_within(status->0.last_updated->0, REFRESH_TTL_SECS as int)
}

/// The step that ends a pass with the failure to generate the secret.
pub open spec fn failed_secret(error: BitwardenSecretErrorView) -> ReconcileStepView {
    ReconcileStepView::Done(Err(BitwardenOperatorErrorView::BitwardenSecretError(error)))
}

/// The step that ends a pass with the failure of a call to the cluster.
pub open spec fn failed_call(text: Seq<char>) -> ReconcileStepView {
    ReconcileStepView::Done(Err(BitwardenOperatorErrorView::KubernetesError(text)))
}

/// The step once every vault item is fetched: the secret is generated, and is
/// next looked for in the cluster; or the pass ends where it cannot be
/// generated.
pub open spec fn after_fetching(
    secret: BitwardenSecretView,
    owner: OwnerReferenceView,
    fetched: Map<Seq<char>, BitwardenItemView>,
    now: Timestamp,
) -> ReconcileStepView {
    match generated_secret(secret, owner, fetched, now) {
        Err(error) => failed_secret(error),
        Ok(candidate) => ReconcileStepView::Lookup(LookupPendingView { secret, candidate }),
    }
}

/// The step with the vault items `ids` still to fetch: the first of them is
/// fetched next; with none left the secret is generated.
pub open spec fn fetching(
    secret: BitwardenSecretView,
    owner: OwnerReferenceView,
    ids: Seq<Seq<char>>,
    fetched: Map<Seq<char>, BitwardenItemView>,
    now: Timestamp,
) -> ReconcileStepView {
    if ids.len() == 0 {
        after_fetching(secret, owner, fetched, now)
    } else {
        ReconcileStepView::Fetch(
            FetchPendingView { secret, owner, item_id: ids[0], rest: ids.skip(1), fetched },
        )
    }
}

/// The first step of a pass that starts at `now`.
///
/// A resource whose secret is up to date is left alone and looked at again
/// after `RECENT_REQUEUE_SECS` seconds. Else the vault items are planned and
/// fetched one by one; a plan that fails ends the pass.
pub open spec fn reconcile_start(
    secret: BitwardenSecretView,
    owner: OwnerReferenceView,
    now: Timestamp,
) -> ReconcileStepView {
    if is_recent(secret.status, now) {
        ReconcileStepView::Done(Ok(Action { requeue_after: Some(RECENT_REQUEUE_SECS) }))
    } else {
        match fetch_plan(secret.spec.content, secret.spec.bitwarden_id, secret.spec.bitwarden_id) {
            Err(error) => failed_secret(error),
            Ok(ids) => fetching(secret, owner, ids, Map::empty(), now),
        }
    }
}

/// The step after a vault item has come in, or has failed to.
///
/// An item that could not be fetched ends the pass: the item counts as not
/// found. Else the item is kept under the id by which it was asked for, and
/// the fetching goes on.
pub open spec fn fetch_resumed(
    state: FetchPendingView,
    item: Result<BitwardenItemView, BitwardenErrorView>,
    now: Timestamp,
) -> ReconcileStepView {
    match item {
        Err(_) => failed_secret(BitwardenSecretErrorView::BitwardenItemNotFound(state.item_id)),
        Ok(item) => fetching(
            state.secret,
            state.owner,
            state.rest,
            state.fetched.insert(state.item_id, item),
            now,
        ),
    }
}

/// The step after the cluster has been asked for the secret: a secret that is
/// there is replaced, one that is not is created. A failed call ends the
/// pass.
pub open spec fn lookup_resumed(state: LookupPendingView, found: Result<bool, Seq<char>>)
    -> ReconcileStepView {
    match found {
        Err(text) => failed_call(text),
        Ok(present) => ReconcileStepView::Write(
            WritePendingView { secret: state.secret, candidate: state.candidate, replace: present },
        ),
    }
}

/// The status that a pass which wrote the secret at `now` records.
pub open spec fn recorded_status(now: Timestamp) -> BitwardenSecretStatusView {
    BitwardenSecretStatusView { checksum: STATUS_CHECKSUM@, last_updated: Some(now) }
}

/// The step after the secret has been written, at `now`: the status is
/// recorded on the resource. A failed call ends the pass.
pub open spec fn write_resumed(
    state: WritePendingView,
    written: Result<(), Seq<char>>,
    now: Timestamp,
) -> ReconcileStepView {
    match written {
        Err(text) => failed_call(text),
        Ok(_) => ReconcileStepView::Patch(
            PatchPendingView {
                namespace: state.secret.metadata.namespace->0,
                name: state.secret.metadata.name->0,
                status: recorded_status(now),
            },
        ),
    }
}

/// The end of a pass after the status has been recorded: the resource is
/// looked at again when it changes. A failed call fails the pass.
pub open spec fn patch_resumed(patched: Result<(), Seq<char>>) -> ReconcileStepView {
    match patched {
        Err(text) => failed_call(text),
        Ok(_) => ReconcileStepView::Done(Ok(Action { requeue_after: None })),
    }
}

/// A pass over a resource whose secret was generated less than
/// `REFRESH_TTL_SECS` seconds ago ends at once: nothing is fetched, the
/// cluster is not called, and the resource is looked at again after
/// `RECENT_REQUEUE_SECS` seconds.
pub proof fn lemma_recent_secret_is_left_alone(
    secret: BitwardenSecretView,
    owner: OwnerReferenceView,
    last_updated: Timestamp,
    now: Timestamp,
)
    requires
        secret.status is Some,
        secret.status->0.last_updated == Some(last_updated),
        now.is_within(last_updated, REFRESH_TTL_SECS as int),
    ensures
        reconcile_start(secret, owner, now) == ReconcileStepView::Done(
            Ok(Action { requeue_after: Some(RECENT_REQUEUE_SECS) }),
        ),
{
}

/// A secret is written only as it was generated from the fetched vault items:
/// once the last item is in, the pass either goes on to look for exactly the
/// generated secret, or ends with the reason why none could be generated.
pub proof fn lemma_only_whole_secrets_are_written(
    state: FetchPendingView,
    item: BitwardenItemView,
    now: Timestamp,
)
    requires
        state.rest.len() == 0,
    ensures
        ({
            let fetched = state.fetched.insert(state.item_id, item);
            match generated_secret(state.secret, state.owner, fetched, now) {
                Ok(candidate) => fetch_resumed(state, Ok(item), now) == ReconcileStepView::Lookup(
                    LookupPendingView { secret: state.secret, candidate },
                ),
                Err(error) => fetch_resumed(state, Ok(item), now) == failed_secret(error),
            }
        }),
{
}

/// A pass that fails leaves the resource's status alone: whatever fails, the
/// pass ends there, and no status is recorded.
pub proof fn lemma_failure_ends_the_pass(
    fetch: FetchPendingView,
    lookup: LookupPendingView,
    write: WritePendingView,
    error: BitwardenErrorView,
    text: Seq<char>,
    now: Timestamp,
)
    ensures
        fetch_resumed(fetch, Err(error), now) is Done,
        lookup_resumed(lookup, Err(text)) is Done,
        write_resumed(write, Err(text), now) is Done,
        patch_resumed(Err(text)) is Done,
        fetch_resumed(fetch, Err(error), now)->Done_0 is Err,
        lookup_resumed(lookup, Err(text))->Done_0 is Err,
        write_resumed(write, Err(text), now)->Done_0 is Err,
        patch_resumed(Err(text))->Done_0 is Err,
{
}

/// The mathematical value of what a call to the cluster came to.
pub open spec fn call_view<T>(call: Result<T, String>) -> Result<T, Seq<char>> {
    match call {
        Ok(value) => Ok(value),
        Err(text) => Err(text@),
    }
}

/// Tells whether the secret of a resource with this status is up to date at
/// `now`.
fn is_recent_at(status: &Option<BitwardenSecretStatus>, now: &Timestamp) -> (recent: bool)
    ensures
        recent == is_recent(status.deep_view(), *now),
{
    match status {
        Some(status) => match &status.last_updated {
            Some(last_updated) => now.within(last_updated, REFRESH_TTL_SECS),
            None => false,
        },
        None => false,
    }
}

/// Goes on with the vault items of `plan` from `position` on.
fn continue_fetching(
    secret: BitwardenSecret,
    owner: OwnerReference,
    plan: Vec<String>,
    position: usize,
    fetched: StringMap<BitwardenItem>,
    now: Timestamp,
) -> (step: ReconcileStep)
    requires
        has_identity(secret@),
        position <= plan.len(),
    ensures
        step@ == fetching(secret@, owner@, plan.deep_view().skip(position as int), fetched@, now),
{
    if position < plan.len() {
        let item_id = plan[position].clone();
        let ghost ids = plan.deep_view().skip(position as int);
        let state = FetchPending { secret, owner, item_id, plan, position: position + 1, fetched };
        proof {
            assert(state@.rest =~= ids.skip(1));
        }
        ReconcileStep::Fetch(state)
    } else {
        match generate_secret_at(&secret, owner, &fetched, now) {
            Err(error) => ReconcileStep::Done(
                Err(BitwardenOperatorError::BitwardenSecretError(error)),
            ),
            Ok(candidate) => ReconcileStep::Lookup(LookupPending { secret, candidate }),
        }
    }
}

/// Starts a pass over `obj` at `now`. `owner` is the reference by which the
/// generated secret is to name `obj` as its owner.
pub fn reconcile_bitwarden_secret_at(obj: BitwardenSecret, owner: OwnerReference, now: Timestamp)
    -> (step: ReconcileStep)
    requires
        has_identity(obj@),
    ensures
        step@ == reconcile_start(obj@, owner@, now),
        is_recent(obj@.status, now) ==> step@ == ReconcileStepView::Done(
            Ok(Action { requeue_after: Some(RECENT_REQUEUE_SECS) }),
        ),
{
    if is_recent_at(&obj.status, &now) {
        return ReconcileStep::Done(Ok(Action::requeue(RECENT_REQUEUE_SECS)));
    }
    let global_bitwarden_id = obj.spec.bitwarden_id.clone();
    match try_get_to_fetch(&obj, &obj.spec, global_bitwarden_id) {
        Err(error) => ReconcileStep::Done(Err(BitwardenOperatorError::BitwardenSecretError(error))),
        Ok(plan) => {
            proof {
                assert(plan.deep_view().skip(0) =~= plan.deep_view());
            }
            continue_fetching(obj, owner, plan, 0, StringMap::new(), now)
        },
    }
}

/// Starts a pass over `obj` at the time the clock shows.
pub fn reconcile_bitwarden_secret(obj: BitwardenSecret, owner: OwnerReference) -> (step:
    ReconcileStep)
    requires
        has_identity(obj@),
    ensures
        exists|now: Timestamp| step@ == #[trigger] reconcile_start(obj@, owner@, now),
{
    let now = current_time();
    reconcile_bitwarden_secret_at(obj, owner, now)
}

/// When to reconcile a resource again after a pass over it has failed:
/// after `ERROR_REQUEUE_SECS` seconds, whatever the resource and the failure.
pub fn error_policy(object: &BitwardenSecret, error: &BitwardenOperatorError) -> (action: Action)
    ensures
        action == (Action { requeue_after: Some(ERROR_REQUEUE_SECS) }),
{
    Action::requeue(ERROR_REQUEUE_SECS)
}

impl FetchPending {
    /// The vault item to fetch.
    pub fn item_id(&self) -> (item_id: &String)
        ensures
            item_id@ == self@.item_id,
    {
        &self.item_id
    }

    /// Goes on at `now` with what the fetch came to.
    pub fn resume_at(self, item: Result<BitwardenItem, BitwardenError>, now: Timestamp) -> (step:
        ReconcileStep)
        ensures
            step@ == fetch_resumed(self@, result_view(item), now),
    {
        proof {
            use_type_invariant(&self);
        }
        let FetchPending { secret, owner, item_id, plan, position, fetched } = self;
        match item {
            Err(_) => ReconcileStep::Done(
                Err(
                    BitwardenOperatorError::BitwardenSecretError(
                        BitwardenSecretError::BitwardenItemNotFound(item_id),
                    ),
                ),
            ),
            Ok(item) => {
                let mut fetched = fetched;
                fetched.insert(item_id, item);
                continue_fetching(secret, owner, plan, position, fetched, now)
            },
        }
    }

    /// Goes on, at the time the clock shows, with what the fetch came to.
    pub fn resume(self, item: Result<BitwardenItem, BitwardenError>) -> (step: ReconcileStep)
        ensures
            exists|now: Timestamp| step@ == #[trigger] fetch_resumed(self@, result_view(item), now),
    {
        let now = current_time();
        self.resume_at(item, now)
    }
}

impl LookupPending {
    /// The generated secret, whose namespace and name say where to look.
    pub fn secret(&self) -> (secret: &MaterializedSecret)
        ensures
            secret@ == self@.candidate,
    {
        &self.candidate
    }

    /// Goes on with what the lookup came to: whether the cluster holds the
    /// secret, or the error of the call.
    pub fn resume(self, found: Result<bool, String>) -> (step: ReconcileStep)
        ensures
            step@ == lookup_resumed(self@, call_view(found)),
    {
        proof {
            use_type_invariant(&self);
        }
        let LookupPending { secret, candidate } = self;
        match found {
            Err(text) => ReconcileStep::Done(Err(BitwardenOperatorError::KubernetesError(text))),
            Ok(present) => ReconcileStep::Write(
                WritePending { secret, candidate, replace: present },
            ),
        }
    }
}

impl WritePending {
    /// The secret to write.
    pub fn secret(&self) -> (secret: &MaterializedSecret)
        ensures
            secret@ == self@.candidate,
    {
        &self.candidate
    }

    /// Whether the secret replaces the one that the cluster holds; it is
    /// created where it does not.
    pub fn replaces(&self) -> (replace: bool)
        ensures
            replace == self@.replace,
    {
        self.replace
    }

    /// Goes on at `now` with what the write came to.
    pub fn resume_at(self, written: Result<(), String>, now: Timestamp) -> (step: ReconcileStep)
        ensures
            step@ == write_resumed(self@, call_view(written), now),
    {
        proof {
            use_type_invariant(&self);
        }
        let WritePending { secret, candidate, replace } = self;
        match written {
            Err(text) => ReconcileStep::Done(Err(BitwardenOperatorError::KubernetesError(text))),
            Ok(_) => {
                let BitwardenSecret { metadata, spec, status } = secret;
                let namespace = match metadata.namespace {
                    Some(namespace) => namespace,
                    None => String::new(),
                };
                let name = match metadata.name {
                    Some(name) => name,
                    None => String::new(),
                };
                ReconcileStep::Patch(
                    PatchPending {
                        namespace,
                        name,
                        status: BitwardenSecretStatus {
                            checksum: String::from_str(STATUS_CHECKSUM),
                            last_updated: Some(now),
                        },
                    },
                )
            },
        }
    }

    /// Goes on, at the time the clock shows, with what the write came to.
    pub fn resume(self, written: Result<(), String>) -> (step: ReconcileStep)
        ensures
            exists|now: Timestamp|
                step@ == #[trigger] write_resumed(self@, call_view(written), now),
    {
        let now = current_time();
        self.resume_at(written, now)
    }
}

impl PatchPending {
    /// The namespace of the resource.
    pub fn namespace(&self) -> (namespace: &String)
        ensures
            namespace@ == self@.namespace,
    {
        &self.namespace
    }

    /// The name of the resource.
    pub fn name(&self) -> (name: &String)
        ensures
            name@ == self@.name,
    {
        &self.name
    }

    /// The status to record on the resource.
    pub fn status(&self) -> (status: &BitwardenSecretStatus)
        ensures
            status@ == self@.status,
    {
        &self.status
    }

    /// Ends the pass with what the recording came to.
    pub fn resume(self, patched: Result<(), String>) -> (step: ReconcileStep)
        ensures
            step@ == patch_resumed(call_view(patched)),
    {
        match patched {
            Err(text) => ReconcileStep::Done(Err(BitwardenOperatorError::KubernetesError(text))),
            Ok(_) => ReconcileStep::Done(Ok(Action::await_change())),
        }
    }
}

} // verus!
