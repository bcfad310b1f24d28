//! Bringing a derived secret into a container's keyslot table.
//!
//! The caller opens, formats and changes the container; this module decides,
//! from what the caller reports, which of these is to happen next and how
//! the provisioning ends. A container without a recognised header is only
//! ever formatted when the caller has said so beforehand.
use vstd::prelude::*;
use vstd::slice::slice_to_vec;
use vstd::string::StringSliceAdditionalSpecFns;
use crate::error::{Failure, Fido2LuksError, Step};
use crate::secret::{wipe, zeros, DerivedSecret, SECRET_LEN};

verus! {

/// The time, in milliseconds, that the key derivation of a new keyslot
/// may take.
pub const KDF_ITERATION_MILLIS: u64 = 50;

/// The slot that a freshly formatted container keeps the secret in.
pub const FIRST_SLOT: u8 = 0;

/// What a probe found at the container's path.
#[derive(Clone, Copy, Debug, PartialEq, Eq, Structural)]
pub enum ContainerState {
    /// The path could be opened and holds no recognised header.
    Unformatted,
    /// The path holds a LUKS1 header with its keyslot table.
    Luks1WithSlots,
    /// The path could not be opened; the code is the container library's.
    Unreadable(i32),
}

/// Why the container took no new keyslot.
#[derive(Clone, Copy, Debug, PartialEq, Eq, Structural)]
pub enum SlotFault {
    /// The prior credential opens none of the keyslots.
    WrongCredential,
    /// Every keyslot is taken.
    NoFreeSlot,
    /// Anything else, with the container library's code.
    Other(i32),
}

/// The code with which the container library turns down a credential that
/// opens no keyslot: the operating system's "operation not permitted".
pub const CODE_NOT_PERMITTED: i32 = 1;

impl SlotFault {
    /// The fault behind a refused keyslot addition: without a free slot the
    /// table is full, whatever the code; with one, the code tells a rejected
    /// credential from everything else.
    pub open spec fn spec_classify(code: i32, free_slot: bool) -> SlotFault {
        if !free_slot {
            SlotFault::NoFreeSlot
        } else if code == CODE_NOT_PERMITTED {
            SlotFault::WrongCredential
        } else {
            SlotFault::Other(code)
        }
    }

    /// Classifies a refused keyslot addition from the container library's
    /// code and from whether the table had a free slot.
    #[verifier::when_used_as_spec(spec_classify)]
    pub fn classify(code: i32, free_slot: bool) -> (fault: SlotFault)
        ensures
            fault == SlotFault::spec_classify(code, free_slot),
    {
        if !free_slot {
            SlotFault::NoFreeSlot
        } else if code == CODE_NOT_PERMITTED {
            SlotFault::WrongCredential
        } else {
            SlotFault::Other(code)
        }
    }
}

/// What the caller reports back after performing a [`StoreAction`].
#[derive(Clone, Copy, Debug, PartialEq, Eq)]
pub enum StoreEvent {
    /// The container was probed.
    Probed(ContainerState),
    /// The container was formatted, or formatting failed with a code.
    Formatted(Result<(), i32>),
    /// A keyslot was added at the given index, or none was.
    SlotAdded(Result<u8, SlotFault>),
}

/// What the caller is to do next.
#[derive(Clone, Copy, Debug, PartialEq, Eq, Structural)]
pub enum StoreAction {
    /// Open the container and classify it; report `Probed`.
    Probe,
    /// Write a fresh header with the secret in the first slot; report
    /// `Formatted`.
    Format,
    /// Set the key-derivation time, authenticate with the prior credential
    /// and add a keyslot holding the secret, in the first free slot; report
    /// `SlotAdded`.
    AddKeyslot { iteration_millis: u64 },
    /// Nothing: the provisioning is over.
    Finish,
}

/// Where a provisioning stands.
#[derive(Clone, Copy, Debug, PartialEq, Eq, Structural)]
pub enum ProvisionStage {
    Probing,
    Formatting,
    AddingKeyslot,
    /// The secret sits in the keyslot with this index.
    Done(u8),
    Failed(Failure),
}

impl ProvisionStage {
    /// A provisioning that is over asks for nothing more.
    pub open spec fn is_terminal(self) -> bool {
        self is Done || self is Failed
    }

    /// The stage after `event`. An event that the stage does not wait for
    /// leaves it as it is.
    pub open spec fn next(self, authorize_format: bool, event: StoreEvent) -> ProvisionStage {
        match (self, event) {
            (ProvisionStage::Probing, StoreEvent::Probed(ContainerState::Luks1WithSlots)) =>
                ProvisionStage::AddingKeyslot,
            (ProvisionStage::Probing, StoreEvent::Probed(ContainerState::Unformatted)) =>
                if authorize_format {
                    ProvisionStage::Formatting
                } else {
                    ProvisionStage::Failed(
                        Failure { step: Step::Probing, error: Fido2LuksError::NotFormatted },
                    )
                },
            (ProvisionStage::Probing, StoreEvent::Probed(ContainerState::Unreadable(code))) =>
                ProvisionStage::Failed(
                    Failure { step: Step::Probing, error: Fido2LuksError::ContainerError(code) },
                ),
            (ProvisionStage::Formatting, StoreEvent::Formatted(Ok(_))) => ProvisionStage::Done(
                FIRST_SLOT,
            ),
            (ProvisionStage::Formatting, StoreEvent::Formatted(Err(code))) =>
                ProvisionStage::Failed(
                    Failure {
                        step: Step::Formatting,
                        error: Fido2LuksError::ContainerError(code),
                    },
                ),
            (ProvisionStage::AddingKeyslot, StoreEvent::SlotAdded(Ok(slot))) =>
                ProvisionStage::Done(slot),
            (ProvisionStage::AddingKeyslot, StoreEvent::SlotAdded(Err(fault))) =>
                ProvisionStage::Failed(
                    Failure { step: Step::KeyslotAddition, error: slot_error(fault) },
                ),
            _ => self,
        }
    }

    /// What the caller is to do in this stage.
    pub open spec fn spec_action(self) -> StoreAction {
        match self {
            ProvisionStage::Probing => StoreAction::Probe,
            ProvisionStage::Formatting => StoreAction::Format,
            ProvisionStage::AddingKeyslot => StoreAction::AddKeyslot {
                iteration_millis: KDF_ITERATION_MILLIS,
            },
            _ => StoreAction::Finish,
        }
    }

    /// What the caller is to do in this stage.
    #[verifier::when_used_as_spec(spec_action)]
    pub fn action(self) -> (a: StoreAction)
        ensures
            a == self.spec_action(),
    {
        match self {
            ProvisionStage::Probing => StoreAction::Probe,
            ProvisionStage::Formatting => StoreAction::Format,
            ProvisionStage::AddingKeyslot => StoreAction::AddKeyslot {
                iteration_millis: KDF_ITERATION_MILLIS,
            },
            _ => StoreAction::Finish,
        }
    }
}

/// The error that stands for a keyslot fault.
pub open spec fn slot_error(fault: SlotFault) -> Fido2LuksError {
    match fault {
        SlotFault::WrongCredential => Fido2LuksError::AuthenticationFailed,
        SlotFault::NoFreeSlot => Fido2LuksError::SlotsExhausted,
        SlotFault::Other(code) => Fido2LuksError::ContainerError(code),
    }
}

impl StoreAction {
    /// Whether performing the action may change the container.
    pub open spec fn spec_mutates(self) -> bool {
        self is Format || self is AddKeyslot
    }

    /// Whether performing the action may change the container.
    #[verifier::when_used_as_spec(spec_mutates)]
    pub fn mutates(self) -> (m: bool)
        ensures
            m == self.spec_mutates(),
    {
        match self {
            StoreAction::Format => true,
            StoreAction::AddKeyslot { .. } => true,
            _ => false,
        }
    }
}

/// The prior credential that the operator's answer stands for: none for an
/// empty answer; the contents of the file, where the answer names an
/// existing file and `keyfile` holds what was read from it; else the answer
/// itself, as the bytes of its text.
pub open spec fn prior_of(answer: Seq<char>, keyfile: Option<Seq<u8>>) -> Option<Seq<u8>> {
    if answer.len() == 0 {
        None
    } else {
        match keyfile {
            Some(contents) => Some(contents),
            None => Some(vstd::utf8::encode_utf8(answer)),
        }
    }
}

/// The view of bytes that may be absent.
pub open spec fn bytes_view(bytes: Option<Vec<u8>>) -> Option<Seq<u8>> {
    match bytes {
        Some(b) => Some(b@),
        None => None,
    }
}

/// Turns the operator's answer into the prior credential. `keyfile` is
/// `Some` exactly if the answer names an existing file, and then holds the
/// file's contents.
pub fn prior_credential(answer: &str, keyfile: Option<Vec<u8>>) -> (prior: Option<Vec<u8>>)
    ensures
        bytes_view(prior) == prior_of(answer@, bytes_view(keyfile)),
{
    if answer.is_empty() {
        None
    } else {
        match keyfile {
            Some(contents) => Some(contents),
            None => Some(slice_to_vec(answer.as_bytes())),
        }
    }
}

/// A provisioning as a mathematical value.
pub struct ProvisioningModel {
    pub secret: Seq<u8>,
    pub prior: Option<Seq<u8>>,
    pub authorize_format: bool,
    pub stage: ProvisionStage,
}

impl ProvisioningModel {
    /// Where a provisioning starts: nothing is known of the container yet.
    pub open spec fn begin(
        secret: Seq<u8>,
        prior: Option<Seq<u8>>,
        authorize_format: bool,
    ) -> ProvisioningModel {
        ProvisioningModel { secret, prior, authorize_format, stage: ProvisionStage::Probing }
    }

    /// The provisioning after `event`. Once it is over, the secret is
    /// overwritten with zero bytes and the prior credential is gone.
    pub open spec fn step(self, event: StoreEvent) -> ProvisioningModel {
        let stage = self.stage.next(self.authorize_format, event);
        if stage.is_terminal() {
            ProvisioningModel {
                secret: zeros(SECRET_LEN as nat),
                prior: None,
                authorize_format: self.authorize_format,
                stage,
            }
        } else {
            ProvisioningModel { stage, ..self }
        }
    }

    /// What the caller is to do next.
    pub open spec fn action(self) -> StoreAction {
        self.stage.spec_action()
    }

    /// How the provisioning ended, once it is over.
    pub open spec fn result(self) -> Option<Result<u8, Failure>> {
        match self.stage {
            ProvisionStage::Done(slot) => Some(Ok(slot)),
            ProvisionStage::Failed(failure) => Some(Err(failure)),
            _ => None,
        }
    }

    /// The provisioning after a sequence of events, in order.
    pub open spec fn run(self, events: Seq<StoreEvent>) -> ProvisioningModel
        decreases events.len(),
    {
        if events.len() == 0 {
            self
        } else {
            self.step(events[0]).run(events.drop_first())
        }
    }

    /// How many container-changing actions the caller is asked for while
    /// the events come in, counting the one that is pending at the start.
    /// An action that is asked for again, after an event that the stage did
    /// not wait for, counts once.
    pub open spec fn mutations(self, events: Seq<StoreEvent>) -> nat
        decreases events.len(),
    {
        let now: nat = if self.action().spec_mutates() {
            1
        } else {
            0
        };
        if events.len() == 0 {
            now
        } else if self.step(events[0]).stage == self.stage {
            self.step(events[0]).mutations(events.drop_first())
        } else {
            now + self.step(events[0]).mutations(events.drop_first())
        }
    }
}

/// A provisioning under way: the secret to install, the prior credential to
/// authenticate with, whether formatting is authorised, and the stage.
#[derive(Debug, PartialEq, Eq)]
pub struct Provisioning {
    secret: DerivedSecret,
    prior: Option<Vec<u8>>,
    authorize_format: bool,
    stage: ProvisionStage,
}

impl View for Provisioning {
    type V = ProvisioningModel;

    closed spec fn view(&self) -> ProvisioningModel {
        ProvisioningModel {
            secret: self.secret@,
            prior: bytes_view(self.prior),
            authorize_format: self.authorize_format,
            stage: self.stage,
        }
    }
}

impl Provisioning {
    /// Starts a provisioning. Its first action is to probe the container.
    pub fn begin(secret: DerivedSecret, prior: Option<Vec<u8>>, authorize_format: bool) -> (p:
        Provisioning)
        ensures
            p@ == ProvisioningModel::begin(secret@, bytes_view(prior), authorize_format),
    {
        Provisioning { secret, prior, authorize_format, stage: ProvisionStage::Probing }
    }

    /// The stage that the provisioning is in.
    pub fn stage(&self) -> (stage: ProvisionStage)
        ensures
            stage == self@.stage,
    {
        self.stage
    }

    /// What the caller is to do next.
    pub fn action(&self) -> (action: StoreAction)
        ensures
            action == self@.action(),
    {
        self.stage.action()
    }

    /// The secret to install.
    pub fn secret(&self) -> (secret: &[u8; 32])
        ensures
            secret@ == self@.secret,
    {
        self.secret.as_bytes()
    }

    /// The prior credential to authenticate with, if there is one.
    pub fn prior(&self) -> (prior: Option<&[u8]>)
        ensures
            match prior {
                Some(bytes) => self@.prior == Some(bytes@),
                None => self@.prior is None,
            },
    {
        match &self.prior {
            Some(bytes) => Some(bytes.as_slice()),
            None => None,
        }
    }

    /// Whether a container without a header may be formatted.
    pub fn authorize_format(&self) -> (authorized: bool)
        ensures
            authorized == self@.authorize_format,
    {
        self.authorize_format
    }

    /// How the provisioning ended: the keyslot used, or the failure with the
    /// step it arose in. `None` while it is under way.
    pub fn result(&self) -> (result: Option<Result<u8, Failure>>)
        ensures
            result == self@.result(),
    {
        match self.stage {
            ProvisionStage::Done(slot) => Some(Ok(slot)),
            ProvisionStage::Failed(failure) => Some(Err(failure)),
            _ => None,
        }
    }
}

/// The stage after `event`, computed.
fn next_stage(stage: ProvisionStage, authorize_format: bool, event: StoreEvent) -> (next:
    ProvisionStage)
    ensures
        next == stage.next(authorize_format, event),
{
    match stage {
        ProvisionStage::Probing => match event {
            StoreEvent::Probed(ContainerState::Luks1WithSlots) => ProvisionStage::AddingKeyslot,
            StoreEvent::Probed(ContainerState::Unformatted) => if authorize_format {
                ProvisionStage::Formatting
            } else {
                ProvisionStage::Failed(
                    Failure { step: Step::Probing, error: Fido2LuksError::NotFormatted },
                )
            },
            StoreEvent::Probed(ContainerState::Unreadable(code)) => ProvisionStage::Failed(
                Failure { step: Step::Probing, error: Fido2LuksError::ContainerError(code) },
            ),
            _ => stage,
        },
        ProvisionStage::Formatting => match event {
            StoreEvent::Formatted(Ok(_)) => ProvisionStage::Done(FIRST_SLOT),
            StoreEvent::Formatted(Err(code)) => ProvisionStage::Failed(
                Failure { step: Step::Formatting, error: Fido2LuksError::ContainerError(code) },
            ),
            _ => stage,
        },
        ProvisionStage::AddingKeyslot => match event {
            StoreEvent::SlotAdded(Ok(slot)) => ProvisionStage::Done(slot),
            StoreEvent::SlotAdded(Err(fault)) => {
                let error = match fault {
                    SlotFault::WrongCredential => Fido2LuksError::AuthenticationFailed,
                    SlotFault::NoFreeSlot => Fido2LuksError::SlotsExhausted,
                    SlotFault::Other(code) => Fido2LuksError::ContainerError(code),
                };
                ProvisionStage::Failed(Failure { step: Step::KeyslotAddition, error })
            },
            _ => stage,
        },
        _ => stage,
    }
}

/// Adds the derived secret to the container, one step at a time: takes in
/// what the caller reports of the action it performed, and answers with the
/// action to perform next.
///
/// A LUKS1 container gets a new keyslot, authenticated by the prior
/// credential. A container without a header is formatted if that was
/// authorised, and the provisioning fails with `NotFormatted` if it was not.
/// A container that cannot be opened and every fault of the container
/// library end the provisioning. When it ends, the secret and the prior
/// credential are wiped.
pub fn add_key_to_luks(provisioning: &mut Provisioning, event: StoreEvent) -> (action: StoreAction)
    ensures
        final(provisioning)@ == old(provisioning)@.step(event),
        action == final(provisioning)@.action(),
{
    let stage = next_stage(provisioning.stage, provisioning.authorize_format, event);
    provisioning.stage = stage;
    match stage {
        ProvisionStage::Done(_) | ProvisionStage::Failed(_) => {
            provisioning.secret.clear();
            match &mut provisioning.prior {
                Some(bytes) => {
                    wipe(bytes);
                },
                None => {},
            }
            provisioning.prior = None;
        },
        _ => {},
    }
    stage.action()
}

/// A provisioning that is over stays as it ended, whatever is reported.
pub proof fn lemma_terminal_is_final(p: ProvisioningModel, events: Seq<StoreEvent>)
    requires
        p.stage.is_terminal(),
    ensures
        p.run(events).stage == p.stage,
        p.run(events).action() == StoreAction::Finish,
        p.mutations(events) == 0,
    decreases events.len(),
{
    if events.len() > 0 {
        lemma_terminal_is_final(p.step(events[0]), events.drop_first());
    }
}

/// The caller is asked to change the container at most once in a
/// provisioning, whatever it reports.
pub proof fn lemma_at_most_one_mutation(p: ProvisioningModel, events: Seq<StoreEvent>)
    ensures
        p.mutations(events) <= 1,
        p.stage != ProvisionStage::Probing ==> p.mutations(events) == (if p.action().spec_mutates() {
            1nat
        } else {
            0nat
        }),
    decreases events.len(),
{
    if events.len() > 0 {
        let q = p.step(events[0]);
        lemma_at_most_one_mutation(q, events.drop_first());
        if q.stage.is_terminal() {
            lemma_terminal_is_final(q, events.drop_first());
        }
    }
}

/// An unformatted container is not touched without authorisation: the
/// provisioning fails with `NotFormatted`, and no container-changing action
/// is ever asked for.
pub proof fn lemma_unformatted_needs_authorization(
    secret: Seq<u8>,
    prior: Option<Seq<u8>>,
    later: Seq<StoreEvent>,
)
    ensures
        ({
            let p = ProvisioningModel::begin(secret, prior, false);
            let q = p.step(StoreEvent::Probed(ContainerState::Unformatted));
            &&& q.result() == Some(
                Err::<u8, Failure>(
                    Failure { step: Step::Probing, error: Fido2LuksError::NotFormatted },
                ),
            )
            &&& q.action() == StoreAction::Finish
            &&& q.run(later).result() == q.result()
            &&& p.mutations(seq![StoreEvent::Probed(ContainerState::Unformatted)] + later) == 0
        }),
{
    let p = ProvisioningModel::begin(secret, prior, false);
    let first = StoreEvent::Probed(ContainerState::Unformatted);
    let q = p.step(first);
    lemma_terminal_is_final(q, later);
    let all = seq![first] + later;
    assert(all[0] == first);
    assert(all.drop_first() =~= later);
}

/// With authorisation an unformatted container is formatted, and once the
/// caller reports the format done the secret sits in slot 0.
pub proof fn lemma_authorized_format_uses_first_slot(secret: Seq<u8>, prior: Option<Seq<u8>>)
    ensures
        ({
            let p = ProvisioningModel::begin(secret, prior, true);
            let q = p.step(StoreEvent::Probed(ContainerState::Unformatted));
            let r = q.step(StoreEvent::Formatted(Ok(())));
            &&& p.action() == StoreAction::Probe
            &&& q.action() == StoreAction::Format
            &&& q.secret == secret
            &&& r.result() == Some(Ok::<u8, Failure>(0u8))
            &&& r.action() == StoreAction::Finish
        }),
{
}

/// A rejected prior credential ends the provisioning with
/// `AuthenticationFailed`. The rejected request is the only one that was to
/// change the container: none was asked for before it and none is asked for
/// after it, so the keyslot table is as the container left it on rejecting.
pub proof fn lemma_wrong_credential_rejected(
    secret: Seq<u8>,
    prior: Option<Seq<u8>>,
    authorize_format: bool,
    later: Seq<StoreEvent>,
)
    ensures
        ({
            let p = ProvisioningModel::begin(secret, prior, authorize_format);
            let q = p.step(StoreEvent::Probed(ContainerState::Luks1WithSlots));
            let r = q.step(StoreEvent::SlotAdded(Err(SlotFault::WrongCredential)));
            &&& !p.action().spec_mutates()
            &&& q.action() == StoreAction::AddKeyslot { iteration_millis: KDF_ITERATION_MILLIS }
            &&& q.secret == secret
            &&& q.prior == prior
            &&& r.result() == Some(
                Err::<u8, Failure>(
                    Failure {
                        step: Step::KeyslotAddition,
                        error: Fido2LuksError::AuthenticationFailed,
                    },
                ),
            )
            &&& r.run(later).result() == r.result()
            &&& r.run(later).action() == StoreAction::Finish
            &&& r.mutations(later) == 0
        }),
{
    let p = ProvisioningModel::begin(secret, prior, authorize_format);
    let q = p.step(StoreEvent::Probed(ContainerState::Luks1WithSlots));
    let r = q.step(StoreEvent::SlotAdded(Err(SlotFault::WrongCredential)));
    lemma_terminal_is_final(r, later);
}

} // verus!
