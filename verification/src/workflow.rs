//! The interactive first-time setup, one step at a time.
//!
//! The setup waits for an authenticator, enrolls a credential, and asks the
//! operator for the container's path and for the mapping name. The
//! configuration is saved after each of these, so that an interrupted setup
//! keeps what was entered. The caller performs each [`SetupAction`] and
//! reports what came of it as a [`SetupEvent`].
use vstd::prelude::*;
use crate::authenticator::{
    answer_view,
    AuthenticatorHandle,
    DiscoveryFault,
    EnrollAnswer,
    EnrollFault,
    Enrollment,
    EnrollmentModel,
};
use crate::config::{hex_of, Config, ConfigModel};
use crate::error::{Failure, Fido2LuksError, Step};

verus! {

/// The pause, in milliseconds, before the attached devices are enumerated
/// again.
pub const POLL_INTERVAL_MILLIS: u64 = 1000;

/// After this many polls without a device the operator is asked again to
/// attach one.
pub const POLLS_PER_PROMPT: u8 = 3;

/// Where the setup stands.
#[derive(Clone, Copy, Debug, PartialEq, Eq, Structural)]
pub enum SetupStage {
    /// The attached devices are enumerated for the first time.
    Discovering,
    /// No device was found; `polls_left` more polls follow before the
    /// operator is asked again.
    Waiting { polls_left: u8 },
    /// A discovered device is being asked for a credential.
    Enrolling,
    /// The configuration with the credential's id is being saved.
    SavingCredential,
    /// The operator is asked for the container's path.
    AskingDevice,
    /// The path entered does not exist; the operator is asked whether to
    /// keep it.
    ConfirmingDevice,
    /// The configuration with the container's path is being saved.
    SavingDevice,
    /// The operator is asked for the mapping name.
    AskingMapperName,
    /// The complete configuration is being saved.
    SavingMapperName,
    /// The setup is complete.
    Done,
    /// The setup ended with a failure.
    Failed(Failure),
}

/// What the caller is to do next.
#[derive(Clone, Copy, Debug, PartialEq, Eq, Structural)]
pub enum SetupAction {
    /// Ask the operator to attach an authenticator if `announce` is set,
    /// pause for `millis` milliseconds, enumerate the attached devices, and
    /// report `Discovered`.
    Poll { millis: u64, announce: bool },
    /// Ask the device for a credential and report `Enrolled`. With
    /// `after_refusal` set, the device before it refused.
    Enroll { handle: AuthenticatorHandle, after_refusal: bool },
    /// Write the configuration and report `Saved`.
    SaveConfig,
    /// Ask for the container's path and report `DeviceEntered`.
    AskDevice,
    /// Ask whether the path that does not exist is to be kept, and report
    /// `Confirmed`.
    ConfirmDevice,
    /// Ask for the mapping name and report `MapperNameEntered`.
    AskMapperName,
    /// Nothing: the setup is over.
    Finish,
}

/// What the caller reports back after performing a [`SetupAction`].
#[derive(Debug, PartialEq, Eq)]
pub enum SetupEvent {
    /// The devices found, in discovery order, or that enumerating failed.
    Discovered(Result<Vec<AuthenticatorHandle>, DiscoveryFault>),
    /// What the device asked for a credential answered.
    Enrolled(EnrollAnswer),
    /// Whether the configuration was written.
    Saved(bool),
    /// The path that the operator entered, and whether it exists.
    DeviceEntered { path: String, exists: bool },
    /// The operator's yes or no.
    Confirmed(bool),
    /// The mapping name that the operator entered.
    MapperNameEntered(String),
    /// The operator's answer could not be read.
    InputFailed,
}

/// An event as a mathematical value.
pub enum SetupEventModel {
    Discovered(Result<Seq<AuthenticatorHandle>, DiscoveryFault>),
    Enrolled(Result<Seq<u8>, EnrollFault>),
    Saved(bool),
    DeviceEntered { path: Seq<char>, exists: bool },
    Confirmed(bool),
    MapperNameEntered(Seq<char>),
    InputFailed,
}

impl View for SetupEvent {
    type V = SetupEventModel;

    open spec fn view(&self) -> SetupEventModel {
        match *self {
            SetupEvent::Discovered(Ok(handles)) => SetupEventModel::Discovered(Ok(handles@)),
            SetupEvent::Discovered(Err(fault)) => SetupEventModel::Discovered(Err(fault)),
            SetupEvent::Enrolled(answer) => SetupEventModel::Enrolled(answer_view(answer)),
            SetupEvent::Saved(ok) => SetupEventModel::Saved(ok),
            SetupEvent::DeviceEntered { path, exists } => SetupEventModel::DeviceEntered {
                path: path@,
                exists,
            },
            SetupEvent::Confirmed(yes) => SetupEventModel::Confirmed(yes),
            SetupEvent::MapperNameEntered(name) => SetupEventModel::MapperNameEntered(name@),
            SetupEvent::InputFailed => SetupEventModel::InputFailed,
        }
    }
}

/// The failure of a step.
pub open spec fn failure(step: Step, error: Fido2LuksError) -> Failure {
    Failure { step, error }
}

/// A setup as a mathematical value.
pub struct WorkflowModel {
    pub stage: SetupStage,
    pub config: ConfigModel,
    /// The path that awaits the operator's confirmation.
    pub pending_device: Seq<char>,
    pub enrollment: EnrollmentModel,
}

impl WorkflowModel {
    /// Where a setup starts: with an empty configuration, looking for a
    /// device.
    pub open spec fn begin() -> WorkflowModel {
        WorkflowModel {
            stage: SetupStage::Discovering,
            config: ConfigModel::empty(),
            pending_device: Seq::empty(),
            enrollment: EnrollmentModel::begin(Seq::empty()),
        }
    }

    /// What holds of every setup that was started and stepped: a device is
    /// asked only while the enrollment is under way; past the enrollment the
    /// configuration names the credential that was enrolled; and a setup is
    /// complete only with a mapping name.
    pub open spec fn wf(self) -> bool {
        &&& self.enrollment.wf()
        &&& self.stage matches SetupStage::Waiting { polls_left } ==> polls_left < POLLS_PER_PROMPT
        &&& self.stage is Enrolling ==> self.enrollment is Trying
        &&& self.past_enrollment() ==> (self.enrollment matches EnrollmentModel::Finished(Ok(id))
            && self.config.credential_id == hex_of(id))
        &&& (self.stage is SavingMapperName || self.stage is Done) ==> self.config.mapper_name.len()
            > 0
    }

    /// Whether a credential has been enrolled and the setup has gone on.
    pub open spec fn past_enrollment(self) -> bool {
        self.stage is SavingCredential || self.stage is AskingDevice
            || self.stage is ConfirmingDevice || self.stage is SavingDevice
            || self.stage is AskingMapperName || self.stage is SavingMapperName
            || self.stage is Done
    }

    /// The stage after one more poll without a device.
    pub open spec fn keep_waiting(stage: SetupStage) -> SetupStage {
        match stage {
            SetupStage::Waiting { polls_left } => if polls_left > 0 {
                SetupStage::Waiting { polls_left: (polls_left - 1) as u8 }
            } else {
                SetupStage::Waiting { polls_left: (POLLS_PER_PROMPT - 1) as u8 }
            },
            _ => SetupStage::Waiting { polls_left: (POLLS_PER_PROMPT - 1) as u8 },
        }
    }

    /// The setup after a discovery. With a device it goes on to enroll; an
    /// empty or failed discovery keeps it waiting.
    pub open spec fn on_discovered(
        self,
        discovery: Result<Seq<AuthenticatorHandle>, DiscoveryFault>,
    ) -> WorkflowModel {
        match discovery {
            Ok(handles) => if handles.len() > 0 {
                WorkflowModel {
                    stage: SetupStage::Enrolling,
                    enrollment: EnrollmentModel::begin(handles),
                    ..self
                }
            } else {
                WorkflowModel { stage: Self::keep_waiting(self.stage), ..self }
            },
            Err(_) => WorkflowModel { stage: Self::keep_waiting(self.stage), ..self },
        }
    }

    /// The setup after a device has answered. The first credential is
    /// written into the configuration, which is then saved; once every
    /// device has refused, the setup fails.
    pub open spec fn on_enrolled(self, answer: Result<Seq<u8>, EnrollFault>) -> WorkflowModel {
        let enrollment = self.enrollment.advance(answer);
        match enrollment {
            EnrollmentModel::Trying { .. } => WorkflowModel { enrollment, ..self },
            EnrollmentModel::Finished(Ok(id)) => WorkflowModel {
                stage: SetupStage::SavingCredential,
                config: ConfigModel { credential_id: hex_of(id), ..self.config },
                enrollment,
                ..self
            },
            EnrollmentModel::Finished(Err(error)) => WorkflowModel {
                stage: SetupStage::Failed(failure(Step::Enrollment, error)),
                enrollment,
                ..self
            },
        }
    }

    /// The stage after the configuration was or was not written. A save
    /// that failed ends the setup; one that succeeded leads to the next
    /// question, and after the last to completion.
    pub open spec fn after_save(stage: SetupStage, written: bool) -> SetupStage {
        if !written {
            SetupStage::Failed(failure(Step::Persistence, Fido2LuksError::ConfigIoError))
        } else {
            match stage {
                SetupStage::SavingCredential => SetupStage::AskingDevice,
                SetupStage::SavingDevice => SetupStage::AskingMapperName,
                _ => SetupStage::Done,
            }
        }
    }

    /// The setup after the configuration was or was not written.
    pub open spec fn on_saved(self, written: bool) -> WorkflowModel {
        WorkflowModel { stage: Self::after_save(self.stage, written), ..self }
    }

    /// The path `path` is taken into the configuration, which is then saved.
    pub open spec fn accept_device(self, path: Seq<char>) -> WorkflowModel {
        WorkflowModel {
            stage: SetupStage::SavingDevice,
            config: ConfigModel { device: path, ..self.config },
            ..self
        }
    }

    /// The setup after `event`. An event that the stage does not wait for
    /// leaves the setup as it is.
    pub open spec fn step(self, event: SetupEventModel) -> WorkflowModel {
        match self.stage {
            SetupStage::Discovering | SetupStage::Waiting { .. } => match event {
                SetupEventModel::Discovered(discovery) => self.on_discovered(discovery),
                _ => self,
            },
            SetupStage::Enrolling => match event {
                SetupEventModel::Enrolled(answer) => self.on_enrolled(answer),
                _ => self,
            },
            SetupStage::SavingCredential | SetupStage::SavingDevice
            | SetupStage::SavingMapperName => match event {
                SetupEventModel::Saved(written) => self.on_saved(written),
                _ => self,
            },
            SetupStage::AskingDevice => match event {
                SetupEventModel::DeviceEntered { path, exists } => if exists {
                    self.accept_device(path)
                } else {
                    WorkflowModel {
                        stage: SetupStage::ConfirmingDevice,
                        pending_device: path,
                        ..self
                    }
                },
                SetupEventModel::InputFailed => self.input_failed(),
                _ => self,
            },
            SetupStage::ConfirmingDevice => match event {
                SetupEventModel::Confirmed(yes) => if yes {
                    self.accept_device(self.pending_device)
                } else {
                    WorkflowModel { stage: SetupStage::AskingDevice, ..self }
                },
                SetupEventModel::InputFailed => self.input_failed(),
                _ => self,
            },
            SetupStage::AskingMapperName => match event {
                SetupEventModel::MapperNameEntered(name) => if name.len() > 0 {
                    WorkflowModel {
                        stage: SetupStage::SavingMapperName,
                        config: ConfigModel { mapper_name: name, ..self.config },
                        ..self
                    }
                } else {
                    self
                },
                SetupEventModel::InputFailed => self.input_failed(),
                _ => self,
            },
            SetupStage::Done | SetupStage::Failed(_) => self,
        }
    }

    /// The setup after an answer could not be read.
    pub open spec fn input_failed(self) -> WorkflowModel {
        WorkflowModel {
            stage: SetupStage::Failed(failure(Step::Interaction, Fido2LuksError::UserInputError)),
            ..self
        }
    }

    /// What the caller is to do next.
    pub open spec fn action(self) -> SetupAction {
        match self.stage {
            SetupStage::Discovering => SetupAction::Poll { millis: 0, announce: false },
            SetupStage::Waiting { polls_left } => SetupAction::Poll {
                millis: POLL_INTERVAL_MILLIS,
                announce: polls_left + 1 == POLLS_PER_PROMPT,
            },
            SetupStage::Enrolling => match self.enrollment {
                EnrollmentModel::Trying { handles, next } => SetupAction::Enroll {
                    handle: handles[next as int],
                    after_refusal: next > 0,
                },
                EnrollmentModel::Finished(_) => SetupAction::Finish,
            },
            SetupStage::SavingCredential | SetupStage::SavingDevice
            | SetupStage::SavingMapperName => SetupAction::SaveConfig,
            SetupStage::AskingDevice => SetupAction::AskDevice,
            SetupStage::ConfirmingDevice => SetupAction::ConfirmDevice,
            SetupStage::AskingMapperName => SetupAction::AskMapperName,
            SetupStage::Done | SetupStage::Failed(_) => SetupAction::Finish,
        }
    }

    /// How the setup ended, once it is over.
    pub open spec fn result(self) -> Option<Result<(), Failure>> {
        match self.stage {
            SetupStage::Done => Some(Ok(())),
            SetupStage::Failed(failure) => Some(Err(failure)),
            _ => None,
        }
    }

    /// The setup after a sequence of events, in order.
    pub open spec fn run(self, events: Seq<SetupEventModel>) -> WorkflowModel
        decreases events.len(),
    {
        if events.len() == 0 {
            self
        } else {
            self.step(events[0]).run(events.drop_first())
        }
    }
}

/// A setup under way.
#[derive(Debug, PartialEq, Eq)]
pub struct Workflow {
    stage: SetupStage,
    config: Config,
    pending_device: String,
    enrollment: Enrollment,
}

impl View for Workflow {
    type V = WorkflowModel;

    closed spec fn view(&self) -> WorkflowModel {
        WorkflowModel {
            stage: self.stage,
            config: self.config@,
            pending_device: self.pending_device@,
            enrollment: self.enrollment@,
        }
    }
}

impl Workflow {
    #[verifier::type_invariant]
    closed spec fn inv(self) -> bool {
        self@.wf()
    }

    /// Starts a setup. Its first action is to enumerate the attached
    /// devices.
    pub fn begin() -> (workflow: Workflow)
        ensures
            workflow@ == WorkflowModel::begin(),
            workflow@.wf(),
    {
        Workflow {
            stage: SetupStage::Discovering,
            config: Config::default(),
            pending_device: String::new(),
            enrollment: Enrollment::begin(Vec::new()),
        }
    }

    /// The stage that the setup is in.
    pub fn stage(&self) -> (stage: SetupStage)
        ensures
            stage == self@.stage,
    {
        self.stage
    }

    /// The configuration as entered so far. It is what `SaveConfig` asks the
    /// caller to write.
    pub fn config(&self) -> (config: &Config)
        ensures
            config@ == self@.config,
    {
        &self.config
    }

    /// The path that `ConfirmDevice` asks about.
    pub fn pending_device(&self) -> (path: &String)
        ensures
            path@ == self@.pending_device,
    {
        &self.pending_device
    }

    /// What the caller is to do next.
    pub fn action(&self) -> (action: SetupAction)
        ensures
            action == self@.action(),
    {
        proof {
            use_type_invariant(self);
        }
        match self.stage {
            SetupStage::Discovering => SetupAction::Poll { millis: 0, announce: false },
            SetupStage::Waiting { polls_left } => SetupAction::Poll {
                millis: POLL_INTERVAL_MILLIS,
                announce: polls_left == POLLS_PER_PROMPT - 1,
            },
            SetupStage::Enrolling => match self.enrollment.pending() {
                Some(handle) => SetupAction::Enroll {
                    handle,
                    after_refusal: self.enrollment.refusals() > 0,
                },
                None => SetupAction::Finish,
            },
            SetupStage::SavingCredential | SetupStage::SavingDevice
            | SetupStage::SavingMapperName => SetupAction::SaveConfig,
            SetupStage::AskingDevice => SetupAction::AskDevice,
            SetupStage::ConfirmingDevice => SetupAction::ConfirmDevice,
            SetupStage::AskingMapperName => SetupAction::AskMapperName,
            SetupStage::Done | SetupStage::Failed(_) => SetupAction::Finish,
        }
    }

    /// How the setup ended: complete, or failed in some step. `None` while
    /// it is under way.
    pub fn result(&self) -> (result: Option<Result<(), Failure>>)
        ensures
            result == self@.result(),
    {
        match self.stage {
            SetupStage::Done => Some(Ok(())),
            SetupStage::Failed(failure) => Some(Err(failure)),
            _ => None,
        }
    }

    /// The setup after `event`.
    fn step(self, event: SetupEvent) -> (next: Workflow)
        ensures
            next@ == self@.step(event@),
            next@.wf(),
    {
        proof {
            use_type_invariant(&self);
            lemma_step_preserves_wf(self@, event@);
        }
        let Workflow { stage, config, pending_device, enrollment } = self;
        let input_failed = SetupStage::Failed(
            Failure { step: Step::Interaction, error: Fido2LuksError::UserInputError },
        );
        match stage {
            SetupStage::Discovering | SetupStage::Waiting { .. } => match event {
                SetupEvent::Discovered(Ok(handles)) => {
                    if handles.len() > 0 {
                        Workflow {
                            stage: SetupStage::Enrolling,
                            config,
                            pending_device,
                            enrollment: Enrollment::begin(handles),
                        }
                    } else {
                        Workflow { stage: keep_waiting(stage), config, pending_device, enrollment }
                    }
                },
                SetupEvent::Discovered(Err(_)) => Workflow {
                    stage: keep_waiting(stage),
                    config,
                    pending_device,
                    enrollment,
                },
                _ => Workflow { stage, config, pending_device, enrollment },
            },
            SetupStage::Enrolling => match event {
                SetupEvent::Enrolled(answer) => {
                    let enrollment = enrollment.advance(answer);
                    let mut config = config;
                    let stage = match enrollment.outcome() {
                        None => stage,
                        Some(Ok(credential)) => {
                            config.set_credential(credential);
                            SetupStage::SavingCredential
                        },
                        Some(Err(error)) => SetupStage::Failed(
                            Failure { step: Step::Enrollment, error: *error },
                        ),
                    };
                    Workflow { stage, config, pending_device, enrollment }
                },
                _ => Workflow { stage, config, pending_device, enrollment },
            },
            SetupStage::SavingCredential | SetupStage::SavingDevice
            | SetupStage::SavingMapperName => match event {
                SetupEvent::Saved(written) => Workflow {
                    stage: after_save(stage, written),
                    config,
                    pending_device,
                    enrollment,
                },
                _ => Workflow { stage, config, pending_device, enrollment },
            },
            SetupStage::AskingDevice => match event {
                SetupEvent::DeviceEntered { path, exists } => {
                    if exists {
                        let mut config = config;
                        config.device = path;
                        Workflow {
                            stage: SetupStage::SavingDevice,
                            config,
                            pending_device,
                            enrollment,
                        }
                    } else {
                        Workflow {
                            stage: SetupStage::ConfirmingDevice,
                            config,
                            pending_device: path,
                            enrollment,
                        }
                    }
                },
                SetupEvent::InputFailed => Workflow {
                    stage: input_failed,
                    config,
                    pending_device,
                    enrollment,
                },
                _ => Workflow { stage, config, pending_device, enrollment },
            },
            SetupStage::ConfirmingDevice => match event {
                SetupEvent::Confirmed(yes) => {
                    if yes {
                        let mut config = config;
                        config.device = pending_device.clone();
                        Workflow {
                            stage: SetupStage::SavingDevice,
                            config,
                            pending_device,
                            enrollment,
                        }
                    } else {
                        Workflow {
                            stage: SetupStage::AskingDevice,
                            config,
                            pending_device,
                            enrollment,
                        }
                    }
                },
                SetupEvent::InputFailed => Workflow {
                    stage: input_failed,
                    config,
                    pending_device,
                    enrollment,
                },
                _ => Workflow { stage, config, pending_device, enrollment },
            },
            SetupStage::AskingMapperName => match event {
                SetupEvent::MapperNameEntered(name) => {
                    if name.as_str().is_empty() {
                        Workflow { stage, config, pending_device, enrollment }
                    } else {
                        let mut config = config;
                        config.mapper_name = name;
                        Workflow {
                            stage: SetupStage::SavingMapperName,
                            config,
                            pending_device,
                            enrollment,
                        }
                    }
                },
                SetupEvent::InputFailed => Workflow {
                    stage: input_failed,
                    config,
                    pending_device,
                    enrollment,
                },
                _ => Workflow { stage, config, pending_device, enrollment },
            },
            SetupStage::Done | SetupStage::Failed(_) => Workflow {
                stage,
                config,
                pending_device,
                enrollment,
            },
        }
    }
}

/// The stage after one more poll without a device.
fn keep_waiting(stage: SetupStage) -> (next: SetupStage)
    requires
        stage matches SetupStage::Waiting { polls_left } ==> polls_left < POLLS_PER_PROMPT,
    ensures
        next == WorkflowModel::keep_waiting(stage),
{
    match stage {
        SetupStage::Waiting { polls_left } => if polls_left > 0 {
            SetupStage::Waiting { polls_left: polls_left - 1 }
        } else {
            SetupStage::Waiting { polls_left: POLLS_PER_PROMPT - 1 }
        },
        _ => SetupStage::Waiting { polls_left: POLLS_PER_PROMPT - 1 },
    }
}

/// The stage after the configuration was or was not written.
fn after_save(stage: SetupStage, written: bool) -> (next: SetupStage)
    ensures
        next == WorkflowModel::after_save(stage, written),
{
    if !written {
        SetupStage::Failed(
            Failure { step: Step::Persistence, error: Fido2LuksError::ConfigIoError },
        )
    } else {
        match stage {
            SetupStage::SavingCredential => SetupStage::AskingDevice,
            SetupStage::SavingDevice => SetupStage::AskingMapperName,
            _ => SetupStage::Done,
        }
    }
}

/// Runs the first-time setup, one step at a time: takes in what the caller
/// reports of the action it performed, and answers with the action to
/// perform next.
///
/// The setup polls for an authenticator until one is attached, asking the
/// operator again after every few polls; a discovery that fails counts as
/// one that found nothing. It then asks the discovered devices in turn for a
/// credential and takes the first. The container's path is taken as entered
/// if it exists, and after the operator's confirmation if it does not; an
/// empty mapping name is asked for again. The configuration is saved after
/// the credential, after the path and after the name, and a save that fails
/// ends the setup, as does an answer that cannot be read.
pub fn setup(workflow: &mut Workflow, event: SetupEvent) -> (action: SetupAction)
    ensures
        final(workflow)@ == old(workflow)@.step(event@),
        final(workflow)@.wf(),
        action == final(workflow)@.action(),
{
    let mut taken = Workflow::begin();
    core::mem::swap(workflow, &mut taken);
    let next = taken.step(event);
    let action = next.action();
    *workflow = next;
    action
}

/// Every step keeps a setup well-formed.
pub proof fn lemma_step_preserves_wf(w: WorkflowModel, event: SetupEventModel)
    requires
        w.wf(),
    ensures
        w.step(event).wf(),
{
}

/// Whatever is reported, a setup that was started stays well-formed: once
/// complete, its configuration names the enrolled credential in hexadecimal
/// and holds a mapping name.
pub proof fn lemma_run_preserves_wf(w: WorkflowModel, events: Seq<SetupEventModel>)
    requires
        w.wf(),
    ensures
        w.run(events).wf(),
    decreases events.len(),
{
    if events.len() > 0 {
        lemma_step_preserves_wf(w, events[0]);
        lemma_run_preserves_wf(w.step(events[0]), events.drop_first());
    }
}

/// While the setup waits for a device, no discovery ends it: a failed or
/// empty discovery keeps it waiting, and the operator is asked again with
/// every third poll.
pub proof fn lemma_discovery_failures_absorbed(
    w: WorkflowModel,
    discovery: Result<Seq<AuthenticatorHandle>, DiscoveryFault>,
)
    requires
        w.wf(),
        w.stage is Discovering || w.stage is Waiting,
    ensures
        ({
            let next = w.step(SetupEventModel::Discovered(discovery));
            let found = discovery matches Ok(handles) && handles.len() > 0;
            &&& found ==> next.stage is Enrolling
            &&& !found ==> next.stage is Waiting && next.action() is Poll
            &&& next.result() is None
        }),
{
}

/// A setup that is over stays as it ended, whatever is reported.
pub proof fn lemma_finished_setup_is_final(w: WorkflowModel, events: Seq<SetupEventModel>)
    requires
        w.result() is Some,
    ensures
        w.run(events) == w,
        w.action() == SetupAction::Finish,
    decreases events.len(),
{
    if events.len() > 0 {
        lemma_finished_setup_is_final(w.step(events[0]), events.drop_first());
    }
}

} // verus!
