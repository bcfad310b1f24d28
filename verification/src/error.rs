//! The failures an operation can end with, and what the operator can do
//! about each.
use vstd::prelude::*;

verus! {

/// Every way an operation of this library can fail.
#[derive(Clone, Copy, Debug, PartialEq, Eq, Structural)]
pub enum Fido2LuksError {
    /// No authenticator was attached when one was needed.
    NoAuthenticator,
    /// Every attached authenticator refused to create a credential.
    EnrollmentExhausted,
    /// The authenticator could not be talked to; trying again may help.
    DeviceError,
    /// The credential was not minted by the authenticator that was asked.
    CredentialMismatch,
    /// The container holds no recognised header and formatting was not authorised.
    NotFormatted,
    /// The container rejected the prior credential.
    AuthenticationFailed,
    /// The container has no free keyslot left.
    SlotsExhausted,
    /// The container library failed in a way not otherwise classified; the
    /// code is the library's own.
    ContainerError(i32),
    /// The configuration could not be read or written.
    ConfigIoError,
    /// The operator's answer could not be read.
    UserInputError,
}

/// The part of the work during which a failure arose.
#[derive(Clone, Copy, Debug, PartialEq, Eq, Structural)]
pub enum Step {
    /// Creating a credential on an authenticator.
    Enrollment,
    /// Asking an authenticator for a keyed-HMAC answer.
    Derivation,
    /// Writing the configuration.
    Persistence,
    /// Reading the operator's answers.
    Interaction,
    /// Opening and classifying the container.
    Probing,
    /// Writing a fresh container header.
    Formatting,
    /// Adding a keyslot to a formatted container.
    KeyslotAddition,
}

/// What the operator can do so that the same operation may succeed.
#[derive(Clone, Copy, Debug, PartialEq, Eq, Structural)]
pub enum Remedy {
    /// Enter the prior passphrase or keyfile again.
    ReenterPriorCredential,
    /// Invoke the operation again, this time authorising formatting.
    AuthorizeFormatting,
    /// Attach the authenticator (again) and retry.
    RetryDevice,
}

/// What a failure's report holds besides the step.
#[derive(Clone, Copy, Debug, PartialEq, Eq, Structural)]
pub enum Hint {
    /// The action that lets the operation succeed.
    Do(Remedy),
    /// The container library's code, as it came.
    Code(i32),
    /// Nothing more.
    Nothing,
}

/// A failure together with the step that it ended.
#[derive(Clone, Copy, Debug, PartialEq, Eq, Structural)]
pub struct Failure {
    pub step: Step,
    pub error: Fido2LuksError,
}

/// What an operation that can fail returns.
pub type Fido2LuksResult<T> = Result<T, Fido2LuksError>;

impl Fido2LuksError {
    /// The corrective action for this error, if the operator has one.
    pub open spec fn spec_remedy(self) -> Option<Remedy> {
        match self {
            Fido2LuksError::AuthenticationFailed => Some(Remedy::ReenterPriorCredential),
            Fido2LuksError::NotFormatted => Some(Remedy::AuthorizeFormatting),
            Fido2LuksError::DeviceError => Some(Remedy::RetryDevice),
            _ => None,
        }
    }

    /// An error is recoverable when the caller may invoke the same operation
    /// again with another answer from the operator.
    pub open spec fn spec_is_recoverable(self) -> bool {
        self == Fido2LuksError::AuthenticationFailed || self == Fido2LuksError::NotFormatted
    }

    /// An error is transient when the same request may succeed later
    /// without any change to it.
    pub open spec fn spec_is_transient(self) -> bool {
        self == Fido2LuksError::DeviceError
    }

    /// The corrective action for this error, if the operator has one.
    #[verifier::when_used_as_spec(spec_remedy)]
    pub fn remedy(self) -> (r: Option<Remedy>)
        ensures
            r == self.spec_remedy(),
    {
        match self {
            Fido2LuksError::AuthenticationFailed => Some(Remedy::ReenterPriorCredential),
            Fido2LuksError::NotFormatted => Some(Remedy::AuthorizeFormatting),
            Fido2LuksError::DeviceError => Some(Remedy::RetryDevice),
            _ => None,
        }
    }

    /// Whether another answer from the operator may let the operation succeed.
    #[verifier::when_used_as_spec(spec_is_recoverable)]
    pub fn is_recoverable(self) -> (r: bool)
        ensures
            r == self.spec_is_recoverable(),
    {
        match self {
            Fido2LuksError::AuthenticationFailed | Fido2LuksError::NotFormatted => true,
            _ => false,
        }
    }

    /// Whether the same request may succeed later.
    #[verifier::when_used_as_spec(spec_is_transient)]
    pub fn is_transient(self) -> (r: bool)
        ensures
            r == self.spec_is_transient(),
    {
        match self {
            Fido2LuksError::DeviceError => true,
            _ => false,
        }
    }

    /// Fatal errors end the operation for good: neither another answer nor
    /// another try will help.
    pub fn is_fatal(self) -> (r: bool)
        ensures
            r == (!self.spec_is_recoverable() && !self.spec_is_transient()),
    {
        !self.is_recoverable() && !self.is_transient()
    }
}

impl Step {
    /// The step's name as shown to the operator.
    pub open spec fn spec_name(self) -> Seq<char> {
        match self {
            Step::Enrollment => "authenticator enrollment"@,
            Step::Derivation => "secret derivation"@,
            Step::Persistence => "saving the configuration"@,
            Step::Interaction => "reading the operator's answer"@,
            Step::Probing => "container probing"@,
            Step::Formatting => "container formatting"@,
            Step::KeyslotAddition => "keyslot addition"@,
        }
    }

    /// The step's name as shown to the operator.
    pub fn name(self) -> (name: &'static str)
        ensures
            name@ == self.spec_name(),
    {
        match self {
            Step::Enrollment => "authenticator enrollment",
            Step::Derivation => "secret derivation",
            Step::Persistence => "saving the configuration",
            Step::Interaction => "reading the operator's answer",
            Step::Probing => "container probing",
            Step::Formatting => "container formatting",
            Step::KeyslotAddition => "keyslot addition",
        }
    }
}

impl Remedy {
    /// What to tell the operator to do.
    pub open spec fn spec_instruction(self) -> Seq<char> {
        match self {
            Remedy::ReenterPriorCredential => "enter the current passphrase or keyfile again"@,
            Remedy::AuthorizeFormatting =>
                "run again and authorize formatting; this erases the container"@,
            Remedy::RetryDevice => "attach the authenticator again and retry"@,
        }
    }

    /// What to tell the operator to do.
    pub fn instruction(self) -> (text: &'static str)
        ensures
            text@ == self.spec_instruction(),
    {
        match self {
            Remedy::ReenterPriorCredential => "enter the current passphrase or keyfile again",
            Remedy::AuthorizeFormatting =>
                "run again and authorize formatting; this erases the container",
            Remedy::RetryDevice => "attach the authenticator again and retry",
        }
    }
}

impl Failure {
    /// What the operator is shown besides the step that failed: the
    /// corrective action where there is one, else the container library's
    /// code where the failure carries one.
    pub open spec fn spec_hint(self) -> Hint {
        match self.error.spec_remedy() {
            Some(remedy) => Hint::Do(remedy),
            None => match self.error {
                Fido2LuksError::ContainerError(code) => Hint::Code(code),
                _ => Hint::Nothing,
            },
        }
    }

    /// What the operator is shown besides the step that failed.
    #[verifier::when_used_as_spec(spec_hint)]
    pub fn hint(self) -> (hint: Hint)
        ensures
            hint == self.spec_hint(),
    {
        match self.error.remedy() {
            Some(remedy) => Hint::Do(remedy),
            None => match self.error {
                Fido2LuksError::ContainerError(code) => Hint::Code(code),
                _ => Hint::Nothing,
            },
        }
    }
}

/// A failure that the operator can recover from is never shown as a bare
/// code: its hint is the corrective action.
pub proof fn lemma_recoverable_shows_remedy(failure: Failure)
    requires
        failure.error.spec_is_recoverable(),
    ensures
        failure.spec_hint() is Do,
        failure.error == Fido2LuksError::AuthenticationFailed ==> failure.spec_hint() == Hint::Do(
            Remedy::ReenterPriorCredential,
        ),
        failure.error == Fido2LuksError::NotFormatted ==> failure.spec_hint() == Hint::Do(
            Remedy::AuthorizeFormatting,
        ),
{
}

} // verus!
