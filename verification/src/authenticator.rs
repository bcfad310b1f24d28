//! Finding authenticators and enrolling a credential on one of them.
//!
//! The caller enumerates the attached devices and talks to them; this module
//! decides which device is tried next and how an enrollment ends.
use vstd::prelude::*;
use vstd::slice::slice_to_vec;
use crate::error::{Fido2LuksError, Fido2LuksResult};

verus! {

/// One attached authenticator, named by its place in the discovery order.
/// A handle is good for one operation and is never stored.
#[derive(Clone, Copy, Debug, PartialEq, Eq, Structural)]
pub struct AuthenticatorHandle {
    pub index: usize,
}

/// A key handle that lives on the authenticator that minted it. Every
/// credential made here is capable of keyed HMAC.
#[derive(Clone, Debug, PartialEq, Eq)]
pub struct Credential {
    pub id: Vec<u8>,
}

impl View for Credential {
    type V = Seq<u8>;

    open spec fn view(&self) -> Seq<u8> {
        self.id@
    }
}

/// Enumerating the attached devices failed.
#[derive(Clone, Copy, Debug, PartialEq, Eq, Structural)]
pub struct DiscoveryFault;

/// An authenticator refused to create a credential.
#[derive(Clone, Copy, Debug, PartialEq, Eq, Structural)]
pub struct EnrollFault;

/// Whether a discovery found at least one authenticator. A discovery that
/// failed is reported as a device error; an empty one is no error.
pub fn authenticator_connected(discovery: &Result<Vec<AuthenticatorHandle>, DiscoveryFault>) -> (r:
    Fido2LuksResult<bool>)
    ensures
        discovery matches Ok(handles) ==> r == Ok::<bool, Fido2LuksError>(handles@.len() > 0),
        discovery is Err ==> r == Err::<bool, Fido2LuksError>(Fido2LuksError::DeviceError),
{
    match discovery {
        Ok(handles) => Ok(handles.len() > 0),
        Err(_) => Err(Fido2LuksError::DeviceError),
    }
}

impl Credential {
    /// A copy of the credential.
    pub fn duplicate(&self) -> (c: Credential)
        ensures
            c@ == self@,
    {
        Credential { id: slice_to_vec(self.id.as_slice()) }
    }
}

/// What one authenticator answered when asked to create a credential.
pub type EnrollAnswer = Result<Credential, EnrollFault>;

/// The view of an answer: the credential's id, or the refusal.
pub open spec fn answer_view(answer: EnrollAnswer) -> Result<Seq<u8>, EnrollFault> {
    match answer {
        Ok(credential) => Ok(credential@),
        Err(fault) => Err(fault),
    }
}

/// The view of an enrollment's end: the credential's id, or the error.
pub open spec fn enrolled_view(outcome: Result<Credential, Fido2LuksError>) -> Result<
    Seq<u8>,
    Fido2LuksError,
> {
    match outcome {
        Ok(credential) => Ok(credential@),
        Err(e) => Err(e),
    }
}

/// An enrollment as a mathematical value.
pub enum EnrollmentModel {
    /// The device `handles[next]` is being asked; those before it refused.
    Trying { handles: Seq<AuthenticatorHandle>, next: nat },
    /// The enrollment is over.
    Finished(Result<Seq<u8>, Fido2LuksError>),
}

impl EnrollmentModel {
    /// Where an enrollment over the discovered `handles` starts.
    pub open spec fn begin(handles: Seq<AuthenticatorHandle>) -> EnrollmentModel {
        if handles.len() == 0 {
            EnrollmentModel::Finished(Err(Fido2LuksError::NoAuthenticator))
        } else {
            EnrollmentModel::Trying { handles, next: 0 }
        }
    }

    /// Where the enrollment stands after the device asked has answered.
    /// The first credential ends it; a refusal moves on to the next device,
    /// and after the last device to exhaustion. A finished enrollment stays
    /// as it is.
    pub open spec fn advance(self, answer: Result<Seq<u8>, EnrollFault>) -> EnrollmentModel {
        match self {
            EnrollmentModel::Finished(_) => self,
            EnrollmentModel::Trying { handles, next } => match answer {
                Ok(id) => EnrollmentModel::Finished(Ok(id)),
                Err(_) => if next + 1 < handles.len() {
                    EnrollmentModel::Trying { handles, next: next + 1 }
                } else {
                    EnrollmentModel::Finished(Err(Fido2LuksError::EnrollmentExhausted))
                },
            },
        }
    }

    /// The device to ask next, while the enrollment is not over.
    pub open spec fn pending(self) -> Option<AuthenticatorHandle> {
        match self {
            EnrollmentModel::Trying { handles, next } => Some(handles[next as int]),
            EnrollmentModel::Finished(_) => None,
        }
    }

    /// How many devices have refused while the enrollment is under way.
    pub open spec fn refusals(self) -> nat {
        match self {
            EnrollmentModel::Trying { next, .. } => next,
            EnrollmentModel::Finished(_) => 0,
        }
    }

    /// A device is only ever asked if it was discovered.
    pub open spec fn wf(self) -> bool {
        match self {
            EnrollmentModel::Trying { handles, next } => next < handles.len(),
            EnrollmentModel::Finished(_) => true,
        }
    }
}

/// Which devices were discovered and which of them is being asked, or how
/// the enrollment ended.
#[derive(Debug, PartialEq, Eq)]
enum Progress {
    Trying { handles: Vec<AuthenticatorHandle>, next: usize },
    Finished(Result<Credential, Fido2LuksError>),
}

/// An enrollment under way. It asks one discovered device after the other,
/// in discovery order, until one gives a credential.
#[derive(Debug, PartialEq, Eq)]
pub struct Enrollment {
    progress: Progress,
}

impl View for Enrollment {
    type V = EnrollmentModel;

    closed spec fn view(&self) -> EnrollmentModel {
        match self.progress {
            Progress::Trying { handles, next } => EnrollmentModel::Trying {
                handles: handles@,
                next: next as nat,
            },
            Progress::Finished(outcome) => EnrollmentModel::Finished(enrolled_view(outcome)),
        }
    }
}

impl Enrollment {
    #[verifier::type_invariant]
    closed spec fn inv(self) -> bool {
        self@.wf()
    }

    /// Starts an enrollment over the devices in discovery order.
    pub fn begin(handles: Vec<AuthenticatorHandle>) -> (enrollment: Enrollment)
        ensures
            enrollment@ == EnrollmentModel::begin(handles@),
            enrollment@.wf(),
    {
        if handles.len() == 0 {
            Enrollment { progress: Progress::Finished(Err(Fido2LuksError::NoAuthenticator)) }
        } else {
            Enrollment { progress: Progress::Trying { handles, next: 0 } }
        }
    }

    /// Takes in the answer of the device that was asked.
    pub fn advance(self, answer: EnrollAnswer) -> (enrollment: Enrollment)
        ensures
            enrollment@ == self@.advance(answer_view(answer)),
            enrollment@.wf(),
    {
        proof {
            use_type_invariant(&self);
        }
        match self.progress {
            Progress::Finished(outcome) => Enrollment { progress: Progress::Finished(outcome) },
            Progress::Trying { handles, next } => match answer {
                Ok(credential) => Enrollment { progress: Progress::Finished(Ok(credential)) },
                Err(_) => {
                    let n: usize = handles.len();
                    assert(next < n);
                    if next + 1 < n {
                        Enrollment { progress: Progress::Trying { handles, next: next + 1 } }
                    } else {
                        Enrollment {
                            progress: Progress::Finished(Err(Fido2LuksError::EnrollmentExhausted)),
                        }
                    }
                },
            },
        }
    }

    /// The device to ask next, or `None` once the enrollment is over.
    pub fn pending(&self) -> (handle: Option<AuthenticatorHandle>)
        ensures
            handle == self@.pending(),
    {
        proof {
            use_type_invariant(self);
        }
        match &self.progress {
            Progress::Trying { handles, next } => Some(handles[*next]),
            Progress::Finished(_) => None,
        }
    }

    /// How many devices have refused while the enrollment is under way.
    pub fn refusals(&self) -> (count: usize)
        ensures
            count == self@.refusals(),
    {
        match &self.progress {
            Progress::Trying { next, .. } => *next,
            Progress::Finished(_) => 0,
        }
    }

    /// How the enrollment ended, or `None` while a device is being asked.
    pub fn outcome(&self) -> (outcome: Option<&Result<Credential, Fido2LuksError>>)
        ensures
            match outcome {
                Some(end) => self@ == EnrollmentModel::Finished(enrolled_view(*end)),
                None => self@ is Trying,
            },
    {
        match &self.progress {
            Progress::Trying { .. } => None,
            Progress::Finished(end) => Some(end),
        }
    }
}

/// The index of the first credential among `answers` at or after `from`,
/// or the number of answers if there is none.
pub open spec fn first_credential(answers: Seq<Result<Seq<u8>, EnrollFault>>, from: nat) -> nat
    decreases answers.len() - from,
{
    if from >= answers.len() {
        answers.len()
    } else if answers[from as int] is Ok {
        from
    } else {
        first_credential(answers, from + 1)
    }
}

/// How an enrollment ends when the discovered devices, asked in discovery
/// order, would give `answers`: with the first credential; without any
/// device, with `NoAuthenticator`; after refusals only, with
/// `EnrollmentExhausted`.
pub open spec fn enroll_result(answers: Seq<Result<Seq<u8>, EnrollFault>>) -> Result<
    Seq<u8>,
    Fido2LuksError,
> {
    if answers.len() == 0 {
        Err(Fido2LuksError::NoAuthenticator)
    } else if first_credential(answers, 0) < answers.len() {
        Ok(answers[first_credential(answers, 0) as int]->Ok_0)
    } else {
        Err(Fido2LuksError::EnrollmentExhausted)
    }
}

/// `first_credential` is the least index of a credential: it holds one, or
/// is the number of answers, and every answer between `from` and it is a
/// refusal.
pub proof fn lemma_first_credential(answers: Seq<Result<Seq<u8>, EnrollFault>>, from: nat)
    requires
        from <= answers.len(),
    ensures
        from <= first_credential(answers, from) <= answers.len(),
        first_credential(answers, from) < answers.len() ==> answers[first_credential(
            answers,
            from,
        ) as int] is Ok,
        forall|j: int| from <= j < first_credential(answers, from) ==> answers[j] is Err,
    decreases answers.len() - from,
{
    if from < answers.len() && answers[from as int] is Err {
        lemma_first_credential(answers, from + 1);
    }
}

/// The views of the answers, in order.
pub open spec fn answers_view(answers: Seq<EnrollAnswer>) -> Seq<Result<Seq<u8>, EnrollFault>> {
    answers.map_values(|a: EnrollAnswer| answer_view(a))
}

/// Runs a whole enrollment against devices whose answers are known:
/// `answers[i]` is what the `i`-th discovered device gives when asked.
/// The answers after the first credential are not looked at.
pub fn enroll_credential(answers: &Vec<EnrollAnswer>) -> (outcome: Fido2LuksResult<Credential>)
    ensures
        enrolled_view(outcome) == enroll_result(answers_view(answers@)),
{
    let ghost model = answers_view(answers@);
    let n: usize = answers.len();
    let mut handles: Vec<AuthenticatorHandle> = Vec::new();
    let mut k: usize = 0;
    while k < n
        invariant
            k <= n,
            handles@.len() == k,
        decreases n - k,
    {
        handles.push(AuthenticatorHandle { index: k });
        k += 1;
    }
    let mut enrollment = Enrollment::begin(handles);
    let mut i: usize = 0;
    proof {
        lemma_first_credential(model, 0);
    }
    while i < n && enrollment.pending().is_some()
        invariant
            n == answers@.len(),
            model == answers_view(answers@),
            model.len() == n,
            i <= n,
            enrollment@.wf(),
            match enrollment@ {
                EnrollmentModel::Trying { handles, next } => handles.len() == n && next == i
                    && first_credential(model, 0) == first_credential(model, i as nat),
                EnrollmentModel::Finished(end) => end == enroll_result(model),
            },
        decreases n - i,
    {
        let answer: EnrollAnswer = match &answers[i] {
            Ok(credential) => Ok(credential.duplicate()),
            Err(fault) => Err(*fault),
        };
        assert(answer_view(answer) == model[i as int]);
        proof {
            lemma_first_credential(model, i as nat);
            lemma_first_credential(model, 0);
        }
        enrollment = enrollment.advance(answer);
        i += 1;
    }
    match enrollment.outcome() {
        Some(Ok(credential)) => Ok(credential.duplicate()),
        Some(Err(error)) => Err(*error),
        None => Err(Fido2LuksError::EnrollmentExhausted),
    }
}

/// Without any discovered device an enrollment ends with `NoAuthenticator`,
/// and with no other inputs does it end so.
pub proof fn lemma_no_authenticator(answers: Seq<Result<Seq<u8>, EnrollFault>>)
    ensures
        enroll_result(answers) == Err::<Seq<u8>, Fido2LuksError>(Fido2LuksError::NoAuthenticator)
            <==> answers.len() == 0,
{
}

} // verus!
