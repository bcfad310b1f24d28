use fido2luks::error::{Failure, Fido2LuksError, Step};
use fido2luks::keyslot::{
    add_key_to_luks, prior_credential, ContainerState, ProvisionStage, Provisioning,
    SlotFault, StoreAction, StoreEvent, CODE_NOT_PERMITTED, FIRST_SLOT, KDF_ITERATION_MILLIS,
};
use fido2luks::secret::DerivedSecret;

/// A container kept in memory: no header, or a table of eight keyslots.
#[derive(Clone, Debug, PartialEq)]
struct MockContainer {
    slots: Option<Vec<Option<Vec<u8>>>>,
    unreadable: Option<i32>,
    iteration_millis: u64,
}

impl MockContainer {
    fn unformatted() -> MockContainer {
        MockContainer { slots: None, unreadable: None, iteration_millis: 0 }
    }

    fn luks1(keys: &[&[u8]]) -> MockContainer {
        let mut slots: Vec<Option<Vec<u8>>> = vec![None; 8];
        for (i, key) in keys.iter().enumerate() {
            slots[i] = Some(key.to_vec());
        }
        MockContainer { slots: Some(slots), unreadable: None, iteration_millis: 0 }
    }

    fn perform(&mut self, action: StoreAction, p: &Provisioning) -> StoreEvent {
        match action {
            StoreAction::Probe => StoreEvent::Probed(match (&self.unreadable, &self.slots) {
                (Some(code), _) => ContainerState::Unreadable(*code),
                (None, None) => ContainerState::Unformatted,
                (None, Some(_)) => ContainerState::Luks1WithSlots,
            }),
            StoreAction::Format => {
                let mut slots: Vec<Option<Vec<u8>>> = vec![None; 8];
                slots[0] = Some(p.secret().to_vec());
                self.slots = Some(slots);
                StoreEvent::Formatted(Ok(()))
            }
            StoreAction::AddKeyslot { iteration_millis } => {
                self.iteration_millis = iteration_millis;
                let slots = self.slots.as_mut().unwrap();
                let any_key = slots.iter().any(|s| s.is_some());
                let authenticated = match p.prior() {
                    Some(prior) => slots.iter().any(|s| s.as_deref() == Some(prior)),
                    None => !any_key,
                };
                if !authenticated {
                    return StoreEvent::SlotAdded(Err(SlotFault::WrongCredential));
                }
                match slots.iter().position(|s| s.is_none()) {
                    Some(free) => {
                        slots[free] = Some(p.secret().to_vec());
                        StoreEvent::SlotAdded(Ok(free as u8))
                    }
                    None => StoreEvent::SlotAdded(Err(SlotFault::NoFreeSlot)),
                }
            }
            StoreAction::Finish => panic!("nothing to perform"),
        }
    }
}

fn secret(fill: u8) -> DerivedSecret {
    fido2luks::secret::derive(Ok(vec![fill; 32])).unwrap()
}

fn provision(
    container: &mut MockContainer,
    secret: DerivedSecret,
    prior: Option<Vec<u8>>,
    authorize_format: bool,
) -> Result<u8, Failure> {
    let mut provisioning = Provisioning::begin(secret, prior, authorize_format);
    let mut action = provisioning.action();
    let mut steps = 0;
    while action != StoreAction::Finish {
        let event = container.perform(action, &provisioning);
        action = add_key_to_luks(&mut provisioning, event);
        steps += 1;
        assert!(steps < 10);
    }
    provisioning.result().unwrap()
}

fn failed(step: Step, error: Fido2LuksError) -> Failure {
    Failure { step, error }
}

#[test]
fn constants() {
    assert_eq!(KDF_ITERATION_MILLIS, 50);
    assert_eq!(FIRST_SLOT, 0);
}

#[test]
fn provisioning_starts_by_probing() {
    let p = Provisioning::begin(secret(1), Some(b"old".to_vec()), true);
    assert_eq!(p.stage(), ProvisionStage::Probing);
    assert_eq!(p.action(), StoreAction::Probe);
    assert_eq!(p.result(), None);
    assert_eq!(p.secret(), &[1u8; 32]);
    assert_eq!(p.prior(), Some(&b"old"[..]));
    assert!(p.authorize_format());
}

#[test]
fn unformatted_without_authorization_is_not_formatted() {
    let mut container = MockContainer::unformatted();
    let result = provision(&mut container, secret(1), None, false);
    assert_eq!(result, Err(failed(Step::Probing, Fido2LuksError::NotFormatted)));
    assert_eq!(container, MockContainer::unformatted());
}

#[test]
fn authorized_format_installs_the_secret_in_slot_0() {
    let mut container = MockContainer::unformatted();
    let result = provision(&mut container, secret(1), None, true);
    assert_eq!(result, Ok(0));
    let slots = container.slots.clone().unwrap();
    assert_eq!(slots[0], Some(vec![1u8; 32]));
    assert!(slots[1..].iter().all(|s| s.is_none()));
}

#[test]
fn not_formatted_then_authorized_format_on_the_same_container() {
    let mut container = MockContainer::unformatted();
    assert_eq!(
        provision(&mut container, secret(4), None, false),
        Err(failed(Step::Probing, Fido2LuksError::NotFormatted))
    );
    assert_eq!(provision(&mut container, secret(4), None, true), Ok(0));
    let mut p = Provisioning::begin(secret(4), None, false);
    let event = container.perform(StoreAction::Probe, &p);
    assert_eq!(event, StoreEvent::Probed(ContainerState::Luks1WithSlots));
    assert_eq!(
        add_key_to_luks(&mut p, event),
        StoreAction::AddKeyslot { iteration_millis: 50 }
    );
}

#[test]
fn keyslot_is_added_with_the_right_prior_credential() {
    let mut container = MockContainer::luks1(&[b"old passphrase"]);
    let result = provision(&mut container, secret(2), Some(b"old passphrase".to_vec()), false);
    assert_eq!(result, Ok(1));
    let slots = container.slots.clone().unwrap();
    assert_eq!(slots[0], Some(b"old passphrase".to_vec()));
    assert_eq!(slots[1], Some(vec![2u8; 32]));
    assert_eq!(container.iteration_millis, 50);
}

#[test]
fn format_authorization_does_not_format_a_luks_container() {
    let mut container = MockContainer::luks1(&[b"old"]);
    let result = provision(&mut container, secret(2), Some(b"old".to_vec()), true);
    assert_eq!(result, Ok(1));
    assert_eq!(container.slots.clone().unwrap()[0], Some(b"old".to_vec()));
}

#[test]
fn wrong_prior_credential_is_rejected_and_changes_nothing() {
    let mut container = MockContainer::luks1(&[b"old passphrase", b"second"]);
    let before = container.slots.clone();
    let result = provision(&mut container, secret(3), Some(b"guess".to_vec()), false);
    assert_eq!(
        result,
        Err(failed(Step::KeyslotAddition, Fido2LuksError::AuthenticationFailed))
    );
    assert_eq!(container.slots, before);
    let result = provision(&mut container, secret(3), None, true);
    assert_eq!(
        result,
        Err(failed(Step::KeyslotAddition, Fido2LuksError::AuthenticationFailed))
    );
    assert_eq!(container.slots, before);
}

#[test]
fn full_table_exhausts_the_slots() {
    let keys: [&[u8]; 8] = [b"a", b"b", b"c", b"d", b"e", b"f", b"g", b"h"];
    let mut container = MockContainer::luks1(&keys);
    let before = container.slots.clone();
    let result = provision(&mut container, secret(3), Some(b"c".to_vec()), false);
    assert_eq!(result, Err(failed(Step::KeyslotAddition, Fido2LuksError::SlotsExhausted)));
    assert_eq!(container.slots, before);
}

#[test]
fn unreadable_container_is_a_container_error() {
    let mut container = MockContainer::unformatted();
    container.unreadable = Some(-13);
    let result = provision(&mut container, secret(3), None, true);
    assert_eq!(result, Err(failed(Step::Probing, Fido2LuksError::ContainerError(-13))));
}

#[test]
fn failed_format_is_a_container_error() {
    let mut p = Provisioning::begin(secret(1), None, true);
    assert_eq!(
        add_key_to_luks(&mut p, StoreEvent::Probed(ContainerState::Unformatted)),
        StoreAction::Format
    );
    assert_eq!(p.stage(), ProvisionStage::Formatting);
    assert_eq!(add_key_to_luks(&mut p, StoreEvent::Formatted(Err(-5))), StoreAction::Finish);
    assert_eq!(
        p.result(),
        Some(Err(failed(Step::Formatting, Fido2LuksError::ContainerError(-5))))
    );
}

#[test]
fn other_keyslot_fault_is_a_container_error() {
    let mut p = Provisioning::begin(secret(1), Some(b"old".to_vec()), false);
    add_key_to_luks(&mut p, StoreEvent::Probed(ContainerState::Luks1WithSlots));
    assert_eq!(p.stage(), ProvisionStage::AddingKeyslot);
    let action = add_key_to_luks(&mut p, StoreEvent::SlotAdded(Err(SlotFault::Other(-22))));
    assert_eq!(action, StoreAction::Finish);
    assert_eq!(
        p.result(),
        Some(Err(failed(Step::KeyslotAddition, Fido2LuksError::ContainerError(-22))))
    );
}

#[test]
fn slot_index_is_returned_as_reported() {
    let mut p = Provisioning::begin(secret(1), Some(b"old".to_vec()), false);
    add_key_to_luks(&mut p, StoreEvent::Probed(ContainerState::Luks1WithSlots));
    assert_eq!(add_key_to_luks(&mut p, StoreEvent::SlotAdded(Ok(5))), StoreAction::Finish);
    assert_eq!(p.stage(), ProvisionStage::Done(5));
    assert_eq!(p.result(), Some(Ok(5)));
}

#[test]
fn unexpected_event_changes_nothing() {
    let mut p = Provisioning::begin(secret(1), Some(b"old".to_vec()), true);
    assert_eq!(add_key_to_luks(&mut p, StoreEvent::SlotAdded(Ok(3))), StoreAction::Probe);
    assert_eq!(add_key_to_luks(&mut p, StoreEvent::Formatted(Ok(()))), StoreAction::Probe);
    assert_eq!(p.stage(), ProvisionStage::Probing);
    assert_eq!(p.secret(), &[1u8; 32]);
    add_key_to_luks(&mut p, StoreEvent::Probed(ContainerState::Unformatted));
    assert_eq!(
        add_key_to_luks(&mut p, StoreEvent::Probed(ContainerState::Luks1WithSlots)),
        StoreAction::Format
    );
    assert_eq!(add_key_to_luks(&mut p, StoreEvent::SlotAdded(Ok(3))), StoreAction::Format);
}

#[test]
fn finished_provisioning_stays_finished() {
    let mut p = Provisioning::begin(secret(1), None, false);
    add_key_to_luks(&mut p, StoreEvent::Probed(ContainerState::Unformatted));
    let ended = p.result();
    for event in [
        StoreEvent::Probed(ContainerState::Luks1WithSlots),
        StoreEvent::Formatted(Ok(())),
        StoreEvent::SlotAdded(Ok(1)),
    ] {
        assert_eq!(add_key_to_luks(&mut p, event), StoreAction::Finish);
        assert_eq!(p.result(), ended);
    }
}

#[test]
fn secret_and_prior_are_wiped_when_provisioning_ends() {
    let mut p = Provisioning::begin(secret(9), Some(b"old".to_vec()), false);
    add_key_to_luks(&mut p, StoreEvent::Probed(ContainerState::Luks1WithSlots));
    assert_eq!(p.secret(), &[9u8; 32]);
    assert_eq!(p.prior(), Some(&b"old"[..]));
    add_key_to_luks(&mut p, StoreEvent::SlotAdded(Err(SlotFault::WrongCredential)));
    assert_eq!(p.secret(), &[0u8; 32]);
    assert_eq!(p.prior(), None);

    let mut p = Provisioning::begin(secret(9), Some(b"old".to_vec()), false);
    add_key_to_luks(&mut p, StoreEvent::Probed(ContainerState::Luks1WithSlots));
    add_key_to_luks(&mut p, StoreEvent::SlotAdded(Ok(1)));
    assert_eq!(p.secret(), &[0u8; 32]);
    assert_eq!(p.prior(), None);
}

#[test]
fn only_format_and_add_keyslot_change_the_container() {
    assert!(!StoreAction::Probe.mutates());
    assert!(!StoreAction::Finish.mutates());
    assert!(StoreAction::Format.mutates());
    assert!(StoreAction::AddKeyslot { iteration_millis: 50 }.mutates());
}

#[test]
fn stage_actions() {
    assert_eq!(ProvisionStage::Probing.action(), StoreAction::Probe);
    assert_eq!(ProvisionStage::Formatting.action(), StoreAction::Format);
    assert_eq!(
        ProvisionStage::AddingKeyslot.action(),
        StoreAction::AddKeyslot { iteration_millis: 50 }
    );
    assert_eq!(ProvisionStage::Done(2).action(), StoreAction::Finish);
}

#[test]
fn empty_answer_means_no_prior_credential() {
    assert_eq!(prior_credential("", None), None);
    assert_eq!(prior_credential("", Some(vec![1, 2, 3])), None);
}

#[test]
fn answer_naming_a_file_means_its_contents() {
    assert_eq!(
        prior_credential("/etc/keyfile", Some(vec![0, 159, 146, 150])),
        Some(vec![0, 159, 146, 150])
    );
    assert_eq!(prior_credential("/etc/empty", Some(Vec::new())), Some(Vec::new()));
}

#[test]
fn other_answer_is_a_passphrase() {
    assert_eq!(prior_credential("hunter2", None), Some(b"hunter2".to_vec()));
    assert_eq!(
        prior_credential("p\u{e4}sswort", None),
        Some(vec![b'p', 0xc3, 0xa4, b's', b's', b'w', b'o', b'r', b't'])
    );
}

#[test]
fn refused_addition_is_classified() {
    assert_eq!(CODE_NOT_PERMITTED, 1);
    assert_eq!(SlotFault::classify(1, true), SlotFault::WrongCredential);
    assert_eq!(SlotFault::classify(1, false), SlotFault::NoFreeSlot);
    assert_eq!(SlotFault::classify(22, false), SlotFault::NoFreeSlot);
    assert_eq!(SlotFault::classify(22, true), SlotFault::Other(22));
    assert_eq!(SlotFault::classify(-1, true), SlotFault::Other(-1));
    assert_eq!(SlotFault::classify(0, true), SlotFault::Other(0));
}
