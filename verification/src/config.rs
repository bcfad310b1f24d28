//! The record that is kept between runs.
//!
//! It names the credential by the lowercase hexadecimal text of its id. The
//! container path and the mapping name in it are defaults for later runs;
//! what the container's keyslots hold is asked of the container.
use vstd::prelude::*;
use crate::authenticator::Credential;
use crate::error::{Fido2LuksError, Fido2LuksResult};

verus! {

/// The sixteen lowercase hexadecimal digits, by value.
pub open spec fn hex_digits() -> Seq<char> {
    seq!['0', '1', '2', '3', '4', '5', '6', '7', '8', '9', 'a', 'b', 'c', 'd', 'e', 'f']
}

/// The lowercase hexadecimal text of `bytes`: two digits for each byte, the
/// high four bits first.
pub open spec fn hex_of(bytes: Seq<u8>) -> Seq<char> {
    Seq::new(
        2 * bytes.len(),
        |i: int|
            if i % 2 == 0 {
                hex_digits()[bytes[i / 2] as int / 16]
            } else {
                hex_digits()[bytes[i / 2] as int % 16]
            },
    )
}

/// The text has two digits per byte and holds nothing but lowercase
/// hexadecimal digits.
pub proof fn lemma_hex_shape(bytes: Seq<u8>)
    ensures
        hex_of(bytes).len() == 2 * bytes.len(),
        forall|i: int|
            0 <= i < hex_of(bytes).len() ==> hex_digits().contains(#[trigger] hex_of(bytes)[i]),
{
    assert forall|i: int| 0 <= i < hex_of(bytes).len() implies hex_digits().contains(
        #[trigger] hex_of(bytes)[i],
    ) by {
        let b = bytes[i / 2] as int;
        assert(0 <= b / 16 < 16 && 0 <= b % 16 < 16);
        assert(hex_digits().len() == 16);
        if i % 2 == 0 {
            assert(hex_of(bytes)[i] == hex_digits()[b / 16]);
        } else {
            assert(hex_of(bytes)[i] == hex_digits()[b % 16]);
        }
    }
}

/// Calls `hex::encode`, which writes each byte as two digits taken from the
/// table `0123456789abcdef`, the digit for the high four bits first, and
/// collects them into a string.
#[verifier::external_body]
fn hex_encode(bytes: &[u8]) -> (text: String)
    ensures
        text@ == hex_of(bytes@),
{
    hex::encode(bytes)
}

/// The value of a hexadecimal digit of either case, or `None` for any other
/// character.
pub open spec fn digit_value(c: char) -> Option<int> {
    if '0' <= c && c <= '9' {
        Some(c as int - '0' as int)
    } else if 'a' <= c && c <= 'f' {
        Some(c as int - 'a' as int + 10)
    } else if 'A' <= c && c <= 'F' {
        Some(c as int - 'A' as int + 10)
    } else {
        None
    }
}

/// Whether `text` is hexadecimal text for bytes: an even number of
/// hexadecimal digits and nothing else.
pub open spec fn is_hex_text(text: Seq<char>) -> bool {
    &&& text.len() % 2 == 0
    &&& forall|i: int| 0 <= i < text.len() ==> digit_value(#[trigger] text[i]) is Some
}

/// The bytes that hexadecimal text stands for.
pub open spec fn unhex(text: Seq<char>) -> Seq<u8> {
    Seq::new(
        text.len() / 2,
        |i: int| (16 * digit_value(text[2 * i])->Some_0 + digit_value(text[2 * i + 1])->Some_0) as u8,
    )
}

/// Each of the sixteen digits has its index as its value.
pub proof fn lemma_digit_values(k: int)
    requires
        0 <= k < 16,
    ensures
        digit_value(hex_digits()[k]) == Some(k),
{
    let d = hex_digits();
    assert(d[0] == '0' && d[1] == '1' && d[2] == '2' && d[3] == '3');
    assert(d[4] == '4' && d[5] == '5' && d[6] == '6' && d[7] == '7');
    assert(d[8] == '8' && d[9] == '9' && d[10] == 'a' && d[11] == 'b');
    assert(d[12] == 'c' && d[13] == 'd' && d[14] == 'e' && d[15] == 'f');
}

/// Writing bytes as hexadecimal text and reading the text back gives the
/// bytes again.
pub proof fn lemma_hex_round_trip(bytes: Seq<u8>)
    ensures
        is_hex_text(hex_of(bytes)),
        unhex(hex_of(bytes)) == bytes,
{
    let text = hex_of(bytes);
    assert forall|i: int| 0 <= i < text.len() implies digit_value(#[trigger] text[i]) is Some by {
        let b = bytes[i / 2] as int;
        lemma_digit_values(b / 16);
        lemma_digit_values(b % 16);
    }
    assert forall|i: int| 0 <= i < bytes.len() implies #[trigger] unhex(text)[i] == bytes[i] by {
        let b = bytes[i] as int;
        lemma_digit_values(b / 16);
        lemma_digit_values(b % 16);
        assert((2 * i) / 2 == i && (2 * i + 1) / 2 == i);
        assert((2 * i) % 2 == 0 && (2 * i + 1) % 2 == 1);
        assert(text[2 * i] == hex_digits()[b / 16]);
        assert(text[2 * i + 1] == hex_digits()[b % 16]);
        assert(16 * (b / 16) + b % 16 == b);
    }
    assert(unhex(text) =~= bytes);
}

/// Calls `hex::decode`, which takes the text two characters at a time,
/// accepts digits of either case, and fails on a text of odd length or with
/// any other character in it.
#[verifier::external_body]
fn hex_decode(text: &str) -> (bytes: Option<Vec<u8>>)
    ensures
        match bytes {
            Some(b) => is_hex_text(text@) && b@ == unhex(text@),
            None => !is_hex_text(text@),
        },
{
    hex::decode(text).ok()
}

/// A configuration as a mathematical value.
pub struct ConfigModel {
    pub credential_id: Seq<char>,
    pub device: Seq<char>,
    pub mapper_name: Seq<char>,
}

impl ConfigModel {
    /// The configuration that nothing has been entered into yet.
    pub open spec fn empty() -> ConfigModel {
        ConfigModel {
            credential_id: Seq::empty(),
            device: Seq::empty(),
            mapper_name: Seq::empty(),
        }
    }
}

/// The configuration: the credential's id as hexadecimal text, the
/// container's path and the name under which it is mapped once unlocked.
#[derive(Clone, Debug, PartialEq, Eq)]
pub struct Config {
    pub credential_id: String,
    pub device: String,
    pub mapper_name: String,
}

impl View for Config {
    type V = ConfigModel;

    open spec fn view(&self) -> ConfigModel {
        ConfigModel {
            credential_id: self.credential_id@,
            device: self.device@,
            mapper_name: self.mapper_name@,
        }
    }
}

impl Default for Config {
    fn default() -> (config: Config)
        ensures
            config@ == ConfigModel::empty(),
    {
        Config { credential_id: String::new(), device: String::new(), mapper_name: String::new() }
    }
}

impl Config {
    /// Records `credential` as the one to derive secrets with.
    pub fn set_credential(&mut self, credential: &Credential)
        ensures
            final(self)@ == (ConfigModel { credential_id: hex_of(credential@), ..old(self)@ }),
            is_hex_text(final(self)@.credential_id),
            unhex(final(self)@.credential_id) == credential@,
    {
        proof {
            lemma_hex_round_trip(credential@);
        }
        self.credential_id = hex_encode(credential.id.as_slice());
    }

    /// The credential that the configuration names. A credential id that
    /// is not hexadecimal text makes the configuration unusable.
    pub fn credential(&self) -> (credential: Fido2LuksResult<Credential>)
        ensures
            match credential {
                Ok(c) => is_hex_text(self@.credential_id) && c@ == unhex(self@.credential_id),
                Err(e) => !is_hex_text(self@.credential_id) && e == Fido2LuksError::ConfigIoError,
            },
    {
        match hex_decode(self.credential_id.as_str()) {
            Some(id) => Ok(Credential { id }),
            None => Err(Fido2LuksError::ConfigIoError),
        }
    }

    /// A copy of the configuration.
    pub fn duplicate(&self) -> (copy: Config)
        ensures
            copy@ == self@,
    {
        Config {
            credential_id: self.credential_id.clone(),
            device: self.device.clone(),
            mapper_name: self.mapper_name.clone(),
        }
    }
}

} // verus!
