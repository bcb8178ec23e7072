//! The errors of this crate.
//!
//! [`Error`] is what every fallible operation returns. Failures of the
//! signing and of the verifying pipeline are told apart by stage in
//! [`SignerError`] and [`VerifierError`].

use crate::crypto::error_text;
use crate::PROTO_VERSION;
use openssl::error::ErrorStack;
use vstd::prelude::*;
use vstd::string::StringExecFns;

verus! {

/// Why an operation of this crate failed.
#[derive(Debug)]
pub enum Error {
    /// A signature could not be made.
    Signer(SignerError),
    /// A signature could not be checked.
    Verifier(VerifierError),
    /// No fresh key pair could be generated.
    KeyGen(ErrorStack),
    /// The conversion of a key pair to its public half failed.
    KeyPublic(ErrorStack),
    /// A key was asked of a genesis block, which holds none.
    GenesisIsNotKey,
    /// Serialized data carries another protocol version than ours.
    IncompatibleVersion(u8),
}

/// The stage at which making a signature failed.
#[derive(Debug)]
pub enum SignerError {
    /// The signer could not be set up.
    Create(ErrorStack),
    /// The signer could not take in the data.
    Update(ErrorStack),
    /// The signer could not produce the signature.
    Execute(ErrorStack),
}

/// The stage at which checking a signature failed.
#[derive(Debug)]
pub enum VerifierError {
    /// The verifier could not be set up.
    Create(ErrorStack),
    /// The verifier could not take in the data.
    Update(ErrorStack),
    /// The verifier could not come to a verdict.
    Execute(ErrorStack),
}

/// The text of the decimal digit `digit`.
pub open spec fn digit_text(digit: nat) -> Seq<char> {
    if digit == 0 {
        "0"@
    } else if digit == 1 {
        "1"@
    } else if digit == 2 {
        "2"@
    } else if digit == 3 {
        "3"@
    } else if digit == 4 {
        "4"@
    } else if digit == 5 {
        "5"@
    } else if digit == 6 {
        "6"@
    } else if digit == 7 {
        "7"@
    } else if digit == 8 {
        "8"@
    } else {
        "9"@
    }
}

/// The decimal notation of `number`, without leading zeros.
pub open spec fn decimal(number: nat) -> Seq<char>
    decreases number,
{
    if number < 10 {
        digit_text(number)
    } else {
        decimal(number / 10) + digit_text(number % 10)
    }
}

/// The text of a decimal digit.
fn digit_str(digit: u8) -> (text: &'static str)
    requires
        digit < 10,
    ensures
        text@ == digit_text(digit as nat),
{
    match digit {
        0 => "0",
        1 => "1",
        2 => "2",
        3 => "3",
        4 => "4",
        5 => "5",
        6 => "6",
        7 => "7",
        8 => "8",
        _ => "9",
    }
}

/// Writes `number` in decimal notation.
pub fn decimal_text(number: u8) -> (text: String)
    ensures
        text@ == decimal(number as nat),
{
    let mut text = String::new();
    if number >= 100 {
        text.append(digit_str(number / 100));
    }
    if number >= 10 {
        text.append(digit_str((number / 10) % 10));
    }
    text.append(digit_str(number % 10));
    proof {
        reveal_with_fuel(decimal, 3);
        assert(text@ =~= decimal(number as nat));
    }
    text
}

/// A message that ends with `detail` in round brackets.
pub open spec fn with_detail(message: Seq<char>, detail: Seq<char>) -> Seq<char> {
    message + " ("@ + detail + ")"@
}

/// Appends `detail` in round brackets to a message.
fn add_detail(message: &str, detail: &str) -> (text: String)
    ensures
        text@ == with_detail(message@, detail@),
{
    let mut text = String::from_str(message);
    text.append(" (");
    text.append(detail);
    text.append(")");
    text
}

impl SignerError {
    /// The message of this error, where `detail` describes what OpenSSL
    /// reported.
    pub open spec fn describe(self, detail: Seq<char>) -> Seq<char> {
        match self {
            SignerError::Create(_) => with_detail(
                "Couldn't create signer to create a new hash"@,
                detail,
            ),
            SignerError::Update(_) => with_detail(
                "Couldn't update signer with data to create a new hash"@,
                detail,
            ),
            SignerError::Execute(_) => with_detail(
                "Couldn't execute signer to create a new hash"@,
                detail,
            ),
        }
    }

    /// What OpenSSL reported.
    pub fn stack(&self) -> (stack: &ErrorStack)
        ensures
            match *self {
                SignerError::Create(inner) => *stack == inner,
                SignerError::Update(inner) => *stack == inner,
                SignerError::Execute(inner) => *stack == inner,
            },
    {
        match self {
            SignerError::Create(stack) => stack,
            SignerError::Update(stack) => stack,
            SignerError::Execute(stack) => stack,
        }
    }

    /// The message of this error with `detail` as the description of what
    /// OpenSSL reported.
    pub fn message_with(&self, detail: &str) -> (text: String)
        ensures
            text@ == self.describe(detail@),
    {
        match self {
            SignerError::Create(_) => add_detail(
                "Couldn't create signer to create a new hash",
                detail,
            ),
            SignerError::Update(_) => add_detail(
                "Couldn't update signer with data to create a new hash",
                detail,
            ),
            SignerError::Execute(_) => add_detail(
                "Couldn't execute signer to create a new hash",
                detail,
            ),
        }
    }

    /// The message of this error, with OpenSSL's own description of what it
    /// reported.
    pub fn message(&self) -> (text: String)
        ensures
            exists|detail: Seq<char>| text@ == #[trigger] self.describe(detail),
    {
        let detail = error_text(self.stack());
        self.message_with(detail.as_str())
    }
}

impl VerifierError {
    /// The message of this error, where `detail` describes what OpenSSL
    /// reported.
    pub open spec fn describe(self, detail: Seq<char>) -> Seq<char> {
        match self {
            VerifierError::Create(_) => with_detail("Couldn't create block verifier"@, detail),
            VerifierError::Update(_) => with_detail(
                "Couldn't update block verifier with hash"@,
                detail,
            ),
            VerifierError::Execute(_) => with_detail("Couldn't execute block verifier"@, detail),
        }
    }

    /// What OpenSSL reported.
    pub fn stack(&self) -> (stack: &ErrorStack)
        ensures
            match *self {
                VerifierError::Create(inner) => *stack == inner,
                VerifierError::Update(inner) => *stack == inner,
                VerifierError::Execute(inner) => *stack == inner,
            },
    {
        match self {
            VerifierError::Create(stack) => stack,
            VerifierError::Update(stack) => stack,
            VerifierError::Execute(stack) => stack,
        }
    }

    /// The message of this error with `detail` as the description of what
    /// OpenSSL reported.
    pub fn message_with(&self, detail: &str) -> (text: String)
        ensures
            text@ == self.describe(detail@),
    {
        match self {
            VerifierError::Create(_) => add_detail("Couldn't create block verifier", detail),
            VerifierError::Update(_) => add_detail(
                "Couldn't update block verifier with hash",
                detail,
            ),
            VerifierError::Execute(_) => add_detail("Couldn't execute block verifier", detail),
        }
    }

    /// The message of this error, with OpenSSL's own description of what it
    /// reported.
    pub fn message(&self) -> (text: String)
        ensures
            exists|detail: Seq<char>| text@ == #[trigger] self.describe(detail),
    {
        let detail = error_text(self.stack());
        self.message_with(detail.as_str())
    }
}

impl Error {
    /// The message of this error, where `detail` describes what OpenSSL
    /// reported. Errors that do not come from OpenSSL have a message of
    /// their own, in which `detail` plays no part.
    pub open spec fn describe(self, detail: Seq<char>) -> Seq<char> {
        match self {
            Error::Signer(inner) => inner.describe(detail),
            Error::Verifier(inner) => inner.describe(detail),
            Error::KeyGen(_) => with_detail("Couldn't generate new ED25519 keypair"@, detail),
            Error::KeyPublic(_) => with_detail(
                "Couldn't derive the public key of a keypair"@,
                detail,
            ),
            Error::GenesisIsNotKey => "Genesis block's don't contain pkeys but it was queried for"@,
            Error::IncompatibleVersion(found) => "Inputted protocol version (v"@ + decimal(
                found as nat,
            ) + ") doesn't match ours (v"@ + decimal(PROTO_VERSION as nat) + ")"@,
        }
    }

    /// Whether this error carries a report of OpenSSL.
    pub open spec fn from_openssl(self) -> bool {
        !(self is GenesisIsNotKey || self is IncompatibleVersion)
    }

    /// The message of this error with `detail` as the description of what
    /// OpenSSL reported.
    pub fn message_with(&self, detail: &str) -> (text: String)
        ensures
            text@ == self.describe(detail@),
    {
        match self {
            Error::Signer(inner) => inner.message_with(detail),
            Error::Verifier(inner) => inner.message_with(detail),
            Error::KeyGen(_) => add_detail("Couldn't generate new ED25519 keypair", detail),
            Error::KeyPublic(_) => add_detail(
                "Couldn't derive the public key of a keypair",
                detail,
            ),
            Error::GenesisIsNotKey => String::from_str(
                "Genesis block's don't contain pkeys but it was queried for",
            ),
            Error::IncompatibleVersion(found) => {
                let mut text = String::from_str("Inputted protocol version (v");
                text.append(decimal_text(*found).as_str());
                text.append(") doesn't match ours (v");
                text.append(decimal_text(PROTO_VERSION).as_str());
                text.append(")");
                text
            },
        }
    }

    /// The message of this error. Where the error carries a report of
    /// OpenSSL, the message holds OpenSSL's own description of it.
    pub fn message(&self) -> (text: String)
        ensures
            exists|detail: Seq<char>| text@ == #[trigger] self.describe(detail),
            !self.from_openssl() ==> text@ == self.describe(Seq::empty()),
    {
        match self {
            Error::Signer(inner) => self.message_with(error_text(inner.stack()).as_str()),
            Error::Verifier(inner) => self.message_with(error_text(inner.stack()).as_str()),
            Error::KeyGen(stack) => self.message_with(error_text(stack).as_str()),
            Error::KeyPublic(stack) => self.message_with(error_text(stack).as_str()),
            Error::GenesisIsNotKey => self.message_with(""),
            Error::IncompatibleVersion(_) => self.message_with(""),
        }
    }
}

impl From<SignerError> for Error {
    fn from(err: SignerError) -> (error: Error) {
        Error::Signer(err)
    }
}

impl vstd::std_specs::convert::FromSpecImpl<SignerError> for Error {
    open spec fn obeys_from_spec() -> bool {
        true
    }

    open spec fn from_spec(err: SignerError) -> Error {
        Error::Signer(err)
    }
}

impl From<VerifierError> for Error {
    fn from(err: VerifierError) -> (error: Error) {
        Error::Verifier(err)
    }
}

impl vstd::std_specs::convert::FromSpecImpl<VerifierError> for Error {
    open spec fn obeys_from_spec() -> bool {
        true
    }

    open spec fn from_spec(err: VerifierError) -> Error {
        Error::Verifier(err)
    }
}

impl From<Error> for () {
    fn from(_err: Error) -> (unit: ()) {
    }
}

impl vstd::std_specs::convert::FromSpecImpl<Error> for () {
    open spec fn obeys_from_spec() -> bool {
        true
    }

    open spec fn from_spec(_err: Error) -> () {
        ()
    }
}

impl From<SignerError> for () {
    fn from(_err: SignerError) -> (unit: ()) {
    }
}

impl vstd::std_specs::convert::FromSpecImpl<SignerError> for () {
    open spec fn obeys_from_spec() -> bool {
        true
    }

    open spec fn from_spec(_err: SignerError) -> () {
        ()
    }
}

impl From<VerifierError> for () {
    fn from(_err: VerifierError) -> (unit: ()) {
    }
}

impl vstd::std_specs::convert::FromSpecImpl<VerifierError> for () {
    open spec fn obeys_from_spec() -> bool {
        true
    }

    open spec fn from_spec(_err: VerifierError) -> () {
        ()
    }
}

impl<T> From<SignerError> for Result<T, Error> {
    fn from(err: SignerError) -> (res: Result<T, Error>) {
        Err(Error::Signer(err))
    }
}

impl<T> vstd::std_specs::convert::FromSpecImpl<SignerError> for Result<T, Error> {
    open spec fn obeys_from_spec() -> bool {
        true
    }

    open spec fn from_spec(err: SignerError) -> Result<T, Error> {
        Err(Error::Signer(err))
    }
}

impl<T> From<VerifierError> for Result<T, Error> {
    fn from(err: VerifierError) -> (res: Result<T, Error>) {
        Err(Error::Verifier(err))
    }
}

impl<T> vstd::std_specs::convert::FromSpecImpl<VerifierError> for Result<T, Error> {
    open spec fn obeys_from_spec() -> bool {
        true
    }

    open spec fn from_spec(err: VerifierError) -> Result<T, Error> {
        Err(Error::Verifier(err))
    }
}

} // verus!
