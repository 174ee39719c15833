//! The common shape of the per-kind request builders.
//!
//! Every builder exposes the same four configurators, each validating its
//! input before storing it: a builder keeps its previous state when handed
//! an ill-formed identifier or key.  What each builder does with the
//! collected state to produce its request is its own business and lies
//! beyond the codec.

use vstd::prelude::*;
use vstd::string::StringSliceAdditionalSpecFns;
use crate::error::CodecError;

verus! {

/// Whether a byte belongs to the base58 alphabet identifiers and keys are
/// written in.
pub open spec fn is_base58_byte(b: u8) -> bool {
    ||| ('1' as u8) <= b <= ('9' as u8)
    ||| ('A' as u8) <= b <= ('H' as u8)
    ||| ('J' as u8) <= b <= ('N' as u8)
    ||| ('P' as u8) <= b <= ('Z' as u8)
    ||| ('a' as u8) <= b <= ('k' as u8)
    ||| ('m' as u8) <= b <= ('z' as u8)
}

/// A well-formed identifier or key: non-empty and written in the base58
/// alphabet.
pub open spec fn base58_wf(bytes: Seq<u8>) -> bool {
    bytes.len() > 0 && forall|i: int| 0 <= i < bytes.len() ==> is_base58_byte(#[trigger] bytes[i])
}

/// Checks that a string is non-empty base58.
#[verifier::loop_isolation(false)]
fn check_base58(s: &str) -> (r: bool)
    ensures
        r == base58_wf(s.spec_bytes()),
{
    let bytes = s.as_bytes();
    if bytes.len() == 0 {
        return false;
    }
    let mut idx: usize = 0;
    while idx < bytes.len()
        invariant
            idx <= bytes@.len(),
            forall|i: int| 0 <= i < idx ==> is_base58_byte(#[trigger] bytes@[i]),
        decreases bytes@.len() - idx,
    {
        let b = bytes[idx];
        let ok = (49 <= b && b <= 57) || (65 <= b && b <= 72) || (74 <= b && b <= 78) || (80 <= b
            && b <= 90) || (97 <= b && b <= 107) || (109 <= b && b <= 122);
        if !ok {
            return false;
        }
        idx = idx + 1;
    }
    true
}

/// Validates an identifier before a builder stores it.
pub fn validate_did(did: &str) -> (r: Result<(), CodecError>)
    ensures
        match r {
            Result::Ok(_) => base58_wf(did.spec_bytes()),
            Result::Err(e) => !base58_wf(did.spec_bytes()) && e == CodecError::InvalidDid,
        },
{
    if check_base58(did) {
        Result::Ok(())
    } else {
        Result::Err(CodecError::InvalidDid)
    }
}

/// Validates a verification key before a builder stores it.
pub fn validate_verkey(verkey: &str) -> (r: Result<(), CodecError>)
    ensures
        match r {
            Result::Ok(_) => base58_wf(verkey.spec_bytes()),
            Result::Err(e) => !base58_wf(verkey.spec_bytes()) && e == CodecError::InvalidVerkey,
        },
{
    if check_base58(verkey) {
        Result::Ok(())
    } else {
        Result::Err(CodecError::InvalidVerkey)
    }
}

/// The four configurators every request builder shares.  Each validates
/// before storing; on failure the builder is left exactly as it was.
pub trait GeneralMessage: Sized {
    /// The stored recipient identifier.
    spec fn to_did_spec(&self) -> Seq<char>;

    /// The stored recipient key.
    spec fn to_vk_spec(&self) -> Seq<char>;

    /// The stored agent identifier.
    spec fn agent_did_spec(&self) -> Seq<char>;

    /// The stored agent key.
    spec fn agent_vk_spec(&self) -> Seq<char>;

    /// Stores a validated recipient identifier.
    fn set_to_did(&mut self, to_did: String)
        ensures
            final(self).to_did_spec() == to_did@,
    ;

    /// Stores a validated recipient key.
    fn set_to_vk(&mut self, to_vk: String)
        ensures
            final(self).to_vk_spec() == to_vk@,
    ;

    /// Stores a validated agent identifier.
    fn set_agent_did(&mut self, did: String)
        ensures
            final(self).agent_did_spec() == did@,
    ;

    /// Stores a validated agent key.
    fn set_agent_vk(&mut self, vk: String)
        ensures
            final(self).agent_vk_spec() == vk@,
    ;

    /// Validates and stores the recipient identifier.
    fn to(&mut self, to_did: &str) -> (r: Result<(), CodecError>)
        ensures
            match r {
                Result::Ok(_) => base58_wf(to_did.spec_bytes()) && final(self).to_did_spec()
                    == to_did@,
                Result::Err(e) => !base58_wf(to_did.spec_bytes()) && *final(self) == *old(self) && e
                    == CodecError::InvalidDid,
            },
    {
        match validate_did(to_did) {
            Result::Ok(_) => {
                self.set_to_did(to_did.to_owned());
                Result::Ok(())
            },
            Result::Err(e) => Result::Err(e),
        }
    }

    /// Validates and stores the recipient key.
    fn to_vk(&mut self, to_vk: &str) -> (r: Result<(), CodecError>)
        ensures
            match r {
                Result::Ok(_) => base58_wf(to_vk.spec_bytes()) && final(self).to_vk_spec()
                    == to_vk@,
                Result::Err(e) => !base58_wf(to_vk.spec_bytes()) && *final(self) == *old(self) && e
                    == CodecError::InvalidVerkey,
            },
    {
        match validate_verkey(to_vk) {
            Result::Ok(_) => {
                self.set_to_vk(to_vk.to_owned());
                Result::Ok(())
            },
            Result::Err(e) => Result::Err(e),
        }
    }

    /// Validates and stores the agent identifier.
    fn agent_did(&mut self, did: &str) -> (r: Result<(), CodecError>)
        ensures
            match r {
                Result::Ok(_) => base58_wf(did.spec_bytes()) && final(self).agent_did_spec()
                    == did@,
                Result::Err(e) => !base58_wf(did.spec_bytes()) && *final(self) == *old(self) && e
                    == CodecError::InvalidDid,
            },
    {
        match validate_did(did) {
            Result::Ok(_) => {
                self.set_agent_did(did.to_owned());
                Result::Ok(())
            },
            Result::Err(e) => Result::Err(e),
        }
    }

    /// Validates and stores the agent key.
    fn agent_vk(&mut self, to_vk: &str) -> (r: Result<(), CodecError>)
        ensures
            match r {
                Result::Ok(_) => base58_wf(to_vk.spec_bytes()) && final(self).agent_vk_spec()
                    == to_vk@,
                Result::Err(e) => !base58_wf(to_vk.spec_bytes()) && *final(self) == *old(self) && e
                    == CodecError::InvalidVerkey,
            },
    {
        match validate_verkey(to_vk) {
            Result::Ok(_) => {
                self.set_agent_vk(to_vk.to_owned());
                Result::Ok(())
            },
            Result::Err(e) => Result::Err(e),
        }
    }
}

/// Collects the addressing state for a create-key request.
#[derive(Clone, Debug, PartialEq, Eq)]
pub struct CreateKeyBuilder {
    pub to_did: String,
    pub to_vk: String,
    pub agent_did: String,
    pub agent_vk: String,
}

impl CreateKeyBuilder {
    /// A fresh builder with nothing stored yet.
    pub fn create() -> (r: CreateKeyBuilder)
        ensures
            r.to_did_spec() == Seq::<char>::empty(),
            r.to_vk_spec() == Seq::<char>::empty(),
            r.agent_did_spec() == Seq::<char>::empty(),
            r.agent_vk_spec() == Seq::<char>::empty(),
    {
        CreateKeyBuilder {
            to_did: String::new(),
            to_vk: String::new(),
            agent_did: String::new(),
            agent_vk: String::new(),
        }
    }
}

impl GeneralMessage for CreateKeyBuilder {
    open spec fn to_did_spec(&self) -> Seq<char> {
        self.to_did@
    }

    open spec fn to_vk_spec(&self) -> Seq<char> {
        self.to_vk@
    }

    open spec fn agent_did_spec(&self) -> Seq<char> {
        self.agent_did@
    }

    open spec fn agent_vk_spec(&self) -> Seq<char> {
        self.agent_vk@
    }

    fn set_to_did(&mut self, to_did: String) {
        self.to_did = to_did;
    }

    fn set_to_vk(&mut self, to_vk: String) {
        self.to_vk = to_vk;
    }

    fn set_agent_did(&mut self, did: String) {
        self.agent_did = did;
    }

    fn set_agent_vk(&mut self, vk: String) {
        self.agent_vk = vk;
    }
}

/// Collects the addressing state for a connection invitation.
#[derive(Clone, Debug, PartialEq, Eq)]
pub struct SendInviteBuilder {
    pub to_did: String,
    pub to_vk: String,
    pub agent_did: String,
    pub agent_vk: String,
}

impl SendInviteBuilder {
    /// A fresh builder with nothing stored yet.
    pub fn create() -> (r: SendInviteBuilder)
        ensures
            r.to_did_spec() == Seq::<char>::empty(),
            r.to_vk_spec() == Seq::<char>::empty(),
            r.agent_did_spec() == Seq::<char>::empty(),
            r.agent_vk_spec() == Seq::<char>::empty(),
    {
        SendInviteBuilder {
            to_did: String::new(),
            to_vk: String::new(),
            agent_did: String::new(),
            agent_vk: String::new(),
        }
    }
}

impl GeneralMessage for SendInviteBuilder {
    open spec fn to_did_spec(&self) -> Seq<char> {
        self.to_did@
    }

    open spec fn to_vk_spec(&self) -> Seq<char> {
        self.to_vk@
    }

    open spec fn agent_did_spec(&self) -> Seq<char> {
        self.agent_did@
    }

    open spec fn agent_vk_spec(&self) -> Seq<char> {
        self.agent_vk@
    }

    fn set_to_did(&mut self, to_did: String) {
        self.to_did = to_did;
    }

    fn set_to_vk(&mut self, to_vk: String) {
        self.to_vk = to_vk;
    }

    fn set_agent_did(&mut self, did: String) {
        self.agent_did = did;
    }

    fn set_agent_vk(&mut self, vk: String) {
        self.agent_vk = vk;
    }
}

/// Collects the addressing state for a connection teardown.
#[derive(Clone, Debug, PartialEq, Eq)]
pub struct DeleteConnectionBuilder {
    pub to_did: String,
    pub to_vk: String,
    pub agent_did: String,
    pub agent_vk: String,
}

impl DeleteConnectionBuilder {
    /// A fresh builder with nothing stored yet.
    pub fn create() -> (r: DeleteConnectionBuilder)
        ensures
            r.to_did_spec() == Seq::<char>::empty(),
            r.to_vk_spec() == Seq::<char>::empty(),
            r.agent_did_spec() == Seq::<char>::empty(),
            r.agent_vk_spec() == Seq::<char>::empty(),
    {
        DeleteConnectionBuilder {
            to_did: String::new(),
            to_vk: String::new(),
            agent_did: String::new(),
            agent_vk: String::new(),
        }
    }
}

impl GeneralMessage for DeleteConnectionBuilder {
    open spec fn to_did_spec(&self) -> Seq<char> {
        self.to_did@
    }

    open spec fn to_vk_spec(&self) -> Seq<char> {
        self.to_vk@
    }

    open spec fn agent_did_spec(&self) -> Seq<char> {
        self.agent_did@
    }

    open spec fn agent_vk_spec(&self) -> Seq<char> {
        self.agent_vk@
    }

    fn set_to_did(&mut self, to_did: String) {
        self.to_did = to_did;
    }

    fn set_to_vk(&mut self, to_vk: String) {
        self.to_vk = to_vk;
    }

    fn set_agent_did(&mut self, did: String) {
        self.agent_did = did;
    }

    fn set_agent_vk(&mut self, vk: String) {
        self.agent_vk = vk;
    }
}

/// Collects the addressing state for an invitation acceptance.
#[derive(Clone, Debug, PartialEq, Eq)]
pub struct AcceptInviteBuilder {
    pub to_did: String,
    pub to_vk: String,
    pub agent_did: String,
    pub agent_vk: String,
}

impl AcceptInviteBuilder {
    /// A fresh builder with nothing stored yet.
    pub fn create() -> (r: AcceptInviteBuilder)
        ensures
            r.to_did_spec() == Seq::<char>::empty(),
            r.to_vk_spec() == Seq::<char>::empty(),
            r.agent_did_spec() == Seq::<char>::empty(),
            r.agent_vk_spec() == Seq::<char>::empty(),
    {
        AcceptInviteBuilder {
            to_did: String::new(),
            to_vk: String::new(),
            agent_did: String::new(),
            agent_vk: String::new(),
        }
    }
}

impl GeneralMessage for AcceptInviteBuilder {
    open spec fn to_did_spec(&self) -> Seq<char> {
        self.to_did@
    }

    open spec fn to_vk_spec(&self) -> Seq<char> {
        self.to_vk@
    }

    open spec fn agent_did_spec(&self) -> Seq<char> {
        self.agent_did@
    }

    open spec fn agent_vk_spec(&self) -> Seq<char> {
        self.agent_vk@
    }

    fn set_to_did(&mut self, to_did: String) {
        self.to_did = to_did;
    }

    fn set_to_vk(&mut self, to_vk: String) {
        self.to_vk = to_vk;
    }

    fn set_agent_did(&mut self, did: String) {
        self.agent_did = did;
    }

    fn set_agent_vk(&mut self, vk: String) {
        self.agent_vk = vk;
    }
}

/// Collects the addressing state for a profile update.
#[derive(Clone, Debug, PartialEq, Eq)]
pub struct UpdateProfileDataBuilder {
    pub to_did: String,
    pub to_vk: String,
    pub agent_did: String,
    pub agent_vk: String,
}

impl UpdateProfileDataBuilder {
    /// A fresh builder with nothing stored yet.
    pub fn create() -> (r: UpdateProfileDataBuilder)
        ensures
            r.to_did_spec() == Seq::<char>::empty(),
            r.to_vk_spec() == Seq::<char>::empty(),
            r.agent_did_spec() == Seq::<char>::empty(),
            r.agent_vk_spec() == Seq::<char>::empty(),
    {
        UpdateProfileDataBuilder {
            to_did: String::new(),
            to_vk: String::new(),
            agent_did: String::new(),
            agent_vk: String::new(),
        }
    }
}

impl GeneralMessage for UpdateProfileDataBuilder {
    open spec fn to_did_spec(&self) -> Seq<char> {
        self.to_did@
    }

    open spec fn to_vk_spec(&self) -> Seq<char> {
        self.to_vk@
    }

    open spec fn agent_did_spec(&self) -> Seq<char> {
        self.agent_did@
    }

    open spec fn agent_vk_spec(&self) -> Seq<char> {
        self.agent_vk@
    }

    fn set_to_did(&mut self, to_did: String) {
        self.to_did = to_did;
    }

    fn set_to_vk(&mut self, to_vk: String) {
        self.to_vk = to_vk;
    }

    fn set_agent_did(&mut self, did: String) {
        self.agent_did = did;
    }

    fn set_agent_vk(&mut self, vk: String) {
        self.agent_vk = vk;
    }
}

/// Collects the addressing state for a message download.
#[derive(Clone, Debug, PartialEq, Eq)]
pub struct GetMessagesBuilder {
    pub to_did: String,
    pub to_vk: String,
    pub agent_did: String,
    pub agent_vk: String,
}

impl GetMessagesBuilder {
    /// A fresh builder with nothing stored yet.
    pub fn create() -> (r: GetMessagesBuilder)
        ensures
            r.to_did_spec() == Seq::<char>::empty(),
            r.to_vk_spec() == Seq::<char>::empty(),
            r.agent_did_spec() == Seq::<char>::empty(),
            r.agent_vk_spec() == Seq::<char>::empty(),
    {
        GetMessagesBuilder {
            to_did: String::new(),
            to_vk: String::new(),
            agent_did: String::new(),
            agent_vk: String::new(),
        }
    }
}

impl GeneralMessage for GetMessagesBuilder {
    open spec fn to_did_spec(&self) -> Seq<char> {
        self.to_did@
    }

    open spec fn to_vk_spec(&self) -> Seq<char> {
        self.to_vk@
    }

    open spec fn agent_did_spec(&self) -> Seq<char> {
        self.agent_did@
    }

    open spec fn agent_vk_spec(&self) -> Seq<char> {
        self.agent_vk@
    }

    fn set_to_did(&mut self, to_did: String) {
        self.to_did = to_did;
    }

    fn set_to_vk(&mut self, to_vk: String) {
        self.to_vk = to_vk;
    }

    fn set_agent_did(&mut self, did: String) {
        self.agent_did = did;
    }

    fn set_agent_vk(&mut self, vk: String) {
        self.agent_vk = vk;
    }
}

/// Collects the addressing state for a message send.
#[derive(Clone, Debug, PartialEq, Eq)]
pub struct SendMessageBuilder {
    pub to_did: String,
    pub to_vk: String,
    pub agent_did: String,
    pub agent_vk: String,
}

impl SendMessageBuilder {
    /// A fresh builder with nothing stored yet.
    pub fn create() -> (r: SendMessageBuilder)
        ensures
            r.to_did_spec() == Seq::<char>::empty(),
            r.to_vk_spec() == Seq::<char>::empty(),
            r.agent_did_spec() == Seq::<char>::empty(),
            r.agent_vk_spec() == Seq::<char>::empty(),
    {
        SendMessageBuilder {
            to_did: String::new(),
            to_vk: String::new(),
            agent_did: String::new(),
            agent_vk: String::new(),
        }
    }
}

impl GeneralMessage for SendMessageBuilder {
    open spec fn to_did_spec(&self) -> Seq<char> {
        self.to_did@
    }

    open spec fn to_vk_spec(&self) -> Seq<char> {
        self.to_vk@
    }

    open spec fn agent_did_spec(&self) -> Seq<char> {
        self.agent_did@
    }

    open spec fn agent_vk_spec(&self) -> Seq<char> {
        self.agent_vk@
    }

    fn set_to_did(&mut self, to_did: String) {
        self.to_did = to_did;
    }

    fn set_to_vk(&mut self, to_vk: String) {
        self.to_vk = to_vk;
    }

    fn set_agent_did(&mut self, did: String) {
        self.agent_did = did;
    }

    fn set_agent_vk(&mut self, vk: String) {
        self.agent_vk = vk;
    }
}

/// Collects the addressing state for a proof request.
#[derive(Clone, Debug, PartialEq, Eq)]
pub struct ProofRequestMessage {
    pub to_did: String,
    pub to_vk: String,
    pub agent_did: String,
    pub agent_vk: String,
}

impl ProofRequestMessage {
    /// A fresh builder with nothing stored yet.
    pub fn create() -> (r: ProofRequestMessage)
        ensures
            r.to_did_spec() == Seq::<char>::empty(),
            r.to_vk_spec() == Seq::<char>::empty(),
            r.agent_did_spec() == Seq::<char>::empty(),
            r.agent_vk_spec() == Seq::<char>::empty(),
    {
        ProofRequestMessage {
            to_did: String::new(),
            to_vk: String::new(),
            agent_did: String::new(),
            agent_vk: String::new(),
        }
    }
}

impl GeneralMessage for ProofRequestMessage {
    open spec fn to_did_spec(&self) -> Seq<char> {
        self.to_did@
    }

    open spec fn to_vk_spec(&self) -> Seq<char> {
        self.to_vk@
    }

    open spec fn agent_did_spec(&self) -> Seq<char> {
        self.agent_did@
    }

    open spec fn agent_vk_spec(&self) -> Seq<char> {
        self.agent_vk@
    }

    fn set_to_did(&mut self, to_did: String) {
        self.to_did = to_did;
    }

    fn set_to_vk(&mut self, to_vk: String) {
        self.to_vk = to_vk;
    }

    fn set_agent_did(&mut self, did: String) {
        self.agent_did = did;
    }

    fn set_agent_vk(&mut self, vk: String) {
        self.agent_vk = vk;
    }
}

/// Starts a create-key request.
pub fn create_keys() -> (r: CreateKeyBuilder)
    ensures
        r.to_did_spec() == Seq::<char>::empty(),
        r.to_vk_spec() == Seq::<char>::empty(),
        r.agent_did_spec() == Seq::<char>::empty(),
        r.agent_vk_spec() == Seq::<char>::empty(),
{
    CreateKeyBuilder::create()
}

/// Starts a connection invitation.
pub fn send_invite() -> (r: SendInviteBuilder)
    ensures
        r.to_did_spec() == Seq::<char>::empty(),
        r.to_vk_spec() == Seq::<char>::empty(),
        r.agent_did_spec() == Seq::<char>::empty(),
        r.agent_vk_spec() == Seq::<char>::empty(),
{
    SendInviteBuilder::create()
}

/// Starts a connection teardown.
pub fn delete_connection() -> (r: DeleteConnectionBuilder)
    ensures
        r.to_did_spec() == Seq::<char>::empty(),
        r.to_vk_spec() == Seq::<char>::empty(),
        r.agent_did_spec() == Seq::<char>::empty(),
        r.agent_vk_spec() == Seq::<char>::empty(),
{
    DeleteConnectionBuilder::create()
}

/// Starts an invitation acceptance.
pub fn accept_invite() -> (r: AcceptInviteBuilder)
    ensures
        r.to_did_spec() == Seq::<char>::empty(),
        r.to_vk_spec() == Seq::<char>::empty(),
        r.agent_did_spec() == Seq::<char>::empty(),
        r.agent_vk_spec() == Seq::<char>::empty(),
{
    AcceptInviteBuilder::create()
}

/// Starts a profile update.
pub fn update_data() -> (r: UpdateProfileDataBuilder)
    ensures
        r.to_did_spec() == Seq::<char>::empty(),
        r.to_vk_spec() == Seq::<char>::empty(),
        r.agent_did_spec() == Seq::<char>::empty(),
        r.agent_vk_spec() == Seq::<char>::empty(),
{
    UpdateProfileDataBuilder::create()
}

/// Starts a message download.
pub fn get_messages() -> (r: GetMessagesBuilder)
    ensures
        r.to_did_spec() == Seq::<char>::empty(),
        r.to_vk_spec() == Seq::<char>::empty(),
        r.agent_did_spec() == Seq::<char>::empty(),
        r.agent_vk_spec() == Seq::<char>::empty(),
{
    GetMessagesBuilder::create()
}

/// Starts a message send.
pub fn send_message() -> (r: SendMessageBuilder)
    ensures
        r.to_did_spec() == Seq::<char>::empty(),
        r.to_vk_spec() == Seq::<char>::empty(),
        r.agent_did_spec() == Seq::<char>::empty(),
        r.agent_vk_spec() == Seq::<char>::empty(),
{
    SendMessageBuilder::create()
}

/// Starts a proof request.
pub fn proof_request() -> (r: ProofRequestMessage)
    ensures
        r.to_did_spec() == Seq::<char>::empty(),
        r.to_vk_spec() == Seq::<char>::empty(),
        r.agent_did_spec() == Seq::<char>::empty(),
        r.agent_vk_spec() == Seq::<char>::empty(),
{
    ProofRequestMessage::create()
}

} // verus!
