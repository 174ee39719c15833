//! A read-only snapshot of the settings store.
//!
//! The codec samples the protocol selector and four key identifiers on every
//! call.  Callers hand in a snapshot value, so a test can pin the selector
//! per call and no value of the codec outlives a version switch.

use vstd::prelude::*;
use crate::error::CodecError;

verus! {

/// The process-wide protocol selector.
#[derive(Clone, Copy, Debug, PartialEq, Eq, Structural)]
pub enum ProtocolTypes {
    V1,
    V2,
}

/// The configuration entries the codec reads, sampled once per call.
///
/// An absent entry stands for a key the settings store could not serve;
/// reading it fails with [`CodecError::InvalidConfiguration`].
pub struct Settings {
    /// The protocol selector.
    pub protocol_type: ProtocolTypes,
    /// The agency's verification key.
    pub agency_verkey: Option<String>,
    /// The remote agent's key for traffic towards this client.
    pub remote_to_sdk_verkey: Option<String>,
    /// This client's key for traffic towards the remote agent.
    pub sdk_to_remote_verkey: Option<String>,
    /// The remote agent's identifier for traffic towards this client.
    pub remote_to_sdk_did: Option<String>,
}

impl Settings {
    /// The protocol selector, sampled once per call.
    pub fn get_protocol_type(&self) -> (r: ProtocolTypes)
        ensures
            r == self.protocol_type,
    {
        self.protocol_type
    }

    /// The agency's verification key, if configured.
    pub fn get_agency_verkey(&self) -> (r: Result<String, CodecError>)
        ensures
            match r {
                Result::Ok(v) => self.agency_verkey is Some && v@
                    == self.agency_verkey->Some_0@,
                Result::Err(e) => self.agency_verkey is None && e
                    == CodecError::InvalidConfiguration,
            },
    {
        match &self.agency_verkey {
            Option::Some(v) => Result::Ok(v.clone()),
            Option::None => Result::Err(CodecError::InvalidConfiguration),
        }
    }

    /// The remote agent's verification key, if configured.
    pub fn get_remote_to_sdk_verkey(&self) -> (r: Result<String, CodecError>)
        ensures
            match r {
                Result::Ok(v) => self.remote_to_sdk_verkey is Some && v@
                    == self.remote_to_sdk_verkey->Some_0@,
                Result::Err(e) => self.remote_to_sdk_verkey is None && e
                    == CodecError::InvalidConfiguration,
            },
    {
        match &self.remote_to_sdk_verkey {
            Option::Some(v) => Result::Ok(v.clone()),
            Option::None => Result::Err(CodecError::InvalidConfiguration),
        }
    }

    /// This client's verification key, if configured.
    pub fn get_sdk_to_remote_verkey(&self) -> (r: Result<String, CodecError>)
        ensures
            match r {
                Result::Ok(v) => self.sdk_to_remote_verkey is Some && v@
                    == self.sdk_to_remote_verkey->Some_0@,
                Result::Err(e) => self.sdk_to_remote_verkey is None && e
                    == CodecError::InvalidConfiguration,
            },
    {
        match &self.sdk_to_remote_verkey {
            Option::Some(v) => Result::Ok(v.clone()),
            Option::None => Result::Err(CodecError::InvalidConfiguration),
        }
    }

    /// The remote agent's identifier, if configured.
    pub fn get_remote_to_sdk_did(&self) -> (r: Result<String, CodecError>)
        ensures
            match r {
                Result::Ok(v) => self.remote_to_sdk_did is Some && v@
                    == self.remote_to_sdk_did->Some_0@,
                Result::Err(e) => self.remote_to_sdk_did is None && e
                    == CodecError::InvalidConfiguration,
            },
    {
        match &self.remote_to_sdk_did {
            Option::Some(v) => Result::Ok(v.clone()),
            Option::None => Result::Err(CodecError::InvalidConfiguration),
        }
    }
}

} // verus!
