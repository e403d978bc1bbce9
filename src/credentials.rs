use vstd::prelude::*;

use vstd::string::StringSliceAdditionalSpecFns;

use crate::error::ConnError;

verus! {

/// Capacity, in bytes, of a network name.
pub const SSID_CAPACITY: usize = 32;

/// Capacity, in bytes, of a passphrase.
pub const PASSWORD_CAPACITY: usize = 64;

#[verifier::external_type_specification]
#[verifier::external_body]
pub struct ExBoundedString<const N: usize>(heapless::String<N>);

/// The text held by a network-name buffer.
pub uninterp spec fn ssid_text(s: heapless::String<32>) -> Seq<char>;

/// The text held by a passphrase buffer.
pub uninterp spec fn password_text(s: heapless::String<64>) -> Seq<char>;

/// Relies on `TryFrom<&str>` for `heapless::String<32>`: it pushes the whole
/// string when its UTF-8 bytes fit the capacity, and fails otherwise.
#[verifier::external_body]
fn bounded_ssid(s: &str) -> (r: Result<heapless::String<32>, ()>)
    ensures
        r is Ok <==> s.spec_bytes().len() <= 32,
        r is Ok ==> ssid_text(r->Ok_0) == s@,
{
    heapless::String::try_from(s)
}

/// Relies on `TryFrom<&str>` for `heapless::String<64>`: it pushes the whole
/// string when its UTF-8 bytes fit the capacity, and fails otherwise.
#[verifier::external_body]
fn bounded_password(s: &str) -> (r: Result<heapless::String<64>, ()>)
    ensures
        r is Ok <==> s.spec_bytes().len() <= 64,
        r is Ok ==> password_text(r->Ok_0) == s@,
{
    heapless::String::try_from(s)
}

/// How the station authenticates to the access point.
#[derive(Clone, Copy, Debug, PartialEq, Eq, Structural)]
pub enum AuthMethod {
    Open,
    WEP,
    WPA,
    WPA2Personal,
    WPA3Personal,
}

/// Whether a network name and a passphrase fit their bounded storage.
pub open spec fn credentials_fit(ssid: &str, password: &str) -> bool {
    ssid.spec_bytes().len() <= SSID_CAPACITY && password.spec_bytes().len() <= PASSWORD_CAPACITY
}

/// Network name, passphrase and authentication method of the one network
/// this station joins. Immutable once built.
pub struct RadioCredentials {
    pub ssid: heapless::String<32>,
    pub password: heapless::String<64>,
    pub auth_method: AuthMethod,
}

impl RadioCredentials {
    pub open spec fn ssid_view(&self) -> Seq<char> {
        ssid_text(self.ssid)
    }

    pub open spec fn password_view(&self) -> Seq<char> {
        password_text(self.password)
    }

    /// Copies both strings into bounded storage; fails with `ConfigError`
    /// exactly when either one is longer, in bytes, than its capacity.
    pub fn new(ssid: &str, password: &str, auth_method: AuthMethod) -> (r: Result<
        RadioCredentials,
        ConnError,
    >)
        ensures
            r is Ok <==> credentials_fit(ssid, password),
            r is Err ==> r->Err_0 == ConnError::ConfigError,
            r is Ok ==> r->Ok_0.ssid_view() == ssid@ && r->Ok_0.password_view() == password@
                && r->Ok_0.auth_method == auth_method,
    {
        let ssid = match bounded_ssid(ssid) {
            Ok(s) => s,
            Err(()) => return Err(ConnError::ConfigError),
        };
        let password = match bounded_password(password) {
            Ok(p) => p,
            Err(()) => return Err(ConnError::ConfigError),
        };
        Ok(RadioCredentials { ssid, password, auth_method })
    }
}

} // verus!
