//! The station configuration that the radio driver is started with.
//!
//! The driver takes the network name and the password in strings of a fixed
//! capacity: 32 bytes for the name, 64 for the password. Credentials that do
//! not fit cannot be handed to it at all.

use vstd::prelude::*;
use vstd::utf8::encode_utf8;
use core::str::FromStr;
use crate::error::OsError;
use crate::settings::WiFi;

verus! {

/// `heapless::String<N>`: a string of at most `N` bytes, kept without the
/// heap. What one of them holds is known here only by `ssid_text` and
/// `password_text`.
#[verifier::external_type_specification]
#[verifier::external_body]
pub struct ExBoundedString<const N: usize>(heapless::String<N>);

/// Number of bytes that `text` takes in UTF-8, which is how strings hold it.
pub open spec fn byte_len(text: Seq<char>) -> nat {
    encode_utf8(text).len()
}

/// The text that a `heapless::String<32>` holds.
pub uninterp spec fn ssid_text(s: heapless::String<32>) -> Seq<char>;

/// The text that a `heapless::String<64>` holds.
pub uninterp spec fn password_text(s: heapless::String<64>) -> Seq<char>;

/// `heapless::String::<32>::from_str`: a new string of capacity 32 into which
/// `s` is pushed. The push, and with it the call, fails exactly if `s` is
/// longer than 32 bytes. Otherwise the string holds `s`.
#[verifier::external_body]
fn ssid_from_str(s: &str) -> (r: Result<heapless::String<32>, ()>)
    ensures
        r is Ok <==> byte_len(s@) <= 32,
        r matches Ok(ssid) ==> ssid_text(ssid) == s@,
{
    heapless::String::<32>::from_str(s)
}

/// `heapless::String::<64>::from_str`: a new string of capacity 64 into which
/// `s` is pushed. The push, and with it the call, fails exactly if `s` is
/// longer than 64 bytes. Otherwise the string holds `s`.
#[verifier::external_body]
fn password_from_str(s: &str) -> (r: Result<heapless::String<64>, ()>)
    ensures
        r is Ok <==> byte_len(s@) <= 64,
        r matches Ok(password) ==> password_text(password) == s@,
{
    heapless::String::<64>::from_str(s)
}

/// How a station authenticates to the access point.
#[derive(Clone, Copy, Debug, PartialEq, Eq)]
pub enum AuthMethod {
    /// No authentication: an open network.
    Open,
    WEP,
    WPA,
    WPA2Personal,
    WPAWPA2Personal,
    WPA2Enterprise,
    WPA3Personal,
    WPA2WPA3Personal,
    WAPIPersonal,
}

/// Configuration of the radio as a station.
pub struct StationConfig {
    /// Name of the access point to join.
    pub ssid: heapless::String<32>,
    /// Hardware address of the access point, where only one will do.
    pub bssid: Option<[u8; 6]>,
    pub auth_method: AuthMethod,
    pub password: heapless::String<64>,
    /// The channel to begin the scan at, where the access point's is known.
    pub channel: Option<u8>,
}

/// Whether the credentials fit the driver's strings.
pub open spec fn credentials_fit(wifi: WiFi) -> bool {
    byte_len(wifi.access_point@) <= 32 && byte_len(wifi.password@) <= 64
}

impl StationConfig {
    /// The station configuration from the two credentials as the driver's
    /// strings took them: WPA2 Personal, on any channel, with any access point
    /// of that name.
    ///
    /// A credential that did not fit is refused with `OsError::Parse`, which
    /// names its setting: `wifi_ap` before `wifi_pw`.
    pub fn assemble(
        ssid: Result<heapless::String<32>, ()>,
        password: Result<heapless::String<64>, ()>,
    ) -> (r: Result<StationConfig, OsError>)
        ensures
            match (ssid, password) {
                (Ok(s), Ok(p)) => r matches Ok(config) && config == (StationConfig {
                    ssid: s,
                    bssid: None,
                    auth_method: AuthMethod::WPA2Personal,
                    password: p,
                    channel: None,
                }),
                (Err(_), _) => r matches Err(OsError::Parse(field)) && field@ == "wifi_ap"@,
                (Ok(_), Err(_)) => r matches Err(OsError::Parse(field)) && field@ == "wifi_pw"@,
            },
    {
        match ssid {
            Ok(s) => match password {
                Ok(p) => Ok(
                    StationConfig {
                        ssid: s,
                        bssid: None,
                        auth_method: AuthMethod::WPA2Personal,
                        password: p,
                        channel: None,
                    },
                ),
                Err(_) => Err(OsError::Parse("wifi_pw".to_owned())),
            },
            Err(_) => Err(OsError::Parse("wifi_ap".to_owned())),
        }
    }
}

/// The station configuration for the credentials of the settings, which is
/// owed exactly if both fit the driver's strings: see
/// [`StationConfig::assemble`].
pub fn station_config(wifi: &WiFi) -> (r: Result<StationConfig, OsError>)
    ensures
        r is Ok <==> credentials_fit(*wifi),
        r matches Ok(config) ==> ssid_text(config.ssid) == wifi.access_point@ && password_text(
            config.password,
        ) == wifi.password@ && config.auth_method == AuthMethod::WPA2Personal && config.bssid
            is None && config.channel is None,
        r matches Err(e) ==> e matches OsError::Parse(field) && field@ == (if byte_len(
            wifi.access_point@,
        ) > 32 {
            "wifi_ap"@
        } else {
            "wifi_pw"@
        }),
{
    let ssid = ssid_from_str(wifi.access_point.as_str());
    let password = password_from_str(wifi.password.as_str());
    StationConfig::assemble(ssid, password)
}

} // verus!
