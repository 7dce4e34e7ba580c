//! The device's settings: read once at startup, with a default for each field
//! that the store does not hold.

use vstd::prelude::*;
use vstd::string::StringExecFns;
use crate::error::{FlashError, OsError};
use crate::flash::{Readable, Writable};

verus! {

/// Partition that holds the settings.
pub const SETTINGS_PARTITION: &'static str = "cfg";

/// Namespace of the settings within their partition.
pub const SETTINGS_NAMESPACE: &'static str = "settings";

/// Credentials of the access point to join.
#[derive(Debug)]
pub struct WiFi {
    pub access_point: String,
    pub password: String,
}

impl Default for WiFi {
    fn default() -> (wifi: Self)
        ensures
            wifi.access_point@ == Seq::<char>::empty(),
            wifi.password@ == Seq::<char>::empty(),
    {
        WiFi { access_point: String::new(), password: String::new() }
    }
}

pub struct Settings<S> {
    /// The store that the settings were read from.
    pub flash: S,
    pub device_id: String,
    pub cpu_clock: u16,
    pub wifi: WiFi,
}

/// What the store answered for each of the settings.
pub struct StoredSettings {
    pub device_id: Result<String, FlashError>,
    pub clock: Result<u16, FlashError>,
    pub wifi_ap: Result<String, FlashError>,
    pub wifi_pw: Result<String, FlashError>,
}

/// The text that was read, or `fallback` where the read failed.
pub open spec fn text_or(read: Result<String, FlashError>, fallback: Seq<char>) -> Seq<char> {
    match read {
        Ok(text) => text@,
        Err(_) => fallback,
    }
}

/// The clock that was read, or the nominal 160 where the read failed.
pub open spec fn clock_or_nominal(read: Result<u16, FlashError>) -> u16 {
    match read {
        Ok(clock) => clock,
        Err(_) => 160,
    }
}

/// Whether the settings are what `stored` makes them: each is what was read,
/// or its default where the read failed.
pub open spec fn applied<S>(settings: Settings<S>, stored: StoredSettings) -> bool {
    &&& settings.device_id@ == text_or(stored.device_id, "unknown.device"@)
    &&& settings.cpu_clock == clock_or_nominal(stored.clock)
    &&& settings.wifi.access_point@ == text_or(stored.wifi_ap, "unknown"@)
    &&& settings.wifi.password@ == text_or(stored.wifi_pw, "unknown"@)
}

/// Whether `stored` is what reads of the four settings from `store` answered.
pub open spec fn answered<S: Readable<String> + Readable<u16>>(
    store: S,
    stored: StoredSettings,
) -> bool {
    &&& call_ensures(<S as Readable<String>>::read, (&store, "device_id"), stored.device_id)
    &&& call_ensures(<S as Readable<u16>>::read, (&store, "clock"), stored.clock)
    &&& call_ensures(<S as Readable<String>>::read, (&store, "wifi_ap"), stored.wifi_ap)
    &&& call_ensures(<S as Readable<String>>::read, (&store, "wifi_pw"), stored.wifi_pw)
}

/// Whether the settings are as a read of the four fields from `store` leaves
/// them: `device_id`, `clock`, `wifi_ap` and `wifi_pw` were read, and each
/// setting is what its read answered, or its default.
pub open spec fn read_from<S: Readable<String> + Readable<u16>>(
    store: S,
    settings: Settings<S>,
) -> bool {
    exists|stored: StoredSettings| #[trigger]
        answered(store, stored) && #[trigger] applied(settings, stored)
}

fn read_text(read: Result<String, FlashError>, fallback: &str) -> (text: String)
    ensures
        text@ == text_or(read, fallback@),
{
    match read {
        Ok(text) => text,
        Err(_) => String::from_str(fallback),
    }
}

/// What a write of the settings answers when the store answered `outcome`:
/// the store's error is handed on as a flash storage error.
pub open spec fn persist_result(outcome: Result<(), FlashError>) -> Result<(), OsError> {
    match outcome {
        Ok(_) => Ok(()),
        Err(e) => Err(OsError::FlashStorage(e)),
    }
}

/// What a write of the settings answers when the store answered `outcome`.
pub fn persisted(outcome: Result<(), FlashError>) -> (r: Result<(), OsError>)
    ensures
        r == persist_result(outcome),
{
    match outcome {
        Ok(_) => Ok(()),
        Err(e) => Err(OsError::from(e)),
    }
}

impl<S> Settings<S> {
    /// Takes over what the store answered: each setting is what was read, or
    /// its default where the read failed, whatever the reason.
    pub fn apply(&mut self, stored: StoredSettings)
        ensures
            applied(*final(self), stored),
            final(self).flash == old(self).flash,
    {
        self.device_id = read_text(stored.device_id, "unknown.device");
        self.cpu_clock = match stored.clock {
            Ok(clock) => clock,
            Err(_) => 160,
        };
        self.wifi.access_point = read_text(stored.wifi_ap, "unknown");
        self.wifi.password = read_text(stored.wifi_pw, "unknown");
    }
}

impl<S: Readable<String> + Readable<u16> + Writable<String>> Settings<S> {
    /// Create a new settings object or an error.
    ///
    /// `flash` is the outcome of opening the store. A store that could not be
    /// opened is the only error. From one that was opened the settings are
    /// read, each with its default.
    pub fn new(flash: Result<S, FlashError>) -> (r: Result<Self, FlashError>)
        ensures
            match flash {
                Ok(store) => r matches Ok(settings) && settings.flash == store && read_from(
                    store,
                    settings,
                ),
                Err(e) => r matches Err(err) && err == e,
            },
    {
        match flash {
            Ok(store) => {
                let mut s = Settings {
                    flash: store,
                    device_id: String::new(),
                    cpu_clock: 0,
                    wifi: WiFi::default(),
                };
                let _ = s.read_settings();
                Ok(s)
            },
            Err(e) => Err(e),
        }
    }

    /// Read application settings from the store.
    ///
    /// A field that the store does not hold, or fails to read, gets its
    /// default, so that this never fails.
    pub fn read_settings(&mut self) -> (r: Result<(), FlashError>)
        ensures
            r is Ok,
            final(self).flash == old(self).flash,
            read_from(old(self).flash, *final(self)),
    {
        let device_id: Result<String, FlashError> = self.flash.read("device_id");
        let clock: Result<u16, FlashError> = self.flash.read("clock");
        let wifi_ap: Result<String, FlashError> = self.flash.read("wifi_ap");
        let wifi_pw: Result<String, FlashError> = self.flash.read("wifi_pw");
        let stored = StoredSettings { device_id, clock, wifi_ap, wifi_pw };
        let ghost answers = stored;
        self.apply(stored);
        assert(answered(self.flash, answers) && applied(*self, answers));
        Ok(())
    }

    /// Write application settings to the store: the device identifier is the
    /// one setting that is written back.
    ///
    /// The store is handed the device identifier under the name `device_id`,
    /// once. What it answers is the answer, and what it makes of itself is
    /// the store afterwards. The settings themselves stay as they are.
    pub fn write_settings(&mut self) -> (r: Result<(), OsError>)
        ensures
            exists|handed: &mut S, value: String, outcome: Result<(), FlashError>|
                mut_ref_current(handed) == old(self).flash
                    && mut_ref_future(handed) == final(self).flash
                    && value@ == old(self).device_id@
                    && #[trigger] call_ensures(
                        <S as Writable<String>>::write,
                        (handed, "device_id", value),
                        outcome,
                    )
                    && r == persist_result(outcome),
            final(self).device_id == old(self).device_id,
            final(self).cpu_clock == old(self).cpu_clock,
            final(self).wifi == old(self).wifi,
    {
        let outcome = self.flash.write("device_id", self.device_id.clone());
        persisted(outcome)
    }
}

} // verus!
