use std::cell::RefCell;
use std::collections::HashMap;

use inu_core::error::{FlashError, OsError};
use inu_core::flash::{Readable, Writable};
use inu_core::settings::{
    persisted, Settings, StoredSettings, WiFi, SETTINGS_NAMESPACE, SETTINGS_PARTITION,
};

/// A store in memory. Reads of the fields named in `broken` fail with an I/O
/// fault, and so does every write while `read_only` is set.
#[derive(Default)]
struct MemStore {
    texts: HashMap<String, String>,
    numbers: HashMap<String, u16>,
    broken: Vec<String>,
    read_only: bool,
    reads: RefCell<Vec<String>>,
}

impl MemStore {
    fn with_text(mut self, field: &str, value: &str) -> Self {
        self.texts.insert(field.to_string(), value.to_string());
        self
    }

    fn with_number(mut self, field: &str, value: u16) -> Self {
        self.numbers.insert(field.to_string(), value);
        self
    }

    fn with_broken(mut self, field: &str) -> Self {
        self.broken.push(field.to_string());
        self
    }
}

impl Readable<String> for MemStore {
    fn read(&self, field: &str) -> Result<String, FlashError> {
        self.reads.borrow_mut().push(field.to_string());
        if self.broken.iter().any(|name| name == field) {
            return Err(FlashError::IoFault);
        }
        self.texts.get(field).cloned().ok_or(FlashError::NotFound)
    }
}

impl Readable<u16> for MemStore {
    fn read(&self, field: &str) -> Result<u16, FlashError> {
        self.reads.borrow_mut().push(field.to_string());
        if self.broken.iter().any(|name| name == field) {
            return Err(FlashError::IoFault);
        }
        self.numbers.get(field).copied().ok_or(FlashError::NotFound)
    }
}

impl Writable<String> for MemStore {
    fn write(&mut self, field: &str, value: String) -> Result<(), FlashError> {
        if self.read_only {
            return Err(FlashError::IoTimeout);
        }
        self.texts.insert(field.to_string(), value);
        Ok(())
    }
}

#[test]
fn settings_live_in_the_cfg_partition() {
    assert_eq!(SETTINGS_PARTITION, "cfg");
    assert_eq!(SETTINGS_NAMESPACE, "settings");
}

#[test]
fn default_wifi_is_empty() {
    let wifi = WiFi::default();
    assert_eq!(wifi.access_point, "");
    assert_eq!(wifi.password, "");
}

#[test]
fn empty_store_gives_the_defaults() {
    let settings = Settings::new(Ok(MemStore::default())).unwrap();
    assert_eq!(settings.device_id, "unknown.device");
    assert_eq!(settings.cpu_clock, 160);
    assert_eq!(settings.wifi.access_point, "unknown");
    assert_eq!(settings.wifi.password, "unknown");
}

#[test]
fn stored_fields_are_read() {
    let store = MemStore::default()
        .with_text("device_id", "inu.kitchen")
        .with_number("clock", 240)
        .with_text("wifi_ap", "home")
        .with_text("wifi_pw", "secret");
    let settings = Settings::new(Ok(store)).unwrap();
    assert_eq!(settings.device_id, "inu.kitchen");
    assert_eq!(settings.cpu_clock, 240);
    assert_eq!(settings.wifi.access_point, "home");
    assert_eq!(settings.wifi.password, "secret");
    assert_eq!(*settings.flash.reads.borrow(), vec!["device_id", "clock", "wifi_ap", "wifi_pw"]);
}

#[test]
fn each_missing_field_gets_its_own_default() {
    let store = MemStore::default().with_text("device_id", "inu.door").with_text("wifi_pw", "pw");
    let settings = Settings::new(Ok(store)).unwrap();
    assert_eq!(settings.device_id, "inu.door");
    assert_eq!(settings.cpu_clock, 160);
    assert_eq!(settings.wifi.access_point, "unknown");
    assert_eq!(settings.wifi.password, "pw");
}

#[test]
fn failing_reads_fall_back_to_the_defaults() {
    let store = MemStore::default()
        .with_text("device_id", "inu.door")
        .with_number("clock", 80)
        .with_text("wifi_ap", "home")
        .with_broken("device_id")
        .with_broken("clock");
    let settings = Settings::new(Ok(store)).unwrap();
    assert_eq!(settings.device_id, "unknown.device");
    assert_eq!(settings.cpu_clock, 160);
    assert_eq!(settings.wifi.access_point, "home");
}

#[test]
fn store_that_cannot_be_opened_is_the_error() {
    let failed: Result<MemStore, FlashError> = Err(FlashError::Uninitialised);
    assert_eq!(Settings::new(failed).err(), Some(FlashError::Uninitialised));
    let failed: Result<MemStore, FlashError> = Err(FlashError::Generic("ESP error: 258".into()));
    assert_eq!(Settings::new(failed).err(), Some(FlashError::Generic("ESP error: 258".into())));
}

#[test]
fn read_settings_reads_again() {
    let mut settings = Settings::new(Ok(MemStore::default())).unwrap();
    assert_eq!(settings.device_id, "unknown.device");
    settings.flash.texts.insert("device_id".into(), "inu.hall".into());
    settings.flash.numbers.insert("clock".into(), 80);
    assert_eq!(settings.read_settings(), Ok(()));
    assert_eq!(settings.device_id, "inu.hall");
    assert_eq!(settings.cpu_clock, 80);
    settings.flash.texts.clear();
    assert_eq!(settings.read_settings(), Ok(()));
    assert_eq!(settings.device_id, "unknown.device");
}

#[test]
fn apply_takes_each_answer_or_its_default() {
    let mut settings = Settings::new(Ok(MemStore::default())).unwrap();
    settings.apply(StoredSettings {
        device_id: Err(FlashError::Corrupted),
        clock: Ok(0),
        wifi_ap: Ok(String::new()),
        wifi_pw: Err(FlashError::NotFound),
    });
    assert_eq!(settings.device_id, "unknown.device");
    assert_eq!(settings.cpu_clock, 0);
    assert_eq!(settings.wifi.access_point, "");
    assert_eq!(settings.wifi.password, "unknown");
    settings.apply(StoredSettings {
        device_id: Ok("a".into()),
        clock: Err(FlashError::ChecksumMismatch),
        wifi_ap: Err(FlashError::OutOfBounds("wifi_ap".into())),
        wifi_pw: Ok("b".into()),
    });
    assert_eq!(settings.device_id, "a");
    assert_eq!(settings.cpu_clock, 160);
    assert_eq!(settings.wifi.access_point, "unknown");
    assert_eq!(settings.wifi.password, "b");
}

#[test]
fn write_settings_stores_the_device_id() {
    let mut settings = Settings::new(Ok(MemStore::default().with_text("wifi_ap", "home"))).unwrap();
    settings.device_id = "inu.garage".to_string();
    assert_eq!(settings.write_settings(), Ok(()));
    assert_eq!(settings.flash.texts.get("device_id").map(String::as_str), Some("inu.garage"));
    assert_eq!(settings.flash.texts.len(), 2);
    assert_eq!(settings.device_id, "inu.garage");
    assert_eq!(settings.wifi.access_point, "home");
}

#[test]
fn failed_write_is_a_flash_storage_error() {
    let mut settings = Settings::new(Ok(MemStore::default())).unwrap();
    settings.flash.read_only = true;
    assert_eq!(settings.write_settings(), Err(OsError::FlashStorage(FlashError::IoTimeout)));
    assert_eq!(settings.device_id, "unknown.device");
}

#[test]
fn persisted_wraps_the_store_error() {
    assert_eq!(persisted(Ok(())), Ok(()));
    assert_eq!(persisted(Err(FlashError::IoFault)), Err(OsError::FlashStorage(FlashError::IoFault)));
    assert_eq!(
        persisted(Err(FlashError::Generic("full".into()))),
        Err(OsError::FlashStorage(FlashError::Generic("full".into())))
    );
}
