use inu_core::error::{FlashError, OsError, PinError, WifiError};

fn bad_utf8() -> std::str::Utf8Error {
    let bytes = vec![b'o', b'k', 0xff, b'!'];
    std::str::from_utf8(&bytes).unwrap_err()
}

fn bad_json(text: &str) -> serde_json::Error {
    serde_json::from_str::<serde_json::Value>(text).unwrap_err()
}

#[test]
fn flash_error_becomes_flash_storage() {
    assert_eq!(OsError::from(FlashError::NotFound), OsError::FlashStorage(FlashError::NotFound));
    assert_eq!(
        OsError::from(FlashError::OutOfBounds("key".into())),
        OsError::FlashStorage(FlashError::OutOfBounds("key".into()))
    );
    for e in [
        FlashError::IoFault,
        FlashError::IoTimeout,
        FlashError::Generic("g".into()),
        FlashError::Uninitialised,
        FlashError::Corrupted,
        FlashError::ChecksumMismatch,
    ] {
        assert_eq!(OsError::from(e.clone()), OsError::FlashStorage(e));
    }
}

#[test]
fn pin_error_becomes_pin() {
    assert_eq!(OsError::from(PinError::InvalidPin(77)), OsError::Pin(PinError::InvalidPin(77)));
    assert_eq!(OsError::from(PinError::PinInUse(3)), OsError::Pin(PinError::PinInUse(3)));
    let generic = PinError::Generic { pin: 1, error: "e".into() };
    assert_eq!(OsError::from(generic.clone()), OsError::Pin(generic));
}

#[test]
fn wifi_error_becomes_wifi() {
    for e in [
        WifiError::Unknown("u".into()),
        WifiError::NotInitialised,
        WifiError::Disconnected,
        WifiError::NoIpAllocation,
    ] {
        assert_eq!(OsError::from(e.clone()), OsError::Wifi(e));
    }
}

#[test]
fn question_mark_converts_subsystem_errors() {
    fn claim() -> Result<(), OsError> {
        Err(PinError::PinInUse(9))?;
        Ok(())
    }
    fn store() -> Result<(), OsError> {
        Err(FlashError::Corrupted)?;
        Ok(())
    }
    assert_eq!(claim(), Err(OsError::Pin(PinError::PinInUse(9))));
    assert_eq!(store(), Err(OsError::FlashStorage(FlashError::Corrupted)));
}

#[test]
fn utf8_error_becomes_parse_with_its_rendering() {
    let e = bad_utf8();
    assert_eq!(
        OsError::from(e),
        OsError::Parse(
            "Invalid UTF-8 encoding: Utf8Error { valid_up_to: 2, error_len: Some(1) }".to_string()
        )
    );
    assert_eq!(OsError::from(e), OsError::Parse(format!("Invalid UTF-8 encoding: {:?}", e)));
}

#[test]
fn json_error_becomes_parse_with_its_rendering() {
    let expected = format!("JSON parse error: {:?}", bad_json("{\"a\": }"));
    assert_eq!(OsError::from(bad_json("{\"a\": }")), OsError::Parse(expected.clone()));
    assert!(expected.contains("line: 1"));
    assert!(expected.contains("column: 7"));
    // another document, another rendering
    assert_ne!(OsError::from(bad_json("[1, 2")), OsError::Parse(expected));
}

#[test]
fn driver_failures_are_labelled() {
    assert_eq!(
        OsError::from_driver("ESP_ERR_TIMEOUT"),
        OsError::Generic("ESP error: ESP_ERR_TIMEOUT".to_string())
    );
    assert_eq!(OsError::from_driver(""), OsError::Generic("ESP error: ".to_string()));
    assert_eq!(
        FlashError::from_driver("ESP_ERR_NVS_NOT_FOUND"),
        FlashError::Generic("ESP error: ESP_ERR_NVS_NOT_FOUND".to_string())
    );
}

#[test]
fn pin_failures_are_labelled() {
    assert_eq!(
        PinError::lock_poisoned(3, "PoisonError"),
        PinError::Generic { pin: 3, error: "Pin mutex poisoned: PoisonError".to_string() }
    );
    assert_eq!(
        PinError::pull_failed(9, "ESP_FAIL"),
        PinError::Generic { pin: 9, error: "Failed to set pin pull mode: ESP_FAIL".to_string() }
    );
    assert_eq!(
        PinError::level_failed(48, "ESP_FAIL"),
        PinError::Generic { pin: 48, error: "Failed to set pin level: ESP_FAIL".to_string() }
    );
}
