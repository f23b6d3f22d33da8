use smartclip::device::{
    computer_name_query, fingerprint, get_device_id, get_device_name, listing_query,
    platform_query, to_hex, DeviceIdentitySource, DeviceNameSource,
};
use smartclip::process::{ProcessOutcome, ProcessOutput};

const PLATFORM_REPORT: &str = "+-o Root  <class IORegistryEntry, id 0x100000100>\n  +-o MacBookPro18,3  <class IOPlatformExpertDevice, id 0x10000024d>\n      {\n        \"IOPolledInterface\" = \"AppleARMWatchdogTimerHibernateHandler is not serializable\"\n        \"IOPlatformUUID\" = \"A1B2C3D4-E5F6-7890-ABCD-EF1234567890\"\n        \"IOPlatformSerialNumber\" = \"IGNORED-HERE\"\n        \"manufacturer\" = <\"Apple Inc.\">\n      }\n";

const LISTING: &str = "+-o Root\n    | {\n    |   \"IOPlatformSerialNumber\" = \"C02XG0FDH7JY\"\r\n    |   \"IOPlatformUUID\" = \"IGNORED-HERE\"\n    | }\n";

fn exited(success: bool, stdout: &str) -> ProcessOutcome {
    ProcessOutcome::Exited(ProcessOutput {
        success,
        stdout: stdout.as_bytes().to_vec(),
        stderr: Vec::new(),
    })
}

fn registry(platform: &str, listing: &str) -> DeviceIdentitySource {
    DeviceIdentitySource::HardwareRegistry {
        platform: exited(true, platform),
        listing: exited(true, listing),
    }
}

#[test]
fn hex_is_lower_case_two_digits_per_byte() {
    assert_eq!(to_hex(&[]), "");
    assert_eq!(to_hex(&[10, 20, 30]), "0a141e");
    assert_eq!(to_hex(&[0x00, 0x09, 0x0a, 0x0f, 0x10, 0x9f, 0xa0, 0xff]), "00090a0f109fa0ff");
}

#[test]
fn fingerprint_is_the_sha256_of_the_text() {
    assert_eq!(
        fingerprint("hello world"),
        "b94d27b9934d3e08a52e52d7da7dabfac484efe37a5380ee9088f7ace2efcde9"
    );
    assert_eq!(
        fingerprint(""),
        "e3b0c44298fc1c149afbf4c8996fb92427ae41e4649b934ca495991b7852b855"
    );
}

#[test]
fn device_id_hashes_uuid_and_serial() {
    assert_eq!(
        get_device_id(&registry(PLATFORM_REPORT, LISTING)),
        Ok("b47c7f32f88b9ecb86c65fd59a00735923b3f57533d687838777c301fad407c1".to_string())
    );
}

#[test]
fn device_id_is_the_same_on_every_call() {
    let source = registry(PLATFORM_REPORT, LISTING);
    assert_eq!(get_device_id(&source), get_device_id(&source));
    assert_eq!(get_device_id(&source), get_device_id(&source.clone()));
    let by_name = DeviceIdentitySource::Hostname(Some("studio-mac.local".to_string()));
    assert_eq!(get_device_id(&by_name), get_device_id(&by_name));
}

#[test]
fn device_id_does_not_spell_out_the_identifiers() {
    let id = get_device_id(&registry(PLATFORM_REPORT, LISTING)).unwrap();
    assert_eq!(id.len(), 64);
    assert!(id.chars().all(|c| c.is_ascii_digit() || ('a'..='f').contains(&c)));
    assert!(!id.contains("A1B2C3D4-E5F6-7890-ABCD-EF1234567890"));
    assert!(!id.contains("C02XG0FDH7JY"));
    assert!(!id.to_uppercase().contains("C02XG0FDH7JY"));
}

#[test]
fn a_missing_identifier_is_replaced_by_its_stand_in() {
    assert_eq!(
        get_device_id(&registry("no such key\n", "nothing here either")),
        Ok("7f2dc341574ede7795d53f6f1df3890b188083ab995dc816f4ca3b9b00d71e94".to_string())
    );
    assert_eq!(
        get_device_id(&registry(PLATFORM_REPORT, "")),
        Ok("12f84bc88026ec3cd2016c6f5bdc8e162ad20d19559eb330dbcc14b5e2bc6d31".to_string())
    );
    assert_eq!(
        get_device_id(&registry("", LISTING)),
        Ok("ca56acd1a69f7ac6ffa3addaf079464eccb0543d2c867537ca7d4f10351ecf3d".to_string())
    );
}

#[test]
fn a_key_without_a_quoted_value_counts_as_missing() {
    assert_eq!(
        get_device_id(&registry("IOPlatformUUID = bare\n", "\"IOPlatformSerialNumber\" = \n")),
        Ok("7f2dc341574ede7795d53f6f1df3890b188083ab995dc816f4ca3b9b00d71e94".to_string())
    );
}

#[test]
fn the_exit_status_of_a_registry_query_does_not_matter() {
    let source = DeviceIdentitySource::HardwareRegistry {
        platform: exited(false, PLATFORM_REPORT),
        listing: exited(false, LISTING),
    };
    assert_eq!(
        get_device_id(&source),
        Ok("b47c7f32f88b9ecb86c65fd59a00735923b3f57533d687838777c301fad407c1".to_string())
    );
}

#[test]
fn an_unstartable_registry_query_gives_the_stand_in() {
    let neither = DeviceIdentitySource::HardwareRegistry {
        platform: ProcessOutcome::LaunchFailed("not found".to_string()),
        listing: ProcessOutcome::LaunchFailed("also not found".to_string()),
    };
    assert_eq!(
        get_device_id(&neither),
        Ok("7f2dc341574ede7795d53f6f1df3890b188083ab995dc816f4ca3b9b00d71e94".to_string())
    );
    let no_listing = DeviceIdentitySource::HardwareRegistry {
        platform: exited(true, PLATFORM_REPORT),
        listing: ProcessOutcome::LaunchFailed("not found".to_string()),
    };
    assert_eq!(
        get_device_id(&no_listing),
        Ok("12f84bc88026ec3cd2016c6f5bdc8e162ad20d19559eb330dbcc14b5e2bc6d31".to_string())
    );
    let no_platform = DeviceIdentitySource::HardwareRegistry {
        platform: ProcessOutcome::LaunchFailed("not found".to_string()),
        listing: exited(true, LISTING),
    };
    assert_eq!(
        get_device_id(&no_platform),
        Ok("ca56acd1a69f7ac6ffa3addaf079464eccb0543d2c867537ca7d4f10351ecf3d".to_string())
    );
}

#[test]
fn the_reason_a_query_did_not_start_does_not_matter() {
    let one = DeviceIdentitySource::HardwareRegistry {
        platform: ProcessOutcome::LaunchFailed("not found".to_string()),
        listing: exited(true, LISTING),
    };
    let other = DeviceIdentitySource::HardwareRegistry {
        platform: ProcessOutcome::LaunchFailed("permission denied".to_string()),
        listing: exited(true, LISTING),
    };
    assert_eq!(get_device_id(&one), get_device_id(&other));
}

#[test]
fn elsewhere_the_hostname_is_hashed() {
    assert_eq!(
        get_device_id(&DeviceIdentitySource::Hostname(Some("studio-mac.local".to_string()))),
        Ok("15cbcf02b080dfc50bef5cc2d47d3d3568000e234ea03f2fe696c121fbd0058f".to_string())
    );
    assert_eq!(
        get_device_id(&DeviceIdentitySource::Hostname(None)),
        Ok("b23a6a8439c0dde5515893e7c90c1e3233b8616e634470f20dc4928bcf3609bc".to_string())
    );
}

#[test]
fn the_machine_itself_can_be_the_source() {
    let source = DeviceIdentitySource::from_hostname();
    assert!(matches!(source, DeviceIdentitySource::Hostname(_)));
    let id = get_device_id(&source).unwrap();
    assert_eq!(id.len(), 64);
    assert!(matches!(DeviceNameSource::from_hostname(), DeviceNameSource::Hostname(_)));
}

#[test]
fn registry_queries_are_fixed() {
    assert_eq!(platform_query().program, "ioreg");
    assert_eq!(platform_query().args, vec!["-d2", "-c", "IOPlatformExpertDevice"]);
    assert_eq!(listing_query().program, "ioreg");
    assert_eq!(listing_query().args, vec!["-l"]);
    assert_eq!(computer_name_query().program, "scutil");
    assert_eq!(computer_name_query().args, vec!["--get", "ComputerName"]);
}

#[test]
fn configured_computer_name_is_trimmed() {
    let source = DeviceNameSource::ComputerName(exited(true, "  Ada\u{2019}s MacBook Pro \n"));
    assert_eq!(get_device_name(&source), Ok("Ada\u{2019}s MacBook Pro".to_string()));
}

#[test]
fn no_computer_name_gives_the_generic_one() {
    assert_eq!(
        get_device_name(&DeviceNameSource::ComputerName(exited(true, " \n\t"))),
        Ok("Mac".to_string())
    );
    assert_eq!(
        get_device_name(&DeviceNameSource::ComputerName(exited(true, ""))),
        Ok("Mac".to_string())
    );
    assert_eq!(
        get_device_name(&DeviceNameSource::ComputerName(exited(false, "Studio"))),
        Ok("Mac".to_string())
    );
}

#[test]
fn unstartable_name_query_is_a_hard_error() {
    let source = DeviceNameSource::ComputerName(ProcessOutcome::LaunchFailed("denied".to_string()));
    assert_eq!(get_device_name(&source), Err("Failed to get device name: denied".to_string()));
}

#[test]
fn elsewhere_the_hostname_is_the_name() {
    assert_eq!(
        get_device_name(&DeviceNameSource::Hostname(Some(" box-7 ".to_string()))),
        Ok(" box-7 ".to_string())
    );
    assert_eq!(
        get_device_name(&DeviceNameSource::Hostname(None)),
        Ok("Unknown Device".to_string())
    );
}
