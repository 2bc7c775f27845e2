use dmg_util::command::{build_args, render_command};
use dmg_util::config::DmgConfig;
use dmg_util::outcome::{check_platform, tool_outcome, LauncherError};
use dmg_util::redact::redact_arg;
use dmg_util::strutil::{i32_dec, u32_dec};

fn config(
    size: &str,
    volume_name: &str,
    output: &str,
    encryption: &str,
    filesystem: &str,
    image_type: &str,
) -> DmgConfig {
    DmgConfig {
        size: size.to_string(),
        volume_name: volume_name.to_string(),
        output: output.to_string(),
        encryption: encryption.to_string(),
        filesystem: filesystem.to_string(),
        image_type: image_type.to_string(),
    }
}

#[test]
fn default_configuration() {
    let c = DmgConfig::default();
    assert_eq!(c.size, "100m");
    assert_eq!(c.volume_name, "MyVolume");
    assert_eq!(c.output, "myvolume.dmg");
    assert_eq!(c.encryption, "AES-256");
    assert_eq!(c.filesystem, "APFS");
    assert_eq!(c.image_type, "UDIF");
}

#[test]
fn argument_order_is_fixed() {
    let c = DmgConfig::default();
    let args = build_args(&c, "pw");
    let expected = vec![
        "create",
        "-size",
        "100m",
        "-fs",
        "APFS",
        "-type",
        "UDIF",
        "-encryption",
        "AES-256",
        "-volname",
        "MyVolume",
        "-passphrase",
        "pw",
        "myvolume.dmg",
    ];
    assert_eq!(args, expected);
    assert_eq!(args.len(), 14);
    assert_eq!(args.last().unwrap(), &c.output);
}

#[test]
fn example_invocation_line() {
    let c = config("1g", "Secure", "out.dmg", "AES-256", "APFS", "UDIF");
    let args = build_args(&c, "hunter2");
    let line = render_command(&args, "hunter2");
    assert_eq!(
        line,
        "Running: hdiutil create -size 1g -fs APFS -type UDIF -encryption AES-256 \
         -volname Secure -passphrase ****** out.dmg"
    );
}

#[test]
fn passphrase_token_is_masked() {
    assert_eq!(redact_arg("hunter2", "hunter2"), "******");
    let c = DmgConfig::default();
    let args = build_args(&c, "hunter2");
    let line = render_command(&args, "hunter2");
    assert!(!line.contains("hunter2"));
    assert!(line.contains("-passphrase ******"));
}

#[test]
fn passphrase_with_spaces_masks_before_quoting() {
    // The mask itself holds no special character, so it is never quoted.
    assert_eq!(redact_arg("my secret", "my secret"), "******");
}

#[test]
fn passphrase_substring_is_not_masked() {
    // Only a token exactly equal to the passphrase is masked.
    assert_eq!(redact_arg("pw123", "pw"), "pw123");
}

#[test]
fn token_with_space_is_quoted() {
    assert_eq!(redact_arg("My Volume", "pw"), "\"My Volume\"");
}

#[test]
fn plain_token_is_unchanged() {
    assert_eq!(redact_arg("AES-256", "pw"), "AES-256");
}

#[test]
fn quotes_inside_token_are_escaped() {
    assert_eq!(redact_arg("a\"b", "pw"), "\"a\\\"b\"");
    assert_eq!(redact_arg("it's", "pw"), "\"it's\"");
    assert_eq!(redact_arg("a \\b", "pw"), "\"a \\\\b\"");
}

#[test]
fn backslash_alone_does_not_force_quoting() {
    assert_eq!(redact_arg("a\\b", "pw"), "a\\b");
}

#[test]
fn quoted_volume_name_in_line() {
    let c = config("1g", "My Volume", "out.dmg", "AES-256", "APFS", "UDIF");
    let args = build_args(&c, "pw");
    let line = render_command(&args, "pw");
    assert_eq!(
        line,
        "Running: hdiutil create -size 1g -fs APFS -type UDIF -encryption AES-256 \
         -volname \"My Volume\" -passphrase ****** out.dmg"
    );
}

#[test]
fn empty_argument_list_renders_prefix_only() {
    let line = render_command(&Vec::new(), "pw");
    assert_eq!(line, "Running: hdiutil ");
}

#[test]
fn zero_exit_status_is_success() {
    assert!(tool_outcome(Some(0)).is_ok());
}

#[test]
fn nonzero_exit_status_is_reported_with_the_status() {
    match tool_outcome(Some(3)) {
        Ok(()) => panic!("a failing run must be reported"),
        Err(e) => {
            assert!(matches!(e, LauncherError::ToolExecutionError(Some(3))));
            assert_eq!(e.message(), "hdiutil exited with status 3");
        }
    }
}

#[test]
fn negative_exit_status_is_reported_with_the_status() {
    match tool_outcome(Some(-2)) {
        Ok(()) => panic!("a failing run must be reported"),
        Err(e) => assert_eq!(e.message(), "hdiutil exited with status -2"),
    }
}

#[test]
fn signal_death_is_reported() {
    match tool_outcome(None) {
        Ok(()) => panic!("a signalled run must be reported"),
        Err(e) => {
            assert!(matches!(e, LauncherError::ToolExecutionError(None)));
            assert_eq!(e.message(), "hdiutil was terminated by a signal");
        }
    }
}

#[test]
fn supported_platform_passes_the_guard() {
    assert!(check_platform("macos").is_ok());
}

#[test]
fn unsupported_platform_is_rejected_with_fixed_message() {
    for os in ["linux", "windows", "freebsd", ""] {
        match check_platform(os) {
            Ok(()) => panic!("only macos may pass the guard"),
            Err(e) => {
                assert!(matches!(e, LauncherError::UnsupportedPlatform));
                assert_eq!(
                    e.message(),
                    "This tool only works on macOS because it shells out to hdiutil."
                );
            }
        }
    }
}

#[test]
fn input_and_spawn_errors_carry_their_detail() {
    let e = LauncherError::InputError("prompt closed".to_string());
    assert_eq!(e.message(), "prompt closed");
    let e = LauncherError::SpawnError("utility not found".to_string());
    assert_eq!(e.message(), "utility not found");
}

#[test]
fn decimal_rendering() {
    assert_eq!(u32_dec(0), "0");
    assert_eq!(u32_dec(7), "7");
    assert_eq!(u32_dec(10), "10");
    assert_eq!(u32_dec(4294967295), "4294967295");
    assert_eq!(i32_dec(0), "0");
    assert_eq!(i32_dec(255), "255");
    assert_eq!(i32_dec(-1), "-1");
    assert_eq!(i32_dec(i32::MIN), "-2147483648");
    assert_eq!(i32_dec(i32::MAX), "2147483647");
}
