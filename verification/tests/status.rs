use roboclaw_panel::arbiter::{arbitrate_open, arbitrate_poll, arbitrate_reset, arbitrate_send};
use roboclaw_panel::error::{DeviceError, OpenError};
use roboclaw_panel::intent::{ControlSurface, SpeedCommand};
use roboclaw_panel::status::{
    buffers_failed_message, config_failed_message, connected_message, disconnected_message,
    fault_failed_message, has_command_error, has_line_trouble, has_read_failure,
    mixed_error_message, motor_error_message, open_failed_message, reset_error_message,
    unverified_message,
};
use roboclaw_panel::telemetry::Readings;

fn failure(detail: &str) -> DeviceError {
    DeviceError { detail: detail.to_string() }
}

fn good_pass() -> Readings {
    Readings {
        main_voltage: Ok(121),
        logic_voltage: Ok(50),
        encoders: Ok((10, 20)),
        fault_flags: Ok(0),
        config_flags: Ok(0x00A3),
        buffer_occupancy: Ok((0, 128)),
    }
}

fn individual(m1: i32, m2: i32) -> SpeedCommand {
    SpeedCommand { surface: ControlSurface::Individual, m1, m2 }
}

fn mixed(m1: i32, m2: i32) -> SpeedCommand {
    SpeedCommand { surface: ControlSurface::Mixed, m1, m2 }
}

fn after_pass(status: &str, readings: &Readings) -> String {
    let mut status = status.to_string();
    arbitrate_poll(&mut status, readings);
    status
}

#[test]
fn neutral_messages_read_as_written() {
    assert_eq!(disconnected_message(), "Disconnected");
    assert_eq!(unverified_message(), "Connected - Testing communication...");
    assert_eq!(connected_message(), "Connected");
}

#[test]
fn open_failure_carries_the_reason() {
    assert_eq!(open_failed_message("No such file"), "Failed to open port: No such file");
    assert_eq!(open_failed_message(""), "Failed to open port: ");
}

#[test]
fn motor_error_carries_detail_and_values() {
    assert_eq!(
        motor_error_message("timed out", 50000, -25000),
        "Motor control error: timed out (M1:50000, M2:-25000)"
    );
    assert_eq!(motor_error_message("", 0, 0), "Motor control error:  (M1:0, M2:0)");
}

#[test]
fn mixed_error_carries_detail_and_values() {
    assert_eq!(
        mixed_error_message("crc error", 30000, 50000),
        "Mixed control error: crc error (L:30000, R:50000)"
    );
}

#[test]
fn reset_error_carries_the_detail() {
    assert_eq!(reset_error_message("return value error"), "Reset encoders error: return value error");
}

#[test]
fn read_failure_messages_read_as_written() {
    assert_eq!(fault_failed_message("crc error"), "Failed to read error status: crc error");
    assert_eq!(config_failed_message(), "Failed to read config");
    assert_eq!(buffers_failed_message(), "Failed to read buffers");
}

#[test]
fn command_errors_are_told_by_their_words() {
    assert!(has_command_error("Motor control error: x (M1:1, M2:2)"));
    assert!(has_command_error("Mixed control error: x (L:1, R:2)"));
    assert!(has_command_error("Reset encoders error: x"));
    assert!(has_command_error("Failed to read error status: Motor control error"));
    assert!(!has_command_error("Connected"));
    assert!(!has_command_error("Failed to read encoders"));
    assert!(!has_command_error("motor control error"));
    assert!(!has_command_error(""));
}

#[test]
fn read_failures_are_told_by_their_words() {
    assert!(has_read_failure("Failed to read main battery voltage"));
    assert!(has_read_failure("Failed to read error status: timeout"));
    assert!(has_read_failure("Motor control error: Failed to read (M1:0, M2:0)"));
    assert!(!has_read_failure("Connected"));
    assert!(!has_read_failure("Motor control error: crc error (M1:0, M2:0)"));
}

#[test]
fn line_trouble_is_a_failed_read_or_a_checksum_mismatch() {
    assert!(has_line_trouble("Failed to read config"));
    assert!(has_line_trouble("Motor control error: crc error (M1:0, M2:0)"));
    assert!(has_line_trouble("crc error"));
    assert!(!has_line_trouble("Connected"));
    assert!(!has_line_trouble("Connected - Testing communication..."));
    assert!(!has_line_trouble("Disconnected"));
    assert!(!has_line_trouble("Motor control error: timed out (M1:0, M2:0)"));
}

#[test]
fn open_outcome_replaces_whatever_was_shown() {
    let mut status = "Motor control error: x (M1:1, M2:2)".to_string();
    arbitrate_open(&mut status, &Ok::<u8, OpenError>(7));
    assert_eq!(status, "Connected - Testing communication...");
    arbitrate_open(&mut status, &Err::<u8, OpenError>(OpenError { reason: "busy".to_string() }));
    assert_eq!(status, "Failed to open port: busy");
}

#[test]
fn good_send_clears_to_connected() {
    let mut status = "Connected - Testing communication...".to_string();
    arbitrate_send(&mut status, &individual(1, 2), &Ok(()));
    assert_eq!(status, "Connected");
}

#[test]
fn good_send_clears_an_older_command_error() {
    let mut status = "Motor control error: timed out (M1:1, M2:2)".to_string();
    arbitrate_send(&mut status, &individual(1, 2), &Ok(()));
    assert_eq!(status, "Connected");
    let mut status = "Reset encoders error: timed out".to_string();
    arbitrate_send(&mut status, &mixed(1, 2), &Ok(()));
    assert_eq!(status, "Connected");
}

#[test]
fn good_send_leaves_a_failed_read_on_display() {
    let mut status = "Failed to read error status: crc error".to_string();
    arbitrate_send(&mut status, &individual(1, 2), &Ok(()));
    assert_eq!(status, "Failed to read error status: crc error");
    let mut status = "Failed to read buffers".to_string();
    arbitrate_send(&mut status, &mixed(1, 2), &Ok(()));
    assert_eq!(status, "Failed to read buffers");
}

#[test]
fn failed_send_always_shows() {
    let mut status = "Failed to read buffers".to_string();
    arbitrate_send(&mut status, &individual(50000, -25000), &Err(failure("crc error")));
    assert_eq!(status, "Motor control error: crc error (M1:50000, M2:-25000)");
    arbitrate_send(&mut status, &mixed(30000, 50000), &Err(failure("timed out")));
    assert_eq!(status, "Mixed control error: timed out (L:30000, R:50000)");
}

#[test]
fn reset_outcome_shows_only_on_failure() {
    let mut status = "Connected".to_string();
    arbitrate_reset(&mut status, &Ok(()));
    assert_eq!(status, "Connected");
    arbitrate_reset(&mut status, &Err(failure("timed out")));
    assert_eq!(status, "Reset encoders error: timed out");
}

#[test]
fn clean_pass_shows_connected() {
    assert_eq!(after_pass("Connected - Testing communication...", &good_pass()), "Connected");
    assert_eq!(after_pass("Failed to read error status: crc error", &good_pass()), "Connected");
    assert_eq!(after_pass("Failed to open port: busy", &good_pass()), "Connected");
}

#[test]
fn command_error_outlasts_a_clean_pass() {
    let shown = "Motor control error: timed out (M1:1, M2:2)";
    assert_eq!(after_pass(shown, &good_pass()), shown);
    let shown = "Mixed control error: timed out (L:1, R:2)";
    assert_eq!(after_pass(shown, &good_pass()), shown);
    let shown = "Reset encoders error: timed out";
    assert_eq!(after_pass(shown, &good_pass()), shown);
}

#[test]
fn command_error_outlasts_a_pass_that_fails_throughout() {
    let pass = Readings {
        main_voltage: Err(failure("a")),
        logic_voltage: Err(failure("b")),
        encoders: Err(failure("c")),
        fault_flags: Err(failure("d")),
        config_flags: Err(failure("e")),
        buffer_occupancy: Err(failure("f")),
    };
    let shown = "Motor control error: timed out (M1:1, M2:2)";
    assert_eq!(after_pass(shown, &pass), shown);
    let shown = "Mixed control error: crc error (L:1, R:2)";
    assert_eq!(after_pass(shown, &pass), shown);
}

#[test]
fn failed_fault_read_holds_against_the_reads_after_it() {
    let pass = Readings {
        fault_flags: Err(failure("crc error")),
        config_flags: Err(failure("x")),
        buffer_occupancy: Err(failure("y")),
        ..good_pass()
    };
    assert_eq!(after_pass("Connected", &pass), "Failed to read error status: crc error");
}

#[test]
fn failed_fault_read_replaces_the_failures_before_it() {
    let pass = Readings {
        main_voltage: Err(failure("x")),
        encoders: Err(failure("y")),
        fault_flags: Err(failure("timed out")),
        ..good_pass()
    };
    assert_eq!(after_pass("Connected", &pass), "Failed to read error status: timed out");
}

#[test]
fn good_fault_read_clears_the_failures_before_it() {
    let pass = Readings {
        main_voltage: Err(failure("x")),
        logic_voltage: Err(failure("y")),
        encoders: Err(failure("z")),
        ..good_pass()
    };
    assert_eq!(after_pass("Connected", &pass), "Connected");
}

#[test]
fn last_failure_after_the_fault_read_wins() {
    let pass = Readings { config_flags: Err(failure("x")), ..good_pass() };
    assert_eq!(after_pass("Connected", &pass), "Failed to read config");
    let pass = Readings { buffer_occupancy: Err(failure("x")), ..good_pass() };
    assert_eq!(after_pass("Connected", &pass), "Failed to read buffers");
    let pass = Readings {
        config_flags: Err(failure("x")),
        buffer_occupancy: Err(failure("y")),
        ..good_pass()
    };
    assert_eq!(after_pass("Connected", &pass), "Failed to read buffers");
}

#[test]
fn fault_detail_that_names_a_command_error_still_shows() {
    let pass = Readings {
        fault_flags: Err(failure("Motor control error")),
        buffer_occupancy: Err(failure("y")),
        ..good_pass()
    };
    assert_eq!(after_pass("Connected", &pass), "Failed to read error status: Motor control error");
}
