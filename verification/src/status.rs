//! The status line: the single message shown to the operator, the texts it can
//! hold, and what a text on display says about the session.
//!
//! Nothing but the text is kept. Whether a message may be replaced, and how
//! often the device is polled, is read off the words that the current message
//! holds.

use crate::text::{
    contains, decimal, lemma_absent_without_first, lemma_contains_embedded,
    lemma_contains_transitive, lemma_lacks_pair, lemma_longer_is_absent, occurs_at,
    render_decimal, text_contains,
};
use vstd::prelude::*;
use vstd::string::*;

verus! {

/// Shown from start-up and after a disconnect.
pub open spec fn disconnected_text() -> Seq<char> {
    "Disconnected"@
}

/// Shown once the transport is open and before the first exchange.
pub open spec fn unverified_text() -> Seq<char> {
    "Connected - Testing communication..."@
}

/// Shown while the device answers and nothing is wrong.
pub open spec fn connected_text() -> Seq<char> {
    "Connected"@
}

/// Shown when the transport could not be opened.
pub open spec fn open_failed_text(reason: Seq<char>) -> Seq<char> {
    "Failed to open port: "@ + reason
}

/// Shown when a command from the individual sliders failed.
pub open spec fn motor_error_text(detail: Seq<char>, m1: int, m2: int) -> Seq<char> {
    "Motor control error: "@ + detail + " (M1:"@ + decimal(m1) + ", M2:"@ + decimal(m2) + ")"@
}

/// Shown when a command from the speed and turn pair failed.
pub open spec fn mixed_error_text(detail: Seq<char>, left: int, right: int) -> Seq<char> {
    "Mixed control error: "@ + detail + " (L:"@ + decimal(left) + ", R:"@ + decimal(right) + ")"@
}

/// Shown when the encoders could not be reset.
pub open spec fn reset_error_text(detail: Seq<char>) -> Seq<char> {
    "Reset encoders error: "@ + detail
}

/// Shown when the main battery voltage could not be read.
pub open spec fn main_voltage_failed_text() -> Seq<char> {
    "Failed to read main battery voltage"@
}

/// Shown when the logic battery voltage could not be read.
pub open spec fn logic_voltage_failed_text() -> Seq<char> {
    "Failed to read logic battery voltage"@
}

/// Shown when the encoders could not be read.
pub open spec fn encoders_failed_text() -> Seq<char> {
    "Failed to read encoders"@
}

/// Shown when the fault register could not be read.
pub open spec fn fault_failed_text(detail: Seq<char>) -> Seq<char> {
    "Failed to read error status: "@ + detail
}

/// Shown when the configuration register could not be read.
pub open spec fn config_failed_text() -> Seq<char> {
    "Failed to read config"@
}

/// Shown when the buffer occupancy could not be read.
pub open spec fn buffers_failed_text() -> Seq<char> {
    "Failed to read buffers"@
}

/// The status shows a failed command: a motor command, a mixed command or an
/// encoder reset. Such a message has the highest priority on display.
pub open spec fn shows_command_error(status: Seq<char>) -> bool {
    ||| contains(status, "Motor control error"@)
    ||| contains(status, "Mixed control error"@)
    ||| contains(status, "Reset encoders error"@)
}

/// The status shows that a telemetry read failed.
pub open spec fn shows_read_failure(status: Seq<char>) -> bool {
    contains(status, "Failed to read"@)
}

/// The status shows that the fault register could not be read.
pub open spec fn shows_fault_failure(status: Seq<char>) -> bool {
    contains(status, "Failed to read error status"@)
}

/// The status tells of recent trouble on the line: a failed read or a
/// checksum mismatch. Polling slows down while it does.
pub open spec fn shows_line_trouble(status: Seq<char>) -> bool {
    contains(status, "crc error"@) || contains(status, "Failed to read"@)
}

/// A failed command shows as a command error, whatever its detail and values.
pub proof fn lemma_command_errors_show(detail: Seq<char>, a: int, b: int)
    ensures
        shows_command_error(motor_error_text(detail, a, b)),
        shows_command_error(mixed_error_text(detail, a, b)),
        shows_command_error(reset_error_text(detail)),
{
    reveal_strlit("Motor control error: ");
    reveal_strlit("Mixed control error: ");
    reveal_strlit("Reset encoders error: ");
    reveal_strlit("Motor control error");
    reveal_strlit("Mixed control error");
    reveal_strlit("Reset encoders error");
    let motor = motor_error_text(detail, a, b);
    assert(motor.subrange(0, 19) =~= "Motor control error"@);
    assert(occurs_at(motor, "Motor control error"@, 0));
    let mixed = mixed_error_text(detail, a, b);
    assert(mixed.subrange(0, 19) =~= "Mixed control error"@);
    assert(occurs_at(mixed, "Mixed control error"@, 0));
    let reset = reset_error_text(detail);
    assert(reset.subrange(0, 20) =~= "Reset encoders error"@);
    assert(occurs_at(reset, "Reset encoders error"@, 0));
}

/// A message that carries a detail shows whatever its detail shows: a
/// checksum mismatch reported by a failed command slows the polling down as
/// one on display by itself would, and a failed read named in a detail counts
/// as a failed read.
pub proof fn lemma_detail_shows_through(detail: Seq<char>, a: int, b: int, marker: Seq<char>)
    requires
        contains(detail, marker),
    ensures
        contains(motor_error_text(detail, a, b), marker),
        contains(mixed_error_text(detail, a, b), marker),
        contains(reset_error_text(detail), marker),
        contains(fault_failed_text(detail), marker),
        contains(open_failed_text(detail), marker),
{
    let none = Seq::<char>::empty();
    let motor_tail = " (M1:"@ + decimal(a) + ", M2:"@ + decimal(b) + ")"@;
    assert(motor_error_text(detail, a, b) =~= "Motor control error: "@ + detail + motor_tail);
    lemma_contains_embedded("Motor control error: "@, detail, motor_tail);
    lemma_contains_transitive(motor_error_text(detail, a, b), detail, marker);
    let mixed_tail = " (L:"@ + decimal(a) + ", R:"@ + decimal(b) + ")"@;
    assert(mixed_error_text(detail, a, b) =~= "Mixed control error: "@ + detail + mixed_tail);
    lemma_contains_embedded("Mixed control error: "@, detail, mixed_tail);
    lemma_contains_transitive(mixed_error_text(detail, a, b), detail, marker);
    assert(reset_error_text(detail) =~= "Reset encoders error: "@ + detail + none);
    lemma_contains_embedded("Reset encoders error: "@, detail, none);
    lemma_contains_transitive(reset_error_text(detail), detail, marker);
    assert(fault_failed_text(detail) =~= "Failed to read error status: "@ + detail + none);
    lemma_contains_embedded("Failed to read error status: "@, detail, none);
    lemma_contains_transitive(fault_failed_text(detail), detail, marker);
    assert(open_failed_text(detail) =~= "Failed to open port: "@ + detail + none);
    lemma_contains_embedded("Failed to open port: "@, detail, none);
    lemma_contains_transitive(open_failed_text(detail), detail, marker);
}

/// Every message about a failed read shows as a read failure, and with it as
/// trouble on the line; the one about the fault register shows as a fault
/// failure too, whatever its detail.
pub proof fn lemma_read_failures_show(detail: Seq<char>)
    ensures
        shows_read_failure(main_voltage_failed_text()),
        shows_read_failure(logic_voltage_failed_text()),
        shows_read_failure(encoders_failed_text()),
        shows_read_failure(fault_failed_text(detail)),
        shows_read_failure(config_failed_text()),
        shows_read_failure(buffers_failed_text()),
        shows_fault_failure(fault_failed_text(detail)),
        shows_line_trouble(main_voltage_failed_text()),
        shows_line_trouble(logic_voltage_failed_text()),
        shows_line_trouble(encoders_failed_text()),
        shows_line_trouble(fault_failed_text(detail)),
        shows_line_trouble(config_failed_text()),
        shows_line_trouble(buffers_failed_text()),
{
    reveal_strlit("Failed to read");
    reveal_strlit("Failed to read error status");
    reveal_strlit("Failed to read main battery voltage");
    reveal_strlit("Failed to read logic battery voltage");
    reveal_strlit("Failed to read encoders");
    reveal_strlit("Failed to read error status: ");
    reveal_strlit("Failed to read config");
    reveal_strlit("Failed to read buffers");
    let marker = "Failed to read"@;
    assert(main_voltage_failed_text().subrange(0, 14) =~= marker);
    assert(occurs_at(main_voltage_failed_text(), marker, 0));
    assert(logic_voltage_failed_text().subrange(0, 14) =~= marker);
    assert(occurs_at(logic_voltage_failed_text(), marker, 0));
    assert(encoders_failed_text().subrange(0, 14) =~= marker);
    assert(occurs_at(encoders_failed_text(), marker, 0));
    assert(config_failed_text().subrange(0, 14) =~= marker);
    assert(occurs_at(config_failed_text(), marker, 0));
    assert(buffers_failed_text().subrange(0, 14) =~= marker);
    assert(occurs_at(buffers_failed_text(), marker, 0));
    let fault = fault_failed_text(detail);
    assert(fault.subrange(0, 14) =~= marker);
    assert(occurs_at(fault, marker, 0));
    assert(fault.subrange(0, 27) =~= "Failed to read error status"@);
    assert(occurs_at(fault, "Failed to read error status"@, 0));
}

/// The messages about a failed read that carry no detail are no command
/// errors, and those about the configuration register and the buffers show
/// no fault failure.
pub proof fn lemma_read_failures_are_plain()
    ensures
        !shows_command_error(main_voltage_failed_text()),
        !shows_command_error(logic_voltage_failed_text()),
        !shows_command_error(encoders_failed_text()),
        !shows_command_error(config_failed_text()),
        !shows_command_error(buffers_failed_text()),
        !shows_fault_failure(config_failed_text()),
        !shows_fault_failure(buffers_failed_text()),
{
    reveal_strlit("Motor control error");
    reveal_strlit("Mixed control error");
    reveal_strlit("Reset encoders error");
    reveal_strlit("Failed to read error status");
    reveal_strlit("Failed to read main battery voltage");
    reveal_strlit("Failed to read logic battery voltage");
    reveal_strlit("Failed to read encoders");
    reveal_strlit("Failed to read config");
    reveal_strlit("Failed to read buffers");
    lemma_absent_without_first(main_voltage_failed_text(), "Motor control error"@);
    lemma_absent_without_first(main_voltage_failed_text(), "Mixed control error"@);
    lemma_absent_without_first(main_voltage_failed_text(), "Reset encoders error"@);
    lemma_absent_without_first(logic_voltage_failed_text(), "Motor control error"@);
    lemma_absent_without_first(logic_voltage_failed_text(), "Mixed control error"@);
    lemma_absent_without_first(logic_voltage_failed_text(), "Reset encoders error"@);
    lemma_absent_without_first(encoders_failed_text(), "Motor control error"@);
    lemma_absent_without_first(encoders_failed_text(), "Mixed control error"@);
    lemma_absent_without_first(encoders_failed_text(), "Reset encoders error"@);
    lemma_absent_without_first(config_failed_text(), "Motor control error"@);
    lemma_absent_without_first(config_failed_text(), "Mixed control error"@);
    lemma_absent_without_first(config_failed_text(), "Reset encoders error"@);
    lemma_absent_without_first(buffers_failed_text(), "Motor control error"@);
    lemma_absent_without_first(buffers_failed_text(), "Mixed control error"@);
    lemma_absent_without_first(buffers_failed_text(), "Reset encoders error"@);
    lemma_longer_is_absent(config_failed_text(), "Failed to read error status"@);
    lemma_longer_is_absent(buffers_failed_text(), "Failed to read error status"@);
}

/// The three neutral messages show no trouble of any kind.
pub proof fn lemma_neutral_texts_are_plain()
    ensures
        !shows_command_error(connected_text()),
        !shows_read_failure(connected_text()),
        !shows_fault_failure(connected_text()),
        !shows_line_trouble(connected_text()),
        !shows_command_error(unverified_text()),
        !shows_read_failure(unverified_text()),
        !shows_fault_failure(unverified_text()),
        !shows_line_trouble(unverified_text()),
        !shows_command_error(disconnected_text()),
        !shows_read_failure(disconnected_text()),
        !shows_fault_failure(disconnected_text()),
        !shows_line_trouble(disconnected_text()),
{
    reveal_strlit("Motor control error");
    reveal_strlit("Mixed control error");
    reveal_strlit("Reset encoders error");
    reveal_strlit("Failed to read");
    reveal_strlit("Failed to read error status");
    reveal_strlit("crc error");
    reveal_strlit("Connected");
    reveal_strlit("Connected - Testing communication...");
    reveal_strlit("Disconnected");
    lemma_longer_is_absent(connected_text(), "Motor control error"@);
    lemma_longer_is_absent(connected_text(), "Mixed control error"@);
    lemma_longer_is_absent(connected_text(), "Reset encoders error"@);
    lemma_longer_is_absent(connected_text(), "Failed to read"@);
    lemma_longer_is_absent(connected_text(), "Failed to read error status"@);
    lemma_absent_without_first(unverified_text(), "Motor control error"@);
    lemma_absent_without_first(unverified_text(), "Mixed control error"@);
    lemma_absent_without_first(unverified_text(), "Reset encoders error"@);
    lemma_absent_without_first(unverified_text(), "Failed to read"@);
    lemma_absent_without_first(unverified_text(), "Failed to read error status"@);
    lemma_longer_is_absent(disconnected_text(), "Motor control error"@);
    lemma_longer_is_absent(disconnected_text(), "Mixed control error"@);
    lemma_longer_is_absent(disconnected_text(), "Reset encoders error"@);
    lemma_longer_is_absent(disconnected_text(), "Failed to read"@);
    lemma_longer_is_absent(disconnected_text(), "Failed to read error status"@);
    lemma_lacks_pair(connected_text(), "crc error"@);
    lemma_lacks_pair(unverified_text(), "crc error"@);
    lemma_lacks_pair(disconnected_text(), "crc error"@);
}

/// Whether `status` shows a failed command.
pub fn has_command_error(status: &str) -> (shown: bool)
    ensures
        shown == shows_command_error(status@),
{
    text_contains(status, "Motor control error") || text_contains(status, "Mixed control error")
        || text_contains(status, "Reset encoders error")
}

/// Whether `status` shows a failed telemetry read.
pub fn has_read_failure(status: &str) -> (shown: bool)
    ensures
        shown == shows_read_failure(status@),
{
    text_contains(status, "Failed to read")
}

/// Whether `status` tells of recent trouble on the line.
pub fn has_line_trouble(status: &str) -> (shown: bool)
    ensures
        shown == shows_line_trouble(status@),
{
    text_contains(status, "crc error") || text_contains(status, "Failed to read")
}

/// The message of a session without a device.
pub fn disconnected_message() -> (message: String)
    ensures
        message@ == disconnected_text(),
{
    String::from_str("Disconnected")
}

/// The message of a session whose transport was just opened.
pub fn unverified_message() -> (message: String)
    ensures
        message@ == unverified_text(),
{
    String::from_str("Connected - Testing communication...")
}

/// The message of a session whose device answers.
pub fn connected_message() -> (message: String)
    ensures
        message@ == connected_text(),
{
    String::from_str("Connected")
}

/// The message for a transport that could not be opened.
pub fn open_failed_message(reason: &str) -> (message: String)
    ensures
        message@ == open_failed_text(reason@),
{
    String::from_str("Failed to open port: ").concat(reason)
}

/// The message for a failed command from the individual sliders.
pub fn motor_error_message(detail: &str, m1: i32, m2: i32) -> (message: String)
    ensures
        message@ == motor_error_text(detail@, m1 as int, m2 as int),
{
    let mut message = String::from_str("Motor control error: ");
    message.append(detail);
    message.append(" (M1:");
    message.append(render_decimal(m1).as_str());
    message.append(", M2:");
    message.append(render_decimal(m2).as_str());
    message.append(")");
    message
}

/// The message for a failed command from the speed and turn pair.
pub fn mixed_error_message(detail: &str, left: i32, right: i32) -> (message: String)
    ensures
        message@ == mixed_error_text(detail@, left as int, right as int),
{
    let mut message = String::from_str("Mixed control error: ");
    message.append(detail);
    message.append(" (L:");
    message.append(render_decimal(left).as_str());
    message.append(", R:");
    message.append(render_decimal(right).as_str());
    message.append(")");
    message
}

/// The message for a failed encoder reset.
pub fn reset_error_message(detail: &str) -> (message: String)
    ensures
        message@ == reset_error_text(detail@),
{
    String::from_str("Reset encoders error: ").concat(detail)
}

/// The message for a failed read of the fault register.
pub fn fault_failed_message(detail: &str) -> (message: String)
    ensures
        message@ == fault_failed_text(detail@),
{
    String::from_str("Failed to read error status: ").concat(detail)
}

/// The message for a failed read of the configuration register.
pub fn config_failed_message() -> (message: String)
    ensures
        message@ == config_failed_text(),
{
    String::from_str("Failed to read config")
}

/// The message for a failed read of the buffer occupancy.
pub fn buffers_failed_message() -> (message: String)
    ensures
        message@ == buffers_failed_text(),
{
    String::from_str("Failed to read buffers")
}

} // verus!
