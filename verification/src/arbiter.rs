//! The status arbiter: every place where the status line may be rewritten, and
//! the rule that decides at each whether the message on display gives way.
//!
//! From the highest priority down: a failed command is replaced by no
//! telemetry message; a failed read of the fault register holds against the
//! reads that follow it in the same pass; the other failed reads replace one
//! another, the last one winning; a good read of the fault register clears
//! whatever is not a failed command.

use crate::error::{DeviceError, OpenError};
use crate::intent::{ControlSurface, SpeedCommand};
use crate::status::{
    buffers_failed_message, buffers_failed_text, config_failed_message, config_failed_text,
    connected_message, connected_text, encoders_failed_text, fault_failed_message,
    fault_failed_text, has_command_error, has_read_failure, lemma_neutral_texts_are_plain,
    lemma_read_failures_are_plain, lemma_read_failures_show, logic_voltage_failed_text,
    main_voltage_failed_text, mixed_error_message, mixed_error_text, motor_error_message,
    motor_error_text, open_failed_message, open_failed_text, reset_error_message,
    reset_error_text, shows_command_error, shows_fault_failure, shows_read_failure,
    unverified_message, unverified_text,
};
use crate::telemetry::Readings;
use vstd::prelude::*;
use vstd::string::*;

verus! {

/// The message for a command that failed: it names the surface the command
/// came from and carries the error's detail and the two values sent.
pub open spec fn command_error_text(command: SpeedCommand, detail: Seq<char>) -> Seq<char> {
    match command.surface {
        ControlSurface::Individual => motor_error_text(
            detail,
            command.m1 as int,
            command.m2 as int,
        ),
        ControlSurface::Mixed => mixed_error_text(detail, command.m1 as int, command.m2 as int),
    }
}

/// The status after an attempt to open the transport. Either outcome
/// replaces whatever was shown.
pub open spec fn after_open<H>(outcome: Result<H, OpenError>) -> Seq<char> {
    match outcome {
        Ok(_) => unverified_text(),
        Err(error) => open_failed_text(error.reason@),
    }
}

/// The status after a speed command was sent. A failure always shows. A
/// success clears the status to the connected message, older command errors
/// included, unless a failed read is on display.
pub open spec fn after_send(
    status: Seq<char>,
    command: SpeedCommand,
    outcome: Result<(), DeviceError>,
) -> Seq<char> {
    match outcome {
        Ok(_) => if shows_read_failure(status) {
            status
        } else {
            connected_text()
        },
        Err(error) => command_error_text(command, error.detail@),
    }
}

/// The status after an encoder reset. A failure always shows; a success
/// leaves the status as it is.
pub open spec fn after_reset(status: Seq<char>, outcome: Result<(), DeviceError>) -> Seq<char> {
    match outcome {
        Ok(_) => status,
        Err(error) => reset_error_text(error.detail@),
    }
}

/// The status after a failed read of a voltage or of the encoders: the
/// failure shows unless a failed command is on display.
pub open spec fn after_failed_read(status: Seq<char>, message: Seq<char>) -> Seq<char> {
    if shows_command_error(status) {
        status
    } else {
        message
    }
}

/// The status after a read of the fault register. Neither outcome replaces a
/// failed command; otherwise a success shows as connected and a failure
/// shows with its detail.
pub open spec fn after_fault_read(status: Seq<char>, read: Result<u16, DeviceError>) -> Seq<char> {
    if shows_command_error(status) {
        status
    } else {
        match read {
            Ok(_) => connected_text(),
            Err(error) => fault_failed_text(error.detail@),
        }
    }
}

/// The status after a failed read of the configuration register or of the
/// buffers: the failure shows unless a failed command or a failed read of
/// the fault register is on display.
pub open spec fn after_failed_late_read(status: Seq<char>, message: Seq<char>) -> Seq<char> {
    if shows_command_error(status) || shows_fault_failure(status) {
        status
    } else {
        message
    }
}

/// The status after a polling pass: the six reads in their fixed order, each
/// applying its own rule to what the one before left on display.
pub open spec fn after_poll(status: Seq<char>, readings: Readings) -> Seq<char> {
    let after_main = if readings.main_voltage is Err {
        after_failed_read(status, main_voltage_failed_text())
    } else {
        status
    };
    let after_logic = if readings.logic_voltage is Err {
        after_failed_read(after_main, logic_voltage_failed_text())
    } else {
        after_main
    };
    let after_encoders = if readings.encoders is Err {
        after_failed_read(after_logic, encoders_failed_text())
    } else {
        after_logic
    };
    let after_fault = after_fault_read(after_encoders, readings.fault_flags);
    let after_config = if readings.config_flags is Err {
        after_failed_late_read(after_fault, config_failed_text())
    } else {
        after_fault
    };
    if readings.buffer_occupancy is Err {
        after_failed_late_read(after_config, buffers_failed_text())
    } else {
        after_config
    }
}

/// What a polling pass leaves on display when no failed command stood in
/// its way: the fault register's failure if that read failed, else the last
/// failure among the two reads after it, else the connected message.
pub open spec fn poll_verdict(readings: Readings) -> Seq<char> {
    match readings.fault_flags {
        Err(error) => fault_failed_text(error.detail@),
        Ok(_) => if readings.buffer_occupancy is Err {
            buffers_failed_text()
        } else if readings.config_flags is Err {
            config_failed_text()
        } else {
            connected_text()
        },
    }
}

/// A polling pass leaves a failed command on display, and replaces anything
/// else by the verdict of its reads. A failed read of a voltage or of the
/// encoders therefore never outlasts the pass it happened in.
pub proof fn lemma_poll_settles(status: Seq<char>, readings: Readings)
    ensures
        after_poll(status, readings) == if shows_command_error(status) {
            status
        } else {
            poll_verdict(readings)
        },
{
    lemma_read_failures_are_plain();
    lemma_neutral_texts_are_plain();
    if let Err(error) = readings.fault_flags {
        lemma_read_failures_show(error.detail@);
    }
}

/// Rewrites `status` for the outcome of opening the transport.
pub fn arbitrate_open<H>(status: &mut String, outcome: &Result<H, OpenError>)
    ensures
        final(status)@ == after_open(*outcome),
{
    match outcome {
        Ok(_) => {
            *status = unverified_message();
        },
        Err(error) => {
            *status = open_failed_message(error.reason.as_str());
        },
    }
}

/// Rewrites `status` for the outcome of a speed command.
pub fn arbitrate_send(
    status: &mut String,
    command: &SpeedCommand,
    outcome: &Result<(), DeviceError>,
)
    ensures
        final(status)@ == after_send(old(status)@, *command, *outcome),
{
    match outcome {
        Ok(_) => {
            if !has_read_failure(status.as_str()) {
                *status = connected_message();
            }
        },
        Err(error) => {
            *status = match command.surface {
                ControlSurface::Individual => motor_error_message(
                    error.detail.as_str(),
                    command.m1,
                    command.m2,
                ),
                ControlSurface::Mixed => mixed_error_message(
                    error.detail.as_str(),
                    command.m1,
                    command.m2,
                ),
            };
        },
    }
}

/// Rewrites `status` for the outcome of an encoder reset.
pub fn arbitrate_reset(status: &mut String, outcome: &Result<(), DeviceError>)
    ensures
        final(status)@ == after_reset(old(status)@, *outcome),
{
    if let Err(error) = outcome {
        *status = reset_error_message(error.detail.as_str());
    }
}

/// Rewrites `status` for the outcome of a polling pass. The message on
/// display is inspected once: a failed command stays, anything else gives way
/// to the verdict of the reads.
pub fn arbitrate_poll(status: &mut String, readings: &Readings)
    ensures
        final(status)@ == after_poll(old(status)@, *readings),
{
    proof {
        lemma_poll_settles(status@, *readings);
    }
    if has_command_error(status.as_str()) {
        return ;
    }
    match &readings.fault_flags {
        Err(error) => {
            *status = fault_failed_message(error.detail.as_str());
        },
        Ok(_) => {
            if readings.buffer_occupancy.is_err() {
                *status = buffers_failed_message();
            } else if readings.config_flags.is_err() {
                *status = config_failed_message();
            } else {
                *status = connected_message();
            }
        },
    }
}

} // verus!
