//! What holds of the session whatever the operator and the device do.

use crate::arbiter::{command_error_text, lemma_poll_settles, poll_verdict};
use crate::error::DeviceError;
use crate::intent::{ControlSurface, SpeedCommand};
use crate::panel::PanelState;
use crate::poller::{poll_interval, BACKOFF_INTERVAL_MS, POLL_INTERVAL_MS};
use crate::status::{
    connected_text, disconnected_text, lemma_command_errors_show, lemma_detail_shows_through,
    lemma_neutral_texts_are_plain, lemma_read_failures_show, reset_error_text,
    shows_command_error, shows_line_trouble, shows_read_failure,
};
use crate::telemetry::{merged, Readings, Telemetry};
use crate::text::contains;
use vstd::prelude::*;

verus! {

/// A failed command stays on display through any number of polling passes,
/// whatever their reads return: no telemetry message replaces it, and no
/// good read of the fault register clears it.
pub proof fn law_command_error_outlasts_polling<H>(
    state: PanelState<H>,
    passes: Seq<(Readings, u64)>,
)
    requires
        shows_command_error(state.status),
    ensures
        state.polled_through(passes).status == state.status,
        state.polled_through(passes).handle == state.handle,
    decreases passes.len(),
{
    if passes.len() > 0 {
        lemma_poll_settles(state.status, passes[0].0);
        law_command_error_outlasts_polling(
            state.polled(passes[0].0, passes[0].1),
            passes.drop_first(),
        );
    }
}

/// Once a command has failed, its message stays on display through any
/// number of polling passes that follow, whatever its detail says and
/// whatever the passes read. The same holds of a failed encoder reset.
pub proof fn law_failed_command_stays_on_display<H>(
    state: PanelState<H>,
    command: SpeedCommand,
    error: DeviceError,
    passes: Seq<(Readings, u64)>,
)
    requires
        state.connected(),
    ensures
        state.command_done(command, Err(error)).polled_through(passes).status
            == command_error_text(command, error.detail@),
        state.reset_done(Err(error)).polled_through(passes).status == reset_error_text(
            error.detail@,
        ),
{
    lemma_command_errors_show(error.detail@, command.m1 as int, command.m2 as int);
    law_command_error_outlasts_polling(state.command_done(command, Err(error)), passes);
    law_command_error_outlasts_polling(state.reset_done(Err(error)), passes);
}

/// A command that goes through clears the status to the connected message,
/// a failed command on display included, unless a failed read is on display.
pub proof fn law_good_command_clears_status<H>(state: PanelState<H>, command: SpeedCommand)
    requires
        state.connected(),
        !shows_read_failure(state.status),
    ensures
        state.command_done(command, Ok(())).status == connected_text(),
        !shows_command_error(state.command_done(command, Ok(())).status),
{
    lemma_neutral_texts_are_plain();
}

/// A polling pass of a connected session leaves on display either the failed
/// command that was there or the verdict of its own reads, and nothing else.
pub proof fn law_poll_settles_status<H>(state: PanelState<H>, readings: Readings, now_ms: u64)
    requires
        state.connected(),
    ensures
        state.polled(readings, now_ms).status == if shows_command_error(state.status) {
            state.status
        } else {
            poll_verdict(readings)
        },
{
    lemma_poll_settles(state.status, readings);
}

/// A read that fails leaves its field of the snapshot exactly as it was,
/// absent if it was absent; a read that succeeds puts its value there.
pub proof fn law_failed_read_keeps_field(held: Telemetry, readings: Readings)
    ensures
        readings.main_voltage is Err ==> merged(held, readings).main_voltage == held.main_voltage,
        readings.logic_voltage is Err ==> merged(held, readings).logic_voltage
            == held.logic_voltage,
        readings.encoders is Err ==> merged(held, readings).encoder_m1 == held.encoder_m1
            && merged(held, readings).encoder_m2 == held.encoder_m2,
        readings.fault_flags is Err ==> merged(held, readings).fault_flags == held.fault_flags,
        readings.config_flags is Err ==> merged(held, readings).config_flags == held.config_flags,
        readings.buffer_occupancy is Err ==> merged(held, readings).buffer_occupancy
            == held.buffer_occupancy,
        readings.main_voltage matches Ok(tenths) ==> merged(held, readings).main_voltage == Some(
            tenths,
        ),
        readings.logic_voltage matches Ok(tenths) ==> merged(held, readings).logic_voltage
            == Some(tenths),
        readings.encoders matches Ok(counts) ==> merged(held, readings).encoder_m1 == Some(
            counts.0,
        ) && merged(held, readings).encoder_m2 == Some(counts.1),
        readings.fault_flags matches Ok(flags) ==> merged(held, readings).fault_flags == Some(
            flags,
        ),
        readings.config_flags matches Ok(flags) ==> merged(held, readings).config_flags == Some(
            flags,
        ),
        readings.buffer_occupancy matches Ok(levels) ==> merged(held, readings).buffer_occupancy
            == Some(levels),
{
}

/// A field of the snapshot that holds a value never becomes absent again,
/// whatever a polling pass returns.
pub proof fn law_readings_never_vanish<H>(state: PanelState<H>, readings: Readings, now_ms: u64)
    ensures
        state.telemetry.main_voltage is Some ==> state.polled(
            readings,
            now_ms,
        ).telemetry.main_voltage is Some,
        state.telemetry.logic_voltage is Some ==> state.polled(
            readings,
            now_ms,
        ).telemetry.logic_voltage is Some,
        state.telemetry.encoder_m1 is Some ==> state.polled(
            readings,
            now_ms,
        ).telemetry.encoder_m1 is Some,
        state.telemetry.encoder_m2 is Some ==> state.polled(
            readings,
            now_ms,
        ).telemetry.encoder_m2 is Some,
        state.telemetry.fault_flags is Some ==> state.polled(
            readings,
            now_ms,
        ).telemetry.fault_flags is Some,
        state.telemetry.config_flags is Some ==> state.polled(
            readings,
            now_ms,
        ).telemetry.config_flags is Some,
        state.telemetry.buffer_occupancy is Some ==> state.polled(
            readings,
            now_ms,
        ).telemetry.buffer_occupancy is Some,
{
}

/// Disconnecting twice is disconnecting once, and a disconnected session is
/// as disconnected as a new one: not connected, with the neutral message.
pub proof fn law_disconnect_is_idempotent<H>(state: PanelState<H>, now_ms: u64)
    ensures
        state.disconnected().disconnected() == state.disconnected(),
        state.disconnected().connected() == PanelState::<H>::initial(now_ms).connected(),
        state.disconnected().status == PanelState::<H>::initial(now_ms).status,
        !state.disconnected().connected(),
        state.disconnected().status == disconnected_text(),
{
}

/// After an emergency stop all four intents read zero, whatever they were
/// and whether or not a device is connected, and the call that follows, if
/// a device is connected, sets both channels to zero.
pub proof fn law_emergency_stop_halts<H>(state: PanelState<H>)
    ensures
        state.halted().m1_speed == 0,
        state.halted().m2_speed == 0,
        state.halted().mixed_speed == 0,
        state.halted().mixed_turn == 0,
        state.halted().status == state.status,
        state.halted().individual_call() == if state.connected() {
            Some(SpeedCommand { surface: ControlSurface::Individual, m1: 0, m2: 0 })
        } else {
            None
        },
{
}

/// While the status tells of trouble on the line no polling pass is due
/// until two seconds have passed since the last one; otherwise half a second
/// is enough, and needed.
pub proof fn law_polling_backs_off<H>(state: PanelState<H>, now_ms: u64)
    ensures
        shows_line_trouble(state.status) ==> (state.poll_due(now_ms) <==> state.connected() && now_ms
            - state.last_poll_ms >= BACKOFF_INTERVAL_MS),
        !shows_line_trouble(state.status) ==> (state.poll_due(now_ms) <==> state.connected()
            && now_ms - state.last_poll_ms >= POLL_INTERVAL_MS),
        state.poll_due(now_ms) ==> now_ms - state.last_poll_ms >= POLL_INTERVAL_MS,
{
}

/// A command that failed on a checksum mismatch slows the polling down: its
/// message stays on display and tells of trouble on the line, so the next
/// pass is not due before two seconds have passed.
pub proof fn law_checksum_mismatch_backs_off<H>(
    state: PanelState<H>,
    command: SpeedCommand,
    error: DeviceError,
    now_ms: u64,
)
    requires
        state.connected(),
        shows_line_trouble(error.detail@),
    ensures
        poll_interval(state.command_done(command, Err(error)).status) == BACKOFF_INTERVAL_MS,
        state.command_done(command, Err(error)).poll_due(now_ms) ==> now_ms - state.last_poll_ms
            >= BACKOFF_INTERVAL_MS,
{
    let marker = if contains(error.detail@, "crc error"@) {
        "crc error"@
    } else {
        "Failed to read"@
    };
    lemma_detail_shows_through(error.detail@, command.m1 as int, command.m2 as int, marker);
}

/// A pass whose read of the fault register failed slows the polling down,
/// and a pass without a failure after the battery and encoder reads brings
/// it back to its normal pace, unless a failed command is on display.
pub proof fn law_pass_sets_the_pace<H>(state: PanelState<H>, readings: Readings, now_ms: u64)
    requires
        state.connected(),
        !shows_command_error(state.status),
    ensures
        readings.fault_flags is Err ==> poll_interval(state.polled(readings, now_ms).status)
            == BACKOFF_INTERVAL_MS,
        readings.config_flags is Err || readings.buffer_occupancy is Err ==> poll_interval(
            state.polled(readings, now_ms).status,
        ) == BACKOFF_INTERVAL_MS,
        readings.fault_flags is Ok && readings.config_flags is Ok && readings.buffer_occupancy is Ok
            ==> state.polled(readings, now_ms).status == connected_text() && poll_interval(
            state.polled(readings, now_ms).status,
        ) == POLL_INTERVAL_MS,
{
    lemma_poll_settles(state.status, readings);
    lemma_neutral_texts_are_plain();
    match readings.fault_flags {
        Err(error) => {
            lemma_read_failures_show(error.detail@);
        },
        Ok(_) => {
            lemma_read_failures_show(Seq::empty());
        },
    }
}

/// A disconnected session asks for no device call and takes no answer: no
/// speed command follows a slider, no polling pass is due, and an outcome
/// handed to it changes nothing. Moving a slider changes the intent alone.
pub proof fn law_disconnected_session_is_inert<H>(
    state: PanelState<H>,
    command: SpeedCommand,
    outcome: Result<(), DeviceError>,
    readings: Readings,
    now_ms: u64,
    a: int,
    b: int,
)
    requires
        !state.connected(),
    ensures
        state.individual_call() is None,
        state.mixed_call() is None,
        !state.poll_due(now_ms),
        state.command_done(command, outcome) == state,
        state.reset_done(outcome) == state,
        state.polled(readings, now_ms) == state,
        state.with_individual(a, b).individual_call() is None,
        state.with_individual(a, b).status == state.status,
        state.with_mixed(a, b).mixed_call() is None,
        state.with_mixed(a, b).status == state.status,
        state.halted().individual_call() is None,
        state.halted().status == state.status,
{
}

} // verus!
