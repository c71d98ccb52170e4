//! The control panel's session: the connection, the operator's intents, the
//! telemetry snapshot and the status line, and what each operator action and
//! each answer of the device does to them.
//!
//! The session owns the device handle and never calls it. An action that
//! needs the device returns the call to make; the caller borrows the handle,
//! makes the call and reports the outcome back.

use crate::arbiter::{
    after_open, after_poll, after_reset, after_send, arbitrate_open, arbitrate_poll,
    arbitrate_reset, arbitrate_send,
};
use crate::error::{DeviceError, OpenError};
use crate::intent::{
    individual_command, mixed_command, scale_individual, scale_mixed, Percent, SpeedCommand,
};
use crate::poller::{has_elapsed, interval_elapsed, IO_TIMEOUT_MS};
use crate::status::{disconnected_message, disconnected_text};
use crate::telemetry::{merged, pass_sequence, Readings, Register, Telemetry};
use vstd::prelude::*;
use vstd::string::*;

verus! {

/// The baud rate that a new session proposes.
pub const DEFAULT_BAUD_RATE: u32 = 38_400;

/// The transport name that a new session proposes.
pub open spec fn default_port_name() -> Seq<char> {
    "/dev/tty.usbmodem101"@
}

/// What to open in order to connect: a named transport at a baud rate, with
/// a deadline for each single read or write on it.
#[derive(Debug)]
pub struct OpenRequest {
    pub port_name: String,
    pub baud_rate: u32,
    pub timeout_ms: u64,
}

/// The session as a plain value. `H` is the device handle, of which the
/// session knows nothing but whether it has one.
#[verifier::ext_equal]
pub struct PanelState<H> {
    pub port_name: Seq<char>,
    pub baud_rate: u32,
    /// The open device, while there is one.
    pub handle: Option<H>,
    /// The four intents, in parts per million of full scale.
    pub m1_speed: int,
    pub m2_speed: int,
    pub mixed_speed: int,
    pub mixed_turn: int,
    pub telemetry: Telemetry,
    /// When the last polling pass ended.
    pub last_poll_ms: u64,
    pub status: Seq<char>,
}

impl<H> PanelState<H> {
    /// The session holds a device handle.
    pub open spec fn connected(self) -> bool {
        self.handle is Some
    }

    /// The session at start-up: disconnected, every intent at zero, nothing
    /// read yet.
    pub open spec fn initial(now_ms: u64) -> PanelState<H> {
        PanelState {
            port_name: default_port_name(),
            baud_rate: DEFAULT_BAUD_RATE,
            handle: None,
            m1_speed: 0,
            m2_speed: 0,
            mixed_speed: 0,
            mixed_turn: 0,
            telemetry: Telemetry::blank(),
            last_poll_ms: now_ms,
            status: disconnected_text(),
        }
    }

    /// After an attempt to open the transport. Success stores the handle and
    /// connects at once, on trust: the first good polling pass is what
    /// confirms the device. Failure leaves the connection as it was.
    pub open spec fn opened(self, outcome: Result<H, OpenError>) -> PanelState<H> {
        PanelState {
            handle: match outcome {
                Ok(handle) => Some(handle),
                Err(_) => self.handle,
            },
            status: after_open(outcome),
            ..self
        }
    }

    /// After a disconnect: the handle is gone.
    pub open spec fn disconnected(self) -> PanelState<H> {
        PanelState { handle: None, status: disconnected_text(), ..self }
    }

    /// With the two motor sliders at `m1` and `m2`.
    pub open spec fn with_individual(self, m1: int, m2: int) -> PanelState<H> {
        PanelState { m1_speed: m1, m2_speed: m2, ..self }
    }

    /// With the speed and turn pair at `speed` and `turn`.
    pub open spec fn with_mixed(self, speed: int, turn: int) -> PanelState<H> {
        PanelState { mixed_speed: speed, mixed_turn: turn, ..self }
    }

    /// With all four intents at zero.
    pub open spec fn halted(self) -> PanelState<H> {
        PanelState { m1_speed: 0, m2_speed: 0, mixed_speed: 0, mixed_turn: 0, ..self }
    }

    /// The device call that puts the motor sliders into effect: none while
    /// disconnected.
    pub open spec fn individual_call(self) -> Option<SpeedCommand> {
        if self.connected() {
            Some(individual_command(self.m1_speed, self.m2_speed))
        } else {
            None
        }
    }

    /// The device call that puts the speed and turn pair into effect: none
    /// while disconnected.
    pub open spec fn mixed_call(self) -> Option<SpeedCommand> {
        if self.connected() {
            Some(mixed_command(self.mixed_speed, self.mixed_turn))
        } else {
            None
        }
    }

    /// After the device answered a speed command.
    pub open spec fn command_done(
        self,
        command: SpeedCommand,
        outcome: Result<(), DeviceError>,
    ) -> PanelState<H> {
        if self.connected() {
            PanelState { status: after_send(self.status, command, outcome), ..self }
        } else {
            self
        }
    }

    /// After the device answered an encoder reset.
    pub open spec fn reset_done(self, outcome: Result<(), DeviceError>) -> PanelState<H> {
        if self.connected() {
            PanelState { status: after_reset(self.status, outcome), ..self }
        } else {
            self
        }
    }

    /// A polling pass is due at `now_ms`.
    pub open spec fn poll_due(self, now_ms: u64) -> bool {
        self.connected() && interval_elapsed(self.status, self.last_poll_ms, now_ms)
    }

    /// After a polling pass that ended at `now_ms`.
    pub open spec fn polled(self, readings: Readings, now_ms: u64) -> PanelState<H> {
        if self.connected() {
            PanelState {
                telemetry: merged(self.telemetry, readings),
                status: after_poll(self.status, readings),
                last_poll_ms: now_ms,
                ..self
            }
        } else {
            self
        }
    }

    /// After the polling passes of `passes`, one after the other, each given
    /// with the time at which it ended.
    pub open spec fn polled_through(self, passes: Seq<(Readings, u64)>) -> PanelState<H>
        decreases passes.len(),
    {
        if passes.len() == 0 {
            self
        } else {
            self.polled(passes[0].0, passes[0].1).polled_through(passes.drop_first())
        }
    }
}

/// The session of the control panel, for a device handle of type `H`.
#[derive(Debug)]
pub struct RoboclawGUI<H> {
    port_name: String,
    baud_rate: u32,
    m1_speed: Percent,
    m2_speed: Percent,
    mixed_speed: Percent,
    mixed_turn: Percent,
    telemetry: Telemetry,
    last_update: u64,
    status_message: String,
    roboclaw: Option<H>,
}

impl<H> View for RoboclawGUI<H> {
    type V = PanelState<H>;

    closed spec fn view(&self) -> PanelState<H> {
        PanelState {
            port_name: self.port_name@,
            baud_rate: self.baud_rate,
            handle: self.roboclaw,
            m1_speed: self.m1_speed@,
            m2_speed: self.m2_speed@,
            mixed_speed: self.mixed_speed@,
            mixed_turn: self.mixed_turn@,
            telemetry: self.telemetry,
            last_poll_ms: self.last_update,
            status: self.status_message@,
        }
    }
}

impl<H> Default for RoboclawGUI<H> {
    /// A session whose clock starts at zero.
    fn default() -> (panel: RoboclawGUI<H>)
        ensures
            panel@ == PanelState::<H>::initial(0),
    {
        RoboclawGUI::new(0)
    }
}

impl<H> RoboclawGUI<H> {
    /// A session that starts at `now_ms`.
    pub fn new(now_ms: u64) -> (panel: RoboclawGUI<H>)
        ensures
            panel@ == PanelState::<H>::initial(now_ms),
    {
        RoboclawGUI {
            port_name: String::from_str("/dev/tty.usbmodem101"),
            baud_rate: DEFAULT_BAUD_RATE,
            m1_speed: Percent::zero(),
            m2_speed: Percent::zero(),
            mixed_speed: Percent::zero(),
            mixed_turn: Percent::zero(),
            telemetry: Telemetry::new(),
            last_update: now_ms,
            status_message: disconnected_message(),
            roboclaw: None,
        }
    }

    /// Names the transport to open at the next connect.
    pub fn set_port_name(&mut self, port_name: String)
        ensures
            final(self)@ == (PanelState { port_name: port_name@, ..old(self)@ }),
    {
        self.port_name = port_name;
    }

    /// Sets the baud rate for the next connect.
    pub fn set_baud_rate(&mut self, baud_rate: u32)
        ensures
            final(self)@ == (PanelState { baud_rate, ..old(self)@ }),
    {
        self.baud_rate = baud_rate;
    }

    /// The name of the transport.
    pub fn port_name(&self) -> (port_name: &str)
        ensures
            port_name@ == self@.port_name,
    {
        self.port_name.as_str()
    }

    /// The baud rate of the transport.
    pub fn baud_rate(&self) -> (baud_rate: u32)
        ensures
            baud_rate == self@.baud_rate,
    {
        self.baud_rate
    }

    /// Whether a device is connected.
    pub fn is_connected(&self) -> (connected: bool)
        ensures
            connected == self@.connected(),
    {
        self.roboclaw.is_some()
    }

    /// Lends the device handle out for one call, if there is one. Whatever
    /// the borrower does with the handle, the rest of the session stays as it
    /// is.
    pub fn device(&mut self) -> (handle: Option<&mut H>)
        ensures
            match old(self)@.handle {
                Some(held) => handle is Some && *handle->0 == held && final(self)@ == (PanelState {
                    handle: Some(*final(handle->0)),
                    ..old(self)@
                }),
                None => handle is None && final(self)@ == old(self)@,
            },
    {
        self.roboclaw.as_mut()
    }

    /// Where the slider of the first motor stands.
    pub fn m1_speed(&self) -> (percent: Percent)
        ensures
            percent@ == self@.m1_speed,
    {
        self.m1_speed
    }

    /// Where the slider of the second motor stands.
    pub fn m2_speed(&self) -> (percent: Percent)
        ensures
            percent@ == self@.m2_speed,
    {
        self.m2_speed
    }

    /// Where the speed slider of the mixed drive stands.
    pub fn mixed_speed(&self) -> (percent: Percent)
        ensures
            percent@ == self@.mixed_speed,
    {
        self.mixed_speed
    }

    /// Where the turn slider of the mixed drive stands.
    pub fn mixed_turn(&self) -> (percent: Percent)
        ensures
            percent@ == self@.mixed_turn,
    {
        self.mixed_turn
    }

    /// The last known good readings.
    pub fn telemetry(&self) -> (telemetry: Telemetry)
        ensures
            telemetry == self@.telemetry,
    {
        self.telemetry
    }

    /// When the last polling pass ended.
    pub fn last_update(&self) -> (last_poll_ms: u64)
        ensures
            last_poll_ms == self@.last_poll_ms,
    {
        self.last_update
    }

    /// The message on display.
    pub fn status_message(&self) -> (status: &str)
        ensures
            status@ == self@.status,
    {
        self.status_message.as_str()
    }

    /// What to open in order to connect with the current settings.
    pub fn open_request(&self) -> (request: OpenRequest)
        ensures
            request.port_name@ == self@.port_name,
            request.baud_rate == self@.baud_rate,
            request.timeout_ms == IO_TIMEOUT_MS,
    {
        OpenRequest {
            port_name: self.port_name.clone(),
            baud_rate: self.baud_rate,
            timeout_ms: IO_TIMEOUT_MS,
        }
    }

    /// Takes in the outcome of opening the transport of `open_request`: the
    /// handle of the open device, or why there is none. A handle is kept and
    /// trusted without any exchange with the device. Nothing is tried again.
    pub fn connect(&mut self, opened: Result<H, OpenError>) -> (result: Result<(), OpenError>)
        ensures
            final(self)@ == old(self)@.opened(opened),
            match opened {
                Ok(_) => result is Ok,
                Err(error) => result == Err::<(), OpenError>(error),
            },
    {
        arbitrate_open(&mut self.status_message, &opened);
        match opened {
            Ok(handle) => {
                self.roboclaw = Some(handle);
                Ok(())
            },
            Err(error) => Err(error),
        }
    }

    /// Gives up the device and drops its handle.
    pub fn disconnect(&mut self)
        ensures
            final(self)@ == old(self)@.disconnected(),
    {
        self.roboclaw = None;
        self.status_message = disconnected_message();
    }

    /// Moves the two motor sliders and returns the device call that follows.
    pub fn send_individual(&mut self, m1: Percent, m2: Percent) -> (call: Option<SpeedCommand>)
        ensures
            final(self)@ == old(self)@.with_individual(m1@, m2@),
            call == final(self)@.individual_call(),
    {
        self.m1_speed = m1;
        self.m2_speed = m2;
        if self.roboclaw.is_some() {
            Some(scale_individual(m1, m2))
        } else {
            None
        }
    }

    /// Moves the speed and turn pair and returns the device call that follows.
    pub fn send_mixed(&mut self, speed: Percent, turn: Percent) -> (call: Option<SpeedCommand>)
        ensures
            final(self)@ == old(self)@.with_mixed(speed@, turn@),
            call == final(self)@.mixed_call(),
    {
        self.mixed_speed = speed;
        self.mixed_turn = turn;
        if self.roboclaw.is_some() {
            Some(scale_mixed(speed, turn))
        } else {
            None
        }
    }

    /// Takes in the device's answer to a speed command.
    pub fn command_sent(&mut self, command: SpeedCommand, outcome: Result<(), DeviceError>)
        ensures
            final(self)@ == old(self)@.command_done(command, outcome),
    {
        if self.roboclaw.is_some() {
            arbitrate_send(&mut self.status_message, &command, &outcome);
        }
    }

    /// The button that stops both motors: the two motor sliders go to zero
    /// and the device call that follows is returned.
    pub fn stop_both(&mut self) -> (call: Option<SpeedCommand>)
        ensures
            final(self)@ == old(self)@.with_individual(0, 0),
            call == final(self)@.individual_call(),
    {
        self.send_individual(Percent::zero(), Percent::zero())
    }

    /// The button that stops the mixed drive: speed and turn go to zero and
    /// the device call that follows is returned.
    pub fn stop_mixed(&mut self) -> (call: Option<SpeedCommand>)
        ensures
            final(self)@ == old(self)@.with_mixed(0, 0),
            call == final(self)@.mixed_call(),
    {
        self.send_mixed(Percent::zero(), Percent::zero())
    }

    /// The emergency stop: all four intents go to zero, connected or not, and
    /// the command that stops both channels is returned for sending if a
    /// device is connected.
    pub fn emergency_stop(&mut self) -> (call: Option<SpeedCommand>)
        ensures
            final(self)@ == old(self)@.halted(),
            call == final(self)@.individual_call(),
    {
        self.mixed_speed = Percent::zero();
        self.mixed_turn = Percent::zero();
        self.send_individual(Percent::zero(), Percent::zero())
    }

    /// Whether the button that resets the encoders leads to a device call:
    /// it does while a device is connected.
    pub fn reset_encoders(&self) -> (call: bool)
        ensures
            call == self@.connected(),
    {
        self.roboclaw.is_some()
    }

    /// Takes in the device's answer to an encoder reset.
    pub fn encoders_reset(&mut self, outcome: Result<(), DeviceError>)
        ensures
            final(self)@ == old(self)@.reset_done(outcome),
    {
        if self.roboclaw.is_some() {
            arbitrate_reset(&mut self.status_message, &outcome);
        }
    }

    /// Whether a polling pass is due at `now_ms`.
    pub fn poll_due(&self, now_ms: u64) -> (due: bool)
        ensures
            due == self@.poll_due(now_ms),
    {
        self.roboclaw.is_some() && has_elapsed(
            self.status_message.as_str(),
            self.last_update,
            now_ms,
        )
    }

    /// The reads to issue at `now_ms`, in order: the whole pass if one is due,
    /// none otherwise.
    pub fn poll_plan(&self, now_ms: u64) -> (plan: Vec<Register>)
        ensures
            plan@ == if self@.poll_due(now_ms) {
                pass_sequence()
            } else {
                Seq::<Register>::empty()
            },
    {
        if self.poll_due(now_ms) {
            vec![
                Register::MainVoltage,
                Register::LogicVoltage,
                Register::Encoders,
                Register::FaultFlags,
                Register::ConfigFlags,
                Register::BufferOccupancy,
            ]
        } else {
            Vec::new()
        }
    }

    /// Takes in the readings of a polling pass that ended at `now_ms`.
    pub fn record_poll(&mut self, readings: &Readings, now_ms: u64)
        ensures
            final(self)@ == old(self)@.polled(*readings, now_ms),
    {
        if self.roboclaw.is_some() {
            self.telemetry.absorb(readings);
            arbitrate_poll(&mut self.status_message, readings);
            self.last_update = now_ms;
        }
    }
}

} // verus!
