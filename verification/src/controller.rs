//! The advertising controller.
//!
//! The controller owns the decisions of the advertising lifecycle and leaves
//! the radio to a driver. An operation hands the driver a [`RadioCommand`]; the
//! driver carries it out and reports how it went through
//! [`AdvertisingController::complete`], which answers with the next command or
//! with the end of the operation. Commands that tear a session down are handed
//! out as a list: the driver carries them out in order and reports nothing.

use crate::error::RadioError;
use crate::params::AdvertisingParameters;
use crate::payload::{
    lemma_wire_len, wire, wire_len, AdRecord, AdvertisingPayload, MAX_PAYLOAD_LEN,
};
use vstd::prelude::*;

verus! {

/// Where the controller stands in the advertising lifecycle.
#[derive(Clone, Copy, Debug, PartialEq, Eq, Structural)]
pub enum AdvertisingState {
    /// No session exists. This is where a controller begins and where `stop` leaves it.
    Stopped,
    /// A start is under way.
    Starting,
    /// The radio transmits advertising packets.
    Advertising,
    /// The last start failed for the given reason; no session exists.
    Failed(RadioError),
}

/// One thing the driver is asked to do with the radio.
#[derive(Clone, Copy, Debug, PartialEq, Eq, Structural)]
pub enum RadioCommand {
    /// Bring up the radio controller, then build the transport over its handle
    /// and the host session over the transport.
    OpenSession,
    /// Run the host stack's handshake with the controller.
    HostInit,
    /// Set the advertising parameters to [`AdvertisingController::parameters`].
    SetAdvertisingParameters,
    /// Set the advertising data to [`AdvertisingController::staged_payload`].
    SetAdvertisingData,
    /// Begin transmitting.
    EnableAdvertising,
    /// Cease transmitting.
    DisableAdvertising,
    /// Drop the host session.
    ReleaseSession,
    /// Drop the transport.
    ReleaseTransport,
    /// Give back the controller handle.
    ReleaseController,
}

/// How an operation goes on after a command's outcome was reported.
#[derive(Clone, Copy, Debug, PartialEq, Eq, Structural)]
pub enum Progress {
    /// Carry out this command next and report its outcome.
    Next(RadioCommand),
    /// The operation succeeded.
    Done,
    /// The operation failed for the given reason.
    Failed(RadioError),
    /// No command was awaiting an outcome; the report was ignored.
    Idle,
}

/// The controller's answer to a reported outcome.
#[derive(Clone, Debug, PartialEq, Eq)]
pub struct Reply {
    /// How the operation goes on.
    pub progress: Progress,
    /// Commands to carry out now, in order, whatever their outcomes.
    pub teardown: Vec<RadioCommand>,
}

/// The controller's position, fine enough to tell which outcome it awaits.
#[derive(Clone, Copy, Debug, PartialEq, Eq, Structural)]
pub enum Phase {
    /// No session exists and none is wanted.
    Stopped,
    /// The last start failed; no session exists.
    Failed(RadioError),
    /// Starting: the session is being opened.
    Opening,
    /// Starting: the host stack's handshake is under way.
    Handshaking,
    /// Starting: the advertising parameters are being set.
    SettingParameters,
    /// Starting: the advertising data is being set.
    SettingData,
    /// Starting: transmission is being switched on.
    Enabling,
    /// The radio transmits and no command is under way.
    Advertising,
    /// The radio transmits and new advertising data is being set.
    Updating,
}

impl Phase {
    /// The lifecycle state that the phase belongs to.
    pub open spec fn state(self) -> AdvertisingState {
        match self {
            Phase::Stopped => AdvertisingState::Stopped,
            Phase::Failed(reason) => AdvertisingState::Failed(reason),
            Phase::Advertising | Phase::Updating => AdvertisingState::Advertising,
            _ => AdvertisingState::Starting,
        }
    }

    /// The command whose outcome is awaited, if any.
    pub open spec fn pending(self) -> Option<RadioCommand> {
        match self {
            Phase::Opening => Some(RadioCommand::OpenSession),
            Phase::Handshaking => Some(RadioCommand::HostInit),
            Phase::SettingParameters => Some(RadioCommand::SetAdvertisingParameters),
            Phase::SettingData | Phase::Updating => Some(RadioCommand::SetAdvertisingData),
            Phase::Enabling => Some(RadioCommand::EnableAdvertising),
            _ => None,
        }
    }

    /// Whether the driver holds a controller handle, a transport and a host session.
    pub open spec fn session_open(self) -> bool {
        match self {
            Phase::Stopped | Phase::Failed(_) | Phase::Opening => false,
            _ => true,
        }
    }

    /// Whether the radio holds advertising data that it accepted in this session.
    pub open spec fn data_set(self) -> bool {
        self is Enabling || self is Advertising || self is Updating
    }

    /// Whether encoded advertising data waits to be accepted by the radio.
    pub open spec fn data_staged(self) -> bool {
        self.pending() is Some && !(self is Enabling)
    }

    /// The phase that follows when the awaited command succeeds.
    pub open spec fn succeeded(self) -> Phase {
        match self {
            Phase::Opening => Phase::Handshaking,
            Phase::Handshaking => Phase::SettingParameters,
            Phase::SettingParameters => Phase::SettingData,
            Phase::SettingData => Phase::Enabling,
            Phase::Enabling | Phase::Updating => Phase::Advertising,
            _ => self,
        }
    }
}

/// The commands that release a session: the host session first, then the
/// transport it borrows, then the controller handle that the transport borrows.
pub open spec fn release_order() -> Seq<RadioCommand> {
    seq![
        RadioCommand::ReleaseSession,
        RadioCommand::ReleaseTransport,
        RadioCommand::ReleaseController,
    ]
}

/// What a controller knows, as plain values.
pub struct ControllerModel {
    /// Where the controller stands.
    pub phase: Phase,
    /// The parameters of the session that is starting or live.
    pub parameters: Option<AdvertisingParameters>,
    /// Encoded advertising data that was handed to the driver and not yet accepted.
    pub staged: Seq<u8>,
    /// Encoded advertising data that the radio accepted in this session.
    pub active: Option<Seq<u8>>,
}

impl ControllerModel {
    /// A controller without a session, in the given phase.
    pub open spec fn at_rest(phase: Phase) -> ControllerModel {
        ControllerModel { phase, parameters: None, staged: Seq::empty(), active: None }
    }

    /// What holds of every controller that the operations can reach.
    pub open spec fn wf(self) -> bool {
        &&& self.staged.len() <= MAX_PAYLOAD_LEN
        &&& self.active matches Some(bytes) ==> bytes.len() <= MAX_PAYLOAD_LEN
        &&& self.active is Some <==> self.phase.data_set()
        &&& self.parameters is Some <==> self.phase.state() is Starting || self.phase.state()
            is Advertising
        &&& !self.phase.data_staged() ==> self.staged.len() == 0
    }

    /// The result of `start` with the given payload.
    pub open spec fn start_result(self, payload: Seq<AdRecord>) -> Result<
        RadioCommand,
        RadioError,
    > {
        if self.phase.state() is Starting || self.phase.state() is Advertising {
            Err(RadioError::InvalidState)
        } else if wire_len(payload) > MAX_PAYLOAD_LEN {
            Err(RadioError::PayloadTooLarge)
        } else {
            Ok(RadioCommand::OpenSession)
        }
    }

    /// The controller after `start` with the given parameters and payload.
    pub open spec fn after_start(
        self,
        parameters: AdvertisingParameters,
        payload: Seq<AdRecord>,
    ) -> ControllerModel {
        match self.start_result(payload) {
            Ok(_) => ControllerModel {
                phase: Phase::Opening,
                parameters: Some(parameters),
                staged: wire(payload),
                active: None,
            },
            Err(RadioError::InvalidState) => self,
            Err(error) => ControllerModel::at_rest(Phase::Failed(error)),
        }
    }

    /// The result of `update_payload` with the given payload.
    pub open spec fn update_result(self, payload: Seq<AdRecord>) -> Result<
        RadioCommand,
        RadioError,
    > {
        if wire_len(payload) > MAX_PAYLOAD_LEN {
            Err(RadioError::PayloadTooLarge)
        } else if self.phase != Phase::Advertising {
            Err(RadioError::InvalidState)
        } else {
            Ok(RadioCommand::SetAdvertisingData)
        }
    }

    /// The controller after `update_payload` with the given payload.
    pub open spec fn after_update(self, payload: Seq<AdRecord>) -> ControllerModel {
        if self.update_result(payload) is Ok {
            ControllerModel { phase: Phase::Updating, staged: wire(payload), ..self }
        } else {
            self
        }
    }

    /// How the operation under way goes on when `outcome` is reported.
    pub open spec fn complete_progress(self, outcome: Result<(), RadioError>) -> Progress {
        if self.phase.pending() is None {
            Progress::Idle
        } else {
            match outcome {
                Err(error) => Progress::Failed(error),
                Ok(_) => match self.phase.succeeded().pending() {
                    Some(command) => Progress::Next(command),
                    None => Progress::Done,
                },
            }
        }
    }

    /// The commands that the driver carries out at once when `outcome` is reported.
    pub open spec fn complete_teardown(self, outcome: Result<(), RadioError>) -> Seq<
        RadioCommand,
    > {
        if outcome is Err && self.phase.state() is Starting && self.phase.session_open() {
            release_order()
        } else {
            Seq::empty()
        }
    }

    /// The controller after `outcome` was reported.
    pub open spec fn after_complete(self, outcome: Result<(), RadioError>) -> ControllerModel {
        if self.phase.pending() is None {
            self
        } else {
            match outcome {
                Ok(_) => ControllerModel {
                    phase: self.phase.succeeded(),
                    parameters: self.parameters,
                    staged: if self.phase.pending() == Some(RadioCommand::SetAdvertisingData) {
                        Seq::empty()
                    } else {
                        self.staged
                    },
                    active: if self.phase.pending() == Some(RadioCommand::SetAdvertisingData) {
                        Some(self.staged)
                    } else {
                        self.active
                    },
                },
                Err(error) => if self.phase.state() is Starting {
                    ControllerModel::at_rest(Phase::Failed(error))
                } else {
                    ControllerModel { phase: Phase::Advertising, staged: Seq::empty(), ..self }
                },
            }
        }
    }

    /// The commands that `stop` hands out.
    pub open spec fn stop_commands(self) -> Seq<RadioCommand> {
        if self.phase.state() is Advertising {
            seq![RadioCommand::DisableAdvertising] + release_order()
        } else if self.phase.session_open() {
            release_order()
        } else {
            Seq::empty()
        }
    }

    /// The controller after `stop`.
    pub open spec fn after_stop(self) -> ControllerModel {
        if self.phase is Stopped {
            self
        } else {
            ControllerModel::at_rest(Phase::Stopped)
        }
    }
}

/// Decides the lifecycle of one advertiser.
#[derive(Debug)]
pub struct AdvertisingController {
    phase: Phase,
    parameters: Option<AdvertisingParameters>,
    staged: Vec<u8>,
    active: Option<Vec<u8>>,
}

impl View for AdvertisingController {
    type V = ControllerModel;

    closed spec fn view(&self) -> ControllerModel {
        ControllerModel {
            phase: self.phase,
            parameters: self.parameters,
            staged: self.staged@,
            active: match self.active {
                Some(bytes) => Some(bytes@),
                None => None,
            },
        }
    }
}

/// The release commands, in the order of [`release_order`].
fn release_commands() -> (commands: Vec<RadioCommand>)
    ensures
        commands@ == release_order(),
{
    let mut commands: Vec<RadioCommand> = Vec::new();
    commands.push(RadioCommand::ReleaseSession);
    commands.push(RadioCommand::ReleaseTransport);
    commands.push(RadioCommand::ReleaseController);
    assert(commands@ =~= release_order());
    commands
}

impl AdvertisingController {
    /// A stopped controller.
    pub fn new() -> (controller: AdvertisingController)
        ensures
            controller@ == ControllerModel::at_rest(Phase::Stopped),
            controller@.wf(),
    {
        AdvertisingController {
            phase: Phase::Stopped,
            parameters: None,
            staged: Vec::new(),
            active: None,
        }
    }

    /// Begins to start advertising with the given parameters and payload.
    ///
    /// From `Stopped` or `Failed`, with a payload that encodes to at most
    /// [`MAX_PAYLOAD_LEN`] bytes, the controller stages the encoding, turns to
    /// `Starting` and asks for the session to be opened. A larger payload is
    /// refused with `PayloadTooLarge` before any command goes out and leaves the
    /// controller `Failed`. In any other state the call is refused with
    /// `InvalidState` and changes nothing.
    pub fn start(
        &mut self,
        parameters: AdvertisingParameters,
        payload: &AdvertisingPayload,
    ) -> (result: Result<RadioCommand, RadioError>)
        ensures
            result == old(self)@.start_result(payload@),
            final(self)@ == old(self)@.after_start(parameters, payload@),
            old(self)@.wf() ==> final(self)@.wf(),
    {
        match self.phase {
            Phase::Stopped | Phase::Failed(_) => {},
            _ => {
                return Err(RadioError::InvalidState);
            },
        }
        proof {
            lemma_wire_len(payload@);
        }
        match payload.encode() {
            Ok(bytes) => {
                self.phase = Phase::Opening;
                self.parameters = Some(parameters);
                self.staged = bytes;
                self.active = None;
                Ok(RadioCommand::OpenSession)
            },
            Err(_) => {
                self.rest(Phase::Failed(RadioError::PayloadTooLarge));
                Err(RadioError::PayloadTooLarge)
            },
        }
    }

    /// Begins to replace the advertising data of the live session.
    ///
    /// A payload that encodes to more than [`MAX_PAYLOAD_LEN`] bytes is refused
    /// with `PayloadTooLarge`, whatever the state. Otherwise, while advertising
    /// with no command under way, the controller stages the encoding and asks for
    /// it to be set; in any other phase the call is refused with `InvalidState`.
    /// A refused call changes nothing.
    pub fn update_payload(&mut self, payload: &AdvertisingPayload) -> (result: Result<
        RadioCommand,
        RadioError,
    >)
        ensures
            result == old(self)@.update_result(payload@),
            final(self)@ == old(self)@.after_update(payload@),
            old(self)@.wf() ==> final(self)@.wf(),
    {
        proof {
            lemma_wire_len(payload@);
        }
        match payload.encode() {
            Ok(bytes) => {
                if self.phase == Phase::Advertising {
                    self.phase = Phase::Updating;
                    self.staged = bytes;
                    Ok(RadioCommand::SetAdvertisingData)
                } else {
                    Err(RadioError::InvalidState)
                }
            },
            Err(_) => Err(RadioError::PayloadTooLarge),
        }
    }

    /// Takes the outcome of the command under way and says how to go on.
    ///
    /// During a start, success moves on to the next of the steps: open the
    /// session, handshake, set parameters, set data, enable; after the last the
    /// controller is `Advertising`. The first failure ends the start: the
    /// controller is `Failed` with the reported reason, and if the session was
    /// open the reply holds the commands that release it. During an update,
    /// success makes the staged data the active data; failure keeps the active
    /// data. With no command under way the report is ignored.
    pub fn complete(&mut self, outcome: Result<(), RadioError>) -> (reply: Reply)
        ensures
            reply.progress == old(self)@.complete_progress(outcome),
            reply.teardown@ == old(self)@.complete_teardown(outcome),
            final(self)@ == old(self)@.after_complete(outcome),
            old(self)@.wf() ==> final(self)@.wf(),
    {
        let phase = self.phase;
        match phase {
            Phase::Stopped | Phase::Failed(_) | Phase::Advertising => {
                return Reply { progress: Progress::Idle, teardown: Vec::new() };
            },
            _ => {},
        }
        match outcome {
            Ok(_) => {
                let next = match phase {
                    Phase::Opening => Phase::Handshaking,
                    Phase::Handshaking => Phase::SettingParameters,
                    Phase::SettingParameters => Phase::SettingData,
                    Phase::SettingData => Phase::Enabling,
                    _ => Phase::Advertising,
                };
                if phase == Phase::SettingData || phase == Phase::Updating {
                    let mut bytes: Vec<u8> = Vec::new();
                    std::mem::swap(&mut self.staged, &mut bytes);
                    self.active = Some(bytes);
                }
                self.phase = next;
                let progress = match next {
                    Phase::Handshaking => Progress::Next(RadioCommand::HostInit),
                    Phase::SettingParameters => Progress::Next(
                        RadioCommand::SetAdvertisingParameters,
                    ),
                    Phase::SettingData => Progress::Next(RadioCommand::SetAdvertisingData),
                    Phase::Enabling => Progress::Next(RadioCommand::EnableAdvertising),
                    _ => Progress::Done,
                };
                Reply { progress, teardown: Vec::new() }
            },
            Err(error) => {
                if phase == Phase::Updating {
                    self.phase = Phase::Advertising;
                    self.staged = Vec::new();
                    Reply { progress: Progress::Failed(error), teardown: Vec::new() }
                } else {
                    let teardown = if phase == Phase::Opening {
                        Vec::new()
                    } else {
                        release_commands()
                    };
                    self.rest(Phase::Failed(error));
                    Reply { progress: Progress::Failed(error), teardown }
                }
            },
        }
    }

    /// Stops advertising and gives up the session.
    ///
    /// Returns the commands that the driver carries out, in order and whatever
    /// their outcomes: disable advertising if the radio transmits, then release
    /// the host session, the transport and the controller handle if a session is
    /// open. The controller is `Stopped` afterwards. On a stopped controller
    /// nothing changes and no command is handed out.
    pub fn stop(&mut self) -> (commands: Vec<RadioCommand>)
        ensures
            commands@ == old(self)@.stop_commands(),
            final(self)@ == old(self)@.after_stop(),
            old(self)@.wf() ==> final(self)@.wf(),
    {
        let mut commands: Vec<RadioCommand> = Vec::new();
        match self.phase {
            Phase::Stopped => {
                return commands;
            },
            Phase::Failed(_) | Phase::Opening => {},
            Phase::Advertising | Phase::Updating => {
                commands.push(RadioCommand::DisableAdvertising);
                commands.push(RadioCommand::ReleaseSession);
                commands.push(RadioCommand::ReleaseTransport);
                commands.push(RadioCommand::ReleaseController);
            },
            _ => {
                commands = release_commands();
            },
        }
        assert(commands@ =~= old(self)@.stop_commands());
        self.rest(Phase::Stopped);
        commands
    }

    /// Forgets the session and settles in `phase`.
    fn rest(&mut self, phase: Phase)
        ensures
            final(self)@ == ControllerModel::at_rest(phase),
    {
        self.phase = phase;
        self.parameters = None;
        self.staged = Vec::new();
        self.active = None;
    }

    /// The lifecycle state.
    pub fn state(&self) -> (state: AdvertisingState)
        ensures
            state == self@.phase.state(),
    {
        match self.phase {
            Phase::Stopped => AdvertisingState::Stopped,
            Phase::Failed(reason) => AdvertisingState::Failed(reason),
            Phase::Advertising | Phase::Updating => AdvertisingState::Advertising,
            _ => AdvertisingState::Starting,
        }
    }

    /// The phase within the lifecycle state.
    pub fn phase(&self) -> (phase: Phase)
        ensures
            phase == self@.phase,
    {
        self.phase
    }

    /// The command whose outcome the controller awaits, if any.
    pub fn pending(&self) -> (command: Option<RadioCommand>)
        ensures
            command == self@.phase.pending(),
    {
        match self.phase {
            Phase::Opening => Some(RadioCommand::OpenSession),
            Phase::Handshaking => Some(RadioCommand::HostInit),
            Phase::SettingParameters => Some(RadioCommand::SetAdvertisingParameters),
            Phase::SettingData | Phase::Updating => Some(RadioCommand::SetAdvertisingData),
            Phase::Enabling => Some(RadioCommand::EnableAdvertising),
            _ => None,
        }
    }

    /// Whether the driver holds a controller handle, a transport and a host session.
    pub fn session_open(&self) -> (open: bool)
        ensures
            open == self@.phase.session_open(),
    {
        match self.phase {
            Phase::Stopped | Phase::Failed(_) | Phase::Opening => false,
            _ => true,
        }
    }

    /// The parameters of the session that is starting or live.
    pub fn parameters(&self) -> (parameters: Option<AdvertisingParameters>)
        ensures
            parameters == self@.parameters,
    {
        self.parameters
    }

    /// The bytes that the command `SetAdvertisingData` carries.
    pub fn staged_payload(&self) -> (bytes: &Vec<u8>)
        ensures
            bytes@ == self@.staged,
    {
        &self.staged
    }

    /// The advertising data that the radio accepted in this session, if any.
    pub fn current_payload(&self) -> (bytes: Option<&Vec<u8>>)
        ensures
            match bytes {
                Some(bytes) => self@.active == Some(bytes@),
                None => self@.active is None,
            },
    {
        match &self.active {
            Some(bytes) => Some(bytes),
            None => None,
        }
    }
}

} // verus!
