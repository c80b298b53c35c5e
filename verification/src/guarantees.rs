//! What holds of every run of the controller.
//!
//! Each statement is over [`ControllerModel`], the plain-value view through
//! which the operations of [`crate::controller::AdvertisingController`] state
//! what they do, so each one holds of the operations themselves.

use crate::controller::{release_order, ControllerModel, Phase, Progress, RadioCommand};
use crate::error::RadioError;
use crate::params::AdvertisingParameters;
use crate::payload::{lemma_wire_len, wire, wire_len, AdRecord, MAX_PAYLOAD_LEN};
use vstd::prelude::*;

verus! {

/// A payload that fits is applied: while the controller advertises with no
/// command under way, `update_payload` with a payload of at most
/// [`MAX_PAYLOAD_LEN`] encoded bytes hands the driver exactly the encoding, and
/// once the driver reports success the active data is that encoding and the
/// controller still advertises.
pub proof fn fitting_update_is_applied(model: ControllerModel, payload: Seq<AdRecord>)
    requires
        model.phase == Phase::Advertising,
        wire_len(payload) <= MAX_PAYLOAD_LEN,
    ensures
        model.update_result(payload) == Ok::<RadioCommand, RadioError>(
            RadioCommand::SetAdvertisingData,
        ),
        model.after_update(payload).staged == wire(payload),
        model.after_update(payload).complete_progress(Ok(())) == Progress::Done,
        model.after_update(payload).complete_teardown(Ok(())) == Seq::<RadioCommand>::empty(),
        model.after_update(payload).after_complete(Ok(())).active == Some(wire(payload)),
        model.after_update(payload).after_complete(Ok(())).phase == Phase::Advertising,
        model.after_update(payload).after_complete(Ok(())).parameters == model.parameters,
{
}

/// An update that the radio rejects is not applied: the controller still
/// advertises the data it advertised before, and hands out no command.
pub proof fn rejected_update_keeps_active_data(
    model: ControllerModel,
    payload: Seq<AdRecord>,
    error: RadioError,
)
    requires
        model.wf(),
        model.phase == Phase::Advertising,
        wire_len(payload) <= MAX_PAYLOAD_LEN,
    ensures
        model.after_update(payload).complete_progress(Err(error)) == Progress::Failed(error),
        model.after_update(payload).complete_teardown(Err(error)) == Seq::<RadioCommand>::empty(),
        model.after_update(payload).after_complete(Err(error)) == model,
{
    let after = model.after_update(payload).after_complete(Err(error));
    assert(after.staged =~= model.staged);
}

/// A payload that does not fit is refused and nothing changes: `update_payload`
/// with a payload of more than [`MAX_PAYLOAD_LEN`] encoded bytes fails with
/// `PayloadTooLarge` in every state, and leaves the controller, its active data
/// included, as it was.
pub proof fn oversized_update_changes_nothing(model: ControllerModel, payload: Seq<AdRecord>)
    requires
        wire_len(payload) > MAX_PAYLOAD_LEN,
    ensures
        model.update_result(payload) == Err::<RadioCommand, RadioError>(
            RadioError::PayloadTooLarge,
        ),
        model.after_update(payload) == model,
{
}

/// A second start is refused at once: while the controller advertises, `start`
/// fails with `InvalidState`, hands out no command and changes nothing.
pub proof fn start_while_advertising_is_refused(
    model: ControllerModel,
    parameters: AdvertisingParameters,
    payload: Seq<AdRecord>,
)
    requires
        model.phase.state() is Advertising,
    ensures
        model.start_result(payload) == Err::<RadioCommand, RadioError>(RadioError::InvalidState),
        model.after_start(parameters, payload) == model,
{
}

/// A start under way is not restarted: while the controller is starting,
/// `start` fails with `InvalidState`, hands out no command and changes nothing.
pub proof fn start_while_starting_is_refused(
    model: ControllerModel,
    parameters: AdvertisingParameters,
    payload: Seq<AdRecord>,
)
    requires
        model.phase.state() is Starting,
    ensures
        model.start_result(payload) == Err::<RadioCommand, RadioError>(RadioError::InvalidState),
        model.after_start(parameters, payload) == model,
{
}

/// Stopping a stopped controller does nothing: no command is handed out and
/// the controller is left as it was.
pub proof fn stop_when_stopped_does_nothing(model: ControllerModel)
    requires
        model.phase is Stopped,
    ensures
        model.stop_commands() == Seq::<RadioCommand>::empty(),
        model.after_stop() == model,
{
}

/// Stopping twice is stopping once: after `stop` the controller is stopped,
/// and a second `stop` hands out no command and changes nothing.
pub proof fn stop_is_idempotent(model: ControllerModel)
    ensures
        model.after_stop().phase is Stopped,
        model.after_stop().stop_commands() == Seq::<RadioCommand>::empty(),
        model.after_stop().after_stop() == model.after_stop(),
{
}

/// `stop` gives up an open session exactly once and in order: a transmitting
/// radio is disabled first, then the host session, the transport and the
/// controller handle are released, each once; without an open session nothing
/// is released.
pub proof fn stop_releases_in_order(model: ControllerModel)
    requires
        model.wf(),
    ensures
        model.phase.state() is Advertising ==> model.stop_commands() == seq![
            RadioCommand::DisableAdvertising,
            RadioCommand::ReleaseSession,
            RadioCommand::ReleaseTransport,
            RadioCommand::ReleaseController,
        ],
        model.phase.state() is Starting && model.phase.session_open() ==> model.stop_commands()
            == release_order(),
        !model.phase.session_open() ==> model.stop_commands() == Seq::<RadioCommand>::empty(),
        model.after_stop().active is None,
        !model.after_stop().phase.session_open(),
{
    if model.phase.state() is Advertising {
        assert(model.stop_commands() =~= seq![
            RadioCommand::DisableAdvertising,
            RadioCommand::ReleaseSession,
            RadioCommand::ReleaseTransport,
            RadioCommand::ReleaseController,
        ]);
    }
}

/// A failure at any of the four steps that follow the opening of the session
/// ends the start cleanly: the controller is `Failed` with the reported reason
/// and holds nothing of the session, the reply releases the host session, the
/// transport and the controller handle in that order, and nothing is released
/// a second time, neither by `stop` nor by a further report.
pub proof fn failed_step_releases_session(
    model: ControllerModel,
    error: RadioError,
    later: Result<(), RadioError>,
)
    requires
        model.phase is Handshaking || model.phase is SettingParameters || model.phase
            is SettingData || model.phase is Enabling,
    ensures
        model.complete_progress(Err(error)) == Progress::Failed(error),
        model.complete_teardown(Err(error)) == release_order(),
        model.after_complete(Err(error)) == ControllerModel::at_rest(Phase::Failed(error)),
        !model.after_complete(Err(error)).phase.session_open(),
        model.after_complete(Err(error)).stop_commands() == Seq::<RadioCommand>::empty(),
        model.after_complete(Err(error)).complete_teardown(later) == Seq::<RadioCommand>::empty(),
        model.after_complete(Err(error)).complete_progress(later) == Progress::Idle,
{
}

/// When the session cannot be opened the start fails with the reported reason
/// and there is nothing to release.
pub proof fn failed_opening_releases_nothing(model: ControllerModel, error: RadioError)
    requires
        model.phase is Opening,
    ensures
        model.complete_progress(Err(error)) == Progress::Failed(error),
        model.complete_teardown(Err(error)) == Seq::<RadioCommand>::empty(),
        model.after_complete(Err(error)) == ControllerModel::at_rest(Phase::Failed(error)),
{
}

/// A start whose every step succeeds ends in `Advertising`: from `Stopped` or
/// `Failed`, with a payload that fits, the driver is asked in turn to open the
/// session, run the handshake, set the parameters, set the data and enable
/// advertising, and after the fifth success the radio holds the given
/// parameters and the encoding of the given payload.
pub proof fn successful_start_reaches_advertising(
    model: ControllerModel,
    parameters: AdvertisingParameters,
    payload: Seq<AdRecord>,
)
    requires
        model.phase is Stopped || model.phase is Failed,
        wire_len(payload) <= MAX_PAYLOAD_LEN,
    ensures
        model.start_result(payload) == Ok::<RadioCommand, RadioError>(RadioCommand::OpenSession),
        ({
            let opening = model.after_start(parameters, payload);
            let handshaking = opening.after_complete(Ok(()));
            let setting_parameters = handshaking.after_complete(Ok(()));
            let setting_data = setting_parameters.after_complete(Ok(()));
            let enabling = setting_data.after_complete(Ok(()));
            let advertising = enabling.after_complete(Ok(()));
            &&& opening.phase.state() is Starting
            &&& opening.complete_progress(Ok(())) == Progress::Next(RadioCommand::HostInit)
            &&& handshaking.complete_progress(Ok(())) == Progress::Next(
                RadioCommand::SetAdvertisingParameters,
            )
            &&& setting_parameters.complete_progress(Ok(())) == Progress::Next(
                RadioCommand::SetAdvertisingData,
            )
            &&& setting_data.staged == wire(payload)
            &&& setting_data.parameters == Some(parameters)
            &&& setting_data.complete_progress(Ok(())) == Progress::Next(
                RadioCommand::EnableAdvertising,
            )
            &&& enabling.phase.state() is Starting
            &&& enabling.complete_progress(Ok(())) == Progress::Done
            &&& advertising == ControllerModel {
                phase: Phase::Advertising,
                parameters: Some(parameters),
                staged: Seq::empty(),
                active: Some(wire(payload)),
            }
        }),
{
}

/// A start with a payload that does not fit fails before any command goes out:
/// from `Stopped` or `Failed` the result is `PayloadTooLarge` and the
/// controller is `Failed` for that reason, without a session.
pub proof fn oversized_start_fails(
    model: ControllerModel,
    parameters: AdvertisingParameters,
    payload: Seq<AdRecord>,
)
    requires
        model.phase is Stopped || model.phase is Failed,
        wire_len(payload) > MAX_PAYLOAD_LEN,
    ensures
        model.start_result(payload) == Err::<RadioCommand, RadioError>(
            RadioError::PayloadTooLarge,
        ),
        model.after_start(parameters, payload) == ControllerModel::at_rest(
            Phase::Failed(RadioError::PayloadTooLarge),
        ),
{
}

/// The parameters of a session never change while it lives: an update leaves
/// them alone, and so does every report that does not end the session.
pub proof fn parameters_fixed_for_session(
    model: ControllerModel,
    payload: Seq<AdRecord>,
    outcome: Result<(), RadioError>,
)
    ensures
        model.after_update(payload).parameters == model.parameters,
        model.after_complete(outcome).parameters == model.parameters || model.after_complete(
            outcome,
        ).phase is Failed,
{
}

/// The radio transmits only with a session that holds parameters and data:
/// in every reachable controller that advertises, the session is open, the
/// parameters are set and active data of at most [`MAX_PAYLOAD_LEN`] bytes is
/// set; and a controller that is stopped or failed holds nothing of a session.
pub proof fn advertising_needs_complete_session(model: ControllerModel)
    requires
        model.wf(),
    ensures
        model.phase.state() is Advertising ==> {
            &&& model.phase.session_open()
            &&& model.parameters is Some
            &&& model.active matches Some(bytes) && bytes.len() <= MAX_PAYLOAD_LEN
        },
        model.phase is Stopped || model.phase is Failed ==> model == ControllerModel::at_rest(
            model.phase,
        ),
{
    if model.phase is Stopped || model.phase is Failed {
        assert(model.staged =~= Seq::<u8>::empty());
    }
}

/// Every operation keeps a reachable controller reachable.
pub proof fn operations_preserve_wf(
    model: ControllerModel,
    parameters: AdvertisingParameters,
    payload: Seq<AdRecord>,
    outcome: Result<(), RadioError>,
)
    requires
        model.wf(),
    ensures
        ControllerModel::at_rest(Phase::Stopped).wf(),
        model.after_start(parameters, payload).wf(),
        model.after_update(payload).wf(),
        model.after_complete(outcome).wf(),
        model.after_stop().wf(),
{
    lemma_wire_len(payload);
}

} // verus!
