//! The control bridge: what the handler registered with the service control
//! manager does with a control request.
//!
//! The manager calls the handler on a thread of its own choosing, at a time of
//! its own choosing, any number of times. The only thing the handler shares
//! with the service's own thread is the sending half of a channel, and the
//! only thing it ever does is post one unit on it.

use crate::windows::CONTROL_CODE;
use std::sync::mpsc::Sender;
use vstd::prelude::*;

verus! {

/// The status a control handler returns to the manager for a request it has
/// dealt with.
pub const NO_ERROR: u32 = 0;

/// The sending half of a standard channel. Nothing is known of what is inside:
/// a value of this type is only ever carried to `Sender::send`.
#[verifier::external_type_specification]
#[verifier::external_body]
#[verifier::reject_recursive_types(T)]
pub struct ExSender<T>(Sender<T>);

/// What became of one control request.
#[derive(Clone, Copy, Debug, PartialEq, Eq, Structural)]
pub enum ControlOutcome {
    /// The request asks for nothing this service does. Nothing was sent.
    Ignored,
    /// The request asks the service to end, and the signal is in the channel.
    Signalled,
    /// The request asks the service to end, but nobody listens any more: the
    /// receiving half of the channel is gone and the signal was dropped.
    ReceiverGone,
}

/// Whether a control request, as the manager sent it, asks the service to come
/// to an end: the value is that of a stop or of a shutdown request.
pub open spec fn stop_requested(control: u32) -> bool {
    control == CONTROL_CODE::SERVICE_CONTROL_STOP.spec_bits() || control
        == CONTROL_CODE::SERVICE_CONTROL_SHUTDOWN.spec_bits()
}

/// Posts one unit on the channel with `Sender::send` and says whether the
/// channel took it.
///
/// Nothing is claimed of the answer: whether the unit is taken depends on
/// whether the receiving half still exists, which the sender cannot know
/// beforehand. `send` on this kind of channel does not wait for room and
/// returns an error, rather than panicking, when the receiver is gone.
#[verifier::external_body]
fn post(tx: &Sender<()>) -> (taken: bool) {
    tx.send(()).is_ok()
}

/// Deals with one control request: a stop or a shutdown request is passed on
/// as a signal on `tx`, every other request is left alone. The answer says
/// which of the two happened and, for a signal, whether anybody was left to
/// receive it. A signal that finds no receiver is not an error.
pub fn relay_control(control: u32, tx: &Sender<()>) -> (outcome: ControlOutcome)
    ensures
        outcome == ControlOutcome::Ignored <==> !stop_requested(control),
{
    if control == CONTROL_CODE::SERVICE_CONTROL_STOP.bits() || control
        == CONTROL_CODE::SERVICE_CONTROL_SHUTDOWN.bits() {
        if post(tx) {
            ControlOutcome::Signalled
        } else {
            ControlOutcome::ReceiverGone
        }
    } else {
        ControlOutcome::Ignored
    }
}

/// The control handler in the shape the manager calls it: the control request,
/// the event type that comes with it, and the sending half of the stop signal.
///
/// Stop and shutdown requests are relayed as by [`relay_control`]; the event
/// type plays no part. Whatever the request and whatever became of the signal,
/// the manager is told that the request was dealt with.
pub fn control_handler_ex(control: u32, event_type: u32, tx: &Sender<()>) -> (status: u32)
    ensures
        status == NO_ERROR,
{
    let _ = relay_control(control, tx);
    NO_ERROR
}

} // verus!
