use vstd::prelude::*;

verus! {

#[verifier::external_type_specification]
#[verifier::external_body]
#[verifier::reject_recursive_types(T)]
pub struct ExSender<T>(std::sync::mpsc::Sender<T>);

#[verifier::external_type_specification]
#[verifier::external_body]
#[verifier::reject_recursive_types(T)]
pub struct ExReceiver<T>(std::sync::mpsc::Receiver<T>);

#[verifier::external_type_specification]
#[verifier::external_body]
pub struct ExRecvError(std::sync::mpsc::RecvError);

/// `std::sync::mpsc::channel`: a fresh sender and the receiver of the same
/// channel. Nothing is claimed of the pair: it is new.
#[verifier::external_body]
pub(crate) fn channel<T>() -> (r: (std::sync::mpsc::Sender<T>, std::sync::mpsc::Receiver<T>)) {
    std::sync::mpsc::channel()
}

/// `std::sync::mpsc::Sender::send`: hands `t` to the receiving end. It fails
/// exactly when the receiving end is gone, and then its `SendError` holds `t`,
/// which is handed back. Whether it fails depends on the other thread, so
/// that is not claimed.
#[verifier::external_body]
pub(crate) fn send<T>(s: &std::sync::mpsc::Sender<T>, t: T) -> (r: Result<(), T>)
    ensures
        r matches Err(u) ==> u == t,
{
    s.send(t).map_err(|e| e.0)
}

/// `std::sync::mpsc::Receiver::recv`: waits for the next value sent on the
/// channel; fails once every sender is gone and the channel is empty. What
/// arrives is up to the other thread, so nothing is claimed of it. The call
/// blocks while a sender is alive and nothing has been sent.
#[verifier::external_body]
pub(crate) fn recv<T>(r: &std::sync::mpsc::Receiver<T>) -> (v: Result<T, std::sync::mpsc::RecvError>) {
    r.recv()
}

} // verus!
