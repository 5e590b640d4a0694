//! The channel primitives the manager is built on. Nothing here is proved:
//! each item states what is believed of the `futures` crate.

use vstd::prelude::*;

verus! {

/// `futures::channel::mpsc::UnboundedSender`: the producing end of the
/// command queue. Nothing is known of its inside.
#[verifier::external_type_specification]
#[verifier::external_body]
#[verifier::reject_recursive_types(T)]
pub struct ExUnboundedSender<T>(futures::channel::mpsc::UnboundedSender<T>);

/// `futures::channel::mpsc::UnboundedReceiver`: the consuming end of the
/// command queue. Nothing is known of its inside.
#[verifier::external_type_specification]
#[verifier::external_body]
#[verifier::reject_recursive_types(T)]
pub struct ExUnboundedReceiver<T>(futures::channel::mpsc::UnboundedReceiver<T>);

/// `futures::channel::mpsc::TrySendError`: the error of a send that found no
/// receiver. Nothing is known of its inside.
#[verifier::external_type_specification]
#[verifier::external_body]
#[verifier::reject_recursive_types(T)]
pub struct ExTrySendError<T>(futures::channel::mpsc::TrySendError<T>);

/// `futures::channel::oneshot::Sender`: the end of a single-use channel that
/// delivers the one value. Nothing is known of its inside.
#[verifier::external_type_specification]
#[verifier::external_body]
#[verifier::reject_recursive_types(T)]
pub struct ExOneshotSender<T>(futures::channel::oneshot::Sender<T>);

/// `futures::channel::oneshot::Receiver`: the end of a single-use channel
/// that is awaited. Nothing is known of its inside.
#[verifier::external_type_specification]
#[verifier::external_body]
#[verifier::reject_recursive_types(T)]
pub struct ExOneshotReceiver<T>(futures::channel::oneshot::Receiver<T>);

/// `futures::channel::oneshot::Canceled`: what awaiting a single-use channel
/// gives once its sender is gone without having sent.
#[verifier::external_type_specification]
#[verifier::external_body]
pub struct ExCanceled(futures::channel::oneshot::Canceled);

/// `futures::channel::mpsc::unbounded` makes a queue and returns its two
/// ends. Nothing is claimed of them.
pub assume_specification<T>[ futures::channel::mpsc::unbounded::<T> ]() -> (ends: (
    futures::channel::mpsc::UnboundedSender<T>,
    futures::channel::mpsc::UnboundedReceiver<T>,
));

/// `UnboundedSender::unbounded_send` enqueues a message, or fails where the
/// receiver is closed or gone. Which of the two happens depends on the other
/// end, so nothing is claimed of the result. The crate panics here only
/// once its message counter is full, which takes more queued messages than
/// memory can hold.
pub assume_specification<T>[ futures::channel::mpsc::UnboundedSender::<T>::unbounded_send ](
    sender: &futures::channel::mpsc::UnboundedSender<T>,
    msg: T,
) -> (sent: Result<(), futures::channel::mpsc::TrySendError<T>>);

/// `UnboundedSender::clone` makes another producing end. Nothing is claimed
/// of it. The crate panics here only once its sender counter is full, which
/// takes more live senders than memory can hold.
pub assume_specification<T>[ <futures::channel::mpsc::UnboundedSender<T> as Clone>::clone ](
    sender: &futures::channel::mpsc::UnboundedSender<T>,
) -> (copy: futures::channel::mpsc::UnboundedSender<T>);

/// `futures::channel::oneshot::channel` makes a single-use channel and
/// returns its two ends. Nothing is claimed of them.
pub assume_specification<T>[ futures::channel::oneshot::channel::<T> ]() -> (ends: (
    futures::channel::oneshot::Sender<T>,
    futures::channel::oneshot::Receiver<T>,
));

/// `oneshot::Sender::send` hands the value to the receiver, or, where the
/// receiver is gone, hands the same value back as the error.
pub assume_specification<T>[ futures::channel::oneshot::Sender::<T>::send ](
    sender: futures::channel::oneshot::Sender<T>,
    t: T,
) -> (sent: Result<(), T>)
    ensures
        sent is Err ==> sent->Err_0 == t,
;

} // verus!
