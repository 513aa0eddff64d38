use tokio::sync::mpsc::Receiver;
use vstd::prelude::*;

verus! {

/// An event that a background task sends to the owner of the buffer.
pub enum AppMessage {
    /// A line to append as it is.
    NewLine(String),
    /// A task's result: appended as a line, and shown as the status.
    TaskCompleted(String),
}

#[verifier::external_type_specification]
#[verifier::external_body]
#[verifier::reject_recursive_types(T)]
pub struct ExReceiver<T>(Receiver<T>);

/// Relies on tokio's `Receiver::len`: the number of messages queued in the
/// channel at the moment of the call. Senders on other tasks may change it
/// at any time, so nothing is stated of it.
#[verifier::external_body]
fn queued_count(rx: &Receiver<AppMessage>) -> usize {
    rx.len()
}

/// Relies on tokio's `Receiver::try_recv`: takes the oldest queued message
/// without waiting, or reports that none is there. What is queued depends
/// on other tasks, so nothing is stated of the outcome.
#[verifier::external_body]
fn try_take(rx: &mut Receiver<AppMessage>) -> Option<AppMessage> {
    rx.try_recv().ok()
}

/// Takes, oldest first, the messages that are queued when the call begins,
/// without waiting; with nothing queued it returns an empty vector at once.
/// It takes at most as many messages as were queued at its start.
pub fn drain_all(rx: &mut Receiver<AppMessage>) -> (r: Vec<AppMessage>) {
    let n = queued_count(rx);
    let mut out: Vec<AppMessage> = Vec::new();
    let mut i: usize = 0;
    while i < n
        invariant
            i <= n,
        decreases n - i,
    {
        match try_take(rx) {
            Some(m) => out.push(m),
            None => return out,
        }
        i = i + 1;
    }
    out
}

} // verus!
