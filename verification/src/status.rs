//! The connectivity status, its observer, and the slot that holds both.

use std::sync::Arc;
use vstd::prelude::*;

verus! {

/// Connectivity state of a client: one of three values, nothing else.
#[derive(Clone, Copy, Debug, PartialEq, Eq, Structural)]
pub enum ConnectionStatus {
    Stopped,
    Connected,
    Disconnected,
}

impl ConnectionStatus {
    /// The text under which a status is reported to an observer.
    pub open spec fn text(self) -> Seq<char> {
        match self {
            ConnectionStatus::Stopped => "stopped"@,
            ConnectionStatus::Connected => "connected"@,
            ConnectionStatus::Disconnected => "disconnected"@,
        }
    }

    pub fn as_str(&self) -> (s: &'static str)
        ensures
            s@ == self.text(),
    {
        match self {
            ConnectionStatus::Stopped => "stopped",
            ConnectionStatus::Connected => "connected",
            ConnectionStatus::Disconnected => "disconnected",
        }
    }

    pub fn to_text(&self) -> (s: String)
        ensures
            s@ == self.text(),
            is_status_text(s@),
    {
        self.as_str().to_owned()
    }
}

/// Whether `s` is the text of one of the three statuses.
pub open spec fn is_status_text(s: Seq<char>) -> bool {
    exists|status: ConnectionStatus| #[trigger] status.text() == s
}

/// Different statuses are reported under different texts, so an observer can
/// tell from the text alone which status it was handed.
pub proof fn status_text_is_injective(a: ConnectionStatus, b: ConnectionStatus)
    requires
        a.text() == b.text(),
    ensures
        a == b,
{
    reveal_strlit("stopped");
    reveal_strlit("connected");
    reveal_strlit("disconnected");
    assert("stopped"@.len() == 7);
    assert("connected"@.len() == 9);
    assert("disconnected"@.len() == 12);
}

/// The observer of status changes, implemented by the host application.
///
/// The client hands over the text of the new status and takes back whatever
/// acknowledgement the observer returns. The text is always one of
/// `"stopped"`, `"connected"` and `"disconnected"`.
pub trait StatusCallback: Send + Sync {
    fn on_change(&self, status: String) -> (ack: String)
        requires
            is_status_text(status@),
    ;
}

/// A single slot for the current status, with at most one observer that is
/// told of every value stored.
pub struct StatusSlot {
    value: ConnectionStatus,
    observer: Option<Arc<dyn StatusCallback>>,
}

impl StatusSlot {
    /// The status held.
    pub closed spec fn value(&self) -> ConnectionStatus {
        self.value
    }

    /// The observer registered, if any.
    pub closed spec fn observer(&self) -> Option<Arc<dyn StatusCallback>> {
        self.observer
    }

    /// A slot that holds `Stopped` and has no observer.
    pub fn new() -> (slot: StatusSlot)
        ensures
            slot.value() == ConnectionStatus::Stopped,
            slot.observer() is None,
    {
        StatusSlot { value: ConnectionStatus::Stopped, observer: None }
    }

    pub fn read(&self) -> (status: ConnectionStatus)
        ensures
            status == self.value(),
    {
        self.value
    }

    pub fn has_observer(&self) -> (b: bool)
        ensures
            b == self.observer() is Some,
    {
        self.observer.is_some()
    }

    /// Installs `callback` in place of any earlier observer. The status is
    /// left alone and nobody is notified.
    pub fn register(&mut self, callback: Arc<dyn StatusCallback>)
        ensures
            final(self).observer() == Some(callback),
            final(self).value() == old(self).value(),
    {
        let observer = Some(callback);
        self.install(observer);
    }

    /// Puts `observer` in the place of the one registered.
    pub(crate) fn install(&mut self, observer: Option<Arc<dyn StatusCallback>>)
        requires
            observer is Some,
        ensures
            final(self).observer() == observer,
            final(self).value() == old(self).value(),
        no_unwind
    {
        self.observer = observer;
    }

    /// Stores `status` and tells nobody.
    pub fn store(&mut self, status: ConnectionStatus)
        ensures
            final(self).value() == status,
            final(self).observer() == old(self).observer(),
        no_unwind
    {
        self.value = status;
    }

    /// The text that an observer is handed for the status held.
    pub fn report(&self) -> (text: String)
        ensures
            text@ == self.value().text(),
            is_status_text(text@),
    {
        self.value.to_text()
    }

    /// Hands the report of the current status to the observer, if there is
    /// one, and returns what the observer answers.
    pub fn notify(&self) -> (ack: Option<String>)
        ensures
            ack is Some <==> self.observer() is Some,
    {
        match &self.observer {
            Some(callback) => Some(callback.on_change(self.report())),
            None => None,
        }
    }

    /// Stores `status` and notifies the observer of it, also when the value
    /// stored is the one already held.
    pub fn set(&mut self, status: ConnectionStatus) -> (ack: Option<String>)
        ensures
            final(self).value() == status,
            final(self).observer() == old(self).observer(),
            ack is Some <==> old(self).observer() is Some,
    {
        self.store(status);
        self.notify()
    }
}

} // verus!
