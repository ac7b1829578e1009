//! The client: the state machine in executable form.

use crate::effects::Effects;
use crate::frame::{Frame, SendFailure, KEEPALIVE_INTERVAL};
use crate::model::{ClientState, Event};
use crate::status::{ConnectionStatus, StatusCallback, StatusSlot};
use std::sync::Arc;
use vstd::prelude::*;

verus! {

/// A client for one persistent WebSocket connection.
///
/// The client does no I/O. Each operation moves it to its next state and
/// returns what the caller has to do: open a connection, send a frame, start
/// or end a keepalive task, wait, release a waiting request. The caller
/// reports back what came of it, under the number of the connection.
pub struct WsClient {
    url: String,
    base_url: Option<String>,
    slot: StatusSlot,
    issued: u64,
    pending: Option<u64>,
    keepalive: Option<u64>,
    awaiting: bool,
}

impl View for WsClient {
    type V = ClientState<Arc<dyn StatusCallback>>;

    closed spec fn view(&self) -> ClientState<Arc<dyn StatusCallback>> {
        ClientState {
            url: self.url@,
            base_url: match self.base_url {
                Some(base) => Some(base@),
                None => None,
            },
            status: self.slot.value(),
            observer: self.slot.observer(),
            issued: self.issued,
            pending: self.pending,
            keepalive: self.keepalive,
            awaiting: self.awaiting,
        }
    }
}

/// Whether `slot` holds `connection`.
fn holds(slot: Option<u64>, connection: u64) -> (b: bool)
    ensures
        b == (slot == Some(connection)),
{
    match slot {
        Some(held) => held == connection,
        None => false,
    }
}

impl WsClient {
    #[verifier::type_invariant]
    spec fn well_formed(&self) -> bool {
        self@.wf()
    }

    /// A client for `url`: stopped, with no observer and no connection.
    pub fn new(url: String) -> (client: WsClient)
        ensures
            client@ == ClientState::<Arc<dyn StatusCallback>>::initial(url@),
            client@.wf(),
    {
        WsClient {
            url,
            base_url: None,
            slot: StatusSlot::new(),
            issued: 0,
            pending: None,
            keepalive: None,
            awaiting: false,
        }
    }

    /// The current status.
    pub fn status(&self) -> (status: ConnectionStatus)
        ensures
            status == self@.status,
            self@.wf(),
    {
        proof {
            use_type_invariant(self);
        }
        self.slot.read()
    }

    /// The target of the next connection attempt: the one set by `set_url`,
    /// or else the one given at construction.
    pub fn target(&self) -> (target: String)
        ensures
            target@ == self@.target(),
    {
        match &self.base_url {
            Some(base) => base.clone(),
            None => self.url.clone(),
        }
    }

    /// The connection in service, whose keepalive task is the one alive.
    pub fn connection(&self) -> (connection: Option<u64>)
        ensures
            connection == self@.keepalive,
    {
        self.keepalive
    }

    /// The attempt whose outcome is still open.
    pub fn pending_attempt(&self) -> (attempt: Option<u64>)
        ensures
            attempt == self@.pending,
    {
        self.pending
    }

    /// Whether a request waits for its reply.
    pub fn is_awaiting_reply(&self) -> (awaiting: bool)
        ensures
            awaiting == self@.awaiting,
    {
        self.awaiting
    }

    /// Sets the target that overrides the one given at construction. A
    /// connection in service is not touched: the next attempt goes there.
    pub fn set_url(&mut self, url: String)
        ensures
            final(self)@ == old(self)@.step(Event::Configure(url@)).0,
            final(self)@.wf(),
    {
        proof {
            use_type_invariant(&*self);
        }
        self.base_url = Some(url);
    }

    /// Installs `status_callback` in place of any earlier observer. It is
    /// told of the status changes from now on, and of none before.
    pub fn set_status_callback(&mut self, status_callback: Arc<dyn StatusCallback>)
        ensures
            final(self)@.observer == Some(status_callback),
            final(self)@ == old(self)@.observed_by(final(self)@.observer),
            final(self)@.wf(),
    {
        let observer = Some(status_callback);
        self.install(observer);
    }

    /// Puts `observer` in the place of the one registered.
    pub(crate) fn install(&mut self, observer: Option<Arc<dyn StatusCallback>>)
        requires
            observer is Some,
        ensures
            final(self)@.observer == observer,
            final(self)@ == old(self)@.observed_by(observer),
            final(self)@.wf(),
    {
        proof {
            use_type_invariant(&*self);
        }
        self.slot.install(observer);
    }

    /// Hands the current status to the observer, if there is one, and returns
    /// its acknowledgement.
    fn notify_status(&self) -> (ack: Option<String>)
        ensures
            ack is Some <==> self@.observer is Some,
    {
        self.slot.notify()
    }

    /// Stores `status` and notifies the observer of it.
    fn change_status(&mut self, status: ConnectionStatus) -> (ack: Option<String>)
        requires
            status == ConnectionStatus::Connected ==> old(self)@.keepalive is Some,
        ensures
            final(self)@ == (ClientState { status, ..old(self)@ }),
            ack is Some <==> old(self)@.observer is Some,
    {
        proof {
            use_type_invariant(&*self);
        }
        self.slot.store(status);
        self.notify_status()
    }

    /// Takes the connection in service out of it: the status becomes
    /// `Disconnected`, the keepalive task ends, a waiting request is released
    /// with an empty result.
    fn lose(&mut self, connection: u64, diagnostic: bool) -> (effects: Effects)
        ensures
            (final(self)@, effects@) == old(self)@.lose(connection, diagnostic),
            effects.ack is Some <==> old(self)@.observer is Some,
    {
        proof {
            use_type_invariant(&*self);
        }
        let mut effects = Effects::quiet();
        effects.ended = Some(connection);
        effects.diagnostic = diagnostic;
        if self.awaiting {
            effects.reply = Some(String::new());
        }
        self.awaiting = false;
        self.slot.store(ConnectionStatus::Disconnected);
        self.keepalive = None;
        let ack = self.notify_status();
        effects.told(ConnectionStatus::Disconnected, ack)
    }

    /// Asks for a connection to the current target. The attempt gets the next
    /// number; an earlier attempt whose outcome is open is given up. The
    /// status stays as it is until the connection has carried a ping.
    ///
    /// Once `u64::MAX` attempts were made the client asks for no more.
    pub fn start(&mut self) -> (effects: Effects)
        ensures
            (final(self)@, effects@) == old(self)@.step(Event::Start),
            effects.ack is None,
            final(self)@.wf(),
    {
        proof {
            use_type_invariant(&*self);
        }
        let mut effects = Effects::quiet();
        if self.issued < u64::MAX {
            let attempt: u64 = self.issued;
            self.pending = None;
            self.issued = attempt + 1;
            self.pending = Some(attempt);
            effects.connect = Some((attempt, self.target()));
        }
        effects
    }

    /// Takes the outcome of a connection attempt.
    ///
    /// An open connection of the attempt that the client waits for goes into
    /// service, in place of the one that was: a keepalive task is to be
    /// started for the new one and the old one is to end. A failed attempt
    /// leaves the client as it was. A connection of any other attempt is
    /// turned away.
    pub fn connection_result(&mut self, attempt: u64, established: bool) -> (effects: Effects)
        ensures
            (final(self)@, effects@) == old(self)@.step(
                if established {
                    Event::Established(attempt)
                } else {
                    Event::Refused(attempt)
                },
            ),
            effects.ack is None,
            final(self)@.wf(),
    {
        proof {
            use_type_invariant(&*self);
        }
        let mut effects = Effects::quiet();
        if holds(self.pending, attempt) {
            self.pending = None;
            if established {
                effects.spawned = Some(attempt);
                effects.ended = self.keepalive;
                if self.awaiting {
                    effects.reply = Some(String::new());
                }
                self.awaiting = false;
                self.keepalive = Some(attempt);
            }
        } else if established && !holds(self.keepalive, attempt) {
            effects.ended = Some(attempt);
        }
        effects
    }

    /// Says whether the keepalive task of `connection` may send its ping: the
    /// task of the connection in service gets the ping to send, any other is
    /// told to end.
    pub fn ping_due(&self, connection: u64) -> (effects: Effects)
        ensures
            (self@, effects@) == self@.step(Event::PingDue(connection)),
            effects.ack is None,
    {
        if holds(self.keepalive, connection) {
            let mut effects = Effects::quiet();
            effects.send = Some((connection, Frame::keepalive_ping()));
            effects
        } else {
            Effects::dismiss(connection)
        }
    }

    /// Takes the outcome of a keepalive ping on `connection`.
    ///
    /// A ping that went out makes the status `Connected`, if it is not yet,
    /// and the task waits for the keepalive interval. A ping that failed makes
    /// the status `Disconnected` and ends the task, with no second try.
    pub fn ping_result(
        &mut self,
        connection: u64,
        result: Result<(), SendFailure>,
    ) -> (effects: Effects)
        ensures
            (final(self)@, effects@) == old(self)@.step(Event::PingResult(connection, result)),
            effects.ack is Some <==> effects.notified is Some && old(self)@.observer is Some,
            final(self)@.wf(),
    {
        proof {
            use_type_invariant(&*self);
        }
        if !holds(self.keepalive, connection) {
            return Effects::dismiss(connection);
        }
        match result {
            Ok(_) => {
                let mut effects = Effects::quiet();
                effects.wait = Some(KEEPALIVE_INTERVAL);
                match self.slot.read() {
                    ConnectionStatus::Connected => effects,
                    _ => {
                        let ack = self.change_status(ConnectionStatus::Connected);
                        effects.told(ConnectionStatus::Connected, ack)
                    },
                }
            },
            Err(failure) => self.lose(connection, failure.unexpected()),
        }
    }

    /// Submits a request. With a connection in service and no other request
    /// waiting, `payload` is to be sent on it as a text frame and the request
    /// waits for its reply. Otherwise the request returns at once, empty.
    pub fn request(&mut self, payload: String) -> (effects: Effects)
        ensures
            (final(self)@, effects@) == old(self)@.step(Event::Request(payload@)),
            effects.ack is None,
            final(self)@.wf(),
    {
        proof {
            use_type_invariant(&*self);
        }
        let mut effects = Effects::quiet();
        match self.keepalive {
            Some(connection) => {
                if self.awaiting {
                    effects.reply = Some(String::new());
                } else {
                    self.awaiting = true;
                    effects.send = Some((connection, Frame::Text(payload)));
                }
            },
            None => {
                effects.reply = Some(String::new());
            },
        }
        effects
    }

    /// Takes the outcome of sending a request's frame on `connection`. A
    /// failure is the loss of the connection.
    pub fn request_result(
        &mut self,
        connection: u64,
        result: Result<(), SendFailure>,
    ) -> (effects: Effects)
        ensures
            (final(self)@, effects@) == old(self)@.step(Event::RequestResult(connection, result)),
            effects.ack is Some <==> effects.notified is Some && old(self)@.observer is Some,
            final(self)@.wf(),
    {
        proof {
            use_type_invariant(&*self);
        }
        if !holds(self.keepalive, connection) {
            return Effects::dismiss(connection);
        }
        match result {
            Ok(_) => Effects::quiet(),
            Err(failure) => self.lose(connection, failure.unexpected()),
        }
    }

    /// Takes what a read on `connection` came back with: a frame, or `None`
    /// where the read failed or the stream is at its end.
    ///
    /// A text frame is the reply to the waiting request. A close frame or a
    /// failed read is the loss of the connection. Every other frame is passed
    /// over, and the request goes on waiting.
    pub fn received(&mut self, connection: u64, frame: Option<Frame>) -> (effects: Effects)
        ensures
            (final(self)@, effects@) == old(self)@.step(
                Event::Received(
                    connection,
                    match frame {
                        Some(f) => Some(f@),
                        None => None,
                    },
                ),
            ),
            effects.ack is Some <==> effects.notified is Some && old(self)@.observer is Some,
            final(self)@.wf(),
    {
        proof {
            use_type_invariant(&*self);
        }
        if !holds(self.keepalive, connection) {
            return Effects::dismiss(connection);
        }
        match frame {
            Some(Frame::Text(text)) => {
                let mut effects = Effects::quiet();
                if self.awaiting {
                    self.awaiting = false;
                    effects.reply = Some(text);
                }
                effects
            },
            Some(Frame::Close) | None => self.lose(connection, false),
            Some(_) => Effects::quiet(),
        }
    }

    /// Transitions to `Stopped`: the connection in service is taken out of
    /// it, its keepalive task ends, an attempt whose outcome is open is given
    /// up, and a waiting request is released with an empty result.
    pub fn stop(&mut self) -> (effects: Effects)
        ensures
            (final(self)@, effects@) == old(self)@.step(Event::Stop),
            effects.ack is Some <==> old(self)@.observer is Some,
            final(self)@.wf(),
    {
        proof {
            use_type_invariant(&*self);
        }
        let mut effects = Effects::quiet();
        effects.ended = self.keepalive;
        if self.awaiting {
            effects.reply = Some(String::new());
        }
        self.awaiting = false;
        self.pending = None;
        self.slot.store(ConnectionStatus::Stopped);
        self.keepalive = None;
        let ack = self.notify_status();
        effects.told(ConnectionStatus::Stopped, ack)
    }
}

} // verus!
