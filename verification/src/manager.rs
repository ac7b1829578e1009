//! The facade through which a host application drives one client.

use crate::client::WsClient;
use crate::effects::Effects;
use crate::frame::{Frame, SendFailure};
use crate::model::{ClientState, Event};
use crate::status::{ConnectionStatus, StatusCallback};
use std::sync::Arc;
use vstd::prelude::*;

verus! {

/// The owner of one client. Every call goes to the client as it is; the
/// exclusive borrow that each takes is what keeps concurrent callers apart.
pub struct WsManager {
    ws_client: WsClient,
}

impl View for WsManager {
    type V = ClientState<Arc<dyn StatusCallback>>;

    closed spec fn view(&self) -> ClientState<Arc<dyn StatusCallback>> {
        self.ws_client@
    }
}

impl WsManager {
    /// A manager of a new client for `url`.
    pub fn new(url: String) -> (manager: WsManager)
        ensures
            manager@ == ClientState::<Arc<dyn StatusCallback>>::initial(url@),
            manager@.wf(),
    {
        WsManager { ws_client: WsClient::new(url) }
    }

    /// The current status of the client.
    pub fn status(&self) -> (status: ConnectionStatus)
        ensures
            status == self@.status,
            self@.wf(),
    {
        self.ws_client.status()
    }

    /// The target of the next connection attempt.
    pub fn target(&self) -> (target: String)
        ensures
            target@ == self@.target(),
    {
        self.ws_client.target()
    }

    /// Sets the target that overrides the one given at construction.
    pub fn set_url(&mut self, url: String)
        ensures
            final(self)@ == old(self)@.step(Event::Configure(url@)).0,
            final(self)@.wf(),
    {
        self.ws_client.set_url(url);
    }

    /// Asks for a connection to the current target.
    pub fn start(&mut self) -> (effects: Effects)
        ensures
            (final(self)@, effects@) == old(self)@.step(Event::Start),
            effects.ack is None,
            final(self)@.wf(),
    {
        self.ws_client.start()
    }

    /// Stops the client: the status becomes `Stopped` and the connection in
    /// service is taken out of it.
    pub fn stop(&mut self) -> (effects: Effects)
        ensures
            (final(self)@, effects@) == old(self)@.step(Event::Stop),
            effects.ack is Some <==> old(self)@.observer is Some,
            final(self)@.wf(),
    {
        self.ws_client.stop()
    }

    /// Submits `request`: it is to be sent as a text frame on the connection
    /// in service, or returns at once with an empty result where there is
    /// none.
    pub fn send_request(&mut self, request: String) -> (effects: Effects)
        ensures
            (final(self)@, effects@) == old(self)@.step(Event::Request(request@)),
            effects.ack is None,
            final(self)@.wf(),
    {
        self.ws_client.request(request)
    }

    /// Installs `notify_status` as the status observer, in place of any
    /// earlier one.
    pub fn notify_status(&mut self, notify_status: Arc<dyn StatusCallback>)
        ensures
            final(self)@.observer == Some(notify_status),
            final(self)@ == old(self)@.observed_by(final(self)@.observer),
            final(self)@.wf(),
    {
        let observer = Some(notify_status);
        self.ws_client.install(observer);
    }

    /// Takes the outcome of a connection attempt.
    pub fn connection_result(&mut self, attempt: u64, established: bool) -> (effects: Effects)
        ensures
            (final(self)@, effects@) == old(self)@.step(
                if established {
                    Event::Established(attempt)
                } else {
                    Event::Refused(attempt)
                },
            ),
            effects.ack is None,
            final(self)@.wf(),
    {
        self.ws_client.connection_result(attempt, established)
    }

    /// Says whether the keepalive task of `connection` may send its ping.
    pub fn ping_due(&self, connection: u64) -> (effects: Effects)
        ensures
            (self@, effects@) == self@.step(Event::PingDue(connection)),
            effects.ack is None,
    {
        self.ws_client.ping_due(connection)
    }

    /// Takes the outcome of a keepalive ping on `connection`.
    pub fn ping_result(
        &mut self,
        connection: u64,
        result: Result<(), SendFailure>,
    ) -> (effects: Effects)
        ensures
            (final(self)@, effects@) == old(self)@.step(Event::PingResult(connection, result)),
            effects.ack is Some <==> effects.notified is Some && old(self)@.observer is Some,
            final(self)@.wf(),
    {
        self.ws_client.ping_result(connection, result)
    }

    /// Takes the outcome of sending a request's frame on `connection`.
    pub fn request_result(
        &mut self,
        connection: u64,
        result: Result<(), SendFailure>,
    ) -> (effects: Effects)
        ensures
            (final(self)@, effects@) == old(self)@.step(Event::RequestResult(connection, result)),
            effects.ack is Some <==> effects.notified is Some && old(self)@.observer is Some,
            final(self)@.wf(),
    {
        self.ws_client.request_result(connection, result)
    }

    /// Takes what a read on `connection` came back with.
    pub fn received(&mut self, connection: u64, frame: Option<Frame>) -> (effects: Effects)
        ensures
            (final(self)@, effects@) == old(self)@.step(
                Event::Received(
                    connection,
                    match frame {
                        Some(f) => Some(f@),
                        None => None,
                    },
                ),
            ),
            effects.ack is Some <==> effects.notified is Some && old(self)@.observer is Some,
            final(self)@.wf(),
    {
        self.ws_client.received(connection, frame)
    }
}

} // verus!
