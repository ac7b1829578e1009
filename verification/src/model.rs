//! The client as a state machine over mathematical values: its states, the
//! events that move it, and what each move asks of the transport.

use crate::frame::{FrameView, SendFailure, KEEPALIVE_INTERVAL};
use crate::status::ConnectionStatus;
use vstd::prelude::*;

verus! {

/// The state of a client whose observer is of type `O`.
///
/// Connections are told apart by number. Every connection attempt gets the
/// next number; a connection that is taken into service keeps the number of
/// its attempt, and so does the keepalive task that is bound to it.
pub struct ClientState<O> {
    /// The target given at construction.
    pub url: Seq<char>,
    /// The target that overrides `url`, once one was set.
    pub base_url: Option<Seq<char>>,
    pub status: ConnectionStatus,
    pub observer: Option<O>,
    /// How many connection attempts were started; their numbers are
    /// `0..issued`.
    pub issued: u64,
    /// The attempt whose outcome is still open.
    pub pending: Option<u64>,
    /// The connection in service, whose keepalive task is the one alive.
    pub keepalive: Option<u64>,
    /// Whether a request waits for its reply.
    pub awaiting: bool,
}

/// What can happen to a client: a call of the host application, or news from
/// the transport about one connection.
pub enum Event<O> {
    /// The host sets the target that overrides the one given at construction.
    Configure(Seq<char>),
    /// The host installs a status observer.
    Register(O),
    /// The host asks for a connection.
    Start,
    /// The attempt with this number led to an open connection.
    Established(u64),
    /// The attempt with this number failed.
    Refused(u64),
    /// The keepalive task of this connection is about to send its ping.
    PingDue(u64),
    /// The keepalive task of this connection has tried to send its ping.
    PingResult(u64, Result<(), SendFailure>),
    /// The host submits a request.
    Request(Seq<char>),
    /// The text frame of a request was handed to this connection.
    RequestResult(u64, Result<(), SendFailure>),
    /// A read on this connection has ended: with a frame, or with `None`
    /// where the read failed or the stream is at its end.
    Received(u64, Option<FrameView>),
    /// The host stops the client.
    Stop,
}

/// What one move asks of the caller.
pub struct EffectsView {
    /// The status that was stored in this move. The observer registered at
    /// the start of the move, if any, is told of it.
    pub notified: Option<ConnectionStatus>,
    /// A connection to open: the number of the attempt and the target.
    pub connect: Option<(u64, Seq<char>)>,
    /// The connection that goes into service: a keepalive task is to be
    /// started for it.
    pub spawned: Option<u64>,
    /// The connection that is out of service: it is to be closed and its
    /// keepalive task, if it has one, is to end without another ping.
    pub ended: Option<u64>,
    /// A frame to send, and the connection to send it on.
    pub send: Option<(u64, FrameView)>,
    /// Seconds that the keepalive task is to wait before it comes back.
    pub wait: Option<u64>,
    /// The result that the waiting request returns with.
    pub reply: Option<Seq<char>>,
    /// Whether the move is worth a diagnostic entry.
    pub diagnostic: bool,
}

impl EffectsView {
    /// Nothing to do.
    pub open spec fn quiet() -> EffectsView {
        EffectsView {
            notified: None,
            connect: None,
            spawned: None,
            ended: None,
            send: None,
            wait: None,
            reply: None,
            diagnostic: false,
        }
    }

    /// The keepalive tasks that are alive once the caller has done what this
    /// asks, where those in `before` were alive.
    pub open spec fn tasks(self, before: Set<u64>) -> Set<u64> {
        let kept = match self.ended {
            Some(connection) => before.remove(connection),
            None => before,
        };
        match self.spawned {
            Some(connection) => kept.insert(connection),
            None => kept,
        }
    }

    /// This connection is none of the client's business any more.
    pub open spec fn dismiss(connection: u64) -> EffectsView {
        EffectsView { ended: Some(connection), ..EffectsView::quiet() }
    }
}

impl<O> ClientState<O> {
    /// The state of a client that was just made for `url`.
    pub open spec fn initial(url: Seq<char>) -> ClientState<O> {
        ClientState {
            url,
            base_url: None,
            status: ConnectionStatus::Stopped,
            observer: None,
            issued: 0,
            pending: None,
            keepalive: None,
            awaiting: false,
        }
    }

    /// The states that a client can be in.
    pub open spec fn wf(self) -> bool {
        &&& self.keepalive matches Some(k) ==> k < self.issued
        &&& self.pending matches Some(p) ==> p + 1 == self.issued
        &&& self.keepalive matches Some(k) ==> self.pending is Some ==> k + 1 < self.issued
        &&& self.status == ConnectionStatus::Connected ==> self.keepalive is Some
        &&& self.awaiting ==> self.keepalive is Some
    }

    /// The keepalive tasks that the client counts on: that of the connection
    /// in service, and no other.
    pub open spec fn live(self) -> Set<u64> {
        match self.keepalive {
            Some(connection) => set![connection],
            None => Set::empty(),
        }
    }

    /// Whether every connection that the client still knows has a number of
    /// `floor` or above.
    pub open spec fn knows_none_below(self, floor: u64) -> bool {
        &&& floor <= self.issued
        &&& self.keepalive matches Some(k) ==> floor <= k
        &&& self.pending matches Some(p) ==> floor <= p
    }

    /// The target of the next connection attempt.
    pub open spec fn target(self) -> Seq<char> {
        match self.base_url {
            Some(base) => base,
            None => self.url,
        }
    }

    /// The result that a request is released with when its connection goes
    /// out of service: empty, and only if a request is waiting.
    pub open spec fn released(self) -> Option<Seq<char>> {
        if self.awaiting {
            Some(Seq::empty())
        } else {
            None
        }
    }

    /// The state with `observer` in the place of the one registered.
    pub open spec fn observed_by(self, observer: Option<O>) -> ClientState<O> {
        ClientState { observer, ..self }
    }

    /// The state with `url` as the target that overrides the first.
    pub open spec fn configured(self, url: Seq<char>) -> ClientState<O> {
        ClientState { base_url: Some(url), ..self }
    }

    /// The connection in service is lost: the status becomes disconnected,
    /// the observer is told, the keepalive task ends and a request that waits
    /// returns empty.
    pub open spec fn lose(self, connection: u64, diagnostic: bool) -> (
        ClientState<O>,
        EffectsView,
    ) {
        (
            ClientState {
                status: ConnectionStatus::Disconnected,
                keepalive: None,
                awaiting: false,
                ..self
            },
            EffectsView {
                notified: Some(ConnectionStatus::Disconnected),
                ended: Some(connection),
                reply: self.released(),
                diagnostic,
                ..EffectsView::quiet()
            },
        )
    }

    /// The host asks for a connection: the attempt gets the next number and
    /// takes the place of one whose outcome is open. A client that has used up
    /// its numbers asks for nothing.
    pub open spec fn start(self) -> (ClientState<O>, EffectsView) {
        if self.issued < u64::MAX {
            (
                ClientState {
                    issued: (self.issued + 1) as u64,
                    pending: Some(self.issued),
                    ..self
                },
                EffectsView {
                    connect: Some((self.issued, self.target())),
                    ..EffectsView::quiet()
                },
            )
        } else {
            (self, EffectsView::quiet())
        }
    }

    /// An attempt led to an open connection. That of the attempt waited for
    /// goes into service in place of the one that was; that of any other
    /// attempt is turned away.
    pub open spec fn established(self, attempt: u64) -> (ClientState<O>, EffectsView) {
        if self.pending == Some(attempt) {
            (
                ClientState { pending: None, keepalive: Some(attempt), awaiting: false, ..self },
                EffectsView {
                    spawned: Some(attempt),
                    ended: self.keepalive,
                    reply: self.released(),
                    ..EffectsView::quiet()
                },
            )
        } else if self.keepalive == Some(attempt) {
            (self, EffectsView::quiet())
        } else {
            (self, EffectsView::dismiss(attempt))
        }
    }

    /// An attempt failed: the client is as it was before it asked.
    pub open spec fn refused(self, attempt: u64) -> (ClientState<O>, EffectsView) {
        if self.pending == Some(attempt) {
            (ClientState { pending: None, ..self }, EffectsView::quiet())
        } else {
            (self, EffectsView::quiet())
        }
    }

    /// A keepalive task is about to ping: that of the connection in service
    /// gets its ping, any other is told to end.
    pub open spec fn ping_due(self, connection: u64) -> (ClientState<O>, EffectsView) {
        if self.keepalive == Some(connection) {
            (
                self,
                EffectsView {
                    send: Some((connection, FrameView::keepalive_ping())),
                    ..EffectsView::quiet()
                },
            )
        } else {
            (self, EffectsView::dismiss(connection))
        }
    }

    /// A keepalive task has tried to ping. On the connection in service a
    /// ping that went out makes the status connected and is followed by a
    /// wait, and one that failed is the loss of the connection.
    pub open spec fn ping_result(self, connection: u64, result: Result<(), SendFailure>) -> (
        ClientState<O>,
        EffectsView,
    ) {
        if self.keepalive != Some(connection) {
            (self, EffectsView::dismiss(connection))
        } else {
            match result {
                Ok(_) => if self.status == ConnectionStatus::Connected {
                    (self, EffectsView { wait: Some(KEEPALIVE_INTERVAL), ..EffectsView::quiet() })
                } else {
                    (
                        ClientState { status: ConnectionStatus::Connected, ..self },
                        EffectsView {
                            notified: Some(ConnectionStatus::Connected),
                            wait: Some(KEEPALIVE_INTERVAL),
                            ..EffectsView::quiet()
                        },
                    )
                },
                Err(failure) => self.lose(connection, failure.is_unexpected()),
            }
        }
    }

    /// The host submits a request: it goes out on the connection in service
    /// unless another one waits, and else returns at once, empty.
    pub open spec fn request(self, payload: Seq<char>) -> (ClientState<O>, EffectsView) {
        if self.keepalive is Some && !self.awaiting {
            (
                ClientState { awaiting: true, ..self },
                EffectsView {
                    send: Some((self.keepalive->0, FrameView::Text(payload))),
                    ..EffectsView::quiet()
                },
            )
        } else {
            (self, EffectsView { reply: Some(Seq::empty()), ..EffectsView::quiet() })
        }
    }

    /// The frame of a request was handed to a connection: a failure on the
    /// connection in service is its loss.
    pub open spec fn request_result(self, connection: u64, result: Result<(), SendFailure>) -> (
        ClientState<O>,
        EffectsView,
    ) {
        if self.keepalive != Some(connection) {
            (self, EffectsView::dismiss(connection))
        } else {
            match result {
                Ok(_) => (self, EffectsView::quiet()),
                Err(failure) => self.lose(connection, failure.is_unexpected()),
            }
        }
    }

    /// A read has ended. On the connection in service a text frame is the
    /// reply to the request that waits, a close frame or a failed read is the
    /// loss of the connection, and any other frame is passed over.
    pub open spec fn received(self, connection: u64, frame: Option<FrameView>) -> (
        ClientState<O>,
        EffectsView,
    ) {
        if self.keepalive != Some(connection) {
            (self, EffectsView::dismiss(connection))
        } else {
            match frame {
                Some(FrameView::Text(text)) => if self.awaiting {
                    (
                        ClientState { awaiting: false, ..self },
                        EffectsView { reply: Some(text), ..EffectsView::quiet() },
                    )
                } else {
                    (self, EffectsView::quiet())
                },
                Some(FrameView::Close) | None => self.lose(connection, false),
                Some(_) => (self, EffectsView::quiet()),
            }
        }
    }

    /// The host stops the client: whatever connection it has or waits for is
    /// given up.
    pub open spec fn stop(self) -> (ClientState<O>, EffectsView) {
        (
            ClientState {
                status: ConnectionStatus::Stopped,
                pending: None,
                keepalive: None,
                awaiting: false,
                ..self
            },
            EffectsView {
                notified: Some(ConnectionStatus::Stopped),
                ended: self.keepalive,
                reply: self.released(),
                ..EffectsView::quiet()
            },
        )
    }

    /// One move of the client: the state after `event`, and what it asks of
    /// the caller.
    pub open spec fn step(self, event: Event<O>) -> (ClientState<O>, EffectsView) {
        match event {
            Event::Configure(url) => (self.configured(url), EffectsView::quiet()),
            Event::Register(observer) => (self.observed_by(Some(observer)), EffectsView::quiet()),
            Event::Start => self.start(),
            Event::Established(attempt) => self.established(attempt),
            Event::Refused(attempt) => self.refused(attempt),
            Event::PingDue(connection) => self.ping_due(connection),
            Event::PingResult(connection, result) => self.ping_result(connection, result),
            Event::Request(payload) => self.request(payload),
            Event::RequestResult(connection, result) => self.request_result(connection, result),
            Event::Received(connection, frame) => self.received(connection, frame),
            Event::Stop => self.stop(),
        }
    }

    /// The state after a sequence of events.
    pub open spec fn after(self, events: Seq<Event<O>>) -> ClientState<O>
        decreases events.len(),
    {
        if events.len() == 0 {
            self
        } else {
            self.after(events.drop_last()).step(events.last()).0
        }
    }

    /// What the event at position `at` of `events` asks of the caller.
    pub open spec fn output_at(self, events: Seq<Event<O>>, at: int) -> EffectsView
        recommends
            0 <= at < events.len(),
    {
        self.after(events.take(at)).step(events[at]).1
    }

    /// The keepalive tasks that are alive after a sequence of events, where
    /// the caller starts and ends tasks as it is asked to.
    pub open spec fn tasks_after(self, events: Seq<Event<O>>) -> Set<u64>
        decreases events.len(),
    {
        if events.len() == 0 {
            self.live()
        } else {
            self.after(events.drop_last()).step(events.last()).1.tasks(
                self.tasks_after(events.drop_last()),
            )
        }
    }

    /// The observer that is told of the status stored by the event at
    /// position `at`, if the event stores one and an observer is registered.
    pub open spec fn notified_at(self, events: Seq<Event<O>>, at: int) -> Option<O>
        recommends
            0 <= at < events.len(),
    {
        if self.output_at(events, at).notified is Some {
            self.after(events.take(at)).observer
        } else {
            None
        }
    }
}

} // verus!
