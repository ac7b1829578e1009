//! What an operation of the client hands back to its caller.

use crate::frame::Frame;
use crate::model::EffectsView;
use crate::status::ConnectionStatus;
use vstd::prelude::*;

verus! {

/// What one operation of the client asks of its caller, and what the
/// observer answered.
#[derive(Debug, PartialEq, Eq)]
pub struct Effects {
    /// The status that was stored and handed to the observer.
    pub notified: Option<ConnectionStatus>,
    /// What the observer returned, where one was told.
    pub ack: Option<String>,
    /// A connection to open: the number of the attempt and the target.
    pub connect: Option<(u64, String)>,
    /// The connection that goes into service: start its keepalive task.
    pub spawned: Option<u64>,
    /// The connection that is out of service: close it and end its
    /// keepalive task.
    pub ended: Option<u64>,
    /// A frame to send, and the connection to send it on.
    pub send: Option<(u64, Frame)>,
    /// Seconds that the keepalive task is to wait before it comes back.
    pub wait: Option<u64>,
    /// The result that the waiting request returns with.
    pub reply: Option<String>,
    /// Whether the operation is worth a diagnostic entry.
    pub diagnostic: bool,
}

impl View for Effects {
    type V = EffectsView;

    open spec fn view(&self) -> EffectsView {
        EffectsView {
            notified: self.notified,
            connect: match self.connect {
                Some((attempt, target)) => Some((attempt, target@)),
                None => None,
            },
            spawned: self.spawned,
            ended: self.ended,
            send: match self.send {
                Some((connection, frame)) => Some((connection, frame@)),
                None => None,
            },
            wait: self.wait,
            reply: match self.reply {
                Some(text) => Some(text@),
                None => None,
            },
            diagnostic: self.diagnostic,
        }
    }
}

impl Effects {
    /// Nothing to do.
    pub fn quiet() -> (effects: Effects)
        ensures
            effects@ == EffectsView::quiet(),
            effects.ack is None,
    {
        Effects {
            notified: None,
            ack: None,
            connect: None,
            spawned: None,
            ended: None,
            send: None,
            wait: None,
            reply: None,
            diagnostic: false,
        }
    }

    /// These effects with `status` as the status stored and `ack` as what
    /// the observer answered when it was told.
    pub fn told(self, status: ConnectionStatus, ack: Option<String>) -> (effects: Effects)
        ensures
            effects == (Effects { notified: Some(status), ack, ..self }),
            effects@ == (EffectsView { notified: Some(status), ..self@ }),
    {
        let mut effects = self;
        effects.notified = Some(status);
        effects.ack = ack;
        effects
    }

    /// The connection is none of the client's business any more.
    pub fn dismiss(connection: u64) -> (effects: Effects)
        ensures
            effects@ == EffectsView::dismiss(connection),
            effects.ack is None,
    {
        let mut effects = Effects::quiet();
        effects.ended = Some(connection);
        effects
    }
}

} // verus!
