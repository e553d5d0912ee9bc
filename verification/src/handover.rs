//! Taking the socket over from a daemon that is already running: the new
//! daemon asks the old one to stop and waits, for a bounded number of
//! looks, until the socket's path is free.
use vstd::prelude::*;

verus! {

/// How many times the path is looked at again before the wait is given up.
pub const HANDOVER_TRIES: u32 = 50;

/// Where the handover stands.
#[derive(Debug, Clone, Copy, PartialEq, Eq, Structural)]
pub enum Handover {
    /// Nothing is known of the path yet.
    Probing,
    /// The old daemon was asked to stop; the path was found taken this many
    /// times since.
    Waiting(u32),
    /// The path is free.
    Ready,
    /// The old daemon did not release the path in time.
    Failed,
}

/// What the new daemon does next.
#[derive(Debug, Clone, Copy, PartialEq, Eq, Structural)]
pub enum HandoverStep {
    /// Ask the daemon on the socket to stop, then look at the path again.
    AskToStop,
    /// Wait a moment, then look at the path again.
    Wait,
    /// Bind the socket.
    Bind,
    /// Give up with an error.
    GiveUp,
}

impl Handover {
    /// The handover after a look at the path, and what to do next.
    ///
    /// A free path ends the handover: the socket can be bound. A taken path
    /// has the old daemon asked to stop at the first look, and is waited
    /// for at each later one, until it has been found taken
    /// `HANDOVER_TRIES` times after the request: then the handover fails.
    /// A handover that has ended stays as it is.
    pub open spec fn after(self, path_taken: bool) -> (Handover, HandoverStep) {
        match self {
            Handover::Ready => (Handover::Ready, HandoverStep::Bind),
            Handover::Failed => (Handover::Failed, HandoverStep::GiveUp),
            Handover::Probing => if path_taken {
                (Handover::Waiting(0), HandoverStep::AskToStop)
            } else {
                (Handover::Ready, HandoverStep::Bind)
            },
            Handover::Waiting(looks) => if !path_taken {
                (Handover::Ready, HandoverStep::Bind)
            } else if looks < HANDOVER_TRIES {
                (Handover::Waiting((looks + 1) as u32), HandoverStep::Wait)
            } else {
                (Handover::Failed, HandoverStep::GiveUp)
            },
        }
    }

    /// How many more looks at the path the handover can take before it
    /// has ended.
    pub open spec fn looks_left(self) -> int {
        match self {
            Handover::Probing => HANDOVER_TRIES + 2,
            Handover::Waiting(looks) => if looks <= HANDOVER_TRIES {
                HANDOVER_TRIES + 1 - looks
            } else {
                1
            },
            Handover::Ready => 0,
            Handover::Failed => 0,
        }
    }

    /// Whether the handover has ended.
    pub open spec fn ended(self) -> bool {
        self == Handover::Ready || self == Handover::Failed
    }

    /// Takes a look at the path into account.
    pub fn next(self, path_taken: bool) -> (r: (Handover, HandoverStep))
        ensures
            r == self.after(path_taken),
    {
        match self {
            Handover::Ready => (Handover::Ready, HandoverStep::Bind),
            Handover::Failed => (Handover::Failed, HandoverStep::GiveUp),
            Handover::Probing => {
                if path_taken {
                    (Handover::Waiting(0), HandoverStep::AskToStop)
                } else {
                    (Handover::Ready, HandoverStep::Bind)
                }
            },
            Handover::Waiting(looks) => {
                if !path_taken {
                    (Handover::Ready, HandoverStep::Bind)
                } else if looks < HANDOVER_TRIES {
                    (Handover::Waiting(looks + 1), HandoverStep::Wait)
                } else {
                    (Handover::Failed, HandoverStep::GiveUp)
                }
            },
        }
    }
}

/// The handover cannot go on for ever: every look at the path brings a
/// handover that has not ended closer to its end, and one that has ended
/// stays so. The socket is bound only when the path was found free, and
/// the handover fails only on a path that is still taken.
pub proof fn lemma_handover_ends(handover: Handover, path_taken: bool)
    ensures
        !handover.ended() ==> handover.after(path_taken).0.looks_left() < handover.looks_left(),
        handover.looks_left() >= 0,
        handover.looks_left() == 0 <==> handover.ended(),
        handover.ended() ==> handover.after(path_taken).0 == handover,
        !handover.ended() ==> (handover.after(path_taken).1 == HandoverStep::Bind <==> !path_taken),
        !handover.ended() && handover.after(path_taken).1 == HandoverStep::GiveUp ==> path_taken,
{
}

} // verus!
