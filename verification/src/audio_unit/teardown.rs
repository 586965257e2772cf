//! Ending a unit's life: stop, uninitialize, release the callback.

use vstd::prelude::*;
use crate::audio_unit::{AudioUnit, AudioUnitView};
use crate::engine::{Call, Reply};
use crate::error::{Error, NO_ERROR};

verus! {

/// Where the destruction of a unit stands: which engine call is due next.
/// Both states remember the callback that is released at the end.
#[derive(Debug, Clone, Copy, PartialEq, Eq)]
pub enum Teardown {
    /// The instance has to be stopped.
    Stopping { instance: usize, callback: Option<usize> },
    /// The instance is stopped; it has to be uninitialized.
    Uninitializing { instance: usize, callback: Option<usize> },
}

/// What one answer of the engine made of a destruction.
#[derive(Debug, PartialEq, Eq)]
pub enum Ending {
    /// Another call is due.
    Pending(Teardown),
    /// The instance is stopped and uninitialized. The callback with this
    /// context handle, if there is one, is no longer owned by anything and
    /// has to be dropped now.
    Released { callback: Option<usize> },
    /// The engine refused to stop or to uninitialize. Nothing can take the
    /// error at this point: the process has to halt.
    Halted(Error),
}

impl Teardown {
    /// The call that is due in this state.
    pub open spec fn spec_call(self) -> Call {
        match self {
            Teardown::Stopping { instance, callback } => Call::Stop { instance },
            Teardown::Uninitializing { instance, callback } => Call::Uninitialize { instance },
        }
    }

    /// The call that is due in this state.
    pub fn call(&self) -> (call: Call)
        ensures
            call == self.spec_call(),
    {
        match *self {
            Teardown::Stopping { instance, callback: _ } => Call::Stop { instance },
            Teardown::Uninitializing { instance, callback: _ } => Call::Uninitialize { instance },
        }
    }

    /// What the engine's answer to the due call leads to.
    pub open spec fn spec_advance(self, reply: Reply) -> Ending {
        if reply.status != NO_ERROR {
            Ending::Halted(Error::NativeStatus(reply.status))
        } else {
            match self {
                Teardown::Stopping { instance, callback } => Ending::Pending(
                    Teardown::Uninitializing { instance, callback },
                ),
                Teardown::Uninitializing { instance, callback } => Ending::Released { callback },
            }
        }
    }

    /// Takes the engine's answer to the due call.
    pub fn advance(self, reply: Reply) -> (ending: Ending)
        ensures
            ending == self.spec_advance(reply),
    {
        match Error::from_os_status(reply.status) {
            Err(error) => Ending::Halted(error),
            Ok(()) => match self {
                Teardown::Stopping { instance, callback } => Ending::Pending(
                    Teardown::Uninitializing { instance, callback },
                ),
                Teardown::Uninitializing { instance: _, callback } => Ending::Released {
                    callback,
                },
            },
        }
    }

    /// The calls issued and the outcome reached when the engine answers the
    /// due calls with `replies`, in order. The outcome is `Pending` where the
    /// answers run out before the destruction has ended.
    pub open spec fn run(self, replies: Seq<Reply>) -> (Seq<Call>, Ending)
        decreases replies.len(),
    {
        if replies.len() == 0 {
            (seq![self.spec_call()], Ending::Pending(self))
        } else {
            match self.spec_advance(replies[0]) {
                Ending::Pending(next) => {
                    let (calls, ending) = next.run(replies.skip(1));
                    (seq![self.spec_call()] + calls, ending)
                },
                ending => (seq![self.spec_call()], ending),
            }
        }
    }
}

impl AudioUnit {
    /// How the destruction of a unit with this content begins.
    pub open spec fn spec_destroy(unit: AudioUnitView) -> Teardown {
        Teardown::Stopping { instance: unit.instance, callback: unit.callback }
    }

    /// Begins the destruction of the unit, which is consumed. The caller
    /// performs each due call and hands the answer to [`Teardown::advance`]
    /// until that says to release the callback or to halt. The callback to
    /// release is never the null handle.
    pub fn destroy(self) -> (teardown: Teardown)
        ensures
            teardown == AudioUnit::spec_destroy(self@),
            self@.well_formed(),
    {
        Teardown::Stopping { instance: self.instance(), callback: self.render_callback() }
    }
}

/// Destruction asks the engine to stop, then to uninitialize, in that order
/// and nothing else, whatever the unit went through before: the first call
/// is always the stop, the uninitialize follows exactly when the stop
/// succeeded, and the callback is released exactly when both succeeded.
pub proof fn lemma_destroy_stops_then_uninitializes(unit: AudioUnitView, replies: Seq<Reply>)
    ensures
        ({
            let (calls, ending) = AudioUnit::spec_destroy(unit).run(replies);
            let stop = Call::Stop { instance: unit.instance };
            let uninitialize = Call::Uninitialize { instance: unit.instance };
            let stopped = replies.len() >= 1 && replies[0].status == NO_ERROR;
            let uninitialized = stopped && replies.len() >= 2 && replies[1].status == NO_ERROR;
            &&& calls == if stopped { seq![stop, uninitialize] } else { seq![stop] }
            &&& uninitialized <==> ending == (Ending::Released { callback: unit.callback })
            &&& ending is Halted <==> (replies.len() >= 1 && !stopped) || (stopped && replies.len()
                >= 2 && !uninitialized)
        }),
{
    let start = AudioUnit::spec_destroy(unit);
    let stop = Call::Stop { instance: unit.instance };
    let uninitialize = Call::Uninitialize { instance: unit.instance };
    if replies.len() >= 1 && replies[0].status == NO_ERROR {
        let next = Teardown::Uninitializing { instance: unit.instance, callback: unit.callback };
        let rest = replies.skip(1);
        assert(start.spec_advance(replies[0]) == Ending::Pending(next));
        if rest.len() >= 1 {
            assert(rest[0] == replies[1]);
            assert(next.run(rest).0 == seq![uninitialize]);
        } else {
            assert(next.run(rest).0 == seq![uninitialize]);
        }
        assert(seq![stop] + seq![uninitialize] =~= seq![stop, uninitialize]);
    }
}

} // verus!
