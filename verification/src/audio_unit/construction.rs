//! Bringing a unit to life: describe, find, instantiate, initialize.

use vstd::prelude::*;
use crate::audio_unit::{AudioUnit, AudioUnitView, Type};
use crate::engine::{Call, ComponentDescription, Reply, MANUFACTURER_IDENTIFIER};
use crate::error::{Error, NO_ERROR};

verus! {

/// Where the construction of a unit stands: which engine call is due next.
#[derive(Debug, Clone, Copy, PartialEq, Eq)]
pub enum Construction {
    /// Discovery has to find a component for the description.
    Finding { description: ComponentDescription },
    /// The component was found; an instance of it has to be created.
    Instantiating { component: usize },
    /// The instance exists; it has to be initialized.
    Initializing { instance: usize },
}

/// What one answer of the engine made of a construction.
pub enum Progress {
    /// Another call is due.
    Pending(Construction),
    /// The instance is initialized: here is its unit.
    Ready(AudioUnit),
    /// The construction failed; no unit exists.
    Failed(Error),
}

/// [`Progress`] in specifications, with the unit as what it holds.
pub enum Step {
    Pending(Construction),
    Ready(AudioUnitView),
    Failed(Error),
}

impl View for Progress {
    type V = Step;

    open spec fn view(&self) -> Step {
        match *self {
            Progress::Pending(next) => Step::Pending(next),
            Progress::Ready(unit) => Step::Ready(unit@),
            Progress::Failed(error) => Step::Failed(error),
        }
    }
}

/// The description of the component that a unit of the given type is made
/// from.
pub open spec fn description_of(code: u32, subtype: u32, flags: u32, mask: u32)
    -> ComponentDescription {
    ComponentDescription {
        component_type: code,
        component_sub_type: subtype,
        component_manufacturer: MANUFACTURER_IDENTIFIER,
        component_flags: flags,
        component_flags_mask: mask,
    }
}

impl Construction {
    /// The call that is due in this state.
    pub open spec fn spec_call(self) -> Call {
        match self {
            Construction::Finding { description } => Call::FindNext { description },
            Construction::Instantiating { component } => Call::InstanceNew { component },
            Construction::Initializing { instance } => Call::Initialize { instance },
        }
    }

    /// The call that is due in this state.
    pub fn call(&self) -> (call: Call)
        ensures
            call == self.spec_call(),
    {
        match *self {
            Construction::Finding { description } => Call::FindNext { description },
            Construction::Instantiating { component } => Call::InstanceNew { component },
            Construction::Initializing { instance } => Call::Initialize { instance },
        }
    }

    /// What the engine's answer to the due call leads to.
    ///
    /// Discovery answers with a handle alone, and the null handle means that
    /// nothing matched. Creating an instance answers with a status and the
    /// instance's handle, initializing with a status.
    pub open spec fn spec_advance(self, reply: Reply) -> Step {
        match self {
            Construction::Finding { description } => {
                if reply.handle == 0 {
                    Step::Failed(Error::NoMatchingDefaultAudioUnitFound)
                } else {
                    Step::Pending(Construction::Instantiating { component: reply.handle })
                }
            },
            Construction::Instantiating { component } => {
                if reply.status != NO_ERROR {
                    Step::Failed(Error::NativeStatus(reply.status))
                } else {
                    Step::Pending(Construction::Initializing { instance: reply.handle })
                }
            },
            Construction::Initializing { instance } => {
                if reply.status != NO_ERROR {
                    Step::Failed(Error::NativeStatus(reply.status))
                } else {
                    Step::Ready(AudioUnitView { instance, callback: None })
                }
            },
        }
    }

    /// The calls issued and the outcome reached when the engine answers the
    /// due calls with `replies`, in order. The outcome is `Pending` where the
    /// answers run out before the construction has ended.
    pub open spec fn run(self, replies: Seq<Reply>) -> (Seq<Call>, Step)
        decreases replies.len(),
    {
        if replies.len() == 0 {
            (seq![self.spec_call()], Step::Pending(self))
        } else {
            match self.spec_advance(replies[0]) {
                Step::Pending(next) => {
                    let (calls, step) = next.run(replies.skip(1));
                    (seq![self.spec_call()] + calls, step)
                },
                step => (seq![self.spec_call()], step),
            }
        }
    }

    /// Takes the engine's answer to the due call.
    pub fn advance(self, reply: Reply) -> (progress: Progress)
        ensures
            progress@ == self.spec_advance(reply),
    {
        match self {
            Construction::Finding { description: _ } => {
                if reply.handle == 0 {
                    Progress::Failed(Error::NoMatchingDefaultAudioUnitFound)
                } else {
                    Progress::Pending(Construction::Instantiating { component: reply.handle })
                }
            },
            Construction::Instantiating { component: _ } => {
                match Error::from_os_status(reply.status) {
                    Err(error) => Progress::Failed(error),
                    Ok(()) => Progress::Pending(
                        Construction::Initializing { instance: reply.handle },
                    ),
                }
            },
            Construction::Initializing { instance } => {
                match Error::from_os_status(reply.status) {
                    Err(error) => Progress::Failed(error),
                    Ok(()) => Progress::Ready(AudioUnit::initialized(instance)),
                }
            },
        }
    }
}

impl AudioUnit {
    /// How the construction of a unit of the given type begins.
    pub open spec fn spec_new_with_flags(ty: Type, flags: u32, mask: u32) -> Result<
        Construction,
        Error,
    > {
        match ty.subtype {
            None => Err(Error::NoKnownSubtype),
            Some(subtype) => Ok(
                Construction::Finding {
                    description: description_of(ty.code, subtype, flags, mask),
                },
            ),
        }
    }

    /// Begins the construction of a unit of the given type, with no
    /// component flags.
    pub fn new(ty: Type) -> (result: Result<Construction, Error>)
        ensures
            result == AudioUnit::spec_new_with_flags(ty, 0, 0),
    {
        AudioUnit::new_with_flags(ty, 0, 0)
    }

    /// Begins the construction of a unit of the given type with the given
    /// component flags and mask.
    ///
    /// A type without a subtype is refused with `NoKnownSubtype`. Otherwise
    /// the construction starts at discovery, with the fixed manufacturer
    /// identifier in the description. The caller performs each due call and
    /// hands the answer to [`Construction::advance`] until that yields the
    /// unit or the failure.
    pub fn new_with_flags(ty: Type, flags: u32, mask: u32) -> (result: Result<
        Construction,
        Error,
    >)
        ensures
            result == AudioUnit::spec_new_with_flags(ty, flags, mask),
    {
        let sub_type_u32: u32 = match ty.to_subtype_u32() {
            Some(u) => u,
            None => return Err(Error::NoKnownSubtype),
        };
        let description = ComponentDescription {
            component_type: ty.to_u32(),
            component_sub_type: sub_type_u32,
            component_manufacturer: MANUFACTURER_IDENTIFIER,
            component_flags: flags,
            component_flags_mask: mask,
        };
        Ok(Construction::Finding { description })
    }
}

/// A unit comes into being only through a successful initialize: whatever the
/// engine answers, a construction yields a unit exactly when discovery found
/// a component and both the creation and the initialization of the instance
/// reported success. The calls issued up to then are find, create,
/// initialize, in that order, each on the handle that the call before gave
/// out, and the unit holds the initialized instance and no callback. No
/// start can come earlier, since a start takes the unit.
pub proof fn lemma_unit_only_after_initialize(
    ty: Type,
    flags: u32,
    mask: u32,
    replies: Seq<Reply>,
)
    requires
        ty.subtype is Some,
    ensures
        ({
            let start = AudioUnit::spec_new_with_flags(ty, flags, mask)->Ok_0;
            let (calls, step) = start.run(replies);
            let succeeded = replies.len() >= 3 && replies[0].handle != 0 && replies[1].status
                == NO_ERROR && replies[2].status == NO_ERROR;
            &&& AudioUnit::spec_new_with_flags(ty, flags, mask) is Ok
            &&& step is Ready <==> succeeded
            &&& succeeded ==> step == Step::Ready(
                AudioUnitView { instance: replies[1].handle, callback: None },
            )
            &&& succeeded ==> calls == seq![
                Call::FindNext {
                    description: description_of(ty.code, ty.subtype->Some_0, flags, mask),
                },
                Call::InstanceNew { component: replies[0].handle },
                Call::Initialize { instance: replies[1].handle },
            ]
        }),
{
    let description = description_of(ty.code, ty.subtype->Some_0, flags, mask);
    let start = Construction::Finding { description };
    reveal_with_fuel(Construction::run, 4);
    if replies.len() >= 1 && replies[0].handle != 0 {
        let second = Construction::Instantiating { component: replies[0].handle };
        let rest = replies.skip(1);
        assert(start.spec_advance(replies[0]) == Step::Pending(second));
        if rest.len() >= 1 {
            assert(rest[0] == replies[1]);
            if replies[1].status == NO_ERROR {
                let third = Construction::Initializing { instance: replies[1].handle };
                let last = rest.skip(1);
                assert(second.spec_advance(rest[0]) == Step::Pending(third));
                if last.len() >= 1 {
                    assert(last[0] == replies[2]);
                }
                assert(third.run(last).0 == seq![third.spec_call()]);
                assert(second.run(rest).0 == seq![second.spec_call()] + seq![third.spec_call()]);
                assert(seq![start.spec_call()] + (seq![second.spec_call()] + seq![
                    third.spec_call(),
                ]) =~= seq![start.spec_call(), second.spec_call(), third.spec_call()]);
            }
        }
    }
}

} // verus!
