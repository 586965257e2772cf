//! Ownership of the render callback.
//!
//! The engine is given a context handle: a thin, fixed-size value behind
//! which the caller keeps the callback. The unit owns at most one such
//! callback at a time. It takes a new one over only once the engine has
//! accepted the registration, and whatever it stops owning it hands back, to
//! be dropped: each handle that went in comes out exactly once.

use vstd::prelude::*;
use vstd::layout::size_of;
use vstd::multiset::Multiset;
use crate::audio_unit::property::{address_of, PropertyAddress};
use crate::audio_unit::{AudioUnit, AudioUnitView, Element, Scope};
use crate::engine::PROPERTY_SET_RENDER_CALLBACK;
use crate::error::{Error, NO_ERROR};

verus! {

broadcast use vstd::layout::layout_of_primitives;

/// One call of the engine's set-property primitive that registers the render
/// callback. The value is the engine's record of two pointers: the
/// trampoline and `context`, the null handle where no callback is to be
/// called. `size` is the size of that record.
#[derive(Debug, Clone, Copy, PartialEq, Eq)]
pub struct CallbackRegistration {
    pub address: PropertyAddress,
    pub context: usize,
    pub size: u32,
}

/// What became of a registration.
#[derive(Debug, PartialEq, Eq)]
pub struct Attachment {
    /// Whether the engine accepted the registration.
    pub result: Result<(), Error>,
    /// The context handle of the callback that nothing owns any more and that
    /// has to be dropped now: the one that was attached before where the
    /// registration was accepted, the new one where it was refused.
    pub released: Option<usize>,
}

/// The context handle that stands for a callback, if any: the null handle
/// for none.
pub open spec fn context_of(f: Option<usize>) -> usize {
    match f {
        Some(context) => context,
        None => 0,
    }
}

/// The callback behind a context handle: none behind the null handle.
pub open spec fn callback_of(context: usize) -> Option<usize> {
    if context != 0 {
        Some(context)
    } else {
        None
    }
}

/// The registration of a callback with a unit.
pub open spec fn registration_of(unit: AudioUnitView, f: Option<usize>) -> CallbackRegistration {
    CallbackRegistration {
        address: address_of(unit, PROPERTY_SET_RENDER_CALLBACK, Scope::Input, Element::Output),
        context: context_of(f),
        size: (2 * size_of::<usize>()) as u32,
    }
}

/// The unit after the engine has answered a registration, and what became
/// of the callbacks. On success the new callback is attached and the old one
/// released; on failure the old one stays attached, untouched, and the new
/// one is released.
pub open spec fn spec_attached(unit: AudioUnitView, context: usize, status: i32) -> (
    AudioUnitView,
    Attachment,
) {
    if status == NO_ERROR {
        (
            AudioUnitView { instance: unit.instance, callback: callback_of(context) },
            Attachment { result: Ok(()), released: unit.callback },
        )
    } else {
        (
            unit,
            Attachment {
                result: Err(Error::NativeStatus(status)),
                released: callback_of(context),
            },
        )
    }
}

impl AudioUnit {
    /// The registration that passes a render callback to the unit, or
    /// removes the one it has where `f` is `None`. `f` is the context handle
    /// behind which the caller keeps the callback. By handing it in the
    /// caller gives the callback up: [`AudioUnit::attached`] says which
    /// handle to drop, and when.
    pub fn set_render_callback(&self, f: Option<usize>) -> (registration: CallbackRegistration)
        ensures
            registration == registration_of(self@, f),
            registration.size == 8 || registration.size == 16,
    {
        let context: usize = match f {
            Some(x) => x,
            None => 0,
        };
        let pointer: usize = core::mem::size_of::<usize>();
        CallbackRegistration {
            address: PropertyAddress {
                instance: self.instance(),
                id: PROPERTY_SET_RENDER_CALLBACK,
                scope: Scope::Input.code(),
                element: Element::Output.code(),
            },
            context,
            size: (2 * pointer) as u32,
        }
    }

    /// Takes the engine's answer to a registration.
    ///
    /// Only where the engine accepted it is the callback that was attached
    /// before released and the new one attached. Where it refused, the new
    /// callback never reached the engine and is released, and the callback
    /// that was attached stays.
    ///
    /// The handle to drop is never the null handle.
    pub fn attached(
        &mut self,
        registration: CallbackRegistration,
        status: i32,
    ) -> (attachment: Attachment)
        ensures
            (final(self)@, attachment) == spec_attached(old(self)@, registration.context, status),
            final(self)@.well_formed(),
            attachment.released != Some(0usize),
    {
        match Error::from_os_status(status) {
            Err(error) => {
                let released = if registration.context != 0 {
                    Some(registration.context)
                } else {
                    None
                };
                proof {
                    use_type_invariant(&*self);
                }
                Attachment { result: Err(error), released }
            },
            Ok(()) => {
                let released = self.free_render_callback();
                self.own_render_callback(registration.context);
                Attachment { result: Ok(()), released }
            },
        }
    }
}

/// One registration and the engine's answer to it.
pub struct Attempt {
    pub context: usize,
    pub status: i32,
}

/// A callback, or none, as the collection of what is owned.
pub open spec fn owned(callback: Option<usize>) -> Multiset<usize> {
    match callback {
        Some(context) => Multiset::singleton(context),
        None => Multiset::empty(),
    }
}

/// The unit after a series of registrations.
pub open spec fn after(unit: AudioUnitView, attempts: Seq<Attempt>) -> AudioUnitView
    decreases attempts.len(),
{
    if attempts.len() == 0 {
        unit
    } else {
        after(
            spec_attached(unit, attempts[0].context, attempts[0].status).0,
            attempts.skip(1),
        )
    }
}

/// The callbacks handed in by a series of registrations.
pub open spec fn handed_in(attempts: Seq<Attempt>) -> Multiset<usize>
    decreases attempts.len(),
{
    if attempts.len() == 0 {
        Multiset::empty()
    } else {
        owned(callback_of(attempts[0].context)).add(handed_in(attempts.skip(1)))
    }
}

/// The callbacks released in the course of a series of registrations.
pub open spec fn released(unit: AudioUnitView, attempts: Seq<Attempt>) -> Multiset<usize>
    decreases attempts.len(),
{
    if attempts.len() == 0 {
        Multiset::empty()
    } else {
        let (next, attachment) = spec_attached(unit, attempts[0].context, attempts[0].status);
        owned(attachment.released).add(released(next, attempts.skip(1)))
    }
}

/// Attaching a callback while another is attached releases the other and
/// leaves the new one as the only callback of the unit; a refused
/// registration leaves the attached one in place and releases the new one.
pub proof fn lemma_attach_replaces(unit: AudioUnitView, a: usize, b: usize, status: i32)
    requires
        unit.callback == Some(a),
        b != 0,
    ensures
        ({
            let (next, attachment) = spec_attached(unit, b, status);
            &&& status == NO_ERROR ==> next.callback == Some(b) && attachment.released == Some(a)
                && attachment.result is Ok
            &&& status != NO_ERROR ==> next.callback == Some(a) && attachment.released == Some(b)
                && attachment.result is Err
            &&& owned(next.callback).len() == 1
        }),
{
}

/// No callback is leaked and none is released twice. Over any series of
/// registrations, whatever the engine answered, the callbacks that the unit
/// owned at first together with those handed in are exactly the callbacks
/// released together with the one still attached. So a handle that went in
/// once is, at every moment, either the attached one or released exactly
/// once, and never both. The null handle is never attached and never
/// released.
pub proof fn lemma_callbacks_conserved(unit: AudioUnitView, attempts: Seq<Attempt>)
    requires
        unit.well_formed(),
    ensures
        after(unit, attempts).well_formed(),
        released(unit, attempts).count(0) == 0,
        owned(unit.callback).add(handed_in(attempts)) =~= released(unit, attempts).add(
            owned(after(unit, attempts).callback),
        ),
        forall|context: usize|
            owned(unit.callback).count(context) + handed_in(attempts).count(context) == 1 ==> (
            #[trigger] released(unit, attempts).count(context)) + owned(
                after(unit, attempts).callback,
            ).count(context) == 1,
    decreases attempts.len(),
{
    let before = owned(unit.callback).add(handed_in(attempts));
    let afterwards = released(unit, attempts).add(owned(after(unit, attempts).callback));
    if attempts.len() > 0 {
        let (next, attachment) = spec_attached(unit, attempts[0].context, attempts[0].status);
        let rest = attempts.skip(1);
        lemma_callbacks_conserved(next, rest);
        let first = owned(callback_of(attempts[0].context));
        assert forall|context: usize| before.count(context) == afterwards.count(context) by {
            assert(owned(next.callback).add(handed_in(rest)).count(context) == released(
                next,
                rest,
            ).add(owned(after(next, rest).callback)).count(context));
            assert(owned(unit.callback).count(context) + first.count(context) == owned(
                attachment.released,
            ).count(context) + owned(next.callback).count(context));
        }
    }
    assert(before =~= afterwards);
    assert forall|context: usize|
        owned(unit.callback).count(context) + handed_in(attempts).count(context)
            == 1 implies (#[trigger] released(unit, attempts).count(context)) + owned(
        after(unit, attempts).callback,
    ).count(context) == 1 by {
        assert(before.count(context) == afterwards.count(context));
    }
}

} // verus!
