//! The audio unit: its addressing axes and the handle that owns an engine
//! instance.

use vstd::prelude::*;
use crate::engine::Call;

pub mod callback;
pub mod construction;
pub mod property;
pub mod render;
pub mod teardown;

verus! {

/// The number of frames available in some buffer.
pub type NumFrames = usize;

/// A unit type as the engine knows it: the code of the type and, where the
/// type names one, the code of its subtype.
#[derive(Copy, Clone, Debug, PartialEq, Eq)]
pub struct Type {
    pub code: u32,
    pub subtype: Option<u32>,
}

impl Type {
    /// The code of the type.
    pub fn to_u32(&self) -> (code: u32)
        ensures
            code == self.code,
    {
        self.code
    }

    /// The code of the subtype, if the type names one.
    pub fn to_subtype_u32(&self) -> (subtype: Option<u32>)
        ensures
            subtype == self.subtype,
    {
        self.subtype
    }
}

/// An initialized engine instance together with the render callback that it
/// currently owns.
///
/// A value of this type exists only for an instance that the engine has
/// initialized, and it is consumed by [`AudioUnit::destroy`].
pub struct AudioUnit {
    instance: usize,
    maybe_callback: Option<usize>,
}

/// What an [`AudioUnit`] holds.
pub struct AudioUnitView {
    /// The engine's handle of the instance.
    pub instance: usize,
    /// The context handle of the attached render callback.
    pub callback: Option<usize>,
}

impl AudioUnitView {
    /// An attached callback is never the null handle.
    pub open spec fn well_formed(self) -> bool {
        self.callback != Some(0usize)
    }
}

impl View for AudioUnit {
    type V = AudioUnitView;

    closed spec fn view(&self) -> AudioUnitView {
        AudioUnitView { instance: self.instance, callback: self.maybe_callback }
    }
}

impl AudioUnit {
    #[verifier::type_invariant]
    spec fn inv(self) -> bool {
        self@.well_formed()
    }

    /// The handle for an instance that the engine has just initialized.
    pub(crate) fn initialized(instance: usize) -> (unit: AudioUnit)
        ensures
            unit@ == (AudioUnitView { instance, callback: None }),
    {
        AudioUnit { instance, maybe_callback: None }
    }

    /// The engine's handle of the instance.
    pub fn instance(&self) -> (instance: usize)
        ensures
            instance == self@.instance,
    {
        self.instance
    }

    /// The context handle of the attached render callback, if one is
    /// attached. It is never the null handle.
    pub fn render_callback(&self) -> (callback: Option<usize>)
        ensures
            callback == self@.callback,
            self@.well_formed(),
    {
        proof {
            use_type_invariant(self);
        }
        self.maybe_callback
    }

    /// Gives up the attached render callback, if there is one: the unit no
    /// longer owns it, and the context handle that comes back has to be
    /// dropped by the caller. The engine's registration is left as it is.
    pub fn free_render_callback(&mut self) -> (released: Option<usize>)
        ensures
            released == old(self)@.callback,
            released != Some(0usize),
            final(self)@ == (AudioUnitView { instance: old(self)@.instance, callback: None }),
    {
        proof {
            use_type_invariant(&*self);
        }
        let released = self.maybe_callback;
        self.maybe_callback = None;
        released
    }

    /// Takes ownership of the callback behind a context handle. The null
    /// handle stands for no callback.
    pub(crate) fn own_render_callback(&mut self, context: usize)
        requires
            old(self)@.callback is None,
        ensures
            final(self)@ == (AudioUnitView {
                instance: old(self)@.instance,
                callback: if context != 0 {
                    Some(context)
                } else {
                    None
                },
            }),
    {
        self.maybe_callback = if context != 0 {
            Some(context)
        } else {
            None
        };
    }

    /// The call that starts the unit's processing. Whether it succeeded is
    /// read from the engine's status with `Error::from_os_status`; the unit
    /// keeps no record of being started.
    pub fn start(&mut self) -> (call: Call)
        ensures
            call == (Call::Start { instance: old(self)@.instance }),
            final(self)@ == old(self)@,
    {
        Call::Start { instance: self.instance }
    }

    /// The call that stops the unit's processing. Whether it succeeded is
    /// read from the engine's status with `Error::from_os_status`.
    pub fn stop(&mut self) -> (call: Call)
        ensures
            call == (Call::Stop { instance: old(self)@.instance }),
            final(self)@ == old(self)@,
    {
        Call::Stop { instance: self.instance }
    }
}

/// The input and output scopes of a unit.
#[derive(Copy, Clone, Debug, PartialEq, Eq)]
pub enum Scope {
    Output,
    Input,
}

/// The input and output elements (buses) within a scope.
#[derive(Copy, Clone, Debug, PartialEq, Eq)]
pub enum Element {
    Output,
    Input,
}

impl Scope {
    /// The engine's code for the scope.
    pub open spec fn spec_code(self) -> u32 {
        match self {
            Scope::Output => 0,
            Scope::Input => 1,
        }
    }

    /// The engine's code for the scope.
    pub fn code(self) -> (code: u32)
        ensures
            code == self.spec_code(),
    {
        match self {
            Scope::Output => 0,
            Scope::Input => 1,
        }
    }
}

impl Element {
    /// The engine's code for the element.
    pub open spec fn spec_code(self) -> u32 {
        match self {
            Element::Output => 0,
            Element::Input => 1,
        }
    }

    /// The engine's code for the element.
    pub fn code(self) -> (code: u32)
        ensures
            code == self.spec_code(),
    {
        match self {
            Element::Output => 0,
            Element::Input => 1,
        }
    }
}

} // verus!
