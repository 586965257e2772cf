//! Typed access to the engine's property table.
//!
//! A property is addressed by an identifier, a scope and an element. Its
//! value is a fixed-size record that the engine defines; the wrapper passes
//! the value's address and exact byte size and validates no layout. The
//! caller names a type whose layout is the property's.

use vstd::prelude::*;
use vstd::layout::size_of;
use crate::audio_unit::{AudioUnit, AudioUnitView, Element, Scope};
use crate::engine::{PROPERTY_SAMPLE_RATE, PROPERTY_STREAM_FORMAT};
use crate::error::{Error, NO_ERROR};

verus! {

broadcast use vstd::layout::layout_of_primitives;

/// Where a property lives: the instance, and the property's key in it.
#[derive(Debug, Clone, Copy, PartialEq, Eq)]
pub struct PropertyAddress {
    pub instance: usize,
    pub id: u32,
    pub scope: u32,
    pub element: u32,
}

/// One call of the engine's set-property primitive. With `data` present the
/// engine is handed the value's address and `size`; without it, the null
/// address and size zero, which clears the property.
pub struct PropertyWrite<'a, T> {
    pub address: PropertyAddress,
    pub data: Option<&'a T>,
    pub size: u32,
}

/// One call of the engine's get-property primitive, into storage of exactly
/// `size` bytes.
#[derive(Debug, Clone, Copy, PartialEq, Eq)]
pub struct PropertyRead {
    pub address: PropertyAddress,
    pub size: u32,
}

/// The address of a property of a unit.
pub open spec fn address_of(unit: AudioUnitView, id: u32, scope: Scope, elem: Element)
    -> PropertyAddress {
    PropertyAddress {
        instance: unit.instance,
        id,
        scope: scope.spec_code(),
        element: elem.spec_code(),
    }
}

/// The write that sets a property to a value, or clears it.
pub open spec fn write_of<'a, T>(
    unit: AudioUnitView,
    id: u32,
    scope: Scope,
    elem: Element,
    maybe_data: Option<&'a T>,
) -> PropertyWrite<'a, T> {
    PropertyWrite {
        address: address_of(unit, id, scope, elem),
        data: maybe_data,
        size: if maybe_data is Some {
            size_of::<T>() as u32
        } else {
            0
        },
    }
}

/// The read that gets a property as a value of type `T`.
pub open spec fn read_of<T>(unit: AudioUnitView, id: u32, scope: Scope, elem: Element)
    -> PropertyRead {
    PropertyRead { address: address_of(unit, id, scope, elem), size: size_of::<T>() as u32 }
}

/// What a read yields: the value that the engine filled in where it reported
/// success, and else the failure with its status.
pub open spec fn spec_property_value<T>(status: i32, data: T) -> Result<T, Error> {
    if status == NO_ERROR {
        Ok(data)
    } else {
        Err(Error::NativeStatus(status))
    }
}

/// Reads the outcome of a [`PropertyRead`] from the engine's status and the
/// storage it was given. The storage is handed out only on success.
pub fn property_value<T>(status: i32, data: T) -> (result: Result<T, Error>)
    ensures
        result == spec_property_value(status, data),
{
    match Error::from_os_status(status) {
        Ok(()) => Ok(data),
        Err(error) => Err(error),
    }
}

impl AudioUnit {
    fn address(&self, id: u32, scope: Scope, elem: Element) -> (address: PropertyAddress)
        ensures
            address == address_of(self@, id, scope, elem),
    {
        PropertyAddress {
            instance: self.instance(),
            id,
            scope: scope.code(),
            element: elem.code(),
        }
    }

    /// The write that sets the value of a property of the unit, or clears it
    /// where no value is given. Clearing works only for properties without a
    /// default value; the engine decides. Whether the write succeeded is read
    /// from the engine's status with `Error::from_os_status`.
    ///
    /// The size handed to the engine is a 32-bit number, so the type's size
    /// has to fit one.
    pub fn set_property<'a, T>(
        &mut self,
        id: u32,
        scope: Scope,
        elem: Element,
        maybe_data: Option<&'a T>,
    ) -> (write: PropertyWrite<'a, T>)
        requires
            maybe_data is Some ==> size_of::<T>() <= u32::MAX,
        ensures
            write == write_of(old(self)@, id, scope, elem, maybe_data),
            final(self)@ == old(self)@,
    {
        let size: u32 = match maybe_data {
            Some(_) => {
                let bytes: usize = core::mem::size_of::<T>();
                bytes as u32
            },
            None => 0,
        };
        PropertyWrite { address: self.address(id, scope, elem), data: maybe_data, size }
    }

    /// The read that gets the value of a property of the unit as a `T`. The
    /// outcome is read with [`property_value`].
    pub fn get_property<T>(&self, id: u32, scope: Scope, elem: Element) -> (read: PropertyRead)
        requires
            size_of::<T>() <= u32::MAX,
        ensures
            read == read_of::<T>(self@, id, scope, elem),
    {
        let bytes: usize = core::mem::size_of::<T>();
        PropertyRead { address: self.address(id, scope, elem), size: bytes as u32 }
    }

    /// The write that sets the unit's sample rate. The rate is a 64-bit
    /// float; it is carried here as its bit pattern, which has the same
    /// eight bytes.
    pub fn set_sample_rate<'a>(&mut self, sample_rate: &'a u64) -> (write: PropertyWrite<'a, u64>)
        ensures
            write == write_of(
                old(self)@,
                PROPERTY_SAMPLE_RATE,
                Scope::Input,
                Element::Output,
                Some(sample_rate),
            ),
            write.size == 8,
            final(self)@ == old(self)@,
    {
        self.set_property(PROPERTY_SAMPLE_RATE, Scope::Input, Element::Output, Some(sample_rate))
    }

    /// The read that gets the unit's sample rate, as the bit pattern of a
    /// 64-bit float.
    pub fn sample_rate(&self) -> (read: PropertyRead)
        ensures
            read == read_of::<u64>(self@, PROPERTY_SAMPLE_RATE, Scope::Input, Element::Output),
            read.size == 8,
    {
        self.get_property::<u64>(PROPERTY_SAMPLE_RATE, Scope::Input, Element::Output)
    }

    /// The write that sets the unit's stream format. `D` is the engine's
    /// stream description record.
    pub fn set_stream_format<'a, D>(&mut self, stream_format: &'a D) -> (write: PropertyWrite<
        'a,
        D,
    >)
        requires
            size_of::<D>() <= u32::MAX,
        ensures
            write == write_of(
                old(self)@,
                PROPERTY_STREAM_FORMAT,
                Scope::Input,
                Element::Output,
                Some(stream_format),
            ),
            final(self)@ == old(self)@,
    {
        self.set_property(PROPERTY_STREAM_FORMAT, Scope::Input, Element::Output, Some(stream_format))
    }

    /// The read that gets the unit's stream format. `D` is the engine's
    /// stream description record.
    pub fn stream_format<D>(&self) -> (read: PropertyRead)
        requires
            size_of::<D>() <= u32::MAX,
        ensures
            read == read_of::<D>(self@, PROPERTY_STREAM_FORMAT, Scope::Output, Element::Output),
    {
        self.get_property::<D>(PROPERTY_STREAM_FORMAT, Scope::Output, Element::Output)
    }
}

/// The engine's property table, for an engine that keeps each value as it
/// was given: a write with a value puts it under its address, a clearing
/// write removes what was there.
pub open spec fn kept<T>(table: Map<PropertyAddress, T>, write: PropertyWrite<T>) -> Map<
    PropertyAddress,
    T,
> {
    match write.data {
        Some(value) => table.insert(write.address, *value),
        None => table.remove(write.address),
    }
}

/// Setting a property and then getting it yields the value that was set,
/// where the engine keeps the value as given: the read goes to the address
/// that the write went to, asks for as many bytes as were written, and hands
/// out what the engine holds there.
pub proof fn lemma_set_then_get_yields_value<T>(
    unit: AudioUnitView,
    id: u32,
    scope: Scope,
    elem: Element,
    value: &T,
    table: Map<PropertyAddress, T>,
)
    ensures
        ({
            let write = write_of(unit, id, scope, elem, Some(value));
            let read = read_of::<T>(unit, id, scope, elem);
            let held = kept(table, write);
            &&& read.address == write.address
            &&& read.size == write.size
            &&& held.contains_key(read.address)
            &&& spec_property_value(NO_ERROR, held[read.address]) == Ok::<T, Error>(*value)
        }),
{
}

/// Clearing a property hands the engine no value and size zero, and its
/// outcome is the engine's verdict alone: success exactly where the engine
/// reports status zero, and otherwise the failure that carries the status
/// it reported.
pub proof fn lemma_clearing_follows_engine<T>(
    unit: AudioUnitView,
    id: u32,
    scope: Scope,
    elem: Element,
    status: i32,
)
    ensures
        ({
            let write = write_of::<T>(unit, id, scope, elem, None);
            &&& write.data is None
            &&& write.size == 0
            &&& write.address == address_of(unit, id, scope, elem)
            &&& Error::spec_from_os_status(status) is Ok <==> status == NO_ERROR
            &&& status != NO_ERROR ==> Error::spec_from_os_status(status) == Err::<(), Error>(
                Error::NativeStatus(status),
            )
        }),
{
}

} // verus!
