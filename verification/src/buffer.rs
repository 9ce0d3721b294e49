//! Buffers as the core sees them: a native object, its description, and its
//! mapping where it has one.

use vstd::prelude::*;
use crate::mapping;
use crate::memory::{Bind, Usage};
use crate::Backend;

verus! {

/// What a buffer is for.
#[derive(Clone, Copy, Debug, PartialEq, Eq, Hash, Structural)]
pub enum Role {
    Vertex,
    Index,
    Constant,
    Staging,
}

/// What a buffer was made as.
#[derive(Clone, Copy, Debug, PartialEq, Eq, Hash, Structural)]
pub struct Info {
    pub role: Role,
    pub usage: Usage,
    pub bind: Bind,
    /// The size in bytes.
    pub size: usize,
    /// The bytes from one element to the next; zero where that is unknown.
    pub stride: usize,
}

/// A buffer in its pool.
pub struct Raw<B: Backend> {
    pub resource: B::Buffer,
    pub info: Info,
    pub mapping: Option<mapping::Raw<B>>,
}

impl<B: Backend> Raw<B> {
    /// A buffer as it enters its pool: its mapping, where it has one, is free
    /// for anyone to take.
    pub open spec fn pooled(resource: B::Buffer, info: Info, mapping: Option<B::Mapping>) -> Raw<B> {
        Raw {
            resource,
            info,
            mapping: match mapping {
                Some(m) => Some(mapping::Raw::<B> { resource: m, accessible: true }),
                None => None,
            },
        }
    }

    /// Puts a native buffer, its description and its mapping together. The
    /// mapping starts out free for anyone to take.
    pub fn new(resource: B::Buffer, info: Info, mapping: Option<B::Mapping>) -> (raw: Raw<B>)
        ensures
            raw == Self::pooled(resource, info, mapping),
    {
        let mapping = match mapping {
            Some(m) => Some(mapping::Raw::new(m)),
            None => None,
        };
        Raw { resource, info, mapping }
    }

    /// The native buffer.
    pub fn resource(&self) -> (r: &B::Buffer)
        ensures
            *r == self.resource,
    {
        &self.resource
    }

    /// The description.
    pub fn get_info(&self) -> (r: &Info)
        ensures
            *r == self.info,
    {
        &self.info
    }

    /// Whether the buffer has a mapping.
    pub fn is_mapped(&self) -> (r: bool)
        ensures
            r == self.mapping.is_some(),
    {
        self.mapping.is_some()
    }

    /// The number of elements of `element` bytes each that the buffer holds.
    pub fn len(&self, element: usize) -> (n: usize)
        requires
            element != 0,
        ensures
            n == self.info.size / element,
    {
        self.info.size / element
    }
}

} // verus!
