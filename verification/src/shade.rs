//! Programs as the core sees them.

use vstd::prelude::*;
use crate::Backend;

verus! {

/// What is known of a linked program's interface.
#[derive(Clone, Copy, Debug, PartialEq, Eq, Hash, Structural)]
pub struct ProgramInfo {
    pub vertex_attributes: u8,
    pub constant_buffers: u8,
    pub textures: u8,
    pub samplers: u8,
    pub outputs: u8,
}

/// A program in its pool: the native object and its interface.
pub struct Program<B: Backend> {
    pub resource: B::Program,
    pub info: ProgramInfo,
}

impl<B: Backend> Program<B> {
    /// Puts a native program and its interface together.
    pub fn new(resource: B::Program, info: ProgramInfo) -> (program: Program<B>)
        ensures
            program.resource == resource,
            program.info == info,
    {
        Program { resource, info }
    }

    /// The native program.
    pub fn resource(&self) -> (r: &B::Program)
        ensures
            *r == self.resource,
    {
        &self.resource
    }

    /// The interface.
    pub fn get_info(&self) -> (r: &ProgramInfo)
        ensures
            *r == self.info,
    {
        &self.info
    }
}

} // verus!
