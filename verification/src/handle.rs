//! Owned identifiers of driver-side objects.
//!
//! A handle wraps the non-zero identifier that the driver assigned to an
//! object. It is made only from what an allocating driver call returned, is
//! never copied, and is given up (by value) when the object is deleted. A
//! handle holds nothing but the identifier, which is its view.

use vstd::prelude::*;

verus! {

/// The driver returned the zero identifier: no object was allocated.
#[derive(Debug, Clone, Copy, PartialEq, Eq, Structural)]
pub struct AllocationError;

/// A vertex array object: the record of a vertex layout.
#[derive(Debug)]
pub struct VertexArrayObject {
    id: u32,
}

impl View for VertexArrayObject {
    type V = u32;

    closed spec fn view(&self) -> u32 {
        self.id
    }
}

impl VertexArrayObject {
    #[verifier::type_invariant]
    spec fn nonzero(self) -> bool {
        self.id != 0
    }

    /// Wraps an identifier that the driver returned; zero is no object.
    pub(crate) fn from_raw(raw: u32) -> (r: Result<VertexArrayObject, AllocationError>)
        ensures
            raw == 0 <==> r is Err,
            r is Ok ==> r->Ok_0@ == raw,
    {
        if raw == 0 {
            Err(AllocationError)
        } else {
            Ok(VertexArrayObject { id: raw })
        }
    }

    /// The identifier to pass to the driver; it is never zero.
    pub fn id(&self) -> (r: u32)
        ensures
            r == self@,
            r != 0,
    {
        proof {
            use_type_invariant(self);
        }
        self.id
    }

    /// Gives the handle up and returns the identifier.
    pub(crate) fn into_id(self) -> (r: u32)
        ensures
            r == self@,
            r != 0,
    {
        proof {
            use_type_invariant(&self);
        }
        self.id
    }
}

/// A buffer object: driver-side storage for vertex or index data.
#[derive(Debug)]
pub struct BufferObject {
    id: u32,
}

impl View for BufferObject {
    type V = u32;

    closed spec fn view(&self) -> u32 {
        self.id
    }
}

impl BufferObject {
    #[verifier::type_invariant]
    spec fn nonzero(self) -> bool {
        self.id != 0
    }

    /// Wraps an identifier that the driver returned; zero is no object.
    pub(crate) fn from_raw(raw: u32) -> (r: Result<BufferObject, AllocationError>)
        ensures
            raw == 0 <==> r is Err,
            r is Ok ==> r->Ok_0@ == raw,
    {
        if raw == 0 {
            Err(AllocationError)
        } else {
            Ok(BufferObject { id: raw })
        }
    }

    /// The identifier to pass to the driver; it is never zero.
    pub fn id(&self) -> (r: u32)
        ensures
            r == self@,
            r != 0,
    {
        proof {
            use_type_invariant(self);
        }
        self.id
    }

    /// Gives the handle up and returns the identifier.
    pub(crate) fn into_id(self) -> (r: u32)
        ensures
            r == self@,
            r != 0,
    {
        proof {
            use_type_invariant(&self);
        }
        self.id
    }
}

/// A shader object: one stage of a program, as source or compiled.
#[derive(Debug)]
pub struct ShaderObject {
    id: u32,
}

impl View for ShaderObject {
    type V = u32;

    closed spec fn view(&self) -> u32 {
        self.id
    }
}

impl ShaderObject {
    #[verifier::type_invariant]
    spec fn nonzero(self) -> bool {
        self.id != 0
    }

    /// Wraps an identifier that the driver returned; zero is no object.
    pub(crate) fn from_raw(raw: u32) -> (r: Result<ShaderObject, AllocationError>)
        ensures
            raw == 0 <==> r is Err,
            r is Ok ==> r->Ok_0@ == raw,
    {
        if raw == 0 {
            Err(AllocationError)
        } else {
            Ok(ShaderObject { id: raw })
        }
    }

    /// The identifier to pass to the driver; it is never zero.
    pub fn id(&self) -> (r: u32)
        ensures
            r == self@,
            r != 0,
    {
        proof {
            use_type_invariant(self);
        }
        self.id
    }

    /// Gives the handle up and returns the identifier.
    pub(crate) fn into_id(self) -> (r: u32)
        ensures
            r == self@,
            r != 0,
    {
        proof {
            use_type_invariant(&self);
        }
        self.id
    }
}

/// A program object: shader stages linked into a pipeline.
#[derive(Debug)]
pub struct ProgramObject {
    id: u32,
}

impl View for ProgramObject {
    type V = u32;

    closed spec fn view(&self) -> u32 {
        self.id
    }
}

impl ProgramObject {
    #[verifier::type_invariant]
    spec fn nonzero(self) -> bool {
        self.id != 0
    }

    /// Wraps an identifier that the driver returned; zero is no object.
    pub(crate) fn from_raw(raw: u32) -> (r: Result<ProgramObject, AllocationError>)
        ensures
            raw == 0 <==> r is Err,
            r is Ok ==> r->Ok_0@ == raw,
    {
        if raw == 0 {
            Err(AllocationError)
        } else {
            Ok(ProgramObject { id: raw })
        }
    }

    /// The identifier to pass to the driver; it is never zero.
    pub fn id(&self) -> (r: u32)
        ensures
            r == self@,
            r != 0,
    {
        proof {
            use_type_invariant(self);
        }
        self.id
    }

    /// Gives the handle up and returns the identifier.
    pub(crate) fn into_id(self) -> (r: u32)
        ensures
            r == self@,
            r != 0,
    {
        proof {
            use_type_invariant(&self);
        }
        self.id
    }
}

/// A texture object: driver-side image storage with its sampling state.
#[derive(Debug)]
pub struct TextureObject {
    id: u32,
}

impl View for TextureObject {
    type V = u32;

    closed spec fn view(&self) -> u32 {
        self.id
    }
}

impl TextureObject {
    #[verifier::type_invariant]
    spec fn nonzero(self) -> bool {
        self.id != 0
    }

    /// Wraps an identifier that the driver returned; zero is no object.
    pub(crate) fn from_raw(raw: u32) -> (r: Result<TextureObject, AllocationError>)
        ensures
            raw == 0 <==> r is Err,
            r is Ok ==> r->Ok_0@ == raw,
    {
        if raw == 0 {
            Err(AllocationError)
        } else {
            Ok(TextureObject { id: raw })
        }
    }

    /// The identifier to pass to the driver; it is never zero.
    pub fn id(&self) -> (r: u32)
        ensures
            r == self@,
            r != 0,
    {
        proof {
            use_type_invariant(self);
        }
        self.id
    }

    /// Gives the handle up and returns the identifier.
    pub(crate) fn into_id(self) -> (r: u32)
        ensures
            r == self@,
            r != 0,
    {
        proof {
            use_type_invariant(&self);
        }
        self.id
    }
}

/// The slot of a uniform variable in a linked program.
#[derive(Debug, Clone, Copy, PartialEq, Eq)]
pub struct ShaderLocation {
    index: i32,
}

impl View for ShaderLocation {
    type V = i32;

    closed spec fn view(&self) -> i32 {
        self.index
    }
}

impl ShaderLocation {
    #[verifier::type_invariant]
    spec fn found(self) -> bool {
        self.index != -1
    }

    /// Wraps what the driver answered to a lookup by name; `-1` is its way
    /// to say that the program has no such uniform.
    pub(crate) fn from_raw(raw: i32) -> (r: Option<ShaderLocation>)
        ensures
            raw == -1 <==> r is None,
            r is Some ==> r->Some_0@ == raw,
    {
        if raw != -1 {
            Some(ShaderLocation { index: raw })
        } else {
            None
        }
    }

    /// The slot to pass to the driver; it is never `-1`.
    pub fn index(&self) -> (r: i32)
        ensures
            r == self@,
            r != -1,
    {
        proof {
            use_type_invariant(self);
        }
        self.index
    }
}

} // verus!
