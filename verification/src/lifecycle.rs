//! The life of driver objects, and the answers of the driver's queries.
//!
//! An object begins with the identifier that an allocating call returned and
//! ends when its handle is given up for deletion. In between, the driver's
//! answers to status, log and location queries are read here.

use vstd::prelude::*;
use vstd::slice::slice_subrange;
use vstd::string::StringSliceAdditionalSpecFns;
use vstd::utf8::{decode_utf8, valid_utf8};
use crate::context::EzGl;
use crate::handle::{
    AllocationError, BufferObject, ProgramObject, ShaderLocation, ShaderObject, TextureObject,
    VertexArrayObject,
};
use crate::text::{decode_utf8_lossy, utf8_lossy};

verus! {

/// What to fetch of an info log: the object, and the size of the buffer to
/// fetch into, as the driver takes it and as a length.
#[derive(Debug, Clone, Copy, PartialEq, Eq, Structural)]
pub struct InfoLogFetch {
    pub object: u32,
    pub buffer_size: i32,
    pub capacity: usize,
}

/// The arguments of `glShaderSource`, without the pointers: the source goes
/// to the driver as one string of `length` bytes.
#[derive(Debug, Clone, Copy, PartialEq, Eq, Structural)]
pub struct ShaderSourceCall {
    pub shader: u32,
    pub count: i32,
    pub length: i32,
}

/// Waits for the bytes of an info log.
#[derive(Debug)]
pub struct AwaitingInfoLog {
    pub capacity: usize,
}

/// Where the reading of an info log stands once its length is known.
#[derive(Debug)]
pub enum InfoLogStep {
    /// The log is empty, and so is the text; nothing is fetched.
    Finished(String),
    /// Fetch the log into a buffer of exactly the reported length; answer
    /// with the buffer and the number of bytes that the driver wrote.
    Fetch(InfoLogFetch, AwaitingInfoLog),
}

/// The step that follows the length query of the info log of `object`.
pub open spec fn info_log_step(object: u32, length: i32, step: InfoLogStep) -> bool {
    if length == 0 {
        step matches InfoLogStep::Finished(text) && text@ == Seq::<char>::empty()
    } else {
        step matches InfoLogStep::Fetch(fetch, awaiting) && fetch == (InfoLogFetch {
            object,
            buffer_size: length,
            capacity: length as usize,
        }) && awaiting.capacity == length
    }
}

/// Decides what is fetched of an info log of the reported length.
fn plan_info_log(object: u32, length: i32) -> (step: InfoLogStep)
    requires
        length >= 0,
    ensures
        info_log_step(object, length, step),
{
    if length == 0 {
        InfoLogStep::Finished(String::new())
    } else {
        let capacity = length as usize;
        InfoLogStep::Fetch(
            InfoLogFetch { object, buffer_size: length, capacity },
            AwaitingInfoLog { capacity },
        )
    }
}

impl AwaitingInfoLog {
    /// What the driver may answer to the fetch: a count of bytes that is
    /// not negative and lies within the buffer asked for and the one given.
    pub open spec fn accepts_spec(self, buffer: Seq<u8>, written: i32) -> bool {
        0 <= written <= self.capacity && written <= buffer.len()
    }

    /// Whether `written` bytes of `buffer` can be the answer to the fetch.
    pub fn accepts(&self, buffer: &[u8], written: i32) -> (ok: bool)
        ensures
            ok == self.accepts_spec(buffer@, written),
    {
        written >= 0 && written as usize <= self.capacity && written as usize <= buffer.len()
    }

    /// Takes the buffer that the driver filled and the number of bytes it
    /// wrote. The text is read from exactly those bytes; what is not UTF-8
    /// in them is replaced, not refused.
    pub fn resume(self, buffer: &[u8], written: i32) -> (text: String)
        requires
            self.accepts_spec(buffer@, written),
        ensures
            text@ == utf8_lossy(buffer@.subrange(0, written as int)),
            valid_utf8(buffer@.subrange(0, written as int)) ==> text@ == decode_utf8(
                buffer@.subrange(0, written as int),
            ),
    {
        decode_utf8_lossy(slice_subrange(buffer, 0, written as usize))
    }
}

impl EzGl {
    /// Takes the identifier that the driver returned for a newly generated
    /// vertex array. Zero means that nothing was allocated.
    pub fn gen_vertex_array(raw: u32) -> (r: Result<VertexArrayObject, AllocationError>)
        ensures
            raw == 0 <==> r is Err,
            r is Ok ==> r->Ok_0@ == raw,
    {
        VertexArrayObject::from_raw(raw)
    }

    /// Gives the vertex array up for deletion and returns the identifier to
    /// delete. The handle is gone with the call, so that no object is
    /// deleted twice.
    pub fn delete_vertex_array(vao: VertexArrayObject) -> (id: u32)
        ensures
            id == vao@,
            id != 0,
    {
        vao.into_id()
    }

    /// Takes the identifier that the driver returned for a newly generated
    /// buffer. Zero means that nothing was allocated.
    pub fn gen_buffer(raw: u32) -> (r: Result<BufferObject, AllocationError>)
        ensures
            raw == 0 <==> r is Err,
            r is Ok ==> r->Ok_0@ == raw,
    {
        BufferObject::from_raw(raw)
    }

    /// Gives the buffer up for deletion and returns the identifier to
    /// delete. The handle is gone with the call, so that no object is
    /// deleted twice.
    pub fn delete_buffer(buffer: BufferObject) -> (id: u32)
        ensures
            id == buffer@,
            id != 0,
    {
        buffer.into_id()
    }

    /// Takes the identifier that the driver returned for a newly generated
    /// texture. Zero means that nothing was allocated.
    pub fn gen_texture(raw: u32) -> (r: Result<TextureObject, AllocationError>)
        ensures
            raw == 0 <==> r is Err,
            r is Ok ==> r->Ok_0@ == raw,
    {
        TextureObject::from_raw(raw)
    }

    /// Gives the texture up for deletion and returns the identifier to
    /// delete. The handle is gone with the call, so that no object is
    /// deleted twice.
    pub fn delete_texture(texture: TextureObject) -> (id: u32)
        ensures
            id == texture@,
            id != 0,
    {
        texture.into_id()
    }

    /// Takes the identifier that the driver returned for a newly created
    /// shader. Zero means that nothing was allocated.
    pub fn create_shader(raw: u32) -> (r: Result<ShaderObject, AllocationError>)
        ensures
            raw == 0 <==> r is Err,
            r is Ok ==> r->Ok_0@ == raw,
    {
        ShaderObject::from_raw(raw)
    }

    /// Gives the shader up for deletion and returns the identifier to
    /// delete. The handle is gone with the call, so that no object is
    /// deleted twice.
    pub fn delete_shader(shader: ShaderObject) -> (id: u32)
        ensures
            id == shader@,
            id != 0,
    {
        shader.into_id()
    }

    /// Takes the identifier that the driver returned for a newly created
    /// program. Zero means that nothing was allocated.
    pub fn create_program(raw: u32) -> (r: Result<ProgramObject, AllocationError>)
        ensures
            raw == 0 <==> r is Err,
            r is Ok ==> r->Ok_0@ == raw,
    {
        ProgramObject::from_raw(raw)
    }

    /// Gives the program up for deletion and returns the identifier to
    /// delete. The handle is gone with the call, so that no object is
    /// deleted twice.
    pub fn delete_program(program: ProgramObject) -> (id: u32)
        ensures
            id == program@,
            id != 0,
    {
        program.into_id()
    }

    /// Reads the compile status that the driver answered with: anything but
    /// zero is success.
    pub fn get_shader_compile_success(raw: i32) -> (success: bool)
        ensures
            success == (raw != 0),
    {
        raw != 0
    }

    /// Reads the link status that the driver answered with: anything but zero
    /// is success.
    pub fn get_program_link_success(raw: i32) -> (success: bool)
        ensures
            success == (raw != 0),
    {
        raw != 0
    }

    /// Reads the driver's answer to a uniform lookup: `-1` means that the
    /// program has no such uniform, anything else is its location.
    pub fn get_uniform_location(raw: i32) -> (r: Option<ShaderLocation>)
        ensures
            raw == -1 <==> r is None,
            r is Some ==> r->Some_0@ == raw,
    {
        ShaderLocation::from_raw(raw)
    }

    /// Giving `src` to `shader` as its source: always as one string, whose
    /// length is counted in bytes.
    pub fn set_shader_source(shader: &ShaderObject, src: &str) -> (call: ShaderSourceCall)
        requires
            src.spec_bytes().len() <= i32::MAX,
        ensures
            call == (ShaderSourceCall {
                shader: shader@,
                count: 1i32,
                length: src.spec_bytes().len() as i32,
            }),
            call.length == src.spec_bytes().len(),
    {
        ShaderSourceCall { shader: shader.id(), count: 1, length: src.len() as i32 }
    }

    /// Decides, from the length that the driver reported for the info log of
    /// `shader`, what is fetched: nothing for an empty log, else a buffer of
    /// exactly that length.
    pub fn get_shader_info_log(shader: &ShaderObject, length: i32) -> (step: InfoLogStep)
        requires
            length >= 0,
        ensures
            info_log_step(shader@, length, step),
    {
        plan_info_log(shader.id(), length)
    }

    /// Decides, from the length that the driver reported for the info log of
    /// `program`, what is fetched: nothing for an empty log, else a buffer of
    /// exactly that length.
    pub fn get_program_info_log(program: &ProgramObject, length: i32) -> (step: InfoLogStep)
        requires
            length >= 0,
        ensures
            info_log_step(program@, length, step),
    {
        plan_info_log(program.id(), length)
    }
}

} // verus!
