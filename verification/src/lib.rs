//! Helpers for building GPU buffers, vertex arrays and shader programs.
//!
//! The library never talks to the graphics driver itself. Every helper is a
//! small state machine, a *job*: it says which driver call comes next, takes
//! the driver's reply, and in the end reports a handle or an error. Whoever
//! owns the graphics context performs the calls:
//!
//! 1. ask the job what is `pending`;
//! 2. if that is a call, perform it, `offer` the job the driver's reply, and
//!    start over;
//! 3. if the job has finished, take its result.
//!
//! What is proved of a job is which calls it asks for, in which order and
//! with which arguments, what it reports for every possible run of replies,
//! and that it ends. Each job has a model, a plain value that contracts speak
//! of, and every model obeys `Protocol`. The laws that describe whole runs
//! stand, as proof functions, beside the job they are about.
//!
//! - `compile`: compiling the source of one shader stage.
//! - `link`: linking shaders into a program.
//! - `program`: building a program from the source of its stages.
//! - `shaders`: the stages, source text per stage, the program builder.
//! - `locations`: looking up attributes and uniforms.
//! - `buffers`, `vertex_arrays`: buffers and the layout of their vertices.
//! - `inspect`: the status check and log retrieval that compiling and
//!   linking share.
//! - `driver`: calls, replies, steps, and what all jobs have in common.
//! - `codes`: the driver's numeric codes.
//! - `text`: decimal numbers and names given as bytes, for messages.

use vstd::prelude::*;

pub mod buffers;
pub mod codes;
pub mod compile;
pub mod driver;
pub mod inspect;
pub mod link;
pub mod locations;
pub mod program;
pub mod shaders;
pub mod text;
pub mod vertex_arrays;

pub use buffers::{create_buffer, named_buffer_data, BufferJob, BufferUsage};
pub use compile::{compile_shader, CompileJob};
pub use driver::{
    offer, CallModel, DriverCall, Job, Operation, Protocol, Reply, ReplyKind, Step, StepModel,
};
pub use link::{create_program, LinkJob};
pub use locations::{
    get_attribute_location, get_attribute_location_cstr, get_uniform_location,
    get_uniform_location_cstr, LocationJob,
};
pub use program::BuildJob;
pub use shaders::{ProgramBuilder, ShaderCode, ShaderType};
pub use vertex_arrays::{create_single_buffer_vertex_array, vertex_stride, VertexArrayJob};

verus! {

/// An error reported by one of the helpers: a message for a human reader.
#[derive(Debug, Clone)]
pub struct Error {
    message: String,
}

impl View for Error {
    type V = Seq<char>;

    /// The message.
    closed spec fn view(&self) -> Seq<char> {
        self.message@
    }
}

impl Error {
    /// An error that carries `message`.
    pub fn new(message: &str) -> (error: Error)
        ensures
            error@ == message@,
    {
        Error { message: message.to_owned() }
    }

    /// The message, as a string of its own.
    pub fn to_string(&self) -> (text: String)
        ensures
            text@ == self@,
    {
        self.message.clone()
    }
}

} // verus!
