//! Buffers filled from a slice of the caller's data.

use vstd::prelude::*;
use vstd::layout::size_of;
use crate::codes;
use crate::driver::{
    asked, lemma_run_first, run, takes, CallModel, DriverCall, Job, Operation, Protocol, Reply,
    Step, StepModel,
};

verus! {

/// How a buffer's data will be written and used: how often (stream, static,
/// dynamic) and by whom (draw, read, copy).
#[derive(Debug, Clone, Copy, PartialEq, Eq)]
pub enum BufferUsage {
    StreamDraw,
    StreamRead,
    StreamCopy,
    StaticDraw,
    StaticRead,
    StaticCopy,
    DynamicDraw,
    DynamicRead,
    DynamicCopy,
}

impl BufferUsage {
    /// The driver's code for this usage.
    pub open spec fn gl_enum(self) -> u32 {
        match self {
            BufferUsage::StreamDraw => codes::STREAM_DRAW,
            BufferUsage::StreamRead => codes::STREAM_READ,
            BufferUsage::StreamCopy => codes::STREAM_COPY,
            BufferUsage::StaticDraw => codes::STATIC_DRAW,
            BufferUsage::StaticRead => codes::STATIC_READ,
            BufferUsage::StaticCopy => codes::STATIC_COPY,
            BufferUsage::DynamicDraw => codes::DYNAMIC_DRAW,
            BufferUsage::DynamicRead => codes::DYNAMIC_READ,
            BufferUsage::DynamicCopy => codes::DYNAMIC_COPY,
        }
    }

    /// The driver's code for this usage.
    pub fn as_gl_enum(self) -> (code: u32)
        ensures
            code == self.gl_enum(),
    {
        match self {
            BufferUsage::StreamDraw => codes::gl_stream_draw(),
            BufferUsage::StreamRead => codes::gl_stream_read(),
            BufferUsage::StreamCopy => codes::gl_stream_copy(),
            BufferUsage::StaticDraw => codes::gl_static_draw(),
            BufferUsage::StaticRead => codes::gl_static_read(),
            BufferUsage::StaticCopy => codes::gl_static_copy(),
            BufferUsage::DynamicDraw => codes::gl_dynamic_draw(),
            BufferUsage::DynamicRead => codes::gl_dynamic_read(),
            BufferUsage::DynamicCopy => codes::gl_dynamic_copy(),
        }
    }
}

/// The number of bytes that `count` values of type `T` occupy.
pub open spec fn byte_size<T>(count: nat) -> nat {
    count * size_of::<T>()
}

/// The call that fills `buffer` with `size` bytes for the given usage.
pub open spec fn fill(buffer: u32, size: isize, usage: BufferUsage) -> CallModel {
    CallModel::plain(Operation::NamedBufferData { buffer, size, usage: usage.gl_enum() })
}

fn data_size<T>(data: &[T]) -> (size: isize)
    requires
        byte_size::<T>(data@.len()) <= isize::MAX,
    ensures
        size == byte_size::<T>(data@.len()),
{
    (data.len() * core::mem::size_of::<T>()) as isize
}

/// The call that fills `buffer` with all of `data` for the given usage. The
/// driver is to be pointed at the first element of `data`.
///
/// A slice never occupies more than `isize::MAX` bytes.
pub fn named_buffer_data<T>(buffer: u32, data: &[T], usage: BufferUsage) -> (call: DriverCall)
    requires
        byte_size::<T>(data@.len()) <= isize::MAX,
    ensures
        call@ == fill(buffer, byte_size::<T>(data@.len()) as isize, usage),
{
    DriverCall::plain(
        Operation::NamedBufferData { buffer, size: data_size(data), usage: usage.as_gl_enum() },
    )
}

/// How far the creation of a buffer has come.
#[derive(Clone, Copy, Debug, PartialEq, Eq)]
pub enum BufferStage {
    /// The buffer object is being created.
    Create,
    /// The buffer is being filled.
    Fill { buffer: u32 },
    /// The buffer is filled.
    Done { buffer: u32 },
}

/// The model of a buffer's creation. `size` is the number
/// of bytes that the data occupies.
pub struct BufferModel {
    pub size: isize,
    pub usage: BufferUsage,
    pub stage: BufferStage,
}

impl BufferModel {
    /// The creation before its first call.
    pub open spec fn start(size: isize, usage: BufferUsage) -> BufferModel {
        BufferModel { size, usage, stage: BufferStage::Create }
    }
}

impl Protocol for BufferModel {
    type Output = u32;

    open spec fn pending(self) -> StepModel<u32> {
        match self.stage {
            BufferStage::Create => StepModel::plain(Operation::CreateBuffers),
            BufferStage::Fill { buffer } => StepModel::Call(fill(buffer, self.size, self.usage)),
            BufferStage::Done { buffer } => StepModel::Finished(Ok(buffer)),
        }
    }

    open spec fn accepts(self, reply: Reply) -> bool {
        &&& self.pending() matches StepModel::Call(call)
        &&& reply.kind() == call.operation.reply_kind()
    }

    open spec fn after(self, reply: Reply) -> BufferModel {
        match (self.stage, reply) {
            (BufferStage::Create, Reply::Handle(buffer)) => BufferModel {
                stage: BufferStage::Fill { buffer },
                ..self
            },
            (BufferStage::Fill { buffer }, Reply::Empty) => BufferModel {
                stage: BufferStage::Done { buffer },
                ..self
            },
            _ => self,
        }
    }

    open spec fn remaining(self) -> nat {
        match self.stage {
            BufferStage::Create => 2,
            BufferStage::Fill { .. } => 1,
            BufferStage::Done { .. } => 0,
        }
    }

    proof fn lemma_accepted(self, reply: Reply) {
    }
}

/// The creation of a buffer under way: see `create_buffer`.
pub struct BufferJob {
    size: isize,
    usage: BufferUsage,
    stage: BufferStage,
}

impl View for BufferJob {
    type V = BufferModel;

    closed spec fn view(&self) -> BufferModel {
        BufferModel { size: self.size, usage: self.usage, stage: self.stage }
    }
}

/// Starts creating a buffer that holds all of `data`.
///
/// The job creates a buffer object, fills it as `named_buffer_data` does and
/// reports its handle. While the buffer is being filled the driver is to be
/// pointed at the first element of `data`.
pub fn create_buffer<T>(data: &[T], usage: BufferUsage) -> (job: BufferJob)
    requires
        byte_size::<T>(data@.len()) <= isize::MAX,
    ensures
        job@ == BufferModel::start(byte_size::<T>(data@.len()) as isize, usage),
{
    BufferJob { size: data_size(data), usage, stage: BufferStage::Create }
}

impl Job for BufferJob {
    fn pending(&self) -> (step: Step<u32>) {
        match self.stage {
            BufferStage::Create => Step::Call(DriverCall::plain(Operation::CreateBuffers)),
            BufferStage::Fill { buffer } => Step::Call(
                DriverCall::plain(
                    Operation::NamedBufferData {
                        buffer,
                        size: self.size,
                        usage: self.usage.as_gl_enum(),
                    },
                ),
            ),
            BufferStage::Done { buffer } => Step::Finished(Ok(buffer)),
        }
    }

    fn accepts(&self, reply: &Reply) -> (ok: bool) {
        match self.stage {
            BufferStage::Create => matches!(reply, Reply::Handle(_)),
            BufferStage::Fill { .. } => matches!(reply, Reply::Empty),
            BufferStage::Done { .. } => false,
        }
    }

    fn resume(&mut self, reply: Reply) {
        match self.stage {
            BufferStage::Create => match reply {
                Reply::Handle(buffer) => {
                    self.stage = BufferStage::Fill { buffer };
                },
                _ => {},
            },
            BufferStage::Fill { buffer } => {
                self.stage = BufferStage::Done { buffer };
            },
            BufferStage::Done { .. } => {},
        }
    }
}

/// The creation of a buffer asks for the buffer, fills it, and reports it.
pub proof fn lemma_buffer_calls(size: isize, usage: BufferUsage, buffer: u32)
    ensures
        ({
            let job = BufferModel::start(size, usage);
            let replies = seq![Reply::Handle(buffer), Reply::Empty];
            &&& takes(job, replies)
            &&& asked(job, replies) == seq![
                StepModel::<u32>::plain(Operation::CreateBuffers),
                StepModel::Call(fill(buffer, size, usage)),
            ]
            &&& run(job, replies).pending() == StepModel::<u32>::Finished(Ok(buffer))
        }),
{
    let job = BufferModel::start(size, usage);
    let created = Reply::Handle(buffer);
    let filling = job.after(created);
    assert(seq![created, Reply::Empty] =~= seq![created] + seq![Reply::Empty]);
    assert(seq![Reply::Empty] =~= seq![Reply::Empty] + Seq::<Reply>::empty());
    lemma_run_first(job, created, seq![Reply::Empty]);
    lemma_run_first(filling, Reply::Empty, Seq::<Reply>::empty());
    assert(asked(job, seq![created, Reply::Empty]) =~= seq![job.pending(), filling.pending()]);
}

} // verus!
