//! A vertex array that reads every attribute from one buffer of tightly
//! packed 32-bit floats.

use vstd::prelude::*;
use vstd::slice::slice_to_vec;
use crate::codes;
use crate::driver::{
    asked, empty_replies, lemma_run_first, plain_calls, run, takes, DriverCall, Job, Operation,
    Protocol, Reply, Step, StepModel,
};

verus! {

/// The number of bytes that one component occupies.
pub const COMPONENT_BYTES: usize = 4;

/// The sum of `components`.
pub open spec fn total(components: Seq<i32>) -> int
    decreases components.len(),
{
    if components.len() == 0 {
        0
    } else {
        total(components.drop_last()) + components.last()
    }
}

/// The distance in bytes from one vertex to the next: every component of
/// every attribute.
pub open spec fn stride_of(components: Seq<i32>) -> int {
    COMPONENT_BYTES * total(components)
}

/// The distance in bytes from the start of a vertex to its attribute
/// `index`: every component of the attributes before it.
pub open spec fn offset_of(components: Seq<i32>, index: int) -> int {
    COMPONENT_BYTES * total(components.take(index))
}

/// Whether a vertex can be laid out: no attribute has a negative number of
/// components, and the stride is within what the driver takes.
pub open spec fn fits(components: Seq<i32>) -> bool {
    &&& forall|i: int| 0 <= i < components.len() ==> components[i] >= 0
    &&& stride_of(components) <= i32::MAX
}

proof fn lemma_total_step(components: Seq<i32>, index: int)
    requires
        0 <= index < components.len(),
    ensures
        total(components.take(index + 1)) == total(components.take(index)) + components[index],
{
    assert(components.take(index + 1).drop_last() =~= components.take(index));
}

/// Attributes are packed: the first starts the vertex, each of the others
/// starts where the one before it ends, and the last ends where the next
/// vertex starts.
pub proof fn lemma_packed(components: Seq<i32>, index: int)
    requires
        0 <= index < components.len(),
    ensures
        offset_of(components, 0) == 0,
        offset_of(components, index + 1) == offset_of(components, index) + COMPONENT_BYTES
            * components[index],
        offset_of(components, components.len() as int) == stride_of(components),
{
    lemma_total_step(components, index);
    assert(components.take(0) =~= Seq::<i32>::empty());
    assert(components.take(components.len() as int) =~= components);
}

/// In a layout that fits, every attribute starts within the vertex.
pub proof fn lemma_within(components: Seq<i32>, index: int)
    requires
        fits(components),
        0 <= index <= components.len(),
    ensures
        0 <= offset_of(components, index) <= stride_of(components) <= i32::MAX,
{
    lemma_total_prefix(components, index);
}

proof fn lemma_total_prefix(components: Seq<i32>, index: int)
    requires
        forall|i: int| 0 <= i < components.len() ==> components[i] >= 0,
        0 <= index <= components.len(),
    ensures
        0 <= total(components.take(index)) <= total(components),
    decreases components.len() - index,
{
    if index == components.len() {
        assert(components.take(index) =~= components);
        lemma_total_nonnegative(components);
    } else {
        lemma_total_step(components, index);
        lemma_total_prefix(components, index + 1);
        lemma_total_nonnegative(components.take(index));
    }
}

proof fn lemma_total_nonnegative(components: Seq<i32>)
    requires
        forall|i: int| 0 <= i < components.len() ==> components[i] >= 0,
    ensures
        0 <= total(components),
    decreases components.len(),
{
    if components.len() > 0 {
        lemma_total_nonnegative(components.drop_last());
    }
}

/// The stride of a vertex with these attributes, if it can be laid out.
pub fn vertex_stride(components: &[i32]) -> (stride: Option<i32>)
    ensures
        stride is Some <==> fits(components@),
        stride matches Some(bytes) ==> bytes == stride_of(components@),
{
    let mut sum: i32 = 0;
    let mut index: usize = 0;
    while index < components.len()
        invariant
            index <= components.len(),
            forall|i: int| 0 <= i < index ==> components[i] >= 0,
            sum == total(components@.take(index as int)),
            0 <= sum <= 536870911,
        decreases components.len() - index,
    {
        let size: i32 = components[index];
        if size < 0 {
            return None;
        }
        proof {
            lemma_total_step(components@, index as int);
        }
        if size > 536870911 - sum {
            proof {
                if fits(components@) {
                    lemma_total_prefix(components@, index + 1);
                }
            }
            return None;
        }
        sum = sum + size;
        index = index + 1;
    }
    proof {
        assert(components@.take(index as int) =~= components@);
    }
    Some(sum * 4)
}

/// How far the set-up of a vertex array has come.
pub enum VertexArrayStage {
    /// A vertex array name is being generated.
    Generate,
    /// The vertex array is being bound.
    BindArray { array: u32 },
    /// The buffer is being bound.
    BindBuffer { array: u32 },
    /// Attribute `next` is being described.
    Pointer { array: u32, next: int },
    /// Attribute `next` is being enabled.
    Enable { array: u32, next: int },
    /// Every attribute is described and enabled.
    Done { array: u32 },
}

/// The model of a vertex array's set-up. Attribute `i` has
/// `components[i]` components.
pub struct VertexArrayModel {
    pub buffer: u32,
    pub components: Seq<i32>,
    pub stage: VertexArrayStage,
}

impl VertexArrayModel {
    /// The set-up before its first call.
    pub open spec fn start(buffer: u32, components: Seq<i32>) -> VertexArrayModel {
        VertexArrayModel { buffer, components, stage: VertexArrayStage::Generate }
    }

    /// The stage that describes attribute `next`, or the end once all are
    /// described.
    pub open spec fn describe_from(self, array: u32, next: int) -> VertexArrayStage {
        if next < self.components.len() {
            VertexArrayStage::Pointer { array, next }
        } else {
            VertexArrayStage::Done { array }
        }
    }

    /// The description of attribute `index`: its components are 32-bit
    /// floats, taken as they are, packed after those of the attributes
    /// before it.
    pub open spec fn attribute(self, index: int) -> Operation {
        Operation::VertexAttribPointer {
            index: index as u32,
            components: self.components[index],
            kind: codes::FLOAT,
            normalized: codes::FALSE,
            stride: stride_of(self.components) as i32,
            offset: offset_of(self.components, index) as usize,
        }
    }

    /// The number of attributes still to deal with when attribute `next` is
    /// being dealt with: at least that one.
    pub open spec fn left(self, next: int) -> nat {
        if next < self.components.len() - 1 {
            (self.components.len() - next) as nat
        } else {
            1
        }
    }
}

impl Protocol for VertexArrayModel {
    type Output = u32;

    open spec fn pending(self) -> StepModel<u32> {
        match self.stage {
            VertexArrayStage::Generate => StepModel::plain(Operation::GenVertexArrays),
            VertexArrayStage::BindArray { array } => StepModel::plain(
                Operation::BindVertexArray { array },
            ),
            VertexArrayStage::BindBuffer { .. } => StepModel::plain(
                Operation::BindBuffer { target: codes::ARRAY_BUFFER, buffer: self.buffer },
            ),
            VertexArrayStage::Pointer { next, .. } => StepModel::plain(self.attribute(next)),
            VertexArrayStage::Enable { next, .. } => StepModel::plain(
                Operation::EnableVertexAttribArray { index: next as u32 },
            ),
            VertexArrayStage::Done { array } => StepModel::Finished(Ok(array)),
        }
    }

    open spec fn accepts(self, reply: Reply) -> bool {
        &&& self.pending() matches StepModel::Call(call)
        &&& reply.kind() == call.operation.reply_kind()
    }

    open spec fn after(self, reply: Reply) -> VertexArrayModel {
        match (self.stage, reply) {
            (VertexArrayStage::Generate, Reply::Handle(array)) => VertexArrayModel {
                stage: VertexArrayStage::BindArray { array },
                ..self
            },
            (VertexArrayStage::BindArray { array }, Reply::Empty) => VertexArrayModel {
                stage: VertexArrayStage::BindBuffer { array },
                ..self
            },
            (VertexArrayStage::BindBuffer { array }, Reply::Empty) => VertexArrayModel {
                stage: self.describe_from(array, 0),
                ..self
            },
            (VertexArrayStage::Pointer { array, next }, Reply::Empty) => VertexArrayModel {
                stage: VertexArrayStage::Enable { array, next },
                ..self
            },
            (VertexArrayStage::Enable { array, next }, Reply::Empty) => VertexArrayModel {
                stage: self.describe_from(array, next + 1),
                ..self
            },
            _ => self,
        }
    }

    open spec fn remaining(self) -> nat {
        match self.stage {
            VertexArrayStage::Generate => 3 + 2 * self.components.len(),
            VertexArrayStage::BindArray { .. } => 2 + 2 * self.components.len(),
            VertexArrayStage::BindBuffer { .. } => 1 + 2 * self.components.len(),
            VertexArrayStage::Pointer { next, .. } => 2 * self.left(next),
            VertexArrayStage::Enable { next, .. } => (2 * self.left(next) - 1) as nat,
            VertexArrayStage::Done { .. } => 0,
        }
    }

    proof fn lemma_accepted(self, reply: Reply) {
    }
}

#[derive(Clone, Copy)]
enum Progress {
    Generate,
    BindArray { array: u32 },
    BindBuffer { array: u32 },
    Pointer { array: u32, next: usize, offset: usize },
    Enable { array: u32, next: usize, offset: usize },
    Done { array: u32 },
}

impl View for Progress {
    type V = VertexArrayStage;

    closed spec fn view(&self) -> VertexArrayStage {
        match self {
            Progress::Generate => VertexArrayStage::Generate,
            Progress::BindArray { array } => VertexArrayStage::BindArray { array: *array },
            Progress::BindBuffer { array } => VertexArrayStage::BindBuffer { array: *array },
            Progress::Pointer { array, next, .. } => VertexArrayStage::Pointer {
                array: *array,
                next: *next as int,
            },
            Progress::Enable { array, next, .. } => VertexArrayStage::Enable {
                array: *array,
                next: *next as int,
            },
            Progress::Done { array } => VertexArrayStage::Done { array: *array },
        }
    }
}

/// The set-up of a vertex array under way: see
/// `create_single_buffer_vertex_array`.
pub struct VertexArrayJob {
    buffer: u32,
    components: Vec<i32>,
    stride: i32,
    progress: Progress,
}

impl View for VertexArrayJob {
    type V = VertexArrayModel;

    closed spec fn view(&self) -> VertexArrayModel {
        VertexArrayModel {
            buffer: self.buffer,
            components: self.components@,
            stage: self.progress@,
        }
    }
}

/// Starts setting up a vertex array whose attributes all live in `buffer`.
///
/// Attribute `i` has `components[i]` components, each a 32-bit float, and
/// the attributes of one vertex follow each other without gaps. The job
/// generates and binds a vertex array, binds `buffer` as the array buffer,
/// and then describes and enables one attribute after the other. It reports
/// the vertex array's handle.
pub fn create_single_buffer_vertex_array(buffer: u32, components: &[i32]) -> (job: VertexArrayJob)
    requires
        fits(components@),
    ensures
        job@ == VertexArrayModel::start(buffer, components@),
{
    let stride = match vertex_stride(components) {
        Some(bytes) => bytes,
        None => 0,
    };
    VertexArrayJob {
        buffer,
        components: slice_to_vec(components),
        stride,
        progress: Progress::Generate,
    }
}

impl VertexArrayJob {
    #[verifier::type_invariant]
    spec fn inv(&self) -> bool {
        &&& fits(self.components@)
        &&& self.stride == stride_of(self.components@)
        &&& match self.progress {
            Progress::Pointer { next, offset, .. } => {
                &&& next < self.components@.len()
                &&& offset == offset_of(self.components@, next as int)
            },
            Progress::Enable { next, offset, .. } => {
                &&& next < self.components@.len()
                &&& offset == offset_of(self.components@, next as int)
            },
            _ => true,
        }
    }

    fn describe_from(&self, array: u32, next: usize, offset: usize) -> (progress: Progress)
        ensures
            progress@ == self@.describe_from(array, next as int),
            progress matches Progress::Pointer { next: place, offset: bytes, .. } ==> place == next
                && bytes == offset,
            !(progress is Enable),
    {
        if next < self.components.len() {
            Progress::Pointer { array, next, offset }
        } else {
            Progress::Done { array }
        }
    }
}

impl Job for VertexArrayJob {
    fn pending(&self) -> (step: Step<u32>) {
        proof {
            use_type_invariant(self);
        }
        match self.progress {
            Progress::Generate => Step::Call(DriverCall::plain(Operation::GenVertexArrays)),
            Progress::BindArray { array } => Step::Call(
                DriverCall::plain(Operation::BindVertexArray { array }),
            ),
            Progress::BindBuffer { .. } => Step::Call(
                DriverCall::plain(
                    Operation::BindBuffer {
                        target: codes::gl_array_buffer(),
                        buffer: self.buffer,
                    },
                ),
            ),
            Progress::Pointer { next, offset, .. } => Step::Call(
                DriverCall::plain(
                    Operation::VertexAttribPointer {
                        index: next as u32,
                        components: self.components[next],
                        kind: codes::gl_float(),
                        normalized: codes::gl_false(),
                        stride: self.stride,
                        offset,
                    },
                ),
            ),
            Progress::Enable { next, .. } => Step::Call(
                DriverCall::plain(Operation::EnableVertexAttribArray { index: next as u32 }),
            ),
            Progress::Done { array } => Step::Finished(Ok(array)),
        }
    }

    fn accepts(&self, reply: &Reply) -> (ok: bool) {
        match self.progress {
            Progress::Generate => matches!(reply, Reply::Handle(_)),
            Progress::Done { .. } => false,
            _ => matches!(reply, Reply::Empty),
        }
    }

    fn resume(&mut self, reply: Reply) {
        proof {
            use_type_invariant(&*self);
            assert(self.components@.len() == self.components.len());
        }
        let progress = match self.progress {
            Progress::Generate => match reply {
                Reply::Handle(array) => Progress::BindArray { array },
                _ => Progress::Generate,
            },
            Progress::BindArray { array } => Progress::BindBuffer { array },
            Progress::BindBuffer { array } => {
                proof {
                    assert(self.components@.take(0) =~= Seq::<i32>::empty());
                }
                self.describe_from(array, 0, 0)
            },
            Progress::Pointer { array, next, offset } => Progress::Enable { array, next, offset },
            Progress::Enable { array, next, offset } => {
                let size: i32 = self.components[next];
                proof {
                    lemma_total_step(self.components@, next as int);
                    lemma_total_prefix(self.components@, next + 1);
                }
                self.describe_from(array, next + 1, offset + (size as usize) * COMPONENT_BYTES)
            },
            Progress::Done { array } => Progress::Done { array },
        };
        self.progress = progress;
    }
}

/// The calls that describe and enable the attributes from place `from` on.
pub open spec fn descriptions(job: VertexArrayModel, from: int) -> Seq<Operation>
    decreases job.components.len() - from,
{
    if from < 0 || from >= job.components.len() {
        Seq::empty()
    } else {
        seq![
            job.attribute(from),
            Operation::EnableVertexAttribArray { index: from as u32 },
        ] + descriptions(job, from + 1)
    }
}

proof fn lemma_describe_pass(job: VertexArrayModel, array: u32, from: int)
    requires
        0 <= from <= job.components.len(),
        job.stage == job.describe_from(array, from),
    ensures
        ({
            let operations = descriptions(job, from);
            let replies = empty_replies(operations.len());
            &&& operations.len() == 2 * (job.components.len() - from)
            &&& takes(job, replies)
            &&& asked(job, replies) == plain_calls::<u32>(operations)
            &&& run(job, replies) == VertexArrayModel {
                stage: VertexArrayStage::Done { array },
                ..job
            }
        }),
    decreases job.components.len() - from,
{
    let operations = descriptions(job, from);
    if from < job.components.len() {
        let enabling = job.after(Reply::Empty);
        let next = VertexArrayModel { stage: job.describe_from(array, from + 1), ..job };
        lemma_describe_pass(next, array, from + 1);
        let rest = descriptions(next, from + 1);
        assert(rest == descriptions(job, from + 1)) by {
            lemma_descriptions(next, job, from + 1);
        }
        assert(empty_replies(operations.len()) =~= seq![Reply::Empty] + (seq![Reply::Empty]
            + empty_replies(rest.len())));
        lemma_run_first(job, Reply::Empty, seq![Reply::Empty] + empty_replies(rest.len()));
        lemma_run_first(enabling, Reply::Empty, empty_replies(rest.len()));
        assert(enabling.after(Reply::Empty) == next);
        assert(plain_calls::<u32>(operations) =~= seq![job.pending()] + (seq![
            enabling.pending(),
        ] + plain_calls::<u32>(rest)));
    } else {
        assert(empty_replies(0) =~= Seq::<Reply>::empty());
        assert(plain_calls::<u32>(operations) =~= Seq::<StepModel<u32>>::empty());
    }
}

proof fn lemma_descriptions(first: VertexArrayModel, second: VertexArrayModel, from: int)
    requires
        first.components == second.components,
    ensures
        descriptions(first, from) == descriptions(second, from),
    decreases first.components.len() - from,
{
    if 0 <= from < first.components.len() {
        lemma_descriptions(first, second, from + 1);
    }
}

/// The set-up of a vertex array asks for a name, binds it, binds the buffer,
/// describes and enables every attribute in order, and reports the name.
pub proof fn lemma_vertex_array_calls(buffer: u32, components: Seq<i32>, array: u32)
    ensures
        ({
            let job = VertexArrayModel::start(buffer, components);
            let operations = seq![
                Operation::GenVertexArrays,
                Operation::BindVertexArray { array },
                Operation::BindBuffer { target: codes::ARRAY_BUFFER, buffer },
            ] + descriptions(job, 0);
            let replies = seq![Reply::Handle(array)] + empty_replies(
                (operations.len() - 1) as nat,
            );
            &&& operations.len() == 3 + 2 * components.len()
            &&& takes(job, replies)
            &&& asked(job, replies) == plain_calls::<u32>(operations)
            &&& run(job, replies).pending() == StepModel::<u32>::Finished(Ok(array))
        }),
{
    let job = VertexArrayModel::start(buffer, components);
    let named = job.after(Reply::Handle(array));
    let bound = named.after(Reply::Empty);
    let describing = bound.after(Reply::Empty);
    let rest = descriptions(job, 0);
    lemma_describe_pass(describing, array, 0);
    lemma_descriptions(describing, job, 0);
    let operations = seq![
        Operation::GenVertexArrays,
        Operation::BindVertexArray { array },
        Operation::BindBuffer { target: codes::ARRAY_BUFFER, buffer },
    ] + rest;
    let replies = seq![Reply::Handle(array)] + empty_replies((operations.len() - 1) as nat);
    assert(empty_replies((operations.len() - 1) as nat) =~= seq![Reply::Empty] + (seq![
        Reply::Empty,
    ] + empty_replies(rest.len())));
    lemma_run_first(job, Reply::Handle(array), empty_replies((operations.len() - 1) as nat));
    lemma_run_first(named, Reply::Empty, seq![Reply::Empty] + empty_replies(rest.len()));
    lemma_run_first(bound, Reply::Empty, empty_replies(rest.len()));
    assert(plain_calls::<u32>(operations) =~= seq![job.pending()] + (seq![named.pending()] + (
    seq![bound.pending()] + plain_calls::<u32>(rest))));
}

} // verus!
