//! The vocabulary shared by a job and whoever performs its driver calls.

use vstd::prelude::*;
use crate::Error;

verus! {

/// One call into the graphics driver, with the arguments that are plain
/// numbers. Each variant is named after the driver function it stands for.
#[derive(Clone, Copy, Debug, PartialEq, Eq)]
pub enum Operation {
    /// Create a shader object of the given kind. Replied to with a handle.
    CreateShader { kind: u32 },
    /// Hand the shader its source: one string, the bytes of the call, of which
    /// the driver is told to read `length`.
    ShaderSource { shader: u32, length: i32 },
    CompileShader { shader: u32 },
    /// Query an integer parameter of a shader. Replied to with an integer.
    GetShaderiv { shader: u32, pname: u32 },
    /// Fetch the shader's information log into a buffer of `buf_size` bytes.
    /// The log's text is the first `text_len` bytes of it. Replied to with
    /// that text.
    GetShaderInfoLog { shader: u32, buf_size: i32, text_len: usize },
    DeleteShader { shader: u32 },
    /// Create a program object. Replied to with a handle.
    CreateProgram,
    AttachShader { program: u32, shader: u32 },
    LinkProgram { program: u32 },
    DetachShader { program: u32, shader: u32 },
    /// Query an integer parameter of a program. Replied to with an integer.
    GetProgramiv { program: u32, pname: u32 },
    /// Fetch the program's information log; see `GetShaderInfoLog`.
    GetProgramInfoLog { program: u32, buf_size: i32, text_len: usize },
    DeleteProgram { program: u32 },
    /// Create one buffer object. Replied to with a handle.
    CreateBuffers,
    /// Fill a buffer with `size` bytes of the caller's data.
    NamedBufferData { buffer: u32, size: isize, usage: u32 },
    /// Generate one vertex array name. Replied to with a handle.
    GenVertexArrays,
    BindVertexArray { array: u32 },
    BindBuffer { target: u32, buffer: u32 },
    /// Describe vertex attribute `index`: `components` values of type `kind`,
    /// `stride` bytes from one vertex to the next, starting `offset` bytes
    /// into the bound buffer.
    VertexAttribPointer {
        index: u32,
        components: i32,
        kind: u32,
        normalized: u8,
        stride: i32,
        offset: usize,
    },
    EnableVertexAttribArray { index: u32 },
    /// Look up the attribute whose name is the bytes of the call. Replied to
    /// with an integer.
    GetAttribLocation { program: u32 },
    /// Look up the uniform whose name is the bytes of the call. Replied to
    /// with an integer.
    GetUniformLocation { program: u32 },
}

/// What kind of answer the driver gives to a call.
#[derive(Clone, Copy, Debug, PartialEq, Eq)]
pub enum ReplyKind {
    Empty,
    Handle,
    Integer,
    Log,
}

impl Operation {
    /// The kind of reply that the driver gives to this call.
    pub open spec fn reply_kind(self) -> ReplyKind {
        match self {
            Operation::CreateShader { .. } => ReplyKind::Handle,
            Operation::CreateProgram => ReplyKind::Handle,
            Operation::CreateBuffers => ReplyKind::Handle,
            Operation::GenVertexArrays => ReplyKind::Handle,
            Operation::GetShaderiv { .. } => ReplyKind::Integer,
            Operation::GetProgramiv { .. } => ReplyKind::Integer,
            Operation::GetAttribLocation { .. } => ReplyKind::Integer,
            Operation::GetUniformLocation { .. } => ReplyKind::Integer,
            Operation::GetShaderInfoLog { .. } => ReplyKind::Log,
            Operation::GetProgramInfoLog { .. } => ReplyKind::Log,
            _ => ReplyKind::Empty,
        }
    }
}

/// A driver call: the operation, and the bytes that it points the driver at
/// (a shader's source, a name), empty where the operation takes none.
#[derive(Clone, Debug, PartialEq, Eq)]
pub struct DriverCall {
    pub operation: Operation,
    pub bytes: Vec<u8>,
}

/// The model of a driver call.
pub struct CallModel {
    pub operation: Operation,
    pub bytes: Seq<u8>,
}

impl View for DriverCall {
    type V = CallModel;

    open spec fn view(&self) -> CallModel {
        CallModel { operation: self.operation, bytes: self.bytes@ }
    }
}

impl CallModel {
    /// A call that points the driver at no bytes.
    pub open spec fn plain(operation: Operation) -> CallModel {
        CallModel { operation, bytes: Seq::empty() }
    }
}

impl DriverCall {
    /// A call that points the driver at no bytes.
    pub fn plain(operation: Operation) -> (call: DriverCall)
        ensures
            call@ == CallModel::plain(operation),
    {
        DriverCall { operation, bytes: Vec::new() }
    }
}

/// The driver's answer to a call.
#[derive(Clone, Debug, PartialEq, Eq)]
pub enum Reply {
    /// The call returns nothing.
    Empty,
    /// The handle of the object that the call created.
    Handle(u32),
    /// The integer that the call returned or wrote.
    Integer(i32),
    /// The text of an information log.
    Log(String),
}

impl Reply {
    /// Which kind of reply this is.
    pub open spec fn kind(self) -> ReplyKind {
        match self {
            Reply::Empty => ReplyKind::Empty,
            Reply::Handle(_) => ReplyKind::Handle,
            Reply::Integer(_) => ReplyKind::Integer,
            Reply::Log(_) => ReplyKind::Log,
        }
    }
}

/// What a job wants next: a driver call performed, or nothing more, because
/// it has its result.
#[derive(Debug)]
pub enum Step<T> {
    Call(DriverCall),
    Finished(Result<T, Error>),
}

/// The model of a step: an error is its message.
pub enum StepModel<T> {
    Call(CallModel),
    Finished(Result<T, Seq<char>>),
}

impl<T> StepModel<T> {
    /// The step that wants `operation` performed, with no bytes to point the
    /// driver at.
    pub open spec fn plain(operation: Operation) -> StepModel<T> {
        StepModel::Call(CallModel::plain(operation))
    }
}

impl<T> View for Step<T> {
    type V = StepModel<T>;

    open spec fn view(&self) -> StepModel<T> {
        match self {
            Step::Call(call) => StepModel::Call(call@),
            Step::Finished(Ok(value)) => StepModel::Finished(Ok(*value)),
            Step::Finished(Err(error)) => StepModel::Finished(Err(error@)),
        }
    }
}

/// The model of a job: a state that says what it wants next, which replies
/// it can take, and what it becomes with a reply.
///
/// Each job's model implements this, and proves of itself the two laws that
/// make a job safe to run against a driver.
pub trait Protocol: Sized {
    /// What the job reports in the end.
    type Output;

    /// What the job wants next.
    spec fn pending(self) -> StepModel<Self::Output>;

    /// Whether `reply` can be the driver's answer to the pending call.
    spec fn accepts(self, reply: Reply) -> bool;

    /// The job after `reply` has answered the pending call.
    spec fn after(self, reply: Reply) -> Self;

    /// A bound on the number of calls that the job may still ask for.
    spec fn remaining(self) -> nat;

    /// A job takes a reply only while a call is pending, and only one of the
    /// kind that the driver gives to that call; and every reply it takes
    /// brings it closer to its end.
    proof fn lemma_accepted(self, reply: Reply)
        requires
            self.accepts(reply),
        ensures
            self.pending() matches StepModel::Call(call) && reply.kind()
                == call.operation.reply_kind(),
            self.after(reply).remaining() < self.remaining(),
    ;
}

/// A job under way. Whoever runs it performs the pending call, checks that
/// the job accepts the driver's reply, hands the reply over, and goes on
/// until the job has finished.
pub trait Job: View + Sized where Self::V: Protocol {
    /// What the job wants next.
    fn pending(&self) -> (step: Step<<Self::V as Protocol>::Output>)
        ensures
            step@ == self@.pending(),
    ;

    /// Whether `reply` can be the driver's answer to the pending call.
    fn accepts(&self, reply: &Reply) -> (ok: bool)
        ensures
            ok == self@.accepts(*reply),
    ;

    /// Takes the driver's answer to the pending call.
    fn resume(&mut self, reply: Reply)
        requires
            old(self)@.accepts(reply),
        ensures
            final(self)@ == old(self)@.after(reply),
    ;
}

/// Hands `reply` to `job` if the job accepts it, and says whether it did. A
/// reply that is not accepted leaves the job as it was.
pub fn offer<J: Job>(job: &mut J, reply: Reply) -> (taken: bool) where J::V: Protocol
    ensures
        taken == old(job)@.accepts(reply),
        final(job)@ == if taken {
            old(job)@.after(reply)
        } else {
            old(job)@
        },
{
    if job.accepts(&reply) {
        job.resume(reply);
        true
    } else {
        false
    }
}

/// Whether `job` can take `replies` one after the other.
pub open spec fn takes<P: Protocol>(job: P, replies: Seq<Reply>) -> bool
    decreases replies.len(),
{
    replies.len() > 0 ==> job.accepts(replies.first()) && takes(
        job.after(replies.first()),
        replies.drop_first(),
    )
}

/// The job after it has taken `replies` one after the other.
pub open spec fn run<P: Protocol>(job: P, replies: Seq<Reply>) -> P
    decreases replies.len(),
{
    if replies.len() == 0 {
        job
    } else {
        run(job.after(replies.first()), replies.drop_first())
    }
}

/// What `job` wanted before each of `replies`, as it takes them one after
/// the other.
pub open spec fn asked<P: Protocol>(job: P, replies: Seq<Reply>) -> Seq<StepModel<P::Output>>
    decreases replies.len(),
{
    if replies.len() == 0 {
        Seq::empty()
    } else {
        seq![job.pending()] + asked(job.after(replies.first()), replies.drop_first())
    }
}

/// Calls, each as a step that points the driver at no bytes.
pub open spec fn plain_calls<T>(operations: Seq<Operation>) -> Seq<StepModel<T>> {
    Seq::new(operations.len(), |i: int| StepModel::plain(operations[i]))
}

/// `count` replies to calls that return nothing.
pub open spec fn empty_replies(count: nat) -> Seq<Reply> {
    Seq::new(count, |i: int| Reply::Empty)
}

/// Every job ends: it takes no more replies than the bound it starts with.
pub proof fn lemma_job_ends<P: Protocol>(job: P, replies: Seq<Reply>)
    requires
        takes(job, replies),
    ensures
        replies.len() <= job.remaining(),
    decreases replies.len(),
{
    if replies.len() > 0 {
        job.lemma_accepted(replies.first());
        lemma_job_ends(job.after(replies.first()), replies.drop_first());
    }
}

/// Taking one reply and then more is taking them all.
pub proof fn lemma_run_first<P: Protocol>(job: P, first: Reply, rest: Seq<Reply>)
    ensures
        takes(job, seq![first] + rest) == (job.accepts(first) && takes(job.after(first), rest)),
        run(job, seq![first] + rest) == run(job.after(first), rest),
        asked(job, seq![first] + rest) == seq![job.pending()] + asked(job.after(first), rest),
{
    let all = seq![first] + rest;
    assert(all.first() == first);
    assert(all.drop_first() =~= rest);
}

/// Taking some replies and then more is taking them all.
pub proof fn lemma_run_more<P: Protocol>(job: P, replies: Seq<Reply>, more: Seq<Reply>)
    ensures
        takes(job, replies + more) == (takes(job, replies) && takes(run(job, replies), more)),
        run(job, replies + more) == run(run(job, replies), more),
        asked(job, replies + more) == asked(job, replies) + asked(run(job, replies), more),
    decreases replies.len(),
{
    if replies.len() == 0 {
        assert(replies + more =~= more);
        assert(asked(job, replies) + asked(job, more) =~= asked(job, more));
    } else {
        let first = replies.first();
        let rest = replies.drop_first();
        assert(replies + more =~= seq![first] + (rest + more));
        assert(replies =~= seq![first] + rest);
        lemma_run_first(job, first, rest + more);
        lemma_run_first(job, first, rest);
        lemma_run_more(job.after(first), rest, more);
        assert(seq![job.pending()] + (asked(job.after(first), rest) + asked(
            run(job.after(first), rest),
            more,
        )) =~= (seq![job.pending()] + asked(job.after(first), rest)) + asked(
            run(job.after(first), rest),
            more,
        ));
    }
}

} // verus!
