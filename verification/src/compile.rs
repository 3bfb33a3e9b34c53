//! Compiling the source of one shader stage.

use vstd::prelude::*;
use vstd::string::StringSliceAdditionalSpecFns;
use crate::codes;
use crate::driver::{
    asked, lemma_run_first, lemma_run_more, plain_calls, run, takes, CallModel, DriverCall, Job,
    Operation, Protocol, Reply, Step, StepModel,
};
use crate::inspect::{
    log_calls, log_replies, log_text, InspectStage, Inspection, InspectionModel, Subject,
};
use crate::shaders::ShaderType;
use crate::Error;

verus! {

/// The message of a failed compilation: the stage's name inside a fixed
/// frame, then the shader's log.
pub open spec fn compile_failure(shader_type: ShaderType, log: Seq<char>) -> Seq<char> {
    "error in "@ + shader_type.name() + " shader : "@ + log
}

/// The call that hands `shader` its source: all of it, as one string whose
/// length in bytes the driver is told.
pub open spec fn hand_over(shader: u32, source: Seq<u8>) -> CallModel {
    CallModel {
        operation: Operation::ShaderSource { shader, length: source.len() as i32 },
        bytes: source,
    }
}

/// How far a compilation has come.
pub enum CompileStage {
    /// The shader object is being created.
    Create,
    /// The shader is being handed its source.
    Source { shader: u32 },
    /// The shader is being compiled.
    Compile { shader: u32 },
    /// The compilation's outcome is being inspected.
    Inspect(InspectionModel),
}

/// The model of a compilation. `source` is the source's bytes.
pub struct CompileModel {
    pub shader_type: ShaderType,
    pub source: Seq<u8>,
    pub stage: CompileStage,
}

impl CompileModel {
    /// The compilation of `source` before its first call.
    pub open spec fn start(shader_type: ShaderType, source: Seq<u8>) -> CompileModel {
        CompileModel { shader_type, source, stage: CompileStage::Create }
    }

    /// The shader's handle, if the compilation has ended well.
    pub open spec fn compiled(self) -> Option<u32> {
        match self.pending() {
            StepModel::Finished(Ok(shader)) => Some(shader),
            _ => None,
        }
    }
}

impl Protocol for CompileModel {
    type Output = u32;

    open spec fn pending(self) -> StepModel<u32> {
        match self.stage {
            CompileStage::Create => StepModel::plain(
                Operation::CreateShader { kind: self.shader_type.gl_enum() },
            ),
            CompileStage::Source { shader } => StepModel::Call(hand_over(shader, self.source)),
            CompileStage::Compile { shader } => StepModel::plain(
                Operation::CompileShader { shader },
            ),
            CompileStage::Inspect(inspection) => match inspection.pending() {
                Some(operation) => StepModel::plain(operation),
                None => if inspection.stage == InspectStage::Passed {
                    StepModel::Finished(Ok(inspection.handle))
                } else {
                    StepModel::Finished(Err(compile_failure(self.shader_type, inspection.log)))
                },
            },
        }
    }

    open spec fn accepts(self, reply: Reply) -> bool {
        &&& self.pending() matches StepModel::Call(call)
        &&& reply.kind() == call.operation.reply_kind()
        &&& self.stage matches CompileStage::Inspect(inspection) ==> inspection.accepts(reply)
    }

    open spec fn after(self, reply: Reply) -> CompileModel {
        match (self.stage, reply) {
            (CompileStage::Create, Reply::Handle(shader)) => CompileModel {
                stage: CompileStage::Source { shader },
                ..self
            },
            (CompileStage::Source { shader }, Reply::Empty) => CompileModel {
                stage: CompileStage::Compile { shader },
                ..self
            },
            (CompileStage::Compile { shader }, Reply::Empty) => CompileModel {
                stage: CompileStage::Inspect(InspectionModel::start(Subject::Shader, shader)),
                ..self
            },
            (CompileStage::Inspect(inspection), _) => CompileModel {
                stage: CompileStage::Inspect(inspection.after(reply)),
                ..self
            },
            _ => self,
        }
    }

    open spec fn remaining(self) -> nat {
        match self.stage {
            CompileStage::Create => 7,
            CompileStage::Source { .. } => 6,
            CompileStage::Compile { .. } => 5,
            CompileStage::Inspect(inspection) => inspection.remaining(),
        }
    }

    proof fn lemma_accepted(self, reply: Reply) {
        if let CompileStage::Inspect(inspection) = self.stage {
            inspection.lemma_accepted(reply);
        }
    }
}

enum Progress {
    Create,
    Source { shader: u32 },
    Compile { shader: u32 },
    Inspect(Inspection),
}

impl View for Progress {
    type V = CompileStage;

    closed spec fn view(&self) -> CompileStage {
        match self {
            Progress::Create => CompileStage::Create,
            Progress::Source { shader } => CompileStage::Source { shader: *shader },
            Progress::Compile { shader } => CompileStage::Compile { shader: *shader },
            Progress::Inspect(inspection) => CompileStage::Inspect(inspection@),
        }
    }
}

/// A compilation under way: see `compile_shader`.
pub struct CompileJob {
    shader_type: ShaderType,
    source: Vec<u8>,
    progress: Progress,
}

impl View for CompileJob {
    type V = CompileModel;

    closed spec fn view(&self) -> CompileModel {
        CompileModel {
            shader_type: self.shader_type,
            source: self.source@,
            stage: self.progress@,
        }
    }
}

/// Starts compiling `code` as a shader of the given stage.
///
/// The job creates a shader object, hands it the whole of `code` as its one
/// source string, compiles it and asks for the compile status. If that is
/// zero, it fetches the shader's log, deletes the shader and reports the log
/// as an error that names the stage; otherwise it reports the shader's
/// handle. A shader that the driver has no log for is reported with an empty
/// log.
pub fn compile_shader(code: &str, shader_type: ShaderType) -> (job: CompileJob)
    ensures
        job@ == CompileModel::start(shader_type, code.spec_bytes()),
{
    CompileJob { shader_type, source: code.as_bytes_vec(), progress: Progress::Create }
}

impl CompileJob {
    /// The stage whose source is being compiled.
    pub fn shader_type(&self) -> (shader_type: ShaderType)
        ensures
            shader_type == self@.shader_type,
    {
        self.shader_type
    }

    /// The shader's handle, if the compilation has ended well.
    pub fn compiled(&self) -> (shader: Option<u32>)
        ensures
            shader == self@.compiled(),
    {
        match &self.progress {
            Progress::Inspect(inspection) => match inspection.stage() {
                InspectStage::Passed => Some(inspection.handle()),
                _ => None,
            },
            _ => None,
        }
    }
}

impl Job for CompileJob {
    fn pending(&self) -> (step: Step<u32>) {
        match &self.progress {
            Progress::Create => Step::Call(
                DriverCall::plain(Operation::CreateShader { kind: self.shader_type.as_gl_enum() }),
            ),
            Progress::Source { shader } => Step::Call(
                DriverCall {
                    operation: Operation::ShaderSource {
                        shader: *shader,
                        length: self.source.len() as i32,
                    },
                    bytes: self.source.clone(),
                },
            ),
            Progress::Compile { shader } => Step::Call(
                DriverCall::plain(Operation::CompileShader { shader: *shader }),
            ),
            Progress::Inspect(inspection) => match inspection.pending() {
                Some(operation) => Step::Call(DriverCall::plain(operation)),
                None => match inspection.stage() {
                    InspectStage::Passed => Step::Finished(Ok(inspection.handle())),
                    _ => {
                        let mut message = String::from_str("error in ");
                        message.append(self.shader_type.short_name());
                        message.append(" shader : ");
                        message.append(inspection.log());
                        Step::Finished(Err(Error::new(message.as_str())))
                    },
                },
            },
        }
    }

    fn accepts(&self, reply: &Reply) -> (ok: bool) {
        match &self.progress {
            Progress::Create => matches!(reply, Reply::Handle(_)),
            Progress::Inspect(inspection) => inspection.accepts(reply),
            _ => matches!(reply, Reply::Empty),
        }
    }

    fn resume(&mut self, reply: Reply) {
        match &mut self.progress {
            Progress::Create => match reply {
                Reply::Handle(shader) => {
                    self.progress = Progress::Source { shader };
                },
                _ => {},
            },
            Progress::Source { shader } => {
                self.progress = Progress::Compile { shader: *shader };
            },
            Progress::Compile { shader } => {
                self.progress = Progress::Inspect(Inspection::new(Subject::Shader, *shader));
            },
            Progress::Inspect(inspection) => {
                inspection.resume(reply);
            },
        }
    }
}

/// A compilation whose status is not zero asks for four calls and then
/// reports the shader that the driver created.
pub proof fn lemma_compilation_accepted(
    shader_type: ShaderType,
    source: Seq<u8>,
    shader: u32,
    status: i32,
)
    requires
        status != 0,
    ensures
        ({
            let job = CompileModel::start(shader_type, source);
            let replies = seq![
                Reply::Handle(shader),
                Reply::Empty,
                Reply::Empty,
                Reply::Integer(status),
            ];
            &&& takes(job, replies)
            &&& asked(job, replies) == seq![
                StepModel::<u32>::plain(Operation::CreateShader { kind: shader_type.gl_enum() }),
                StepModel::Call(hand_over(shader, source)),
                StepModel::plain(Operation::CompileShader { shader }),
                StepModel::plain(Operation::GetShaderiv { shader, pname: codes::COMPILE_STATUS }),
            ]
            &&& run(job, replies).pending() == StepModel::<u32>::Finished(Ok(shader))
        }),
{
    let job = CompileModel::start(shader_type, source);
    let created = Reply::Handle(shader);
    let passed = Reply::Integer(status);
    let replies = seq![created, Reply::Empty, Reply::Empty, passed];
    assert(replies =~= seq![created] + seq![Reply::Empty, Reply::Empty, passed]);
    assert(seq![Reply::Empty, Reply::Empty, passed] =~= seq![Reply::Empty] + seq![
        Reply::Empty,
        passed,
    ]);
    assert(seq![Reply::Empty, passed] =~= seq![Reply::Empty] + seq![passed]);
    assert(seq![passed] =~= seq![passed] + Seq::<Reply>::empty());
    let sourced = job.after(created);
    let compiled = sourced.after(Reply::Empty);
    let inspected = compiled.after(Reply::Empty);
    lemma_run_first(job, created, seq![Reply::Empty, Reply::Empty, passed]);
    lemma_run_first(sourced, Reply::Empty, seq![Reply::Empty, passed]);
    lemma_run_first(compiled, Reply::Empty, seq![passed]);
    lemma_run_first(inspected, passed, Seq::<Reply>::empty());
    assert(asked(job, replies) =~= seq![
        job.pending(),
        sourced.pending(),
        compiled.pending(),
        inspected.pending(),
    ]);
}

/// A compilation whose status is zero asks for the length of the shader's
/// log, for the log unless that length is zero, and for the shader's
/// deletion, and then reports the log as an error that names the stage. With
/// a length of zero the log it reports is empty.
pub proof fn lemma_compilation_rejected(
    shader_type: ShaderType,
    source: Seq<u8>,
    shader: u32,
    size: i32,
    log: String,
)
    requires
        size >= 0,
    ensures
        ({
            let job = CompileModel::start(shader_type, source);
            let replies = seq![
                Reply::Handle(shader),
                Reply::Empty,
                Reply::Empty,
                Reply::Integer(0),
                Reply::Integer(size),
            ] + log_replies(size, log);
            &&& takes(job, replies)
            &&& asked(job, replies) == seq![
                StepModel::<u32>::plain(Operation::CreateShader { kind: shader_type.gl_enum() }),
                StepModel::Call(hand_over(shader, source)),
                StepModel::plain(Operation::CompileShader { shader }),
                StepModel::plain(Operation::GetShaderiv { shader, pname: codes::COMPILE_STATUS }),
                StepModel::plain(Operation::GetShaderiv { shader, pname: codes::INFO_LOG_LENGTH }),
            ] + plain_calls::<u32>(log_calls(Subject::Shader, shader, size))
            &&& run(job, replies).pending() == StepModel::<u32>::Finished(
                Err(compile_failure(shader_type, log_text(size, log))),
            )
        }),
{
    let job = CompileModel::start(shader_type, source);
    let r0 = Reply::Handle(shader);
    let r1 = Reply::Empty;
    let r3 = Reply::Integer(0);
    let r4 = Reply::Integer(size);
    let r5 = Reply::Log(log);
    let first = seq![r0, r1, r1, r3, r4];
    assert(first =~= seq![r0] + seq![r1, r1, r3, r4]);
    assert(seq![r1, r1, r3, r4] =~= seq![r1] + seq![r1, r3, r4]);
    assert(seq![r1, r3, r4] =~= seq![r1] + seq![r3, r4]);
    assert(seq![r3, r4] =~= seq![r3] + seq![r4]);
    assert(seq![r4] =~= seq![r4] + Seq::<Reply>::empty());
    assert(seq![r5, r1] =~= seq![r5] + seq![r1]);
    assert(seq![r1] =~= seq![r1] + Seq::<Reply>::empty());
    let j1 = job.after(r0);
    let j2 = j1.after(r1);
    let j3 = j2.after(r1);
    let j4 = j3.after(r3);
    let j5 = j4.after(r4);
    lemma_run_first(job, r0, seq![r1, r1, r3, r4]);
    lemma_run_first(j1, r1, seq![r1, r3, r4]);
    lemma_run_first(j2, r1, seq![r3, r4]);
    lemma_run_first(j3, r3, seq![r4]);
    lemma_run_first(j4, r4, Seq::<Reply>::empty());
    assert(asked(job, first) =~= seq![
        job.pending(),
        j1.pending(),
        j2.pending(),
        j3.pending(),
        j4.pending(),
    ]);
    lemma_run_more(job, first, log_replies(size, log));
    let calls = log_calls(Subject::Shader, shader, size);
    if size == 0 {
        lemma_run_first(j5, r1, Seq::<Reply>::empty());
        assert(asked(j5, log_replies(size, log)) =~= plain_calls::<u32>(calls));
    } else {
        let j6 = j5.after(r5);
        lemma_run_first(j5, r5, seq![r1]);
        lemma_run_first(j6, r1, Seq::<Reply>::empty());
        assert(asked(j5, log_replies(size, log)) =~= plain_calls::<u32>(calls));
    }
}

} // verus!
