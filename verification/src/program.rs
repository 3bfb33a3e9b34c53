//! Building a program from the source of its stages.

use vstd::prelude::*;
use vstd::utf8::encode_utf8;
use crate::codes;
use crate::compile::{compile_shader, hand_over, CompileJob, CompileModel};
use crate::driver::{
    asked, lemma_run_first, lemma_run_more, run, takes, Job, Operation, Protocol, Reply, Step,
    StepModel,
};
use crate::link::{create_program, LinkJob, LinkModel};
use crate::shaders::{lemma_stage_order, stage_order, ShaderCode, ShaderType, Sources};

verus! {

/// The first place at or after `from` whose stage has text, the number of
/// stages if there is none.
pub open spec fn next_source(sources: Sources, from: int) -> int
    decreases 6 - from,
{
    if from < 0 || from >= 6 {
        6
    } else if sources.contains_key(stage_order()[from]) {
        from
    } else {
        next_source(sources, from + 1)
    }
}

/// The number of stages at or after place `from` that have text.
pub open spec fn count_sources(sources: Sources, from: int) -> nat
    decreases 6 - from,
{
    if from < 0 || from >= 6 {
        0
    } else if sources.contains_key(stage_order()[from]) {
        1 + count_sources(sources, from + 1)
    } else {
        count_sources(sources, from + 1)
    }
}

proof fn lemma_next_source(sources: Sources, from: int)
    requires
        0 <= from <= 6,
    ensures
        from <= next_source(sources, from) <= 6,
        next_source(sources, from) < 6 ==> sources.contains_key(
            stage_order()[next_source(sources, from)],
        ) && count_sources(sources, from) == 1 + count_sources(
            sources,
            next_source(sources, from) + 1,
        ),
        next_source(sources, from) == 6 ==> count_sources(sources, from) == 0,
    decreases 6 - from,
{
    if from < 6 && !sources.contains_key(stage_order()[from]) {
        lemma_next_source(sources, from + 1);
    }
}

/// What a build is busy with.
pub enum BuildStage {
    /// A stage is being compiled.
    Compiling(CompileModel),
    /// The compiled shaders are being linked.
    Linking(LinkModel),
}

/// The model of a build: the text of the stages, the shaders
/// compiled so far, and the compilation or link under way.
pub struct BuildModel {
    pub sources: Sources,
    pub shaders: Seq<u32>,
    pub stage: BuildStage,
}

impl BuildModel {
    /// What a build turns to once the stages before place `from` are done
    /// and have given `shaders`: the compilation of the next stage that has
    /// text, or, if there is none left, the link of `shaders`, which are
    /// deleted once detached.
    pub open spec fn enter(sources: Sources, shaders: Seq<u32>, from: int) -> BuildStage {
        let slot = next_source(sources, from);
        if slot < 6 {
            let ty = stage_order()[slot];
            BuildStage::Compiling(CompileModel::start(ty, encode_utf8(sources[ty])))
        } else {
            BuildStage::Linking(LinkModel::start(shaders, true))
        }
    }

    /// Whether the build is at rest between two calls: a compilation under
    /// way has not ended well, for the build moves on as soon as one does.
    pub open spec fn steady(self) -> bool {
        self.stage matches BuildStage::Compiling(job) ==> job.compiled() is None
    }

    /// The build of `sources` before its first call.
    pub open spec fn start(sources: Sources) -> BuildModel {
        BuildModel {
            sources,
            shaders: Seq::empty(),
            stage: BuildModel::enter(sources, Seq::empty(), 0),
        }
    }
}

impl Protocol for BuildModel {
    type Output = u32;

    /// What the build wants next is what its compilation or link wants. The
    /// error of a failed compilation ends the build; the shaders compiled
    /// before it are left as they are.
    open spec fn pending(self) -> StepModel<u32> {
        match self.stage {
            BuildStage::Compiling(job) => job.pending(),
            BuildStage::Linking(job) => job.pending(),
        }
    }

    open spec fn accepts(self, reply: Reply) -> bool {
        match self.stage {
            BuildStage::Compiling(job) => job.accepts(reply),
            BuildStage::Linking(job) => job.accepts(reply),
        }
    }

    /// A compilation that ends well adds its shader to those compiled, and
    /// the build turns to the stages after it.
    open spec fn after(self, reply: Reply) -> BuildModel {
        match self.stage {
            BuildStage::Compiling(job) => {
                let next = job.after(reply);
                match next.compiled() {
                    Some(shader) => BuildModel {
                        shaders: self.shaders.push(shader),
                        stage: BuildModel::enter(
                            self.sources,
                            self.shaders.push(shader),
                            job.shader_type.slot() + 1,
                        ),
                        ..self
                    },
                    None => BuildModel { stage: BuildStage::Compiling(next), ..self },
                }
            },
            BuildStage::Linking(job) => BuildModel {
                stage: BuildStage::Linking(job.after(reply)),
                ..self
            },
        }
    }

    open spec fn remaining(self) -> nat {
        match self.stage {
            BuildStage::Compiling(job) => {
                let later = count_sources(self.sources, job.shader_type.slot() + 1);
                job.remaining() + 7 * later + 6 + 3 * (self.shaders.len() + 1 + later)
            },
            BuildStage::Linking(job) => job.remaining(),
        }
    }

    proof fn lemma_accepted(self, reply: Reply) {
        match self.stage {
            BuildStage::Compiling(job) => {
                job.lemma_accepted(reply);
                lemma_stage_order();
                lemma_next_source(self.sources, job.shader_type.slot() + 1);
            },
            BuildStage::Linking(job) => {
                job.lemma_accepted(reply);
            },
        }
    }
}

enum Current {
    Compiling(CompileJob),
    Linking(LinkJob),
}

impl View for Current {
    type V = BuildStage;

    closed spec fn view(&self) -> BuildStage {
        match self {
            Current::Compiling(job) => BuildStage::Compiling(job@),
            Current::Linking(job) => BuildStage::Linking(job@),
        }
    }
}

/// A build under way.
///
/// The build compiles the stages that have text, in building order, each as
/// `compile_shader` does. The first compilation that fails ends the build
/// with its error. Once all have ended well, the build links their shaders
/// as `create_program` does, deleting them once detached, and reports what
/// the link reports.
pub struct BuildJob {
    code: ShaderCode,
    shaders: Vec<u32>,
    current: Current,
}

impl View for BuildJob {
    type V = BuildModel;

    closed spec fn view(&self) -> BuildModel {
        BuildModel { sources: self.code@, shaders: self.shaders@, stage: self.current@ }
    }
}

fn enter(code: &ShaderCode, shaders: &Vec<u32>, from: usize) -> (current: Current)
    requires
        from <= 6,
    ensures
        current@ == BuildModel::enter(code@, shaders@, from as int),
{
    let stages = ShaderType::each();
    let mut slot: usize = from;
    while slot < 6
        invariant
            from <= slot <= 6,
            stages@ == stage_order(),
            next_source(code@, from as int) == next_source(code@, slot as int),
        decreases 6 - slot,
    {
        match &code[stages[slot]] {
            Some(text) => {
                return Current::Compiling(compile_shader(text.as_str(), stages[slot]));
            },
            None => {},
        }
        slot = slot + 1;
    }
    Current::Linking(create_program(shaders.as_slice(), true))
}

impl BuildJob {
    /// Starts the build of `code`.
    pub fn new(code: ShaderCode) -> (job: BuildJob)
        ensures
            job@ == BuildModel::start(code@),
    {
        let shaders: Vec<u32> = Vec::new();
        let current = enter(&code, &shaders, 0);
        BuildJob { code, shaders, current }
    }
}

impl Job for BuildJob {
    fn pending(&self) -> (step: Step<u32>) {
        match &self.current {
            Current::Compiling(job) => job.pending(),
            Current::Linking(job) => job.pending(),
        }
    }

    fn accepts(&self, reply: &Reply) -> (ok: bool) {
        match &self.current {
            Current::Compiling(job) => job.accepts(reply),
            Current::Linking(job) => job.accepts(reply),
        }
    }

    fn resume(&mut self, reply: Reply) {
        let turn = match &mut self.current {
            Current::Compiling(job) => {
                job.resume(reply);
                match job.compiled() {
                    Some(shader) => Some((shader, job.shader_type().position() + 1)),
                    None => None,
                }
            },
            Current::Linking(job) => {
                job.resume(reply);
                None
            },
        };
        match turn {
            Some((shader, from)) => {
                self.shaders.push(shader);
                self.current = enter(&self.code, &self.shaders, from);
            },
            None => {},
        }
    }
}

/// The stages at or after place `from` that have text, in building order.
pub open spec fn staged(sources: Sources, from: int) -> Seq<ShaderType>
    decreases 6 - from,
{
    if from < 0 || from >= 6 {
        Seq::empty()
    } else if sources.contains_key(stage_order()[from]) {
        seq![stage_order()[from]] + staged(sources, from + 1)
    } else {
        staged(sources, from + 1)
    }
}

/// The calls of a compilation of stage `ty` that the driver accepts and
/// gives the handle `shader`.
pub open spec fn compile_calls(sources: Sources, ty: ShaderType, shader: u32) -> Seq<
    StepModel<u32>,
> {
    seq![
        StepModel::plain(Operation::CreateShader { kind: ty.gl_enum() }),
        StepModel::Call(hand_over(shader, encode_utf8(sources[ty]))),
        StepModel::plain(Operation::CompileShader { shader }),
        StepModel::plain(Operation::GetShaderiv { shader, pname: codes::COMPILE_STATUS }),
    ]
}

/// The driver's replies to `compile_calls`.
pub open spec fn compile_replies(shader: u32, status: i32) -> Seq<Reply> {
    seq![Reply::Handle(shader), Reply::Empty, Reply::Empty, Reply::Integer(status)]
}

/// The calls of the compilations of `stages`, one after the other, which the
/// driver accepts and gives the handles `shaders`.
pub open spec fn all_compile_calls(
    sources: Sources,
    stages: Seq<ShaderType>,
    shaders: Seq<u32>,
) -> Seq<StepModel<u32>>
    decreases stages.len(),
{
    if stages.len() == 0 {
        Seq::empty()
    } else {
        compile_calls(sources, stages.first(), shaders.first()) + all_compile_calls(
            sources,
            stages.drop_first(),
            shaders.drop_first(),
        )
    }
}

/// The driver's replies to `all_compile_calls`.
pub open spec fn all_compile_replies(shaders: Seq<u32>, status: i32) -> Seq<Reply>
    decreases shaders.len(),
{
    if shaders.len() == 0 {
        Seq::empty()
    } else {
        compile_replies(shaders.first(), status) + all_compile_replies(
            shaders.drop_first(),
            status,
        )
    }
}

proof fn lemma_staged(sources: Sources, from: int)
    requires
        0 <= from <= 6,
    ensures
        next_source(sources, from) == 6 ==> staged(sources, from).len() == 0,
        next_source(sources, from) < 6 ==> staged(sources, from) == seq![
            stage_order()[next_source(sources, from)],
        ] + staged(sources, next_source(sources, from) + 1),
    decreases 6 - from,
{
    if from < 6 && !sources.contains_key(stage_order()[from]) {
        lemma_staged(sources, from + 1);
    }
}

proof fn lemma_compile_turn(job: BuildModel, ty: ShaderType, shader: u32, status: i32)
    requires
        status != 0,
        job.stage == BuildStage::Compiling(
            CompileModel::start(ty, encode_utf8(job.sources[ty])),
        ),
    ensures
        takes(job, compile_replies(shader, status)),
        asked(job, compile_replies(shader, status)) == compile_calls(job.sources, ty, shader),
        run(job, compile_replies(shader, status)) == (BuildModel {
            shaders: job.shaders.push(shader),
            stage: BuildModel::enter(job.sources, job.shaders.push(shader), ty.slot() + 1),
            ..job
        }),
{
    let created = Reply::Handle(shader);
    let passed = Reply::Integer(status);
    assert(compile_replies(shader, status) =~= seq![created] + seq![
        Reply::Empty,
        Reply::Empty,
        passed,
    ]);
    assert(seq![Reply::Empty, Reply::Empty, passed] =~= seq![Reply::Empty] + seq![
        Reply::Empty,
        passed,
    ]);
    assert(seq![Reply::Empty, passed] =~= seq![Reply::Empty] + seq![passed]);
    assert(seq![passed] =~= seq![passed] + Seq::<Reply>::empty());
    let sourced = job.after(created);
    let compiled = sourced.after(Reply::Empty);
    let inspected = compiled.after(Reply::Empty);
    lemma_run_first(job, created, seq![Reply::Empty, Reply::Empty, passed]);
    lemma_run_first(sourced, Reply::Empty, seq![Reply::Empty, passed]);
    lemma_run_first(compiled, Reply::Empty, seq![passed]);
    lemma_run_first(inspected, passed, Seq::<Reply>::empty());
    assert(asked(job, compile_replies(shader, status)) =~= seq![
        job.pending(),
        sourced.pending(),
        compiled.pending(),
        inspected.pending(),
    ]);
}

proof fn lemma_compile_turns(job: BuildModel, from: int, shaders: Seq<u32>, status: i32)
    requires
        status != 0,
        0 <= from <= 6,
        job.stage == BuildModel::enter(job.sources, job.shaders, from),
        shaders.len() == staged(job.sources, from).len(),
    ensures
        takes(job, all_compile_replies(shaders, status)),
        asked(job, all_compile_replies(shaders, status)) == all_compile_calls(
            job.sources,
            staged(job.sources, from),
            shaders,
        ),
        run(job, all_compile_replies(shaders, status)) == (BuildModel {
            shaders: job.shaders + shaders,
            stage: BuildStage::Linking(LinkModel::start(job.shaders + shaders, true)),
            ..job
        }),
    decreases 6 - from,
{
    lemma_staged(job.sources, from);
    lemma_next_source(job.sources, from);
    lemma_stage_order();
    let slot = next_source(job.sources, from);
    if slot < 6 {
        let ty = stage_order()[slot];
        let shader = shaders.first();
        let next = BuildModel {
            shaders: job.shaders.push(shader),
            stage: BuildModel::enter(job.sources, job.shaders.push(shader), slot + 1),
            ..job
        };
        assert(staged(job.sources, from).drop_first() =~= staged(job.sources, slot + 1));
        lemma_compile_turn(job, ty, shader, status);
        lemma_compile_turns(next, slot + 1, shaders.drop_first(), status);
        lemma_run_more(
            job,
            compile_replies(shader, status),
            all_compile_replies(shaders.drop_first(), status),
        );
        assert(job.shaders.push(shader) + shaders.drop_first() =~= job.shaders + shaders);
    } else {
        assert(job.shaders + shaders =~= job.shaders);
    }
}

/// A build whose compilations the driver all accepts compiles the stages
/// that have text, in building order, and then turns to linking the shaders
/// that the compilations gave, in that order, to delete them once they are
/// detached.
pub proof fn lemma_build_compiles(sources: Sources, shaders: Seq<u32>, status: i32)
    requires
        status != 0,
        shaders.len() == staged(sources, 0).len(),
    ensures
        ({
            let job = BuildModel::start(sources);
            let replies = all_compile_replies(shaders, status);
            &&& takes(job, replies)
            &&& asked(job, replies) == all_compile_calls(sources, staged(sources, 0), shaders)
            &&& run(job, replies) == BuildModel {
                sources,
                shaders,
                stage: BuildStage::Linking(LinkModel::start(shaders, true)),
            }
        }),
{
    lemma_compile_turns(BuildModel::start(sources), 0, shaders, status);
    assert(Seq::<u32>::empty() + shaders =~= shaders);
}

/// A build is steady from its start on, whatever replies it is handed. So
/// what it reports in the end, if not an error, is the program of its link.
pub proof fn lemma_build_steady(sources: Sources, replies: Seq<Reply>)
    ensures
        run(BuildModel::start(sources), replies).steady(),
        run(BuildModel::start(sources), replies).pending() matches StepModel::Finished(Ok(_))
            ==> run(BuildModel::start(sources), replies).stage is Linking,
{
    lemma_steady_run(BuildModel::start(sources), replies);
}

proof fn lemma_steady_run(job: BuildModel, replies: Seq<Reply>)
    requires
        job.steady(),
    ensures
        run(job, replies).steady(),
    decreases replies.len(),
{
    if replies.len() > 0 {
        lemma_steady_run(job.after(replies.first()), replies.drop_first());
    }
}

/// While a build is linking, it does what the link does.
pub proof fn lemma_build_links(job: BuildModel, link: LinkModel, replies: Seq<Reply>)
    requires
        job.stage == BuildStage::Linking(link),
    ensures
        takes(job, replies) == takes(link, replies),
        asked(job, replies) == asked(link, replies),
        run(job, replies) == (BuildModel {
            stage: BuildStage::Linking(run(link, replies)),
            ..job
        }),
        run(job, replies).pending() == run(link, replies).pending(),
    decreases replies.len(),
{
    if replies.len() > 0 {
        lemma_build_links(
            job.after(replies.first()),
            link.after(replies.first()),
            replies.drop_first(),
        );
    }
}

/// A compilation that fails ends the build with the compilation's error.
pub proof fn lemma_build_stops(job: BuildModel, compilation: CompileModel, message: Seq<char>)
    requires
        job.stage == BuildStage::Compiling(compilation),
        compilation.pending() == StepModel::<u32>::Finished(Err(message)),
    ensures
        job.pending() == StepModel::<u32>::Finished(Err(message)),
        forall|reply: Reply| !job.accepts(reply),
{
}

} // verus!
