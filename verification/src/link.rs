//! Linking compiled shaders into a program.

use vstd::prelude::*;
use vstd::slice::slice_to_vec;
use crate::codes;
use crate::driver::{
    asked, empty_replies, lemma_run_first, lemma_run_more, plain_calls, run, takes, DriverCall,
    Job, Operation, Protocol, Reply, Step, StepModel,
};
use crate::inspect::{
    log_calls, log_replies, log_text, InspectStage, Inspection, InspectionModel, Subject,
};
use crate::Error;

verus! {

/// The message of a failed link: a fixed opening, then the program's log.
pub open spec fn link_failure(log: Seq<char>) -> Seq<char> {
    "shader program linking error: "@ + log
}

/// How far a link has come. `next` counts the shaders already dealt with in
/// the current pass over them.
pub enum LinkStage {
    /// The program is being created.
    Create,
    /// Shader `next` is being attached.
    Attach { program: u32, next: int },
    /// The program is being linked.
    Link { program: u32 },
    /// Shader `next` is being detached.
    Detach { program: u32, next: int },
    /// Shader `next`, detached, is being deleted.
    DeleteShader { program: u32, next: int },
    /// The link's outcome is being inspected.
    Inspect(InspectionModel),
}

/// The model of a link.
pub struct LinkModel {
    pub shaders: Seq<u32>,
    pub delete_shaders: bool,
    pub stage: LinkStage,
}

impl LinkModel {
    /// The link of `shaders` before its first call.
    pub open spec fn start(shaders: Seq<u32>, delete_shaders: bool) -> LinkModel {
        LinkModel { shaders, delete_shaders, stage: LinkStage::Create }
    }

    /// A pass over the shaders points at one of them.
    pub open spec fn well_formed(self) -> bool {
        match self.stage {
            LinkStage::Attach { next, .. } => 0 <= next < self.shaders.len(),
            LinkStage::Detach { next, .. } => 0 <= next < self.shaders.len(),
            LinkStage::DeleteShader { next, .. } => 0 <= next < self.shaders.len(),
            _ => true,
        }
    }

    /// The stage that attaches shader `next`, or links once all are attached.
    pub open spec fn attach_from(self, program: u32, next: int) -> LinkStage {
        if next < self.shaders.len() {
            LinkStage::Attach { program, next }
        } else {
            LinkStage::Link { program }
        }
    }

    /// The stage that detaches shader `next`, or inspects the program once
    /// all are detached.
    pub open spec fn detach_from(self, program: u32, next: int) -> LinkStage {
        if next < self.shaders.len() {
            LinkStage::Detach { program, next }
        } else {
            LinkStage::Inspect(InspectionModel::start(Subject::Program, program))
        }
    }

    /// The number of shaders that a pass has still to deal with when it
    /// points at shader `next`: at least the one it points at.
    pub open spec fn left(self, next: int) -> nat {
        if next < self.shaders.len() - 1 {
            (self.shaders.len() - next) as nat
        } else {
            1
        }
    }

    /// The number of calls that part `count` shaders from the program: one
    /// each to detach them, and one more each where they are deleted.
    pub open spec fn parting(self, count: nat) -> nat {
        if self.delete_shaders {
            2 * count
        } else {
            count
        }
    }
}

impl Protocol for LinkModel {
    type Output = u32;

    open spec fn pending(self) -> StepModel<u32> {
        match self.stage {
            LinkStage::Create => StepModel::plain(Operation::CreateProgram),
            LinkStage::Attach { program, next } => StepModel::plain(
                Operation::AttachShader { program, shader: self.shaders[next] },
            ),
            LinkStage::Link { program } => StepModel::plain(Operation::LinkProgram { program }),
            LinkStage::Detach { program, next } => StepModel::plain(
                Operation::DetachShader { program, shader: self.shaders[next] },
            ),
            LinkStage::DeleteShader { next, .. } => StepModel::plain(
                Operation::DeleteShader { shader: self.shaders[next] },
            ),
            LinkStage::Inspect(inspection) => match inspection.pending() {
                Some(operation) => StepModel::plain(operation),
                None => if inspection.stage == InspectStage::Passed {
                    StepModel::Finished(Ok(inspection.handle))
                } else {
                    StepModel::Finished(Err(link_failure(inspection.log)))
                },
            },
        }
    }

    open spec fn accepts(self, reply: Reply) -> bool {
        &&& self.pending() matches StepModel::Call(call)
        &&& reply.kind() == call.operation.reply_kind()
        &&& self.stage matches LinkStage::Inspect(inspection) ==> inspection.accepts(reply)
    }

    open spec fn after(self, reply: Reply) -> LinkModel {
        match (self.stage, reply) {
            (LinkStage::Create, Reply::Handle(program)) => LinkModel {
                stage: self.attach_from(program, 0),
                ..self
            },
            (LinkStage::Attach { program, next }, Reply::Empty) => LinkModel {
                stage: self.attach_from(program, next + 1),
                ..self
            },
            (LinkStage::Link { program }, Reply::Empty) => LinkModel {
                stage: self.detach_from(program, 0),
                ..self
            },
            (LinkStage::Detach { program, next }, Reply::Empty) => LinkModel {
                stage: if self.delete_shaders {
                    LinkStage::DeleteShader { program, next }
                } else {
                    self.detach_from(program, next + 1)
                },
                ..self
            },
            (LinkStage::DeleteShader { program, next }, Reply::Empty) => LinkModel {
                stage: self.detach_from(program, next + 1),
                ..self
            },
            (LinkStage::Inspect(inspection), _) => LinkModel {
                stage: LinkStage::Inspect(inspection.after(reply)),
                ..self
            },
            _ => self,
        }
    }

    open spec fn remaining(self) -> nat {
        match self.stage {
            LinkStage::Create => 6 + self.shaders.len() + self.parting(self.shaders.len()),
            LinkStage::Attach { next, .. } => 5 + self.left(next) + self.parting(
                self.shaders.len(),
            ),
            LinkStage::Link { .. } => 5 + self.parting(self.shaders.len()),
            LinkStage::Detach { next, .. } => 4 + self.parting(self.left(next)),
            LinkStage::DeleteShader { next, .. } => 3 + 2 * self.left(next),
            LinkStage::Inspect(inspection) => inspection.remaining(),
        }
    }

    proof fn lemma_accepted(self, reply: Reply) {
        if let LinkStage::Inspect(inspection) = self.stage {
            inspection.lemma_accepted(reply);
        }
    }
}

enum Progress {
    Create,
    Attach { program: u32, next: usize },
    Link { program: u32 },
    Detach { program: u32, next: usize },
    DeleteShader { program: u32, next: usize },
    Inspect(Inspection),
}

impl View for Progress {
    type V = LinkStage;

    closed spec fn view(&self) -> LinkStage {
        match self {
            Progress::Create => LinkStage::Create,
            Progress::Attach { program, next } => LinkStage::Attach {
                program: *program,
                next: *next as int,
            },
            Progress::Link { program } => LinkStage::Link { program: *program },
            Progress::Detach { program, next } => LinkStage::Detach {
                program: *program,
                next: *next as int,
            },
            Progress::DeleteShader { program, next } => LinkStage::DeleteShader {
                program: *program,
                next: *next as int,
            },
            Progress::Inspect(inspection) => LinkStage::Inspect(inspection@),
        }
    }
}

impl Progress {
    /// Hands `reply` to the inspection under way.
    fn resume_inspection(&mut self, reply: Reply)
        requires
            old(self)@ matches LinkStage::Inspect(inspection) && inspection.accepts(reply),
        ensures
            old(self)@ matches LinkStage::Inspect(inspection) && final(self)@
                == LinkStage::Inspect(inspection.after(reply)),
    {
        match self {
            Progress::Inspect(inspection) => {
                inspection.resume(reply);
            },
            _ => {},
        }
    }
}

/// A link under way: see `create_program`.
pub struct LinkJob {
    shaders: Vec<u32>,
    delete_shaders: bool,
    progress: Progress,
}

impl View for LinkJob {
    type V = LinkModel;

    closed spec fn view(&self) -> LinkModel {
        LinkModel {
            shaders: self.shaders@,
            delete_shaders: self.delete_shaders,
            stage: self.progress@,
        }
    }
}

/// Starts linking `shaders` into a new program.
///
/// The job creates the program, attaches every shader in order, links, then
/// detaches every shader in order, deleting each right after its detachment
/// if `delete_shaders` is set. Then it asks for the link status. If that is
/// zero, it fetches the program's log, deletes the program and reports the
/// log as an error; otherwise it reports the program's handle. A program
/// that the driver has no log for is reported with an empty log.
pub fn create_program(shaders: &[u32], delete_shaders: bool) -> (job: LinkJob)
    ensures
        job@ == LinkModel::start(shaders@, delete_shaders),
{
    LinkJob { shaders: slice_to_vec(shaders), delete_shaders, progress: Progress::Create }
}

impl LinkJob {
    #[verifier::type_invariant]
    spec fn inv(&self) -> bool {
        self@.well_formed()
    }

    fn attach_from(&self, program: u32, next: usize) -> (progress: Progress)
        ensures
            progress@ == self@.attach_from(program, next as int),
    {
        if next < self.shaders.len() {
            Progress::Attach { program, next }
        } else {
            Progress::Link { program }
        }
    }

    fn detach_from(&self, program: u32, next: usize) -> (progress: Progress)
        ensures
            progress@ == self@.detach_from(program, next as int),
    {
        if next < self.shaders.len() {
            Progress::Detach { program, next }
        } else {
            Progress::Inspect(Inspection::new(Subject::Program, program))
        }
    }
}

impl Job for LinkJob {
    fn pending(&self) -> (step: Step<u32>) {
        proof {
            use_type_invariant(self);
        }
        match &self.progress {
            Progress::Create => Step::Call(DriverCall::plain(Operation::CreateProgram)),
            Progress::Attach { program, next } => Step::Call(
                DriverCall::plain(
                    Operation::AttachShader { program: *program, shader: self.shaders[*next] },
                ),
            ),
            Progress::Link { program } => Step::Call(
                DriverCall::plain(Operation::LinkProgram { program: *program }),
            ),
            Progress::Detach { program, next } => Step::Call(
                DriverCall::plain(
                    Operation::DetachShader { program: *program, shader: self.shaders[*next] },
                ),
            ),
            Progress::DeleteShader { next, .. } => Step::Call(
                DriverCall::plain(Operation::DeleteShader { shader: self.shaders[*next] }),
            ),
            Progress::Inspect(inspection) => match inspection.pending() {
                Some(operation) => Step::Call(DriverCall::plain(operation)),
                None => match inspection.stage() {
                    InspectStage::Passed => Step::Finished(Ok(inspection.handle())),
                    _ => {
                        let mut message = String::from_str("shader program linking error: ");
                        message.append(inspection.log());
                        Step::Finished(Err(Error::new(message.as_str())))
                    },
                },
            },
        }
    }

    fn accepts(&self, reply: &Reply) -> (ok: bool) {
        match &self.progress {
            Progress::Create => matches!(reply, Reply::Handle(_)),
            Progress::Inspect(inspection) => inspection.accepts(reply),
            _ => matches!(reply, Reply::Empty),
        }
    }

    fn resume(&mut self, reply: Reply) {
        proof {
            use_type_invariant(&*self);
            assert(self.shaders@.len() == self.shaders.len());
        }
        let moved = match &self.progress {
            Progress::Create => match &reply {
                Reply::Handle(program) => Some(self.attach_from(*program, 0)),
                _ => None,
            },
            Progress::Attach { program, next } => Some(self.attach_from(*program, *next + 1)),
            Progress::Link { program } => Some(self.detach_from(*program, 0)),
            Progress::Detach { program, next } => if self.delete_shaders {
                Some(Progress::DeleteShader { program: *program, next: *next })
            } else {
                Some(self.detach_from(*program, *next + 1))
            },
            Progress::DeleteShader { program, next } => Some(
                self.detach_from(*program, *next + 1),
            ),
            Progress::Inspect(_) => None,
        };
        match moved {
            Some(progress) => {
                self.progress = progress;
            },
            None => {
                // The inspection is taken out of the job while it takes the
                // reply, and put back afterwards.
                let mut progress = Progress::Create;
                core::mem::swap(&mut self.progress, &mut progress);
                progress.resume_inspection(reply);
                self.progress = progress;
            },
        }
    }
}

/// A link is well formed from its start on, whatever replies it is handed.
pub proof fn lemma_link_well_formed(shaders: Seq<u32>, delete_shaders: bool, replies: Seq<Reply>)
    ensures
        run(LinkModel::start(shaders, delete_shaders), replies).well_formed(),
{
    lemma_well_formed_run(LinkModel::start(shaders, delete_shaders), replies);
}

proof fn lemma_well_formed_run(job: LinkModel, replies: Seq<Reply>)
    requires
        job.well_formed(),
    ensures
        run(job, replies).well_formed(),
    decreases replies.len(),
{
    if replies.len() > 0 {
        lemma_well_formed_run(job.after(replies.first()), replies.drop_first());
    }
}

/// The calls that attach the shaders from place `from` on, in order.
pub open spec fn attachments(program: u32, shaders: Seq<u32>, from: int) -> Seq<Operation>
    decreases shaders.len() - from,
{
    if from < 0 || from >= shaders.len() {
        Seq::empty()
    } else {
        seq![Operation::AttachShader { program, shader: shaders[from] }] + attachments(
            program,
            shaders,
            from + 1,
        )
    }
}

/// The calls that part the shaders from place `from` on from the program, in
/// order: each is detached and, where shaders are deleted, deleted right
/// after.
pub open spec fn partings(
    program: u32,
    shaders: Seq<u32>,
    delete_shaders: bool,
    from: int,
) -> Seq<Operation>
    decreases shaders.len() - from,
{
    if from < 0 || from >= shaders.len() {
        Seq::empty()
    } else {
        let detach = Operation::DetachShader { program, shader: shaders[from] };
        let delete = Operation::DeleteShader { shader: shaders[from] };
        let rest = partings(program, shaders, delete_shaders, from + 1);
        if delete_shaders {
            seq![detach, delete] + rest
        } else {
            seq![detach] + rest
        }
    }
}

/// The calls of a link whose program is `program`, up to the one that asks
/// for the link status.
pub open spec fn link_calls(program: u32, shaders: Seq<u32>, delete_shaders: bool) -> Seq<
    Operation,
> {
    seq![Operation::CreateProgram] + attachments(program, shaders, 0) + seq![
        Operation::LinkProgram { program },
    ] + partings(program, shaders, delete_shaders, 0) + seq![
        Operation::GetProgramiv { program, pname: codes::LINK_STATUS },
    ]
}

/// The driver's replies to `link_calls`, the last of which is `status`.
pub open spec fn link_replies(
    program: u32,
    shaders: Seq<u32>,
    delete_shaders: bool,
    status: i32,
) -> Seq<Reply> {
    seq![Reply::Handle(program)] + empty_replies(
        (link_calls(program, shaders, delete_shaders).len() - 2) as nat,
    ) + seq![Reply::Integer(status)]
}

proof fn lemma_plain_calls<T>(first: Seq<Operation>, second: Seq<Operation>)
    ensures
        plain_calls::<T>(first + second) == plain_calls::<T>(first) + plain_calls::<T>(second),
{
    assert(plain_calls::<T>(first + second) =~= plain_calls::<T>(first) + plain_calls::<T>(
        second,
    ));
}

proof fn lemma_empty_replies(count: nat, more: nat)
    ensures
        empty_replies(count + more) == empty_replies(count) + empty_replies(more),
{
    assert(empty_replies(count + more) =~= empty_replies(count) + empty_replies(more));
}

proof fn lemma_attach_pass(job: LinkModel, program: u32, from: int)
    requires
        0 <= from <= job.shaders.len(),
        job.stage == job.attach_from(program, from),
    ensures
        ({
            let operations = attachments(program, job.shaders, from);
            let replies = empty_replies(operations.len());
            &&& operations.len() == job.shaders.len() - from
            &&& takes(job, replies)
            &&& asked(job, replies) == plain_calls::<u32>(operations)
            &&& run(job, replies) == LinkModel { stage: LinkStage::Link { program }, ..job }
        }),
    decreases job.shaders.len() - from,
{
    let operations = attachments(program, job.shaders, from);
    if from < job.shaders.len() {
        let next = LinkModel { stage: job.attach_from(program, from + 1), ..job };
        lemma_attach_pass(next, program, from + 1);
        let rest = attachments(program, job.shaders, from + 1);
        assert(empty_replies(operations.len()) =~= seq![Reply::Empty] + empty_replies(rest.len()));
        lemma_run_first(job, Reply::Empty, empty_replies(rest.len()));
        assert(job.after(Reply::Empty) == next);
        assert(plain_calls::<u32>(operations) =~= seq![job.pending()] + plain_calls::<u32>(rest));
    } else {
        assert(empty_replies(0) =~= Seq::<Reply>::empty());
        assert(plain_calls::<u32>(operations) =~= Seq::<StepModel<u32>>::empty());
    }
}

proof fn lemma_detach_pass(job: LinkModel, program: u32, from: int)
    requires
        0 <= from <= job.shaders.len(),
        job.stage == job.detach_from(program, from),
    ensures
        ({
            let operations = partings(program, job.shaders, job.delete_shaders, from);
            let replies = empty_replies(operations.len());
            &&& operations.len() == job.parting((job.shaders.len() - from) as nat)
            &&& takes(job, replies)
            &&& asked(job, replies) == plain_calls::<u32>(operations)
            &&& run(job, replies) == LinkModel {
                stage: LinkStage::Inspect(InspectionModel::start(Subject::Program, program)),
                ..job
            }
        }),
    decreases job.shaders.len() - from,
{
    let operations = partings(program, job.shaders, job.delete_shaders, from);
    if from < job.shaders.len() {
        let next = LinkModel { stage: job.detach_from(program, from + 1), ..job };
        lemma_detach_pass(next, program, from + 1);
        let rest = partings(program, job.shaders, job.delete_shaders, from + 1);
        if job.delete_shaders {
            let deleting = job.after(Reply::Empty);
            assert(empty_replies(operations.len()) =~= seq![Reply::Empty] + (seq![Reply::Empty]
                + empty_replies(rest.len())));
            lemma_run_first(job, Reply::Empty, seq![Reply::Empty] + empty_replies(rest.len()));
            lemma_run_first(deleting, Reply::Empty, empty_replies(rest.len()));
            assert(deleting.after(Reply::Empty) == next);
            assert(plain_calls::<u32>(operations) =~= seq![job.pending()] + (seq![
                deleting.pending(),
            ] + plain_calls::<u32>(rest)));
        } else {
            assert(empty_replies(operations.len()) =~= seq![Reply::Empty] + empty_replies(
                rest.len(),
            ));
            lemma_run_first(job, Reply::Empty, empty_replies(rest.len()));
            assert(job.after(Reply::Empty) == next);
            assert(plain_calls::<u32>(operations) =~= seq![job.pending()] + plain_calls::<u32>(
                rest,
            ));
        }
    } else {
        assert(empty_replies(0) =~= Seq::<Reply>::empty());
        assert(plain_calls::<u32>(operations) =~= Seq::<StepModel<u32>>::empty());
    }
}

/// Up to its question for the link status, a link asks for `link_calls`: it
/// creates the program, attaches every shader, links, and parts every shader
/// from the program again.
pub proof fn lemma_link_calls(shaders: Seq<u32>, delete_shaders: bool, program: u32, status: i32)
    ensures
        ({
            let job = LinkModel::start(shaders, delete_shaders);
            let replies = link_replies(program, shaders, delete_shaders, status);
            &&& takes(job, replies)
            &&& asked(job, replies) == plain_calls::<u32>(
                link_calls(program, shaders, delete_shaders),
            )
            &&& run(job, replies) == LinkModel {
                stage: LinkStage::Inspect(
                    InspectionModel::start(Subject::Program, program).after(
                        Reply::Integer(status),
                    ),
                ),
                ..job
            }
        }),
{
    let job = LinkModel::start(shaders, delete_shaders);
    let attach = attachments(program, shaders, 0);
    let part = partings(program, shaders, delete_shaders, 0);
    let created = Reply::Handle(program);
    let answered = Reply::Integer(status);
    let attaching = LinkModel { stage: job.attach_from(program, 0), ..job };
    let linking = LinkModel { stage: LinkStage::Link { program }, ..job };
    let parting = LinkModel { stage: job.detach_from(program, 0), ..job };
    let inspecting = LinkModel {
        stage: LinkStage::Inspect(InspectionModel::start(Subject::Program, program)),
        ..job
    };
    lemma_attach_pass(attaching, program, 0);
    lemma_detach_pass(parting, program, 0);
    let calls = link_calls(program, shaders, delete_shaders);
    assert(calls.len() == attach.len() + part.len() + 3);
    // The replies, cut where the stages change.
    let middle = empty_replies(attach.len()) + (seq![Reply::Empty] + (empty_replies(part.len())
        + seq![answered]));
    lemma_empty_replies(attach.len(), 1 + part.len());
    lemma_empty_replies(1, part.len());
    assert(empty_replies(1) =~= seq![Reply::Empty]);
    assert(link_replies(program, shaders, delete_shaders, status) =~= seq![created] + middle);
    assert(seq![answered] =~= seq![answered] + Seq::<Reply>::empty());
    lemma_run_first(job, created, middle);
    assert(job.after(created) == attaching);
    lemma_run_more(
        attaching,
        empty_replies(attach.len()),
        seq![Reply::Empty] + (empty_replies(part.len()) + seq![answered]),
    );
    lemma_run_first(linking, Reply::Empty, empty_replies(part.len()) + seq![answered]);
    assert(linking.after(Reply::Empty) == parting);
    lemma_run_more(parting, empty_replies(part.len()), seq![answered]);
    lemma_run_first(inspecting, answered, Seq::<Reply>::empty());
    // The calls, cut at the same places.
    lemma_plain_calls::<u32>(
        seq![Operation::CreateProgram] + attach + seq![Operation::LinkProgram { program }] + part,
        seq![Operation::GetProgramiv { program, pname: codes::LINK_STATUS }],
    );
    lemma_plain_calls::<u32>(
        seq![Operation::CreateProgram] + attach + seq![Operation::LinkProgram { program }],
        part,
    );
    lemma_plain_calls::<u32>(
        seq![Operation::CreateProgram] + attach,
        seq![Operation::LinkProgram { program }],
    );
    lemma_plain_calls::<u32>(seq![Operation::CreateProgram], attach);
    assert(plain_calls::<u32>(seq![Operation::CreateProgram]) =~= seq![job.pending()]);
    assert(plain_calls::<u32>(seq![Operation::LinkProgram { program }]) =~= seq![
        linking.pending(),
    ]);
    assert(plain_calls::<u32>(
        seq![Operation::GetProgramiv { program, pname: codes::LINK_STATUS }],
    ) =~= seq![inspecting.pending()]);
    assert(asked(job, link_replies(program, shaders, delete_shaders, status)) =~= plain_calls::<
        u32,
    >(calls));
}

/// A link whose status is not zero asks for `link_calls` and then reports
/// the program.
pub proof fn lemma_link_accepted(
    shaders: Seq<u32>,
    delete_shaders: bool,
    program: u32,
    status: i32,
)
    requires
        status != 0,
    ensures
        ({
            let job = LinkModel::start(shaders, delete_shaders);
            let replies = link_replies(program, shaders, delete_shaders, status);
            &&& takes(job, replies)
            &&& asked(job, replies) == plain_calls::<u32>(
                link_calls(program, shaders, delete_shaders),
            )
            &&& run(job, replies).pending() == StepModel::<u32>::Finished(Ok(program))
        }),
{
    lemma_link_calls(shaders, delete_shaders, program, status);
}

/// A link whose status is zero asks for `link_calls`, then for the length of
/// the program's log, for the log unless that length is zero, and for the
/// program's deletion, and then reports the log as an error. With a length
/// of zero the log it reports is empty.
pub proof fn lemma_link_rejected(
    shaders: Seq<u32>,
    delete_shaders: bool,
    program: u32,
    size: i32,
    log: String,
)
    requires
        size >= 0,
    ensures
        ({
            let job = LinkModel::start(shaders, delete_shaders);
            let replies = link_replies(program, shaders, delete_shaders, 0) + seq![
                Reply::Integer(size),
            ] + log_replies(size, log);
            &&& takes(job, replies)
            &&& asked(job, replies) == plain_calls::<u32>(
                link_calls(program, shaders, delete_shaders),
            ) + seq![
                StepModel::plain(
                    Operation::GetProgramiv { program, pname: codes::INFO_LOG_LENGTH },
                ),
            ] + plain_calls::<u32>(log_calls(Subject::Program, program, size))
            &&& run(job, replies).pending() == StepModel::<u32>::Finished(
                Err(link_failure(log_text(size, log))),
            )
        }),
{
    let job = LinkModel::start(shaders, delete_shaders);
    let first = link_replies(program, shaders, delete_shaders, 0);
    let sized = Reply::Integer(size);
    let logged = Reply::Log(log);
    lemma_link_calls(shaders, delete_shaders, program, 0);
    lemma_run_more(job, first, seq![sized]);
    lemma_run_more(job, first + seq![sized], log_replies(size, log));
    let j0 = run(job, first);
    let j1 = j0.after(sized);
    assert(seq![sized] =~= seq![sized] + Seq::<Reply>::empty());
    assert(seq![logged, Reply::Empty] =~= seq![logged] + seq![Reply::Empty]);
    assert(seq![Reply::Empty] =~= seq![Reply::Empty] + Seq::<Reply>::empty());
    lemma_run_first(j0, sized, Seq::<Reply>::empty());
    assert(asked(j0, seq![sized]) =~= seq![j0.pending()]);
    let calls = log_calls(Subject::Program, program, size);
    if size == 0 {
        lemma_run_first(j1, Reply::Empty, Seq::<Reply>::empty());
        assert(asked(j1, log_replies(size, log)) =~= plain_calls::<u32>(calls));
    } else {
        let j2 = j1.after(logged);
        lemma_run_first(j1, logged, seq![Reply::Empty]);
        lemma_run_first(j2, Reply::Empty, Seq::<Reply>::empty());
        assert(asked(j1, log_replies(size, log)) =~= plain_calls::<u32>(calls));
    }
}

} // verus!
