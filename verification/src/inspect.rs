//! Asking the driver whether a shader compiled or a program linked, and
//! fetching its information log where it did not.
//!
//! Both questions run the same way: query the status; if it is zero, query
//! the log's length, fetch the log unless that length is zero, delete the
//! object.

use vstd::prelude::*;
use crate::codes;
use crate::driver::{Operation, Reply};

verus! {

/// What is being inspected.
#[derive(Clone, Copy, Debug, PartialEq, Eq)]
pub enum Subject {
    Shader,
    Program,
}

/// How far an inspection has come.
#[derive(Clone, Copy, Debug, PartialEq, Eq)]
pub enum InspectStage {
    /// The status is being queried.
    Status,
    /// The status was zero; the log's length is being queried. The length
    /// counts the terminator, and is zero where there is no log.
    LogLength,
    /// The log is being fetched into `buf_size` bytes, `text_len` of them text.
    Log { buf_size: i32, text_len: usize },
    /// The log is here, or there is none; the object is being deleted.
    Delete,
    /// The status was not zero. The object is left alone.
    Passed,
    /// The status was zero, the log is here and the object is gone.
    Failed,
}

/// The model of an inspection.
pub struct InspectionModel {
    pub subject: Subject,
    pub handle: u32,
    pub stage: InspectStage,
    /// The log's text, empty until it has been fetched.
    pub log: Seq<char>,
}

impl InspectionModel {
    /// The inspection of `handle` before its first call.
    pub open spec fn start(subject: Subject, handle: u32) -> InspectionModel {
        InspectionModel { subject, handle, stage: InspectStage::Status, log: Seq::empty() }
    }

    /// The parameter that holds the subject's status.
    pub open spec fn status_parameter(self) -> u32 {
        match self.subject {
            Subject::Shader => codes::COMPILE_STATUS,
            Subject::Program => codes::LINK_STATUS,
        }
    }

    /// The query of parameter `pname` of the subject.
    pub open spec fn query(self, pname: u32) -> Operation {
        match self.subject {
            Subject::Shader => Operation::GetShaderiv { shader: self.handle, pname },
            Subject::Program => Operation::GetProgramiv { program: self.handle, pname },
        }
    }

    /// The fetch of the subject's log.
    pub open spec fn fetch(self, buf_size: i32, text_len: usize) -> Operation {
        match self.subject {
            Subject::Shader => Operation::GetShaderInfoLog {
                shader: self.handle,
                buf_size,
                text_len,
            },
            Subject::Program => Operation::GetProgramInfoLog {
                program: self.handle,
                buf_size,
                text_len,
            },
        }
    }

    /// The deletion of the subject.
    pub open spec fn delete(self) -> Operation {
        match self.subject {
            Subject::Shader => Operation::DeleteShader { shader: self.handle },
            Subject::Program => Operation::DeleteProgram { program: self.handle },
        }
    }

    /// The call that the inspection waits for, none once it is over.
    pub open spec fn pending(self) -> Option<Operation> {
        match self.stage {
            InspectStage::Status => Some(self.query(self.status_parameter())),
            InspectStage::LogLength => Some(self.query(codes::INFO_LOG_LENGTH)),
            InspectStage::Log { buf_size, text_len } => Some(self.fetch(buf_size, text_len)),
            InspectStage::Delete => Some(self.delete()),
            InspectStage::Passed => None,
            InspectStage::Failed => None,
        }
    }

    /// Whether `reply` can be the driver's answer to the pending call: it is
    /// of the kind that the call is answered with, and a log's length is not
    /// negative.
    pub open spec fn accepts(self, reply: Reply) -> bool {
        &&& self.pending() matches Some(operation)
        &&& reply.kind() == operation.reply_kind()
        &&& self.stage == InspectStage::LogLength ==> reply->Integer_0 >= 0
    }

    /// The inspection after `reply` has answered the pending call. Where the
    /// log's length is zero there is no log to fetch: the log is empty, and
    /// the inspection goes on to the deletion.
    pub open spec fn after(self, reply: Reply) -> InspectionModel {
        match (self.stage, reply) {
            (InspectStage::Status, Reply::Integer(status)) => InspectionModel {
                stage: if status == 0 {
                    InspectStage::LogLength
                } else {
                    InspectStage::Passed
                },
                ..self
            },
            (InspectStage::LogLength, Reply::Integer(size)) => if size == 0 {
                InspectionModel { stage: InspectStage::Delete, log: Seq::empty(), ..self }
            } else {
                InspectionModel {
                    stage: InspectStage::Log { buf_size: size, text_len: (size - 1) as usize },
                    ..self
                }
            },
            (InspectStage::Log { .. }, Reply::Log(text)) => InspectionModel {
                stage: InspectStage::Delete,
                log: text@,
                ..self
            },
            (InspectStage::Delete, Reply::Empty) => InspectionModel {
                stage: InspectStage::Failed,
                ..self
            },
            _ => self,
        }
    }

    /// The number of calls that the inspection may still ask for.
    pub open spec fn remaining(self) -> nat {
        match self.stage {
            InspectStage::Status => 4,
            InspectStage::LogLength => 3,
            InspectStage::Log { .. } => 2,
            InspectStage::Delete => 1,
            InspectStage::Passed => 0,
            InspectStage::Failed => 0,
        }
    }

    /// An inspection takes a reply only while a call is pending, and every
    /// reply it takes brings it closer to its end.
    pub proof fn lemma_accepted(self, reply: Reply)
        requires
            self.accepts(reply),
        ensures
            self.pending() is Some,
            self.after(reply).remaining() < self.remaining(),
    {
    }
}

/// The driver's replies once it has given `size` as the length of the log:
/// the log, where there is one to fetch, and nothing to the deletion.
pub open spec fn log_replies(size: i32, log: String) -> Seq<Reply> {
    if size == 0 {
        seq![Reply::Empty]
    } else {
        seq![Reply::Log(log), Reply::Empty]
    }
}

/// The calls that the inspection of `handle` asks for once the driver has
/// given `size` as the length of the log: the fetch, where there is a log,
/// and the deletion.
pub open spec fn log_calls(subject: Subject, handle: u32, size: i32) -> Seq<Operation> {
    let inspection = InspectionModel::start(subject, handle);
    if size == 0 {
        seq![inspection.delete()]
    } else {
        seq![inspection.fetch(size, (size - 1) as usize), inspection.delete()]
    }
}

/// The log that is reported where the driver has given `size` as its length
/// and, if asked for it, `log` as its text: a log of length zero is empty.
pub open spec fn log_text(size: i32, log: String) -> Seq<char> {
    if size == 0 {
        Seq::empty()
    } else {
        log@
    }
}

/// An inspection under way.
#[derive(Debug)]
pub struct Inspection {
    subject: Subject,
    handle: u32,
    stage: InspectStage,
    log: String,
}

impl View for Inspection {
    type V = InspectionModel;

    closed spec fn view(&self) -> InspectionModel {
        InspectionModel {
            subject: self.subject,
            handle: self.handle,
            stage: self.stage,
            log: self.log@,
        }
    }
}

impl Inspection {
    /// Starts the inspection of `handle`.
    pub fn new(subject: Subject, handle: u32) -> (inspection: Inspection)
        ensures
            inspection@ == InspectionModel::start(subject, handle),
    {
        Inspection { subject, handle, stage: InspectStage::Status, log: String::new() }
    }

    /// The handle of what is inspected.
    pub fn handle(&self) -> (handle: u32)
        ensures
            handle == self@.handle,
    {
        self.handle
    }

    /// How far the inspection has come.
    pub fn stage(&self) -> (stage: InspectStage)
        ensures
            stage == self@.stage,
    {
        self.stage
    }

    /// The log's text, empty until it has been fetched.
    pub fn log(&self) -> (text: &str)
        ensures
            text@ == self@.log,
    {
        self.log.as_str()
    }

    fn query(&self, pname: u32) -> (operation: Operation)
        ensures
            operation == self@.query(pname),
    {
        match self.subject {
            Subject::Shader => Operation::GetShaderiv { shader: self.handle, pname },
            Subject::Program => Operation::GetProgramiv { program: self.handle, pname },
        }
    }

    /// The call that the inspection waits for, none once it is over.
    pub fn pending(&self) -> (operation: Option<Operation>)
        ensures
            operation == self@.pending(),
    {
        match self.stage {
            InspectStage::Status => {
                let pname = match self.subject {
                    Subject::Shader => codes::gl_compile_status(),
                    Subject::Program => codes::gl_link_status(),
                };
                Some(self.query(pname))
            },
            InspectStage::LogLength => Some(self.query(codes::gl_info_log_length())),
            InspectStage::Log { buf_size, text_len } => Some(
                match self.subject {
                    Subject::Shader => Operation::GetShaderInfoLog {
                        shader: self.handle,
                        buf_size,
                        text_len,
                    },
                    Subject::Program => Operation::GetProgramInfoLog {
                        program: self.handle,
                        buf_size,
                        text_len,
                    },
                },
            ),
            InspectStage::Delete => Some(
                match self.subject {
                    Subject::Shader => Operation::DeleteShader { shader: self.handle },
                    Subject::Program => Operation::DeleteProgram { program: self.handle },
                },
            ),
            InspectStage::Passed => None,
            InspectStage::Failed => None,
        }
    }

    /// Whether `reply` can be the driver's answer to the pending call.
    pub fn accepts(&self, reply: &Reply) -> (ok: bool)
        ensures
            ok == self@.accepts(*reply),
    {
        match self.stage {
            InspectStage::Status => matches!(reply, Reply::Integer(_)),
            InspectStage::LogLength => match reply {
                Reply::Integer(size) => *size >= 0,
                _ => false,
            },
            InspectStage::Log { .. } => matches!(reply, Reply::Log(_)),
            InspectStage::Delete => matches!(reply, Reply::Empty),
            InspectStage::Passed => false,
            InspectStage::Failed => false,
        }
    }

    /// Takes the driver's answer to the pending call.
    pub fn resume(&mut self, reply: Reply)
        requires
            old(self)@.accepts(reply),
        ensures
            final(self)@ == old(self)@.after(reply),
    {
        match reply {
            Reply::Integer(value) => {
                match self.stage {
                    InspectStage::Status => {
                        if value == 0 {
                            self.stage = InspectStage::LogLength;
                        } else {
                            self.stage = InspectStage::Passed;
                        }
                    },
                    _ => {
                        if value == 0 {
                            self.log = String::new();
                            self.stage = InspectStage::Delete;
                        } else {
                            let text_len: usize = (value - 1) as usize;
                            self.stage = InspectStage::Log { buf_size: value, text_len };
                        }
                    },
                }
            },
            Reply::Log(text) => {
                self.log = text;
                self.stage = InspectStage::Delete;
            },
            _ => {
                self.stage = InspectStage::Failed;
            },
        }
    }
}

} // verus!
