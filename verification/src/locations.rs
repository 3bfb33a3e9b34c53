//! Looking up where a program keeps an attribute or a uniform.

use vstd::prelude::*;
use vstd::slice::slice_to_vec;
use vstd::string::StringSliceAdditionalSpecFns;
use vstd::utf8::{encode_utf8, encode_utf8_decode_utf8, encode_utf8_valid_utf8};
use crate::driver::{
    asked, lemma_run_first, run, takes, CallModel, DriverCall, Job, Operation, Protocol, Reply,
    Step, StepModel,
};
use crate::text::{
    decimal, decimal_string, find_nul, first_nul, from_utf8_lossy, is_first_nul, lemma_first_nul,
    lemma_nul_free, nul_free, shown,
};
use crate::Error;

verus! {

/// What is looked up.
#[derive(Clone, Copy, Debug, PartialEq, Eq)]
pub enum Variable {
    Attribute,
    Uniform,
}

/// The location that the driver answers with where the program has no
/// active variable of the name.
pub const NOT_FOUND: i32 = -1;

/// The message for a name that cannot be handed to the driver, because it
/// holds a zero byte at `position`.
pub open spec fn nul_failure(position: int) -> Seq<char> {
    "nul byte found in provided data at position: "@ + decimal(position as nat)
}

/// The message for a name that the program does not know.
pub open spec fn missing_failure(variable: Variable, name: Seq<char>) -> Seq<char> {
    match variable {
        Variable::Attribute => "could not find attribute "@ + name,
        Variable::Uniform => "could not find uniform "@ + name,
    }
}

/// How far a lookup has come.
#[derive(Clone, Copy, Debug, PartialEq, Eq)]
pub enum LocationStage {
    /// The name holds a zero byte at `position`; the driver is not asked.
    Refused { position: usize },
    /// The driver is being asked.
    Ask,
    /// The driver gave a location.
    Found { location: i32 },
    /// The driver does not know the name.
    Missing,
}

/// The model of a lookup. `name` is the name's bytes.
pub struct LocationModel {
    pub variable: Variable,
    pub program: u32,
    pub name: Seq<u8>,
    pub stage: LocationStage,
}

impl LocationModel {
    /// The lookup of `name` before its first call. A name with a zero byte
    /// is refused at once: the driver would take it to end there.
    pub open spec fn start(variable: Variable, program: u32, name: Seq<u8>) -> LocationModel {
        LocationModel {
            variable,
            program,
            name,
            stage: match first_nul(name) {
                Some(position) => LocationStage::Refused { position: position as usize },
                None => LocationStage::Ask,
            },
        }
    }

    /// The question put to the driver.
    pub open spec fn question(self) -> CallModel {
        CallModel {
            operation: match self.variable {
                Variable::Attribute => Operation::GetAttribLocation { program: self.program },
                Variable::Uniform => Operation::GetUniformLocation { program: self.program },
            },
            bytes: self.name,
        }
    }
}

impl Protocol for LocationModel {
    type Output = i32;

    open spec fn pending(self) -> StepModel<i32> {
        match self.stage {
            LocationStage::Refused { position } => StepModel::Finished(
                Err(nul_failure(position as int)),
            ),
            LocationStage::Ask => StepModel::Call(self.question()),
            LocationStage::Found { location } => StepModel::Finished(Ok(location)),
            LocationStage::Missing => StepModel::Finished(
                Err(missing_failure(self.variable, shown(self.name))),
            ),
        }
    }

    open spec fn accepts(self, reply: Reply) -> bool {
        &&& self.pending() matches StepModel::Call(call)
        &&& reply.kind() == call.operation.reply_kind()
    }

    open spec fn after(self, reply: Reply) -> LocationModel {
        match (self.stage, reply) {
            (LocationStage::Ask, Reply::Integer(location)) => LocationModel {
                stage: if location == NOT_FOUND {
                    LocationStage::Missing
                } else {
                    LocationStage::Found { location }
                },
                ..self
            },
            _ => self,
        }
    }

    open spec fn remaining(self) -> nat {
        match self.stage {
            LocationStage::Ask => 1,
            _ => 0,
        }
    }

    proof fn lemma_accepted(self, reply: Reply) {
    }
}

/// A lookup under way: see `get_attribute_location` and
/// `get_uniform_location`.
pub struct LocationJob {
    variable: Variable,
    program: u32,
    name: Vec<u8>,
    shown: String,
    stage: LocationStage,
}

impl View for LocationJob {
    type V = LocationModel;

    closed spec fn view(&self) -> LocationModel {
        LocationModel {
            variable: self.variable,
            program: self.program,
            name: self.name@,
            stage: self.stage,
        }
    }
}

fn lookup(variable: Variable, program: u32, name: &str) -> (job: LocationJob)
    ensures
        job@ == LocationModel::start(variable, program, name.spec_bytes()),
{
    let bytes = name.as_bytes();
    let stage = match find_nul(bytes) {
        Some(position) => LocationStage::Refused { position },
        None => LocationStage::Ask,
    };
    proof {
        encode_utf8_valid_utf8(name@);
        encode_utf8_decode_utf8(name@);
    }
    LocationJob { variable, program, name: slice_to_vec(bytes), shown: name.to_owned(), stage }
}

fn lookup_cstr(variable: Variable, program: u32, name: &[u8]) -> (job: LocationJob)
    requires
        nul_free(name@),
    ensures
        job@ == LocationModel::start(variable, program, name@),
{
    proof {
        lemma_nul_free(name@);
    }
    LocationJob {
        variable,
        program,
        name: slice_to_vec(name),
        shown: from_utf8_lossy(name),
        stage: LocationStage::Ask,
    }
}

/// Starts looking up the attribute `name` of `program`.
///
/// A name that holds a zero byte is refused with an error that says where.
/// Otherwise the job asks the driver, and reports the location it gives, or,
/// where that is `NOT_FOUND`, an error that names the attribute.
pub fn get_attribute_location(program: u32, name: &str) -> (job: LocationJob)
    ensures
        job@ == LocationModel::start(Variable::Attribute, program, name.spec_bytes()),
{
    lookup(Variable::Attribute, program, name)
}

/// Starts looking up the attribute of `program` whose name is the bytes
/// `name`, which hold no zero byte: the bytes of a C string without its
/// terminator.
///
/// The job asks the driver, and reports the location it gives, or, where
/// that is `NOT_FOUND`, an error that names the attribute.
pub fn get_attribute_location_cstr(program: u32, name: &[u8]) -> (job: LocationJob)
    requires
        nul_free(name@),
    ensures
        job@ == LocationModel::start(Variable::Attribute, program, name@),
{
    lookup_cstr(Variable::Attribute, program, name)
}

/// Starts looking up the uniform `name` of `program`.
///
/// A name that holds a zero byte is refused with an error that says where.
/// Otherwise the job asks the driver, and reports the location it gives, or,
/// where that is `NOT_FOUND`, an error that names the uniform.
pub fn get_uniform_location(program: u32, name: &str) -> (job: LocationJob)
    ensures
        job@ == LocationModel::start(Variable::Uniform, program, name.spec_bytes()),
{
    lookup(Variable::Uniform, program, name)
}

/// Starts looking up the uniform of `program` whose name is the bytes
/// `name`, which hold no zero byte: the bytes of a C string without its
/// terminator.
///
/// The job asks the driver, and reports the location it gives, or, where
/// that is `NOT_FOUND`, an error that names the uniform.
pub fn get_uniform_location_cstr(program: u32, name: &[u8]) -> (job: LocationJob)
    requires
        nul_free(name@),
    ensures
        job@ == LocationModel::start(Variable::Uniform, program, name@),
{
    lookup_cstr(Variable::Uniform, program, name)
}

impl LocationJob {
    #[verifier::type_invariant]
    spec fn inv(&self) -> bool {
        self.shown@ == shown(self.name@)
    }
}

impl Job for LocationJob {
    fn pending(&self) -> (step: Step<i32>) {
        proof {
            use_type_invariant(self);
        }
        match self.stage {
            LocationStage::Refused { position } => {
                let mut message = String::from_str("nul byte found in provided data at position: ");
                message.append(decimal_string(position).as_str());
                Step::Finished(Err(Error::new(message.as_str())))
            },
            LocationStage::Ask => Step::Call(
                DriverCall {
                    operation: match self.variable {
                        Variable::Attribute => Operation::GetAttribLocation {
                            program: self.program,
                        },
                        Variable::Uniform => Operation::GetUniformLocation {
                            program: self.program,
                        },
                    },
                    bytes: self.name.clone(),
                },
            ),
            LocationStage::Found { location } => Step::Finished(Ok(location)),
            LocationStage::Missing => {
                let mut message = match self.variable {
                    Variable::Attribute => String::from_str("could not find attribute "),
                    Variable::Uniform => String::from_str("could not find uniform "),
                };
                message.append(self.shown.as_str());
                Step::Finished(Err(Error::new(message.as_str())))
            },
        }
    }

    fn accepts(&self, reply: &Reply) -> (ok: bool) {
        match self.stage {
            LocationStage::Ask => matches!(reply, Reply::Integer(_)),
            _ => false,
        }
    }

    fn resume(&mut self, reply: Reply) {
        proof {
            use_type_invariant(&*self);
        }
        match reply {
            Reply::Integer(location) => {
                if location == NOT_FOUND {
                    self.stage = LocationStage::Missing;
                } else {
                    self.stage = LocationStage::Found { location };
                }
            },
            _ => {},
        }
    }
}

/// A name that is text is shown as that text.
pub proof fn lemma_text_is_shown(name: Seq<char>)
    ensures
        shown(encode_utf8(name)) == name,
{
    encode_utf8_valid_utf8(name);
    encode_utf8_decode_utf8(name);
}

/// A name with a zero byte is refused, with an error that says where the
/// first one stands, and the driver is never asked.
pub proof fn lemma_name_refused(variable: Variable, program: u32, name: Seq<u8>, position: int)
    requires
        is_first_nul(name, position),
        name.len() <= usize::MAX,
    ensures
        ({
            let job = LocationModel::start(variable, program, name);
            &&& job.pending() == StepModel::<i32>::Finished(Err(nul_failure(position)))
            &&& forall|reply: Reply| !job.accepts(reply)
        }),
{
    lemma_first_nul(name, position);
}

/// A name without a zero byte is asked for once. Any answer but `NOT_FOUND`
/// is reported as the location; `NOT_FOUND` is reported as an error that
/// shows the name.
pub proof fn lemma_name_asked(variable: Variable, program: u32, name: Seq<u8>, answer: i32)
    requires
        nul_free(name),
    ensures
        ({
            let job = LocationModel::start(variable, program, name);
            let replies = seq![Reply::Integer(answer)];
            &&& takes(job, replies)
            &&& asked(job, replies) == seq![StepModel::<i32>::Call(job.question())]
            &&& run(job, replies).pending() == if answer == NOT_FOUND {
                StepModel::<i32>::Finished(Err(missing_failure(variable, shown(name))))
            } else {
                StepModel::<i32>::Finished(Ok(answer))
            }
        }),
{
    let job = LocationModel::start(variable, program, name);
    let answered = Reply::Integer(answer);
    lemma_nul_free(name);
    assert(seq![answered] =~= seq![answered] + Seq::<Reply>::empty());
    lemma_run_first(job, answered, Seq::<Reply>::empty());
    assert(asked(job, seq![answered]) =~= seq![job.pending()]);
}

} // verus!
