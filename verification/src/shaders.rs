//! Shader stages, shader source kept per stage, and the program builder.

use vstd::prelude::*;
use crate::program::{BuildJob, BuildModel};
use crate::codes;

verus! {

/// A stage of the shader pipeline.
#[derive(Debug, Clone, Copy, PartialEq, Eq)]
pub enum ShaderType {
    Vertex,
    Fragment,
    TessControl,
    TessEval,
    Geometry,
    Compute,
}

/// The stages in the order in which a program is built from them.
pub open spec fn stage_order() -> Seq<ShaderType> {
    seq![
        ShaderType::Vertex,
        ShaderType::Fragment,
        ShaderType::TessControl,
        ShaderType::TessEval,
        ShaderType::Geometry,
        ShaderType::Compute,
    ]
}

impl ShaderType {
    /// The place of this stage in `stage_order`.
    pub open spec fn slot(self) -> int {
        match self {
            ShaderType::Vertex => 0,
            ShaderType::Fragment => 1,
            ShaderType::TessControl => 2,
            ShaderType::TessEval => 3,
            ShaderType::Geometry => 4,
            ShaderType::Compute => 5,
        }
    }

    /// The driver's code for this stage.
    pub open spec fn gl_enum(self) -> u32 {
        match self {
            ShaderType::Vertex => codes::VERTEX_SHADER,
            ShaderType::Fragment => codes::FRAGMENT_SHADER,
            ShaderType::TessControl => codes::TESS_CONTROL_SHADER,
            ShaderType::TessEval => codes::TESS_EVALUATION_SHADER,
            ShaderType::Geometry => codes::GEOMETRY_SHADER,
            ShaderType::Compute => codes::COMPUTE_SHADER,
        }
    }

    /// The name of this stage as error messages spell it.
    pub open spec fn name(self) -> Seq<char> {
        match self {
            ShaderType::Vertex => "vertex"@,
            ShaderType::Fragment => "fragment"@,
            ShaderType::TessControl => "tess control"@,
            ShaderType::TessEval => "tess eval"@,
            ShaderType::Geometry => "geometry"@,
            ShaderType::Compute => "compute"@,
        }
    }

    /// All six stages, in building order.
    pub fn each() -> (stages: [ShaderType; 6])
        ensures
            stages@ == stage_order(),
    {
        [
            ShaderType::Vertex,
            ShaderType::Fragment,
            ShaderType::TessControl,
            ShaderType::TessEval,
            ShaderType::Geometry,
            ShaderType::Compute,
        ]
    }

    /// The driver's code for this stage.
    pub fn as_gl_enum(self) -> (code: u32)
        ensures
            code == self.gl_enum(),
    {
        match self {
            ShaderType::Vertex => codes::gl_vertex_shader(),
            ShaderType::Fragment => codes::gl_fragment_shader(),
            ShaderType::TessControl => codes::gl_tess_control_shader(),
            ShaderType::TessEval => codes::gl_tess_evaluation_shader(),
            ShaderType::Geometry => codes::gl_geometry_shader(),
            ShaderType::Compute => codes::gl_compute_shader(),
        }
    }

    /// The name of this stage as error messages spell it.
    pub fn short_name(self) -> (name: &'static str)
        ensures
            name@ == self.name(),
    {
        match self {
            ShaderType::Vertex => "vertex",
            ShaderType::Fragment => "fragment",
            ShaderType::TessControl => "tess control",
            ShaderType::TessEval => "tess eval",
            ShaderType::Geometry => "geometry",
            ShaderType::Compute => "compute",
        }
    }

    /// The place of this stage in building order.
    pub(crate) fn position(self) -> (place: usize)
        ensures
            place == self.slot(),
    {
        match self {
            ShaderType::Vertex => 0,
            ShaderType::Fragment => 1,
            ShaderType::TessControl => 2,
            ShaderType::TessEval => 3,
            ShaderType::Geometry => 4,
            ShaderType::Compute => 5,
        }
    }
}

/// The text of each stage that has one.
pub type Sources = Map<ShaderType, Seq<char>>;

/// The text of an optional string.
pub open spec fn text_of(source: Option<String>) -> Option<Seq<char>> {
    match source {
        Some(text) => Some(text@),
        None => None,
    }
}

/// The text that `sources` has for stage `ty`, if any.
pub open spec fn source_of(sources: Sources, ty: ShaderType) -> Option<Seq<char>> {
    if sources.contains_key(ty) {
        Some(sources[ty])
    } else {
        None
    }
}

/// `sources` with stage `ty` given `text`, or emptied where `text` is none.
pub open spec fn with_source(
    sources: Sources,
    ty: ShaderType,
    text: Option<Seq<char>>,
) -> Sources {
    match text {
        Some(text) => sources.insert(ty, text),
        None => sources.remove(ty),
    }
}

/// Every stage stands at its place in building order.
pub proof fn lemma_stage_order()
    ensures
        stage_order().len() == 6,
        forall|ty: ShaderType| 0 <= #[trigger] ty.slot() < 6 && stage_order()[ty.slot()] == ty,
        forall|slot: int| 0 <= slot < 6 ==> (#[trigger] stage_order()[slot]).slot() == slot,
{
}

/// Source text for the stages of a program, each stage with its text or
/// without one. Indexed by `ShaderType`.
#[derive(Debug)]
pub struct ShaderCode {
    code: [Option<String>; 6],
}

impl View for ShaderCode {
    type V = Sources;

    /// The text of each stage that has one.
    closed spec fn view(&self) -> Sources {
        Map::new(
            |ty: ShaderType| self.code[ty.slot()] is Some,
            |ty: ShaderType| self.code[ty.slot()]->0@,
        )
    }
}

impl ShaderCode {
    /// The text of stage `ty`, if it has one.
    pub open spec fn source(&self, ty: ShaderType) -> Option<Seq<char>> {
        source_of(self@, ty)
    }

    /// Shader source with no stage filled in.
    pub fn new() -> (code: ShaderCode)
        ensures
            code@ == Sources::empty(),
    {
        let code = ShaderCode { code: [None, None, None, None, None, None] };
        assert(code@ =~= Sources::empty());
        code
    }

    /// Gives stage `ty` the text `text`, in place of any it had.
    pub fn set(&mut self, ty: ShaderType, text: &str)
        ensures
            final(self)@ == old(self)@.insert(ty, text@),
    {
        let slot: usize = ty.position();
        self.code[slot] = Some(text.to_owned());
        assert(self@ =~= old(self)@.insert(ty, text@));
    }
}

impl Default for ShaderCode {
    fn default() -> (code: ShaderCode)
        ensures
            code@ == Sources::empty(),
    {
        ShaderCode::new()
    }
}

impl Clone for ShaderCode {
    fn clone(&self) -> (copy: ShaderCode)
        ensures
            copy@ == self@,
    {
        let mut copy = ShaderCode::new();
        let stages = ShaderType::each();
        let mut slot: usize = 0;
        while slot < 6
            invariant
                slot <= 6,
                stages@ == stage_order(),
                forall|ty: ShaderType|
                    source_of(copy@, ty) == if ty.slot() < slot {
                        #[trigger] source_of(self@, ty)
                    } else {
                        None
                    },
            decreases 6 - slot,
        {
            match &self.code[slot] {
                Some(text) => {
                    copy.set(stages[slot], text.as_str());
                },
                None => {},
            }
            slot = slot + 1;
        }
        assert(copy@ =~= self@) by {
            assert forall|ty: ShaderType| copy@.contains_key(ty) == self@.contains_key(ty) by {
                assert(source_of(copy@, ty) == source_of(self@, ty));
            }
            assert forall|ty: ShaderType| copy@.contains_key(ty) implies copy@[ty] == self@[ty] by {
                assert(source_of(copy@, ty) == source_of(self@, ty));
            }
        }
        copy
    }
}

impl vstd::std_specs::core::IndexSpecImpl<ShaderType> for ShaderCode {
    open spec fn index_req(&self, index: &ShaderType) -> bool {
        true
    }
}

impl std::ops::Index<ShaderType> for ShaderCode {
    type Output = Option<String>;

    /// The text of stage `ty`, if it has one.
    fn index(&self, ty: ShaderType) -> (source: &Option<String>)
        ensures
            text_of(*source) == self.source(ty),
    {
        &self.code[ty.position()]
    }
}

impl std::ops::IndexMut<ShaderType> for ShaderCode {
    /// The text of stage `ty`, for the caller to replace or to take away.
    fn index_mut(&mut self, ty: ShaderType) -> (source: &mut Option<String>)
        ensures
            text_of(*source) == old(self).source(ty),
            final(self)@ == with_source(old(self)@, ty, text_of(*final(source))),
    {
        &mut self.code[ty.position()]
    }
}

/// Collects the source of a program's stages, then builds the program.
pub struct ProgramBuilder {
    code: ShaderCode,
}

impl View for ProgramBuilder {
    type V = Sources;

    /// The text collected so far.
    closed spec fn view(&self) -> Sources {
        self.code@
    }
}

impl ProgramBuilder {
    /// A builder with no stage filled in.
    pub fn new() -> (builder: ProgramBuilder)
        ensures
            builder@ == Sources::empty(),
    {
        ProgramBuilder { code: ShaderCode::new() }
    }

    /// Gives the vertex stage the text `code`, in place of any it had.
    pub fn add_vertex_shader_code(&mut self, code: &str) -> (builder: &mut ProgramBuilder)
        ensures
            builder@ == old(self)@.insert(ShaderType::Vertex, code@),
            *final(self) == *final(builder),
    {
        self.code.set(ShaderType::Vertex, code);
        self
    }

    /// Gives the fragment stage the text `code`, in place of any it had.
    pub fn add_fragment_shader_code(&mut self, code: &str) -> (builder: &mut ProgramBuilder)
        ensures
            builder@ == old(self)@.insert(ShaderType::Fragment, code@),
            *final(self) == *final(builder),
    {
        self.code.set(ShaderType::Fragment, code);
        self
    }

    /// Gives the geometry stage the text `code`, in place of any it had.
    pub fn add_geometry_shader_code(&mut self, code: &str) -> (builder: &mut ProgramBuilder)
        ensures
            builder@ == old(self)@.insert(ShaderType::Geometry, code@),
            *final(self) == *final(builder),
    {
        self.code.set(ShaderType::Geometry, code);
        self
    }

    /// Gives the tessellation control stage the text `code`, in place of any
    /// it had.
    pub fn add_tess_control_shader_code(&mut self, code: &str) -> (builder: &mut ProgramBuilder)
        ensures
            builder@ == old(self)@.insert(ShaderType::TessControl, code@),
            *final(self) == *final(builder),
    {
        self.code.set(ShaderType::TessControl, code);
        self
    }

    /// Gives the tessellation evaluation stage the text `code`, in place of
    /// any it had.
    pub fn add_tess_eval_shader_code(&mut self, code: &str) -> (builder: &mut ProgramBuilder)
        ensures
            builder@ == old(self)@.insert(ShaderType::TessEval, code@),
            *final(self) == *final(builder),
    {
        self.code.set(ShaderType::TessEval, code);
        self
    }

    /// Gives the compute stage the text `code`, in place of any it had.
    pub fn add_compute_shader_code(&mut self, code: &str) -> (builder: &mut ProgramBuilder)
        ensures
            builder@ == old(self)@.insert(ShaderType::Compute, code@),
            *final(self) == *final(builder),
    {
        self.code.set(ShaderType::Compute, code);
        self
    }

    /// Takes over the text of every stage that `code` fills in. A stage that
    /// `code` leaves empty keeps what it had.
    pub fn add_shader_code(&mut self, code: &ShaderCode) -> (builder: &mut ProgramBuilder)
        ensures
            builder@ == old(self)@.union_prefer_right(code@),
            *final(self) == *final(builder),
    {
        let stages = ShaderType::each();
        let mut slot: usize = 0;
        while slot < 6
            invariant
                slot <= 6,
                stages@ == stage_order(),
                forall|ty: ShaderType|
                    source_of(self@, ty) == if ty.slot() < slot {
                        #[trigger] source_of(old(self)@.union_prefer_right(code@), ty)
                    } else {
                        source_of(old(self)@, ty)
                    },
            decreases 6 - slot,
        {
            match &code[stages[slot]] {
                Some(text) => {
                    self.code.set(stages[slot], text.as_str());
                },
                None => {},
            }
            slot = slot + 1;
        }
        proof {
            let merged = old(self)@.union_prefer_right(code@);
            assert forall|ty: ShaderType| self@.contains_key(ty) == merged.contains_key(ty) by {
                assert(source_of(self@, ty) == source_of(merged, ty));
            }
            assert forall|ty: ShaderType| self@.contains_key(ty) implies self@[ty]
                == merged[ty] by {
                assert(source_of(self@, ty) == source_of(merged, ty));
            }
            assert(self@ =~= merged);
        }
        self
    }

    /// Starts building the program from the text collected so far: see
    /// `BuildJob`.
    pub fn build(&self) -> (job: BuildJob)
        ensures
            job@ == BuildModel::start(self@),
    {
        BuildJob::new(self.code.clone())
    }
}

} // verus!
