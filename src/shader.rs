use vstd::prelude::*;
use crate::driver::{GlCall, StatusReport};
use crate::traits::{Compilable, LoadFromFile, Status, WriteData};

verus! {

/// The stage of the pipeline that a shader is for.
#[derive(Debug, Clone, Copy, PartialEq, Eq, Structural)]
pub enum TypeShader {
    Vertex,
    Geometry,
    Fragment,
}

/// Relies on gl::VERTEX_SHADER: the GL enum value 0x8B31.
#[verifier::external_body]
fn gl_vertex_shader() -> (r: u32)
    ensures
        r == 0x8B31,
{
    gl::VERTEX_SHADER
}

/// Relies on gl::GEOMETRY_SHADER: the GL enum value 0x8DD9.
#[verifier::external_body]
fn gl_geometry_shader() -> (r: u32)
    ensures
        r == 0x8DD9,
{
    gl::GEOMETRY_SHADER
}

/// Relies on gl::FRAGMENT_SHADER: the GL enum value 0x8B30.
#[verifier::external_body]
fn gl_fragment_shader() -> (r: u32)
    ensures
        r == 0x8B30,
{
    gl::FRAGMENT_SHADER
}

impl TypeShader {
    /// The GL enum that names this kind of shader.
    pub open spec fn gl_enum_spec(self) -> u32 {
        match self {
            TypeShader::Vertex => 0x8B31,
            TypeShader::Geometry => 0x8DD9,
            TypeShader::Fragment => 0x8B30,
        }
    }

    /// The GL enum to hand to the driver when creating a shader of this kind.
    pub fn gl_enum(self) -> (r: u32)
        ensures
            r == self.gl_enum_spec(),
    {
        match self {
            TypeShader::Vertex => gl_vertex_shader(),
            TypeShader::Geometry => gl_geometry_shader(),
            TypeShader::Fragment => gl_fragment_shader(),
        }
    }
}

/// One shader object of the driver, with its source text and whether it
/// has been compiled.
#[derive(Debug)]
pub struct Shader {
    pub id: u32,
    pub type_shader: TypeShader,
    pub is_compile: bool,
    pub src: String,
}

impl Shader {
    /// The calls that a compilation issues: none once compiled, else the
    /// source upload followed by the compile request.
    pub open spec fn compile_calls_spec(&self) -> Seq<GlCall> {
        if self.is_compile {
            seq![]
        } else {
            seq![
                GlCall::ShaderSource { shader: self.id, source: self.src },
                GlCall::CompileShader { shader: self.id },
            ]
        }
    }

    /// The shader after the driver answered a compilation with `failure`
    /// (`None` for success). A compiled shader stays as it is.
    pub open spec fn compiled_by(self, failure: Option<Seq<char>>) -> Shader {
        if self.is_compile || failure is None {
            Shader { is_compile: true, ..self }
        } else {
            self
        }
    }

    /// What a compilation gives when the driver answers with `failure`:
    /// a compiled shader succeeds without reading the answer.
    pub open spec fn compile_failure(self, failure: Option<Seq<char>>) -> Option<Seq<char>> {
        if self.is_compile {
            None
        } else {
            failure
        }
    }

    /// A shader for the handle `id`, which the driver returned when asked
    /// to create a shader of kind `type_shader`. Its source is empty.
    pub fn new(type_shader: TypeShader, id: u32) -> (r: Shader)
        ensures
            r.id == id,
            r.type_shader == type_shader,
            !r.is_compile,
            r.src@ == Seq::<char>::empty(),
    {
        Shader { id, type_shader, is_compile: false, src: String::new() }
    }

    /// The driver calls to issue before asking for the compile status.
    pub fn compile_calls(&self) -> (r: Vec<GlCall>)
        ensures
            r@ == self.compile_calls_spec(),
    {
        if self.is_compile {
            Vec::new()
        } else {
            let mut v = Vec::new();
            v.push(GlCall::ShaderSource { shader: self.id, source: self.src.clone() });
            v.push(GlCall::CompileShader { shader: self.id });
            assert(v@ =~= self.compile_calls_spec());
            v
        }
    }

    /// The driver call that releases the shader's handle.
    pub fn release(self) -> (r: Vec<GlCall>)
        ensures
            r@ == seq![GlCall::DeleteShader { shader: self.id }],
    {
        let mut v = Vec::new();
        v.push(GlCall::DeleteShader { shader: self.id });
        assert(v@ =~= seq![GlCall::DeleteShader { shader: self.id }]);
        v
    }
}

impl WriteData<String> for Shader {
    /// Replaces the source text; nothing is compiled.
    fn write(&mut self, data: String)
        ensures
            final(self).src == data,
            final(self).id == old(self).id,
            final(self).type_shader == old(self).type_shader,
            final(self).is_compile == old(self).is_compile,
    {
        self.src = data;
    }
}

impl LoadFromFile for Shader {
    /// Takes the contents of a source file as the source text.
    fn load(self, contents: String) -> (r: Shader)
        ensures
            r.src == contents,
            r.id == self.id,
            r.type_shader == self.type_shader,
            r.is_compile == self.is_compile,
    {
        let mut s = self;
        s.src = contents;
        s
    }
}

impl Status for Shader {
    /// `Ok` when the driver reported the compilation a success, else the
    /// text of its info log.
    fn status(&self, report: StatusReport) -> (r: Result<(), String>)
        ensures
            r is Ok <==> report.failure() is None,
            r is Err ==> report.failure() == Some(r->Err_0@),
    {
        report.outcome()
    }
}

impl Compilable for Shader {
    /// Records the compile status the driver reported after the calls of
    /// `compile_calls`. A compiled shader stays compiled and the report is
    /// not read; otherwise the shader becomes compiled exactly when the
    /// driver reported success, and a failure gives the info log's text.
    fn compile(&mut self, report: StatusReport) -> (r: Result<(), String>)
        ensures
            *final(self) == old(self).compiled_by(report.failure()),
            r is Ok <==> old(self).compile_failure(report.failure()) is None,
            r is Err ==> old(self).compile_failure(report.failure()) == Some(r->Err_0@),
    {
        if self.is_compile {
            return Ok(());
        }
        let r = self.status(report);
        if r.is_ok() {
            self.is_compile = true;
        }
        r
    }
}

} // verus!
