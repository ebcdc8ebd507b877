use vstd::prelude::*;
use crate::driver::GlCall;
use crate::shader::Shader;
use crate::traits::LoadError;
use crate::vertex_array_object::VAO;
use crate::vertex_buffer_object::VBO;

verus! {

/// Compiling a shader twice with the same driver answer gives the shader
/// and the outcome that compiling it once gives. Once a compilation has
/// succeeded, compiling again issues no driver call and succeeds whatever
/// the driver would answer.
pub proof fn compile_twice_is_compile_once(
    s: Shader,
    answer: Option<Seq<char>>,
    later: Option<Seq<char>>,
)
    ensures
        s.compiled_by(answer).compiled_by(answer) == s.compiled_by(answer),
        s.compiled_by(answer).compile_failure(answer) == s.compile_failure(answer),
        s.compile_failure(answer) is None ==> {
            &&& s.compiled_by(answer).is_compile
            &&& s.compiled_by(answer).compile_calls_spec() == Seq::<GlCall>::empty()
            &&& s.compiled_by(answer).compiled_by(later) == s.compiled_by(answer)
            &&& s.compiled_by(answer).compile_failure(later) is None
        },
{
}

/// A failed compilation leaves the shader uncompiled and unchanged.
pub proof fn failed_compile_changes_nothing(s: Shader, log: Seq<char>)
    requires
        !s.is_compile,
    ensures
        s.compiled_by(Some(log)) == s,
        s.compile_failure(Some(log)) == Some(log),
{
}

/// Loading a buffer that holds no payload fails with `DataMissing`; once a
/// payload is written, loading gives the upload with the buffer's own
/// handle, target and usage hint.
pub proof fn load_needs_written_data<T>(b: VBO<T>, data: T)
    ensures
        b.data is None ==> b.load_spec() == Err::<GlCall, LoadError>(LoadError::DataMissing),
        b.with_data(data).load_spec() == Ok::<GlCall, LoadError>(
            GlCall::BufferData {
                buffer: b.id,
                target: b.target.gl_enum_spec(),
                usage: b.type_draw.gl_enum_spec(),
            },
        ),
{
}

/// Binding a vertex array twice leaves it as binding it once does, and the
/// two calls together issue at most one native bind.
pub proof fn vao_bind_twice_is_bind_once(v: VAO)
    ensures
        v.with_bound(true).with_bound(true) == v.with_bound(true),
        v.with_bound(true).bind_calls() == Seq::<GlCall>::empty(),
        (v.bind_calls() + v.with_bound(true).bind_calls()).len() <= 1,
{
}

/// Binding a buffer twice leaves it as binding it once does, and the two
/// calls together issue at most one native bind.
pub proof fn vbo_bind_twice_is_bind_once<T>(b: VBO<T>)
    ensures
        b.with_bound(true).with_bound(true) == b.with_bound(true),
        b.with_bound(true).bind_calls() == Seq::<GlCall>::empty(),
        (b.bind_calls() + b.with_bound(true).bind_calls()).len() <= 1,
{
}

/// Releasing a bound vertex array unbinds it before its handle is deleted,
/// and the deletion is always the last call.
pub proof fn vao_release_unbinds_first(v: VAO)
    ensures
        v.release_calls().last() == (GlCall::DeleteVertexArray { array: v.id }),
        v.is_bound ==> v.release_calls().len() == 2 && v.release_calls()[0] == v.unbind_call(),
        !v.is_bound ==> v.release_calls().len() == 1,
{
}

/// Releasing a bound buffer unbinds it before its handle is deleted, and the
/// deletion is always the last call.
pub proof fn vbo_release_unbinds_first<T>(b: VBO<T>)
    ensures
        b.release_calls().last() == (GlCall::DeleteBuffer { buffer: b.id }),
        b.is_bound ==> b.release_calls().len() == 2 && b.release_calls()[0] == b.unbind_call(),
        !b.is_bound ==> b.release_calls().len() == 1,
{
}

} // verus!
