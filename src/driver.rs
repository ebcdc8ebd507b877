use vstd::prelude::*;

verus! {

/// One native call of the graphics driver, as the library asks for it.
///
/// The objects of this crate do not talk to the driver themselves: each
/// operation returns the calls it needs, in order, and whoever owns the
/// driver context issues them.
#[derive(Debug, PartialEq, Eq)]
pub enum GlCall {
    ShaderSource { shader: u32, source: String },
    CompileShader { shader: u32 },
    DeleteShader { shader: u32 },
    AttachShader { program: u32, shader: u32 },
    LinkProgram { program: u32 },
    UseProgram { program: u32 },
    DeleteProgram { program: u32 },
    BindVertexArray { array: u32 },
    DeleteVertexArray { array: u32 },
    BindBuffer { target: u32, buffer: u32 },
    /// Upload the payload of `buffer` with the given target and usage hint.
    BufferData { buffer: u32, target: u32, usage: u32 },
    DeleteBuffer { buffer: u32 },
}

/// What the driver answered to a status query on a shader or a program:
/// the status word, and the raw info log buffer as the driver filled it
/// (its terminating NUL included, when the driver wrote one).
#[derive(Debug, PartialEq, Eq)]
pub struct StatusReport {
    pub status: i32,
    pub log: Vec<u8>,
}

/// The value of `GL_TRUE` as a status word.
pub open spec fn gl_true_spec() -> i32 {
    1
}

/// Relies on gl::TRUE: the GL boolean 1.
#[verifier::external_body]
fn gl_true() -> (r: i32)
    ensures
        r == gl_true_spec(),
{
    gl::TRUE as i32
}

/// What `String::from_utf8` yields on a byte sequence: its text, or nothing
/// when the bytes are not UTF-8.
pub uninterp spec fn utf8_decode(b: Seq<u8>) -> Option<Seq<char>>;

/// Relies on std's `String::from_utf8`: the result is a function of the bytes.
#[verifier::external_body]
fn decode_utf8(b: Vec<u8>) -> (r: Option<String>)
    ensures
        r is Some <==> utf8_decode(b@) is Some,
        r is Some ==> utf8_decode(b@) == Some(r->Some_0@),
{
    String::from_utf8(b).ok()
}

/// The text part of an info log buffer: one trailing NUL terminator is
/// dropped when there is one, and nothing else is.
pub open spec fn log_text_bytes(log: Seq<u8>) -> Seq<u8> {
    if log.len() > 0 && log.last() == 0 {
        log.drop_last()
    } else {
        log
    }
}

/// The message given for an info log that is not UTF-8 text.
pub open spec fn invalid_log_message() -> Seq<char> {
    "info log is not valid UTF-8"@
}

/// The diagnostic text carried by an info log buffer.
pub open spec fn log_message(log: Seq<u8>) -> Seq<char> {
    match utf8_decode(log_text_bytes(log)) {
        Some(t) => t,
        None => invalid_log_message(),
    }
}

/// The outcome a status report stands for: `None` on success, else the
/// diagnostic text.
pub open spec fn report_failure(status: i32, log: Seq<u8>) -> Option<Seq<char>> {
    if status == gl_true_spec() {
        None
    } else {
        Some(log_message(log))
    }
}

fn invalid_log_text() -> (r: String)
    ensures
        r@ == invalid_log_message(),
{
    "info log is not valid UTF-8".to_owned()
}

/// Turns an info log buffer into its diagnostic text.
pub fn info_log_message(log: Vec<u8>) -> (r: String)
    ensures
        r@ == log_message(log@),
{
    let mut bytes = log;
    let n = bytes.len();
    if n > 0 && bytes[n - 1] == 0 {
        bytes.pop();
    }
    assert(bytes@ =~= log_text_bytes(log@));
    match decode_utf8(bytes) {
        Some(t) => t,
        None => invalid_log_text(),
    }
}

impl StatusReport {
    /// The outcome this report stands for.
    pub open spec fn failure(&self) -> Option<Seq<char>> {
        report_failure(self.status, self.log@)
    }

    /// `Ok` when the driver reported success, else the info log's text.
    pub fn outcome(self) -> (r: Result<(), String>)
        ensures
            r is Ok <==> self.failure() is None,
            r is Err ==> self.failure() == Some(r->Err_0@),
    {
        if self.status == gl_true() {
            Ok(())
        } else {
            Err(info_log_message(self.log))
        }
    }
}

} // verus!
