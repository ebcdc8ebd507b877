use vstd::prelude::*;
use crate::driver::{GlCall, StatusReport};
use crate::shader::Shader;
use crate::traits::{AttachShaders, Compilable, Linkable, Status};

verus! {

/// What a link needs next from whoever drives the native calls.
#[derive(Debug, PartialEq, Eq)]
pub enum LinkStep {
    /// The program is linked: nothing is left to do.
    Done,
    /// The next shader to attach is not compiled: issue `calls`, query its
    /// compile status and hand the report to `compile_next`.
    CompileShader { calls: Vec<GlCall> },
    /// The next shader to attach is compiled: call `attach` and issue what
    /// it returns.
    AttachShader,
    /// Every shader is attached: issue `calls`, query the link status and
    /// hand the report to `link`.
    LinkProgram { calls: Vec<GlCall> },
}

/// A program object of the driver: the shaders it owns, in the order they
/// were pushed, how many of them are attached, and whether it is linked and
/// has been made current.
#[derive(Debug)]
pub struct Program {
    pub id: u32,
    pub is_linked: bool,
    pub is_used: bool,
    pub shaders: Vec<Shader>,
    /// The shaders before this index are compiled and attached.
    pub attached: usize,
}

impl Program {
    /// Every shader before the attach cursor is compiled, and the cursor
    /// stays within the shaders.
    pub open spec fn wf(&self) -> bool {
        &&& self.attached <= self.shaders@.len()
        &&& forall|j: int| 0 <= j < self.attached ==> (#[trigger] self.shaders@[j]).is_compile
    }

    /// The shader that the attach cursor points at.
    pub open spec fn next_shader(&self) -> Shader {
        self.shaders@[self.attached as int]
    }

    /// The call that makes this program current.
    pub open spec fn use_call(&self) -> GlCall {
        GlCall::UseProgram { program: self.id }
    }

    /// The call that links this program.
    pub open spec fn link_call(&self) -> GlCall {
        GlCall::LinkProgram { program: self.id }
    }

    /// A program for the handle `id`, which the driver returned when asked
    /// to create a program. It owns no shader yet.
    pub fn new(id: u32) -> (r: Program)
        ensures
            r.id == id,
            !r.is_linked,
            !r.is_used,
            r.shaders@ == Seq::<Shader>::empty(),
            r.attached == 0,
            r.wf(),
    {
        Program { id, is_linked: false, is_used: false, shaders: Vec::new(), attached: 0 }
    }

    /// Takes ownership of `shader`, after the shaders already owned.
    pub fn push_shader(&mut self, shader: Shader)
        ensures
            final(self).shaders@ == old(self).shaders@.push(shader),
            final(self).id == old(self).id,
            final(self).is_linked == old(self).is_linked,
            final(self).is_used == old(self).is_used,
            final(self).attached == old(self).attached,
            old(self).wf() ==> final(self).wf(),
    {
        self.shaders.push(shader);
    }

    /// Makes the program current unless it has been made current before.
    pub fn employ(&mut self) -> (r: Vec<GlCall>)
        ensures
            final(self).is_used,
            r@ == if old(self).is_used { seq![] } else { seq![old(self).use_call()] },
            final(self).id == old(self).id,
            final(self).is_linked == old(self).is_linked,
            final(self).shaders == old(self).shaders,
            final(self).attached == old(self).attached,
    {
        let mut v = Vec::new();
        if !self.is_used {
            self.is_used = true;
            v.push(GlCall::UseProgram { program: self.id });
        }
        assert(v@ =~= if old(self).is_used { seq![] } else { seq![old(self).use_call()] });
        v
    }

    /// What the link needs next.
    pub fn next_step(&self) -> (r: LinkStep)
        requires
            self.wf(),
        ensures
            r is Done <==> self.is_linked,
            r is CompileShader <==> !self.is_linked && self.attached < self.shaders@.len()
                && !self.next_shader().is_compile,
            r is AttachShader <==> !self.is_linked && self.attached < self.shaders@.len()
                && self.next_shader().is_compile,
            r is LinkProgram <==> !self.is_linked && self.attached == self.shaders@.len(),
            r matches LinkStep::CompileShader { calls } ==> calls@
                == self.next_shader().compile_calls_spec(),
            r matches LinkStep::LinkProgram { calls } ==> calls@ == seq![self.link_call()],
    {
        if self.is_linked {
            LinkStep::Done
        } else if self.attached < self.shaders.len() {
            let s = &self.shaders[self.attached];
            if s.is_compile {
                LinkStep::AttachShader
            } else {
                LinkStep::CompileShader { calls: s.compile_calls() }
            }
        } else {
            let mut v = Vec::new();
            v.push(GlCall::LinkProgram { program: self.id });
            assert(v@ =~= seq![self.link_call()]);
            LinkStep::LinkProgram { calls: v }
        }
    }

    /// Records the compile status the driver reported for the next shader
    /// to attach, after the calls that `next_step` gave.
    pub fn compile_next(&mut self, report: StatusReport) -> (r: Result<(), String>)
        requires
            old(self).wf(),
            old(self).attached < old(self).shaders@.len(),
        ensures
            final(self).shaders@ == old(self).shaders@.update(
                old(self).attached as int,
                old(self).next_shader().compiled_by(report.failure()),
            ),
            r is Ok <==> old(self).next_shader().compile_failure(report.failure()) is None,
            r is Err ==> old(self).next_shader().compile_failure(report.failure()) == Some(
                r->Err_0@,
            ),
            final(self).id == old(self).id,
            final(self).is_linked == old(self).is_linked,
            final(self).is_used == old(self).is_used,
            final(self).attached == old(self).attached,
            final(self).wf(),
    {
        let i = self.attached;
        let mut s = self.shaders.remove(i);
        let r = s.compile(report);
        self.shaders.insert(i, s);
        assert(self.shaders@ =~= old(self).shaders@.update(
            i as int,
            old(self).next_shader().compiled_by(report.failure()),
        ));
        r
    }

    /// Whether a driver that answers the compilation of the `j`-th shader
    /// with `answers[j]` gets every shader still to attach compiled.
    pub open spec fn all_compile(&self, answers: Seq<StatusReport>) -> bool {
        forall|j: int|
            self.attached <= j < self.shaders@.len() ==> self.shaders@[j].is_compile
                || (#[trigger] answers[j]).failure() is None
    }

    /// Runs a whole link against a driver whose answers are known: the
    /// compilation of the `j`-th shader is answered with `reports[j]` and
    /// the link with `link_report`. Returns the outcome and the driver calls
    /// issued, in order. The link succeeds exactly when the program was
    /// linked already, or every shader still to attach compiles and the
    /// link itself succeeds; a linked program issues no call at all.
    pub fn link_with(&mut self, reports: Vec<StatusReport>, link_report: StatusReport) -> (r: (
        Result<(), String>,
        Vec<GlCall>,
    ))
        requires
            old(self).wf(),
            reports@.len() == old(self).shaders@.len(),
        ensures
            r.0 is Ok <==> old(self).is_linked || (old(self).all_compile(reports@)
                && link_report.failure() is None),
            final(self).is_linked == r.0 is Ok,
            r.0 is Err ==> link_report.failure() == Some(r.0->Err_0@) || exists|j: int|
                0 <= j < reports@.len() && (#[trigger] reports@[j]).failure() == Some(r.0->Err_0@),
            old(self).is_linked ==> r.1@ == Seq::<GlCall>::empty() && *final(self) == *old(self),
            final(self).wf(),
            final(self).id == old(self).id,
            final(self).is_used == old(self).is_used,
            final(self).shaders@.len() == old(self).shaders@.len(),
    {
        let mut calls: Vec<GlCall> = Vec::new();
        if self.is_linked {
            return (Ok(()), calls);
        }
        let ghost answers = reports@;
        let ghost start = self.attached as int;
        let mut pending = reports;
        let n = self.shaders.len();
        while self.attached < n
            invariant
                self.wf(),
                n == self.shaders@.len(),
                n == old(self).shaders@.len(),
                !self.is_linked,
                !old(self).is_linked,
                self.id == old(self).id,
                self.is_used == old(self).is_used,
                start == old(self).attached,
                start <= self.attached,
                pending@.len() == n,
                answers.len() == n,
                answers == reports@,
                forall|j: int| self.attached <= j < n ==> pending@[j] == #[trigger] answers[j],
                forall|j: int| self.attached <= j < n ==> self.shaders@[j] == #[trigger] old(self).shaders@[j],
                forall|j: int|
                    start <= j < self.attached ==> old(self).shaders@[j].is_compile
                        || (#[trigger] answers[j]).failure() is None,
            decreases n - self.attached,
        {
            let i = self.attached;
            if !self.shaders[i].is_compile {
                let mut report = StatusReport { status: 0, log: Vec::new() };
                pending.set_and_swap(i, &mut report);
                assert(report == answers[i as int]);
                let mut issued = self.shaders[i].compile_calls();
                calls.append(&mut issued);
                let res = self.compile_next(report);
                if res.is_err() {
                    assert(!old(self).shaders@[i as int].is_compile);
                    assert(answers[i as int].failure() is Some);
                    assert(!old(self).all_compile(answers));
                    return (res, calls);
                }
            }
            let mut issued = self.attach();
            calls.append(&mut issued);
        }
        assert(old(self).all_compile(answers));
        let mut issued = Vec::new();
        issued.push(GlCall::LinkProgram { program: self.id });
        calls.append(&mut issued);
        let res = self.link(link_report);
        (res, calls)
    }

    /// The driver calls that release the program and then, in order, the
    /// shaders it owns.
    pub fn release(self) -> (r: Vec<GlCall>)
        ensures
            r@.len() == self.shaders@.len() + 1,
            r@[0] == (GlCall::DeleteProgram { program: self.id }),
            forall|j: int| 0 <= j < self.shaders@.len() ==> r@[j + 1] == (GlCall::DeleteShader {
                shader: #[trigger] self.shaders@[j].id,
            }),
    {
        let mut v = Vec::new();
        v.push(GlCall::DeleteProgram { program: self.id });
        let mut i: usize = 0;
        while i < self.shaders.len()
            invariant
                i <= self.shaders@.len(),
                v@.len() == i + 1,
                v@[0] == (GlCall::DeleteProgram { program: self.id }),
                forall|j: int| 0 <= j < i ==> v@[j + 1] == (GlCall::DeleteShader {
                    shader: #[trigger] self.shaders@[j].id,
                }),
            decreases self.shaders@.len() - i,
        {
            v.push(GlCall::DeleteShader { shader: self.shaders[i].id });
            i = i + 1;
        }
        v
    }
}

impl AttachShaders for Program {
    open spec fn attach_ready(&self) -> bool {
        &&& self.wf()
        &&& self.attached < self.shaders@.len()
        &&& self.next_shader().is_compile
    }

    /// Attaches the next shader, which must be compiled, and moves the
    /// cursor past it. A shader is attached once: the cursor never goes back.
    fn attach(&mut self) -> (r: Vec<GlCall>)
        ensures
            r@ == seq![GlCall::AttachShader { program: old(self).id, shader: old(self).next_shader().id }],
            final(self).attached == old(self).attached + 1,
            final(self).id == old(self).id,
            final(self).is_linked == old(self).is_linked,
            final(self).is_used == old(self).is_used,
            final(self).shaders == old(self).shaders,
            final(self).wf(),
    {
        let n = self.shaders.len();
        proof {
            assert(self.attached < n);
        }
        let mut v = Vec::new();
        v.push(GlCall::AttachShader { program: self.id, shader: self.shaders[self.attached].id });
        self.attached = self.attached + 1;
        assert(v@ =~= seq![GlCall::AttachShader { program: old(self).id, shader: old(self).next_shader().id }]);
        v
    }
}

impl Status for Program {
    /// `Ok` when the driver reported the link a success, else the text of
    /// its info log.
    fn status(&self, report: StatusReport) -> (r: Result<(), String>)
        ensures
            r is Ok <==> report.failure() is None,
            r is Err ==> report.failure() == Some(r->Err_0@),
    {
        report.outcome()
    }
}

impl Linkable for Program {
    open spec fn link_ready(&self) -> bool {
        &&& self.wf()
        &&& self.is_linked || self.attached == self.shaders@.len()
    }

    /// Records the link status the driver reported after the call that
    /// `next_step` gave. A linked program stays linked and the report is not
    /// read; otherwise the program becomes linked exactly when the driver
    /// reported success, and a failure gives the info log's text.
    fn link(&mut self, report: StatusReport) -> (r: Result<(), String>)
        ensures
            old(self).is_linked ==> r is Ok,
            !old(self).is_linked ==> (r is Ok <==> report.failure() is None),
            r is Err ==> report.failure() == Some(r->Err_0@),
            final(self).is_linked == (old(self).is_linked || r is Ok),
            final(self).id == old(self).id,
            final(self).is_used == old(self).is_used,
            final(self).shaders == old(self).shaders,
            final(self).attached == old(self).attached,
            final(self).wf(),
    {
        if self.is_linked {
            return Ok(());
        }
        let r = self.status(report);
        if r.is_ok() {
            self.is_linked = true;
        }
        r
    }
}

} // verus!
