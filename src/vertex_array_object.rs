use vstd::prelude::*;
use crate::driver::GlCall;
use crate::traits::Bindable;

verus! {

/// A vertex array object of the driver, and whether it is the current one.
#[derive(Debug, Clone, Copy, PartialEq, Eq, Structural)]
pub struct VAO {
    pub id: u32,
    pub is_bound: bool,
}

impl VAO {
    /// The call that makes this array current.
    pub open spec fn bind_call(&self) -> GlCall {
        GlCall::BindVertexArray { array: self.id }
    }

    /// The call that leaves no array current.
    pub open spec fn unbind_call(&self) -> GlCall {
        GlCall::BindVertexArray { array: 0 }
    }

    /// The same array, bound or not as `b` says.
    pub open spec fn with_bound(self, b: bool) -> VAO {
        VAO { is_bound: b, ..self }
    }

    /// The calls that `bind` issues: none when already bound.
    pub open spec fn bind_calls(&self) -> Seq<GlCall> {
        if self.is_bound {
            seq![]
        } else {
            seq![self.bind_call()]
        }
    }

    /// The calls that `unbind` issues: none when not bound.
    pub open spec fn unbind_calls(&self) -> Seq<GlCall> {
        if self.is_bound {
            seq![self.unbind_call()]
        } else {
            seq![]
        }
    }

    /// The calls that release the array: it is unbound first when bound.
    pub open spec fn release_calls(&self) -> Seq<GlCall> {
        let delete = GlCall::DeleteVertexArray { array: self.id };
        if self.is_bound {
            seq![self.unbind_call(), delete]
        } else {
            seq![delete]
        }
    }

    /// An array for the handle `id`, which the driver returned when asked
    /// to generate one. It is not bound.
    pub fn new(id: u32) -> (r: VAO)
        ensures
            r.id == id,
            !r.is_bound,
    {
        VAO { id, is_bound: false }
    }

    /// The driver calls that release the array.
    pub fn release(self) -> (r: Vec<GlCall>)
        ensures
            r@ == self.release_calls(),
    {
        let mut v = Vec::new();
        if self.is_bound {
            v.push(GlCall::BindVertexArray { array: 0 });
        }
        v.push(GlCall::DeleteVertexArray { array: self.id });
        assert(v@ =~= self.release_calls());
        v
    }
}

impl Bindable for VAO {
    /// Makes the array current; nothing is issued when it already is.
    fn bind(&mut self) -> (r: Vec<GlCall>)
        ensures
            *final(self) == old(self).with_bound(true),
            r@ == old(self).bind_calls(),
    {
        let mut v = Vec::new();
        if !self.is_bound {
            v.push(GlCall::BindVertexArray { array: self.id });
            self.is_bound = true;
        }
        assert(v@ =~= old(self).bind_calls());
        v
    }

    /// Leaves no array current; nothing is issued when this one is not bound.
    fn unbind(&mut self) -> (r: Vec<GlCall>)
        ensures
            *final(self) == old(self).with_bound(false),
            r@ == old(self).unbind_calls(),
    {
        let mut v = Vec::new();
        if self.is_bound {
            v.push(GlCall::BindVertexArray { array: 0 });
            self.is_bound = false;
        }
        assert(v@ =~= old(self).unbind_calls());
        v
    }
}

} // verus!
