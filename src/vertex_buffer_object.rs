use vstd::prelude::*;
use crate::driver::GlCall;
use crate::traits::{Bindable, Load, LoadError, WriteData};

verus! {

/// The binding point a buffer is used at.
#[derive(Debug, Clone, Copy, PartialEq, Eq, Structural)]
pub enum Target {
    ArrayBuffer,
    ElementArrayBuffer,
    TextureBuffer,
    UniformBuffer,
}

/// How the contents of a buffer are meant to be used.
#[derive(Debug, Clone, Copy, PartialEq, Eq, Structural)]
pub enum TypeDraw {
    GlStaticDraw,
    GlDynamicDraw,
    GlStreamDraw,
}

/// Relies on gl::ARRAY_BUFFER: the GL enum value 0x8892.
#[verifier::external_body]
fn gl_array_buffer() -> (r: u32)
    ensures
        r == 0x8892,
{
    gl::ARRAY_BUFFER
}

/// Relies on gl::ELEMENT_ARRAY_BUFFER: the GL enum value 0x8893.
#[verifier::external_body]
fn gl_element_array_buffer() -> (r: u32)
    ensures
        r == 0x8893,
{
    gl::ELEMENT_ARRAY_BUFFER
}

/// Relies on gl::TEXTURE_BUFFER: the GL enum value 0x8C2A.
#[verifier::external_body]
fn gl_texture_buffer() -> (r: u32)
    ensures
        r == 0x8C2A,
{
    gl::TEXTURE_BUFFER
}

/// Relies on gl::UNIFORM_BUFFER: the GL enum value 0x8A11.
#[verifier::external_body]
fn gl_uniform_buffer() -> (r: u32)
    ensures
        r == 0x8A11,
{
    gl::UNIFORM_BUFFER
}

/// Relies on gl::STATIC_DRAW: the GL enum value 0x88E4.
#[verifier::external_body]
fn gl_static_draw() -> (r: u32)
    ensures
        r == 0x88E4,
{
    gl::STATIC_DRAW
}

/// Relies on gl::DYNAMIC_DRAW: the GL enum value 0x88E8.
#[verifier::external_body]
fn gl_dynamic_draw() -> (r: u32)
    ensures
        r == 0x88E8,
{
    gl::DYNAMIC_DRAW
}

/// Relies on gl::STREAM_DRAW: the GL enum value 0x88E0.
#[verifier::external_body]
fn gl_stream_draw() -> (r: u32)
    ensures
        r == 0x88E0,
{
    gl::STREAM_DRAW
}

impl Target {
    /// The GL enum that names this binding point.
    pub open spec fn gl_enum_spec(self) -> u32 {
        match self {
            Target::ArrayBuffer => 0x8892,
            Target::ElementArrayBuffer => 0x8893,
            Target::TextureBuffer => 0x8C2A,
            Target::UniformBuffer => 0x8A11,
        }
    }

    /// The GL enum to hand to the driver for this binding point.
    pub fn gl_enum(self) -> (r: u32)
        ensures
            r == self.gl_enum_spec(),
    {
        match self {
            Target::ArrayBuffer => gl_array_buffer(),
            Target::ElementArrayBuffer => gl_element_array_buffer(),
            Target::TextureBuffer => gl_texture_buffer(),
            Target::UniformBuffer => gl_uniform_buffer(),
        }
    }
}

impl TypeDraw {
    /// The GL enum that names this usage hint.
    pub open spec fn gl_enum_spec(self) -> u32 {
        match self {
            TypeDraw::GlStaticDraw => 0x88E4,
            TypeDraw::GlDynamicDraw => 0x88E8,
            TypeDraw::GlStreamDraw => 0x88E0,
        }
    }

    /// The GL enum to hand to the driver for this usage hint.
    pub fn gl_enum(self) -> (r: u32)
        ensures
            r == self.gl_enum_spec(),
    {
        match self {
            TypeDraw::GlStaticDraw => gl_static_draw(),
            TypeDraw::GlDynamicDraw => gl_dynamic_draw(),
            TypeDraw::GlStreamDraw => gl_stream_draw(),
        }
    }
}

/// A buffer object of the driver, with the payload waiting to be uploaded
/// and whether the buffer is bound at its target.
#[derive(Debug)]
pub struct VBO<T> {
    pub id: u32,
    pub target: Target,
    pub type_draw: TypeDraw,
    pub data: Option<T>,
    pub is_bound: bool,
}

impl<T> VBO<T> {
    /// The call that binds this buffer at its target.
    pub open spec fn bind_call(&self) -> GlCall {
        GlCall::BindBuffer { target: self.target.gl_enum_spec(), buffer: self.id }
    }

    /// The call that leaves no buffer bound at this buffer's target.
    pub open spec fn unbind_call(&self) -> GlCall {
        GlCall::BindBuffer { target: self.target.gl_enum_spec(), buffer: 0 }
    }

    /// The call that uploads the payload with this buffer's target and usage.
    pub open spec fn upload_call(&self) -> GlCall {
        GlCall::BufferData {
            buffer: self.id,
            target: self.target.gl_enum_spec(),
            usage: self.type_draw.gl_enum_spec(),
        }
    }

    /// The same buffer, bound or not as `b` says.
    pub open spec fn with_bound(self, b: bool) -> VBO<T> {
        VBO { is_bound: b, ..self }
    }

    /// The same buffer, holding `data` as its payload.
    pub open spec fn with_data(self, data: T) -> VBO<T> {
        VBO { data: Some(data), ..self }
    }

    /// What `load` gives: the upload call, or `DataMissing` without a payload.
    pub open spec fn load_spec(&self) -> Result<GlCall, LoadError> {
        if self.data is Some {
            Ok(self.upload_call())
        } else {
            Err(LoadError::DataMissing)
        }
    }

    /// The calls that `bind` issues: none when already bound.
    pub open spec fn bind_calls(&self) -> Seq<GlCall> {
        if self.is_bound {
            seq![]
        } else {
            seq![self.bind_call()]
        }
    }

    /// The calls that `unbind` issues: none when not bound.
    pub open spec fn unbind_calls(&self) -> Seq<GlCall> {
        if self.is_bound {
            seq![self.unbind_call()]
        } else {
            seq![]
        }
    }

    /// The calls that release the buffer: it is unbound first when bound.
    pub open spec fn release_calls(&self) -> Seq<GlCall> {
        let delete = GlCall::DeleteBuffer { buffer: self.id };
        if self.is_bound {
            seq![self.unbind_call(), delete]
        } else {
            seq![delete]
        }
    }

    /// A buffer for the handle `id`, which the driver returned when asked
    /// to generate one. It holds no payload and is not bound.
    pub fn new(target: Target, type_draw: TypeDraw, id: u32) -> (r: VBO<T>)
        ensures
            r.id == id,
            r.target == target,
            r.type_draw == type_draw,
            r.data is None,
            !r.is_bound,
    {
        VBO { id, target, type_draw, data: None, is_bound: false }
    }

    /// The driver calls that release the buffer.
    pub fn release(self) -> (r: Vec<GlCall>)
        ensures
            r@ == self.release_calls(),
    {
        let mut v = Vec::new();
        if self.is_bound {
            v.push(GlCall::BindBuffer { target: self.target.gl_enum(), buffer: 0 });
        }
        v.push(GlCall::DeleteBuffer { buffer: self.id });
        assert(v@ =~= self.release_calls());
        v
    }
}

impl<T> WriteData<T> for VBO<T> {
    /// Stores the payload, replacing any earlier one; nothing is uploaded.
    fn write(&mut self, data: T)
        ensures
            *final(self) == old(self).with_data(data),
    {
        self.data = Some(data);
    }
}

impl<T> Load for VBO<T> {
    /// The upload of the payload with the buffer's target and usage hint,
    /// or `DataMissing` when no payload was written.
    fn load(&self) -> (r: Result<GlCall, LoadError>)
        ensures
            r == self.load_spec(),
    {
        match &self.data {
            Some(_) => Ok(GlCall::BufferData {
                buffer: self.id,
                target: self.target.gl_enum(),
                usage: self.type_draw.gl_enum(),
            }),
            None => Err(LoadError::DataMissing),
        }
    }
}

impl<T> Bindable for VBO<T> {
    /// Binds the buffer at its target; nothing is issued when it already is.
    fn bind(&mut self) -> (r: Vec<GlCall>)
        ensures
            *final(self) == old(self).with_bound(true),
            r@ == old(self).bind_calls(),
    {
        let mut v = Vec::new();
        if !self.is_bound {
            v.push(GlCall::BindBuffer { target: self.target.gl_enum(), buffer: self.id });
            self.is_bound = true;
        }
        assert(v@ =~= old(self).bind_calls());
        v
    }

    /// Leaves the target with no buffer; nothing is issued when this buffer
    /// is not bound.
    fn unbind(&mut self) -> (r: Vec<GlCall>)
        ensures
            *final(self) == old(self).with_bound(false),
            r@ == old(self).unbind_calls(),
    {
        let mut v = Vec::new();
        if self.is_bound {
            v.push(GlCall::BindBuffer { target: self.target.gl_enum(), buffer: 0 });
            self.is_bound = false;
        }
        assert(v@ =~= old(self).unbind_calls());
        v
    }
}

} // verus!
