use vstd::prelude::*;
use crate::driver::{GlCall, StatusReport};

verus! {

/// Sets the data an object holds, replacing what it held before.
pub trait WriteData<T> {
    fn write(&mut self, data: T);
}

/// Takes the text that was read from a file as the object's data.
pub trait LoadFromFile: Sized {
    fn load(self, contents: String) -> Self;
}

/// Produces the driver call that uploads the object's data.
pub trait Load {
    fn load(&self) -> Result<GlCall, LoadError>;
}

/// Reads a driver status report for the object.
pub trait Status {
    fn status(&self, report: StatusReport) -> Result<(), String>;
}

/// Records the driver's answer to a compilation of the object.
pub trait Compilable {
    fn compile(&mut self, report: StatusReport) -> Result<(), String>;
}

/// Records the driver's answer to a link of the object.
pub trait Linkable {
    /// Whether the object is in a state where a link report can be taken.
    spec fn link_ready(&self) -> bool;

    fn link(&mut self, report: StatusReport) -> Result<(), String>
        requires
            old(self).link_ready(),
    ;
}

/// Attaches the next compiled shader and gives the driver call for it.
pub trait AttachShaders {
    /// Whether there is a compiled shader waiting to be attached.
    spec fn attach_ready(&self) -> bool;

    fn attach(&mut self) -> Vec<GlCall>
        requires
            old(self).attach_ready(),
    ;
}

/// Makes the object current, or clears it, and gives the driver calls
/// that this takes.
pub trait Bindable {
    fn bind(&mut self) -> Vec<GlCall>;

    fn unbind(&mut self) -> Vec<GlCall>;
}

/// Why data could not be uploaded.
#[derive(Debug, Clone, Copy, PartialEq, Eq, Structural)]
pub enum LoadError {
    /// Nothing was written to the buffer.
    DataMissing,
}

} // verus!
