pub mod driver;
pub mod laws;
pub mod program;
pub mod shader;
pub mod traits;
pub mod vertex_array_object;
pub mod vertex_buffer_object;

pub use driver::{info_log_message, GlCall, StatusReport};
pub use program::{LinkStep, Program};
pub use shader::{Shader, TypeShader};
pub use traits::{
    AttachShaders, Bindable, Compilable, Linkable, Load, LoadError, LoadFromFile, Status, WriteData,
};
pub use vertex_array_object::VAO;
pub use vertex_buffer_object::{Target, TypeDraw, VBO};
