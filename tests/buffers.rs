use gl_objects::{Bindable, GlCall, Load, LoadError, Target, TypeDraw, WriteData, VAO, VBO};

#[test]
fn targets_and_usages_map_to_gl_enums() {
    assert_eq!(Target::ArrayBuffer.gl_enum(), 0x8892);
    assert_eq!(Target::ElementArrayBuffer.gl_enum(), 0x8893);
    assert_eq!(Target::TextureBuffer.gl_enum(), 0x8C2A);
    assert_eq!(Target::UniformBuffer.gl_enum(), 0x8A11);
    assert_eq!(TypeDraw::GlStaticDraw.gl_enum(), 0x88E4);
    assert_eq!(TypeDraw::GlDynamicDraw.gl_enum(), 0x88E8);
    assert_eq!(TypeDraw::GlStreamDraw.gl_enum(), 0x88E0);
}

#[test]
fn vao_bind_twice_binds_once() {
    let mut v = VAO::new(3);
    assert!(!v.is_bound);
    assert_eq!(v.bind(), vec![GlCall::BindVertexArray { array: 3 }]);
    assert!(v.bind().is_empty());
    assert!(v.is_bound);
    assert_eq!(v.unbind(), vec![GlCall::BindVertexArray { array: 0 }]);
    assert!(v.unbind().is_empty());
    assert!(!v.is_bound);
}

#[test]
fn bound_vao_is_unbound_before_delete() {
    let mut v = VAO::new(4);
    v.bind();
    assert_eq!(
        v.release(),
        vec![GlCall::BindVertexArray { array: 0 }, GlCall::DeleteVertexArray { array: 4 }]
    );
    let w = VAO::new(5);
    assert_eq!(w.release(), vec![GlCall::DeleteVertexArray { array: 5 }]);
}

#[test]
fn vbo_without_data_fails_to_load() {
    let b: VBO<[f32; 3]> = VBO::new(Target::ArrayBuffer, TypeDraw::GlStaticDraw, 7);
    assert!(b.data.is_none());
    assert_eq!(b.load(), Err(LoadError::DataMissing));
}

#[test]
fn vbo_load_after_write_uses_target_and_usage() {
    let mut b: VBO<[f32; 3]> = VBO::new(Target::ElementArrayBuffer, TypeDraw::GlDynamicDraw, 8);
    b.write([0.0, 1.0, 2.0]);
    b.write([3.0, 4.0, 5.0]);
    assert_eq!(b.data, Some([3.0, 4.0, 5.0]));
    assert_eq!(b.load(), Ok(GlCall::BufferData { buffer: 8, target: 0x8893, usage: 0x88E8 }));
}

#[test]
fn vbo_bind_twice_binds_once() {
    let mut b: VBO<u32> = VBO::new(Target::UniformBuffer, TypeDraw::GlStreamDraw, 9);
    assert_eq!(b.bind(), vec![GlCall::BindBuffer { target: 0x8A11, buffer: 9 }]);
    assert!(b.bind().is_empty());
    assert_eq!(b.unbind(), vec![GlCall::BindBuffer { target: 0x8A11, buffer: 0 }]);
    assert!(b.unbind().is_empty());
}

#[test]
fn bound_vbo_is_unbound_before_delete() {
    let mut b: VBO<u32> = VBO::new(Target::TextureBuffer, TypeDraw::GlStaticDraw, 11);
    b.bind();
    assert_eq!(
        b.release(),
        vec![
            GlCall::BindBuffer { target: 0x8C2A, buffer: 0 },
            GlCall::DeleteBuffer { buffer: 11 },
        ]
    );
    let c: VBO<u32> = VBO::new(Target::ArrayBuffer, TypeDraw::GlStaticDraw, 12);
    assert_eq!(c.release(), vec![GlCall::DeleteBuffer { buffer: 12 }]);
}
