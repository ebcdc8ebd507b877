use gl_objects::{
    AttachShaders, GlCall, LinkStep, Linkable, Program, Shader, Status, StatusReport, TypeShader,
    WriteData,
};

fn success() -> StatusReport {
    StatusReport { status: 1, log: Vec::new() }
}

fn failure(log: &str) -> StatusReport {
    let mut bytes = log.as_bytes().to_vec();
    bytes.push(0);
    StatusReport { status: 0, log: bytes }
}

fn shader(kind: TypeShader, id: u32, src: &str) -> Shader {
    let mut s = Shader::new(kind, id);
    s.write(src.to_string());
    s
}

fn two_shader_program() -> Program {
    let mut p = Program::new(10);
    p.push_shader(shader(TypeShader::Vertex, 1, "vs"));
    p.push_shader(shader(TypeShader::Fragment, 2, "fs"));
    p
}

#[test]
fn new_program_is_empty() {
    let p = Program::new(3);
    assert_eq!(p.id, 3);
    assert!(!p.is_linked);
    assert!(!p.is_used);
    assert!(p.shaders.is_empty());
    assert_eq!(p.attached, 0);
}

#[test]
fn push_shader_keeps_order() {
    let p = two_shader_program();
    assert_eq!(p.shaders.len(), 2);
    assert_eq!(p.shaders[0].id, 1);
    assert_eq!(p.shaders[1].id, 2);
}

#[test]
fn two_valid_shaders_link_and_relink_issues_nothing() {
    let mut p = two_shader_program();
    let (r, calls) = p.link_with(vec![success(), success()], success());
    assert_eq!(r, Ok(()));
    assert!(p.is_linked);
    assert_eq!(
        calls,
        vec![
            GlCall::ShaderSource { shader: 1, source: "vs".to_string() },
            GlCall::CompileShader { shader: 1 },
            GlCall::AttachShader { program: 10, shader: 1 },
            GlCall::ShaderSource { shader: 2, source: "fs".to_string() },
            GlCall::CompileShader { shader: 2 },
            GlCall::AttachShader { program: 10, shader: 2 },
            GlCall::LinkProgram { program: 10 },
        ]
    );
    let (r, calls) = p.link_with(vec![failure("x"), failure("y")], failure("z"));
    assert_eq!(r, Ok(()));
    assert!(calls.is_empty());
    assert!(p.is_linked);
}

#[test]
fn shader_failure_aborts_the_link() {
    let mut p = two_shader_program();
    let (r, calls) = p.link_with(vec![success(), failure("fs: error")], success());
    assert_eq!(r, Err("fs: error".to_string()));
    assert!(!p.is_linked);
    assert_eq!(p.attached, 1);
    assert!(p.shaders[0].is_compile);
    assert!(!p.shaders[1].is_compile);
    assert_eq!(calls.len(), 5);
    // A retry neither recompiles nor reattaches the first shader.
    let (r, calls) = p.link_with(vec![failure("unused"), success()], success());
    assert_eq!(r, Ok(()));
    assert_eq!(
        calls,
        vec![
            GlCall::ShaderSource { shader: 2, source: "fs".to_string() },
            GlCall::CompileShader { shader: 2 },
            GlCall::AttachShader { program: 10, shader: 2 },
            GlCall::LinkProgram { program: 10 },
        ]
    );
}

#[test]
fn link_failure_gives_program_log() {
    let mut p = two_shader_program();
    let (r, _) = p.link_with(vec![success(), success()], failure("link: no main"));
    assert_eq!(r, Err("link: no main".to_string()));
    assert!(!p.is_linked);
    assert_eq!(p.attached, 2);
}

#[test]
fn empty_program_links_on_driver_success() {
    let mut p = Program::new(4);
    let (r, calls) = p.link_with(Vec::new(), success());
    assert_eq!(r, Ok(()));
    assert_eq!(calls, vec![GlCall::LinkProgram { program: 4 }]);
}

#[test]
fn steps_walk_compile_attach_link() {
    let mut p = two_shader_program();
    p.shaders[1].is_compile = true;
    assert_eq!(
        p.next_step(),
        LinkStep::CompileShader {
            calls: vec![
                GlCall::ShaderSource { shader: 1, source: "vs".to_string() },
                GlCall::CompileShader { shader: 1 },
            ]
        }
    );
    assert_eq!(p.compile_next(success()), Ok(()));
    assert_eq!(p.next_step(), LinkStep::AttachShader);
    assert_eq!(p.attach(), vec![GlCall::AttachShader { program: 10, shader: 1 }]);
    assert_eq!(p.next_step(), LinkStep::AttachShader);
    assert_eq!(p.attach(), vec![GlCall::AttachShader { program: 10, shader: 2 }]);
    assert_eq!(
        p.next_step(),
        LinkStep::LinkProgram { calls: vec![GlCall::LinkProgram { program: 10 }] }
    );
    assert_eq!(p.link(success()), Ok(()));
    assert_eq!(p.next_step(), LinkStep::Done);
    assert_eq!(p.link(failure("ignored")), Ok(()));
}

#[test]
fn program_status_reads_the_report() {
    let p = Program::new(5);
    assert_eq!(p.status(success()), Ok(()));
    assert_eq!(p.status(failure("link error")), Err("link error".to_string()));
}

#[test]
fn employ_issues_use_once() {
    let mut p = Program::new(6);
    assert_eq!(p.employ(), vec![GlCall::UseProgram { program: 6 }]);
    assert!(p.is_used);
    assert!(p.employ().is_empty());
}

#[test]
fn release_deletes_program_then_shaders() {
    let p = two_shader_program();
    assert_eq!(
        p.release(),
        vec![
            GlCall::DeleteProgram { program: 10 },
            GlCall::DeleteShader { shader: 1 },
            GlCall::DeleteShader { shader: 2 },
        ]
    );
}
