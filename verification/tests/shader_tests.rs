use rendering::commands::GlCommand;
use rendering::shader::{GlError, Shader};
use rendering::shader_program::ShaderProgram;

#[test]
fn compile_success_exposes_handle() {
    let r = Shader::vert(9, true, String::new());
    let shader = r.unwrap();
    assert_eq!(shader.id(), 9);
}

#[test]
fn compile_failure_reports_nonempty_log() {
    let diagnostic = String::from("0:3(12): error: syntax error, unexpected ';'");
    let r = Shader::frag(5, false, diagnostic.clone());
    match r {
        Err(GlError::CompileFailure(log)) => {
            assert_eq!(log.text, diagnostic);
            assert!(!log.text.is_empty());
        }
        _ => panic!("a failed compile must surface a CompileFailure"),
    }
}

#[test]
fn build_links_attached_stages_in_order() {
    let vert = Shader::vert(1, true, String::new()).unwrap();
    let frag = Shader::frag(2, true, String::new()).unwrap();
    let builder = ShaderProgram::new().with(&vert).with(&frag);
    let cmds = builder.link_commands(7);
    assert_eq!(
        cmds,
        vec![
            GlCommand::AttachShader { program: 7, shader: 1 },
            GlCommand::AttachShader { program: 7, shader: 2 },
            GlCommand::LinkProgram { program: 7 },
        ]
    );
    let program = builder.build(7, true, String::new()).unwrap();
    assert_eq!(program.id, 7);
    assert_eq!(program.bind(), GlCommand::UseProgram { program: 7 });
}

#[test]
fn failed_link_yields_no_program() {
    let vert = Shader::vert(1, true, String::new()).unwrap();
    let builder = ShaderProgram::new().with(&vert);
    let diagnostic = String::from("error: fragment shader lacks main()");
    match builder.build(8, false, diagnostic.clone()) {
        Err(GlError::LinkFailure(log)) => {
            assert_eq!(log.text, diagnostic);
            assert!(!log.text.is_empty());
        }
        _ => panic!("a failed link must surface a LinkFailure"),
    }
}

#[test]
fn failed_compile_never_reaches_a_builder() {
    let broken = Shader::vert(3, false, String::from("error: undeclared identifier"));
    assert!(broken.is_err());
    let log = broken.unwrap_err();
    assert_eq!(log.log().text, "error: undeclared identifier");
}
