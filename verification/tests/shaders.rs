use slime_sim::render::shader::{is_c_string_compatible, ComputeProgram, Program, Shader, Uniform};

#[test]
fn compile_success_gives_shader() {
    let s = Shader::from_compile_status(3, 1, String::from("unused")).unwrap();
    assert_eq!(s.id(), 3);
}

#[test]
fn compile_failure_gives_log() {
    match Shader::from_compile_status(3, 0, String::from("0:1: syntax error")) {
        Err(e) => assert_eq!(e, "0:1: syntax error"),
        Ok(_) => panic!("a failed compile must give an error"),
    }
}

#[test]
fn link_success_gives_program() {
    let p = Program::from_link_status(9, 1, 40).unwrap();
    assert_eq!(p.id(), 9);
    let c = ComputeProgram::new(p);
    assert_eq!(c.program().id(), 9);
}

#[test]
fn link_failure_gives_spaces_of_log_length() {
    match Program::from_link_status(9, 0, 5) {
        Err(e) => assert_eq!(e, "     "),
        Ok(_) => panic!("a failed link must give an error"),
    }
    match Program::from_link_status(9, 0, 0) {
        Err(e) => assert_eq!(e, ""),
        Ok(_) => panic!("a failed link must give an error"),
    }
}

#[test]
fn c_string_compatibility() {
    assert!(is_c_string_compatible("windowSize"));
    assert!(is_c_string_compatible(""));
    assert!(is_c_string_compatible("héllo"));
    assert!(!is_c_string_compatible("camPos\0"));
    assert!(!is_c_string_compatible("\0zoom"));
}

#[test]
fn uniform_keeps_location() {
    assert_eq!(Uniform::from_location(4).location(), 4);
    assert_eq!(Uniform::from_location(-1).location(), -1);
}
