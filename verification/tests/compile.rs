use gl_helpers::{
    compile_shader, CompileJob, DriverCall, Job, Operation, Reply, ShaderType, Step,
};

fn call(job: &CompileJob) -> DriverCall {
    match job.pending() {
        Step::Call(call) => call,
        Step::Finished(result) => panic!("the job has finished: {:?}", result),
    }
}

fn feed(job: &mut CompileJob, reply: Reply) {
    assert!(job.accepts(&reply));
    job.resume(reply);
}

fn plain(operation: Operation) -> DriverCall {
    DriverCall { operation, bytes: vec![] }
}

#[test]
fn a_compilation_that_succeeds_reports_the_shader() {
    let source = "void main() {}";
    let mut job = compile_shader(source, ShaderType::Vertex);
    assert_eq!(call(&job), plain(Operation::CreateShader { kind: gl::VERTEX_SHADER }));
    feed(&mut job, Reply::Handle(7));
    assert_eq!(
        call(&job),
        DriverCall {
            operation: Operation::ShaderSource { shader: 7, length: 14 },
            bytes: source.as_bytes().to_vec(),
        }
    );
    feed(&mut job, Reply::Empty);
    assert_eq!(call(&job), plain(Operation::CompileShader { shader: 7 }));
    feed(&mut job, Reply::Empty);
    assert_eq!(
        call(&job),
        plain(Operation::GetShaderiv { shader: 7, pname: gl::COMPILE_STATUS })
    );
    assert_eq!(job.compiled(), None);
    feed(&mut job, Reply::Integer(1));
    assert_eq!(job.compiled(), Some(7));
    match job.pending() {
        Step::Finished(Ok(shader)) => assert_eq!(shader, 7),
        other => panic!("unexpected step: {:?}", other),
    }
}

#[test]
fn a_compilation_that_fails_reports_the_log_and_deletes_the_shader() {
    let mut job = compile_shader("void main() {", ShaderType::Fragment);
    assert_eq!(call(&job), plain(Operation::CreateShader { kind: gl::FRAGMENT_SHADER }));
    feed(&mut job, Reply::Handle(3));
    feed(&mut job, Reply::Empty);
    feed(&mut job, Reply::Empty);
    feed(&mut job, Reply::Integer(0));
    assert_eq!(
        call(&job),
        plain(Operation::GetShaderiv { shader: 3, pname: gl::INFO_LOG_LENGTH })
    );
    feed(&mut job, Reply::Integer(13));
    assert_eq!(
        call(&job),
        plain(Operation::GetShaderInfoLog { shader: 3, buf_size: 13, text_len: 12 })
    );
    feed(&mut job, Reply::Log(String::from("syntax error")));
    assert_eq!(call(&job), plain(Operation::DeleteShader { shader: 3 }));
    feed(&mut job, Reply::Empty);
    assert_eq!(job.compiled(), None);
    match job.pending() {
        Step::Finished(Err(error)) => {
            assert_eq!(error.to_string(), "error in fragment shader : syntax error")
        },
        other => panic!("unexpected step: {:?}", other),
    }
}

#[test]
fn the_message_names_the_stage() {
    let names = [
        (ShaderType::Vertex, "error in vertex shader : x"),
        (ShaderType::Fragment, "error in fragment shader : x"),
        (ShaderType::TessControl, "error in tess control shader : x"),
        (ShaderType::TessEval, "error in tess eval shader : x"),
        (ShaderType::Geometry, "error in geometry shader : x"),
        (ShaderType::Compute, "error in compute shader : x"),
    ];
    for (stage, message) in names {
        let mut job = compile_shader("", stage);
        feed(&mut job, Reply::Handle(1));
        feed(&mut job, Reply::Empty);
        feed(&mut job, Reply::Empty);
        feed(&mut job, Reply::Integer(0));
        feed(&mut job, Reply::Integer(2));
        feed(&mut job, Reply::Log(String::from("x")));
        feed(&mut job, Reply::Empty);
        match job.pending() {
            Step::Finished(Err(error)) => assert_eq!(error.to_string(), message),
            other => panic!("unexpected step: {:?}", other),
        }
    }
}

#[test]
fn an_empty_log_gives_a_message_that_ends_after_the_colon() {
    let mut job = compile_shader("x", ShaderType::Compute);
    feed(&mut job, Reply::Handle(1));
    feed(&mut job, Reply::Empty);
    feed(&mut job, Reply::Empty);
    feed(&mut job, Reply::Integer(0));
    feed(&mut job, Reply::Integer(1));
    assert_eq!(
        call(&job),
        plain(Operation::GetShaderInfoLog { shader: 1, buf_size: 1, text_len: 0 })
    );
    feed(&mut job, Reply::Log(String::new()));
    feed(&mut job, Reply::Empty);
    match job.pending() {
        Step::Finished(Err(error)) => assert_eq!(error.to_string(), "error in compute shader : "),
        other => panic!("unexpected step: {:?}", other),
    }
}

#[test]
fn the_source_length_counts_bytes() {
    let source = "// größer";
    let mut job = compile_shader(source, ShaderType::Vertex);
    feed(&mut job, Reply::Handle(2));
    let call = call(&job);
    assert_eq!(call.operation, Operation::ShaderSource { shader: 2, length: 11 });
    assert_eq!(call.bytes, source.as_bytes());
}

#[test]
fn any_status_but_zero_counts_as_success() {
    for status in [1, -1, 255, i32::MAX, i32::MIN] {
        let mut job = compile_shader("x", ShaderType::Vertex);
        feed(&mut job, Reply::Handle(5));
        feed(&mut job, Reply::Empty);
        feed(&mut job, Reply::Empty);
        feed(&mut job, Reply::Integer(status));
        assert_eq!(job.compiled(), Some(5));
    }
}

#[test]
fn a_reply_of_the_wrong_kind_is_not_accepted() {
    let mut job = compile_shader("x", ShaderType::Vertex);
    assert!(!job.accepts(&Reply::Empty));
    assert!(!job.accepts(&Reply::Integer(1)));
    assert!(!job.accepts(&Reply::Log(String::new())));
    feed(&mut job, Reply::Handle(5));
    assert!(!job.accepts(&Reply::Handle(5)));
    feed(&mut job, Reply::Empty);
    feed(&mut job, Reply::Empty);
    assert!(!job.accepts(&Reply::Empty));
    feed(&mut job, Reply::Integer(0));
    assert!(!job.accepts(&Reply::Integer(-1)));
    assert!(!job.accepts(&Reply::Integer(-4)));
    assert!(job.accepts(&Reply::Integer(0)));
    assert!(job.accepts(&Reply::Integer(1)));
}

#[test]
fn a_compilation_that_fails_without_a_log_reports_an_empty_log() {
    let names = [
        (ShaderType::Vertex, "error in vertex shader : "),
        (ShaderType::Fragment, "error in fragment shader : "),
        (ShaderType::TessControl, "error in tess control shader : "),
        (ShaderType::TessEval, "error in tess eval shader : "),
        (ShaderType::Geometry, "error in geometry shader : "),
        (ShaderType::Compute, "error in compute shader : "),
    ];
    for (stage, message) in names {
        let mut job = compile_shader("void main() {", stage);
        feed(&mut job, Reply::Handle(3));
        feed(&mut job, Reply::Empty);
        feed(&mut job, Reply::Empty);
        feed(&mut job, Reply::Integer(0));
        assert_eq!(
            call(&job),
            plain(Operation::GetShaderiv { shader: 3, pname: gl::INFO_LOG_LENGTH })
        );
        feed(&mut job, Reply::Integer(0));
        assert_eq!(call(&job), plain(Operation::DeleteShader { shader: 3 }));
        assert!(!job.accepts(&Reply::Log(String::from("late"))));
        feed(&mut job, Reply::Empty);
        assert_eq!(job.compiled(), None);
        match job.pending() {
            Step::Finished(Err(error)) => assert_eq!(error.to_string(), message),
            other => panic!("unexpected step: {:?}", other),
        }
        assert!(!job.accepts(&Reply::Empty));
    }
}

#[test]
fn a_finished_compilation_accepts_nothing() {
    let mut job = compile_shader("x", ShaderType::Vertex);
    feed(&mut job, Reply::Handle(5));
    feed(&mut job, Reply::Empty);
    feed(&mut job, Reply::Empty);
    feed(&mut job, Reply::Integer(1));
    assert!(!job.accepts(&Reply::Empty));
    assert!(!job.accepts(&Reply::Handle(1)));
    assert!(!job.accepts(&Reply::Integer(1)));
    assert!(!job.accepts(&Reply::Log(String::new())));
}

#[test]
fn the_job_remembers_its_stage() {
    assert_eq!(compile_shader("x", ShaderType::Geometry).shader_type(), ShaderType::Geometry);
}
