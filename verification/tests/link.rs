use gl_helpers::{create_program, DriverCall, Job, LinkJob, Operation, Reply, Step};

fn call(job: &LinkJob) -> Operation {
    match job.pending() {
        Step::Call(DriverCall { operation, bytes }) => {
            assert!(bytes.is_empty());
            operation
        },
        Step::Finished(result) => panic!("the job has finished: {:?}", result),
    }
}

fn run(job: &mut LinkJob, replies: Vec<Reply>) -> Vec<Operation> {
    let mut calls = Vec::new();
    for reply in replies {
        calls.push(call(job));
        assert!(job.accepts(&reply));
        job.resume(reply);
    }
    calls
}

#[test]
fn a_link_attaches_links_detaches_and_deletes_in_order() {
    let mut job = create_program(&[3, 4], true);
    let calls = run(
        &mut job,
        vec![
            Reply::Handle(9),
            Reply::Empty,
            Reply::Empty,
            Reply::Empty,
            Reply::Empty,
            Reply::Empty,
            Reply::Empty,
            Reply::Empty,
            Reply::Integer(1),
        ],
    );
    assert_eq!(
        calls,
        vec![
            Operation::CreateProgram,
            Operation::AttachShader { program: 9, shader: 3 },
            Operation::AttachShader { program: 9, shader: 4 },
            Operation::LinkProgram { program: 9 },
            Operation::DetachShader { program: 9, shader: 3 },
            Operation::DeleteShader { shader: 3 },
            Operation::DetachShader { program: 9, shader: 4 },
            Operation::DeleteShader { shader: 4 },
            Operation::GetProgramiv { program: 9, pname: gl::LINK_STATUS },
        ]
    );
    match job.pending() {
        Step::Finished(Ok(program)) => assert_eq!(program, 9),
        other => panic!("unexpected step: {:?}", other),
    }
}

#[test]
fn a_link_that_keeps_its_shaders_only_detaches_them() {
    let mut job = create_program(&[3, 4, 5], false);
    let calls = run(
        &mut job,
        vec![
            Reply::Handle(2),
            Reply::Empty,
            Reply::Empty,
            Reply::Empty,
            Reply::Empty,
            Reply::Empty,
            Reply::Empty,
            Reply::Empty,
            Reply::Integer(1),
        ],
    );
    assert_eq!(
        calls,
        vec![
            Operation::CreateProgram,
            Operation::AttachShader { program: 2, shader: 3 },
            Operation::AttachShader { program: 2, shader: 4 },
            Operation::AttachShader { program: 2, shader: 5 },
            Operation::LinkProgram { program: 2 },
            Operation::DetachShader { program: 2, shader: 3 },
            Operation::DetachShader { program: 2, shader: 4 },
            Operation::DetachShader { program: 2, shader: 5 },
            Operation::GetProgramiv { program: 2, pname: gl::LINK_STATUS },
        ]
    );
    match job.pending() {
        Step::Finished(Ok(program)) => assert_eq!(program, 2),
        other => panic!("unexpected step: {:?}", other),
    }
}

#[test]
fn a_link_of_no_shaders_still_links() {
    for delete_shaders in [false, true] {
        let mut job = create_program(&[], delete_shaders);
        let calls = run(&mut job, vec![Reply::Handle(6), Reply::Empty, Reply::Integer(1)]);
        assert_eq!(
            calls,
            vec![
                Operation::CreateProgram,
                Operation::LinkProgram { program: 6 },
                Operation::GetProgramiv { program: 6, pname: gl::LINK_STATUS },
            ]
        );
        match job.pending() {
            Step::Finished(Ok(program)) => assert_eq!(program, 6),
            other => panic!("unexpected step: {:?}", other),
        }
    }
}

#[test]
fn a_link_that_fails_reports_the_log_and_deletes_the_program() {
    let mut job = create_program(&[8], true);
    let calls = run(
        &mut job,
        vec![
            Reply::Handle(1),
            Reply::Empty,
            Reply::Empty,
            Reply::Empty,
            Reply::Empty,
            Reply::Integer(0),
            Reply::Integer(18),
            Reply::Log(String::from("unresolved symbol")),
            Reply::Empty,
        ],
    );
    assert_eq!(
        calls,
        vec![
            Operation::CreateProgram,
            Operation::AttachShader { program: 1, shader: 8 },
            Operation::LinkProgram { program: 1 },
            Operation::DetachShader { program: 1, shader: 8 },
            Operation::DeleteShader { shader: 8 },
            Operation::GetProgramiv { program: 1, pname: gl::LINK_STATUS },
            Operation::GetProgramiv { program: 1, pname: gl::INFO_LOG_LENGTH },
            Operation::GetProgramInfoLog { program: 1, buf_size: 18, text_len: 17 },
            Operation::DeleteProgram { program: 1 },
        ]
    );
    match job.pending() {
        Step::Finished(Err(error)) => {
            assert_eq!(error.to_string(), "shader program linking error: unresolved symbol")
        },
        other => panic!("unexpected step: {:?}", other),
    }
}

#[test]
fn a_link_accepts_only_the_reply_its_call_gives() {
    let mut job = create_program(&[8], false);
    assert!(!job.accepts(&Reply::Empty));
    assert!(job.accepts(&Reply::Handle(0)));
    job.resume(Reply::Handle(0));
    assert!(!job.accepts(&Reply::Handle(0)));
    assert!(!job.accepts(&Reply::Integer(0)));
    assert!(job.accepts(&Reply::Empty));
}

#[test]
fn the_same_shader_may_be_linked_twice() {
    let mut job = create_program(&[5, 5], true);
    let calls = run(
        &mut job,
        vec![
            Reply::Handle(1),
            Reply::Empty,
            Reply::Empty,
            Reply::Empty,
            Reply::Empty,
            Reply::Empty,
            Reply::Empty,
            Reply::Empty,
        ],
    );
    assert_eq!(calls[1], Operation::AttachShader { program: 1, shader: 5 });
    assert_eq!(calls[2], Operation::AttachShader { program: 1, shader: 5 });
    assert_eq!(calls[5], Operation::DeleteShader { shader: 5 });
    assert_eq!(calls[7], Operation::DeleteShader { shader: 5 });
}

#[test]
fn an_offered_reply_is_taken_only_if_it_is_accepted() {
    let mut job = create_program(&[8], false);
    assert!(!gl_helpers::offer(&mut job, Reply::Empty));
    assert_eq!(call(&job), Operation::CreateProgram);
    assert!(gl_helpers::offer(&mut job, Reply::Handle(2)));
    assert_eq!(call(&job), Operation::AttachShader { program: 2, shader: 8 });
    assert!(!gl_helpers::offer(&mut job, Reply::Integer(0)));
    assert_eq!(call(&job), Operation::AttachShader { program: 2, shader: 8 });
}

#[test]
fn a_link_that_fails_without_a_log_reports_an_empty_log() {
    for delete_shaders in [false, true] {
        let mut job = create_program(&[], delete_shaders);
        let calls = run(
            &mut job,
            vec![
                Reply::Handle(1),
                Reply::Empty,
                Reply::Integer(0),
                Reply::Integer(0),
                Reply::Empty,
            ],
        );
        assert_eq!(
            calls,
            vec![
                Operation::CreateProgram,
                Operation::LinkProgram { program: 1 },
                Operation::GetProgramiv { program: 1, pname: gl::LINK_STATUS },
                Operation::GetProgramiv { program: 1, pname: gl::INFO_LOG_LENGTH },
                Operation::DeleteProgram { program: 1 },
            ]
        );
        match job.pending() {
            Step::Finished(Err(error)) => {
                assert_eq!(error.to_string(), "shader program linking error: ")
            },
            other => panic!("unexpected step: {:?}", other),
        }
        assert!(!job.accepts(&Reply::Empty));
    }
}

#[test]
fn a_negative_log_length_is_not_accepted() {
    let mut job = create_program(&[], false);
    run(&mut job, vec![Reply::Handle(1), Reply::Empty, Reply::Integer(0)]);
    assert!(!job.accepts(&Reply::Integer(-1)));
    assert!(!gl_helpers::offer(&mut job, Reply::Integer(i32::MIN)));
    assert_eq!(call(&job), Operation::GetProgramiv { program: 1, pname: gl::INFO_LOG_LENGTH });
    assert!(job.accepts(&Reply::Integer(0)));
}
