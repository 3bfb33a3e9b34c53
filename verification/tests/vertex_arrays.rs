use gl_helpers::{
    create_single_buffer_vertex_array, vertex_stride, DriverCall, Job, Operation, Reply, Step,
    VertexArrayJob,
};

fn run(job: &mut VertexArrayJob, replies: Vec<Reply>) -> Vec<Operation> {
    let mut calls = Vec::new();
    for reply in replies {
        match job.pending() {
            Step::Call(DriverCall { operation, bytes }) => {
                assert!(bytes.is_empty());
                calls.push(operation);
            },
            Step::Finished(result) => panic!("the job has finished: {:?}", result),
        }
        assert!(job.accepts(&reply));
        job.resume(reply);
    }
    calls
}

fn pointer(index: u32, components: i32, stride: i32, offset: usize) -> Operation {
    Operation::VertexAttribPointer {
        index,
        components,
        kind: gl::FLOAT,
        normalized: gl::FALSE,
        stride,
        offset,
    }
}

#[test]
fn attributes_are_packed_one_after_the_other() {
    let mut job = create_single_buffer_vertex_array(40, &[3, 2, 4]);
    let mut replies = vec![Reply::Handle(7)];
    replies.extend(vec![Reply::Empty; 8]);
    let calls = run(&mut job, replies);
    assert_eq!(
        calls,
        vec![
            Operation::GenVertexArrays,
            Operation::BindVertexArray { array: 7 },
            Operation::BindBuffer { target: gl::ARRAY_BUFFER, buffer: 40 },
            pointer(0, 3, 36, 0),
            Operation::EnableVertexAttribArray { index: 0 },
            pointer(1, 2, 36, 12),
            Operation::EnableVertexAttribArray { index: 1 },
            pointer(2, 4, 36, 20),
            Operation::EnableVertexAttribArray { index: 2 },
        ]
    );
    match job.pending() {
        Step::Finished(Ok(array)) => assert_eq!(array, 7),
        other => panic!("unexpected step: {:?}", other),
    }
    assert!(!job.accepts(&Reply::Empty));
}

#[test]
fn a_vertex_array_without_attributes_only_binds() {
    let mut job = create_single_buffer_vertex_array(1, &[]);
    let calls = run(&mut job, vec![Reply::Handle(2), Reply::Empty, Reply::Empty]);
    assert_eq!(
        calls,
        vec![
            Operation::GenVertexArrays,
            Operation::BindVertexArray { array: 2 },
            Operation::BindBuffer { target: gl::ARRAY_BUFFER, buffer: 1 },
        ]
    );
    match job.pending() {
        Step::Finished(Ok(array)) => assert_eq!(array, 2),
        other => panic!("unexpected step: {:?}", other),
    }
}

#[test]
fn an_attribute_without_components_takes_no_room() {
    let mut job = create_single_buffer_vertex_array(1, &[2, 0, 1]);
    let mut replies = vec![Reply::Handle(2)];
    replies.extend(vec![Reply::Empty; 8]);
    let calls = run(&mut job, replies);
    assert_eq!(calls[3], pointer(0, 2, 12, 0));
    assert_eq!(calls[5], pointer(1, 0, 12, 8));
    assert_eq!(calls[7], pointer(2, 1, 12, 8));
}

#[test]
fn the_stride_counts_four_bytes_for_each_component() {
    assert_eq!(vertex_stride(&[]), Some(0));
    assert_eq!(vertex_stride(&[1]), Some(4));
    assert_eq!(vertex_stride(&[3, 2, 4]), Some(36));
    assert_eq!(vertex_stride(&[0, 0]), Some(0));
    assert_eq!(vertex_stride(&[536870911]), Some(2147483644));
    assert_eq!(vertex_stride(&[536870910, 1]), Some(2147483644));
}

#[test]
fn a_layout_that_does_not_fit_has_no_stride() {
    assert_eq!(vertex_stride(&[536870912]), None);
    assert_eq!(vertex_stride(&[536870911, 1]), None);
    assert_eq!(vertex_stride(&[i32::MAX, i32::MAX, i32::MAX]), None);
    assert_eq!(vertex_stride(&[-1]), None);
    assert_eq!(vertex_stride(&[4, -4]), None);
    assert_eq!(vertex_stride(&[-4, 4]), None);
    assert_eq!(vertex_stride(&[i32::MIN]), None);
}

#[test]
fn the_widest_layout_that_fits_is_laid_out() {
    let mut job = create_single_buffer_vertex_array(1, &[536870910, 1]);
    let mut replies = vec![Reply::Handle(2)];
    replies.extend(vec![Reply::Empty; 6]);
    let calls = run(&mut job, replies);
    assert_eq!(calls[3], pointer(0, 536870910, 2147483644, 0));
    assert_eq!(calls[5], pointer(1, 1, 2147483644, 2147483640));
}
