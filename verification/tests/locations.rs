use gl_helpers::{
    get_attribute_location, get_attribute_location_cstr, get_uniform_location,
    get_uniform_location_cstr, DriverCall, Job, LocationJob, Operation, Reply, Step,
};

fn ask(job: &LocationJob) -> DriverCall {
    match job.pending() {
        Step::Call(call) => call,
        Step::Finished(result) => panic!("the job has finished: {:?}", result),
    }
}

fn answer(mut job: LocationJob, location: i32) -> Result<i32, String> {
    assert!(job.accepts(&Reply::Integer(location)));
    job.resume(Reply::Integer(location));
    assert!(!job.accepts(&Reply::Integer(location)));
    match job.pending() {
        Step::Finished(Ok(location)) => Ok(location),
        Step::Finished(Err(error)) => Err(error.to_string()),
        Step::Call(call) => panic!("unexpected call: {:?}", call),
    }
}

#[test]
fn an_attribute_is_asked_for_by_its_name() {
    let job = get_attribute_location(3, "position");
    assert_eq!(
        ask(&job),
        DriverCall {
            operation: Operation::GetAttribLocation { program: 3 },
            bytes: b"position".to_vec(),
        }
    );
    assert_eq!(answer(job, 2), Ok(2));
}

#[test]
fn a_uniform_is_asked_for_by_its_name() {
    let job = get_uniform_location(4, "mvp");
    assert_eq!(
        ask(&job),
        DriverCall {
            operation: Operation::GetUniformLocation { program: 4 },
            bytes: b"mvp".to_vec(),
        }
    );
    assert_eq!(answer(job, 0), Ok(0));
}

#[test]
fn a_missing_attribute_is_an_error_that_names_it() {
    let job = get_attribute_location(3, "normal");
    assert_eq!(answer(job, -1), Err(String::from("could not find attribute normal")));
}

#[test]
fn a_missing_uniform_is_an_error_that_names_it() {
    let job = get_uniform_location(3, "light");
    assert_eq!(answer(job, -1), Err(String::from("could not find uniform light")));
}

#[test]
fn only_minus_one_means_missing() {
    assert_eq!(answer(get_attribute_location(3, "a"), -2), Ok(-2));
    assert_eq!(answer(get_uniform_location(3, "a"), i32::MIN), Ok(i32::MIN));
    assert_eq!(answer(get_uniform_location(3, "a"), i32::MAX), Ok(i32::MAX));
}

#[test]
fn a_name_with_a_zero_byte_is_refused_without_asking() {
    let job = get_attribute_location(3, "pos\0ition");
    assert!(!job.accepts(&Reply::Integer(1)));
    match job.pending() {
        Step::Finished(Err(error)) => assert_eq!(
            error.to_string(),
            "nul byte found in provided data at position: 3"
        ),
        other => panic!("unexpected step: {:?}", other),
    }
    let job = get_uniform_location(3, "\0");
    match job.pending() {
        Step::Finished(Err(error)) => assert_eq!(
            error.to_string(),
            "nul byte found in provided data at position: 0"
        ),
        other => panic!("unexpected step: {:?}", other),
    }
}

#[test]
fn the_position_of_the_first_zero_byte_is_written_in_decimal() {
    let mut name = "x".repeat(1203);
    name.push('\0');
    name.push_str("yy\0");
    match get_uniform_location(3, &name).pending() {
        Step::Finished(Err(error)) => assert_eq!(
            error.to_string(),
            "nul byte found in provided data at position: 1203"
        ),
        other => panic!("unexpected step: {:?}", other),
    }
    let mut name = "é".repeat(5);
    name.push('\0');
    match get_attribute_location(3, &name).pending() {
        Step::Finished(Err(error)) => assert_eq!(
            error.to_string(),
            "nul byte found in provided data at position: 10"
        ),
        other => panic!("unexpected step: {:?}", other),
    }
}

#[test]
fn an_empty_name_is_asked_for() {
    let job = get_attribute_location(3, "");
    assert_eq!(
        ask(&job),
        DriverCall { operation: Operation::GetAttribLocation { program: 3 }, bytes: vec![] }
    );
    assert_eq!(answer(job, -1), Err(String::from("could not find attribute ")));
}

#[test]
fn a_name_given_as_bytes_is_asked_for_as_it_is() {
    let job = get_attribute_location_cstr(8, b"colour");
    assert_eq!(
        ask(&job),
        DriverCall {
            operation: Operation::GetAttribLocation { program: 8 },
            bytes: b"colour".to_vec(),
        }
    );
    assert_eq!(answer(job, 5), Ok(5));
    let job = get_uniform_location_cstr(8, b"time");
    assert_eq!(
        ask(&job),
        DriverCall {
            operation: Operation::GetUniformLocation { program: 8 },
            bytes: b"time".to_vec(),
        }
    );
    assert_eq!(answer(job, -1), Err(String::from("could not find uniform time")));
    let job = get_attribute_location_cstr(8, "größe".as_bytes());
    assert_eq!(answer(job, -1), Err(String::from("could not find attribute größe")));
}

#[test]
fn bytes_that_are_no_text_are_shown_with_replacement_characters() {
    let name = [b'a', 0xFF, b'b'];
    let job = get_attribute_location_cstr(8, &name);
    assert_eq!(ask(&job).bytes, name.to_vec());
    assert_eq!(
        answer(job, -1),
        Err(format!("could not find attribute {}", String::from_utf8_lossy(&name)))
    );
    let job = get_uniform_location_cstr(8, &name);
    assert_eq!(answer(job, -1), Err(String::from("could not find uniform a\u{FFFD}b")));
}
