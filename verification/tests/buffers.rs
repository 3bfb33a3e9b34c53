use gl_helpers::{
    create_buffer, named_buffer_data, BufferUsage, DriverCall, Job, Operation, Reply, Step,
};

#[test]
fn usage_codes_are_those_of_the_bindings() {
    assert_eq!(BufferUsage::StreamDraw.as_gl_enum(), gl::STREAM_DRAW);
    assert_eq!(BufferUsage::StreamRead.as_gl_enum(), gl::STREAM_READ);
    assert_eq!(BufferUsage::StreamCopy.as_gl_enum(), gl::STREAM_COPY);
    assert_eq!(BufferUsage::StaticDraw.as_gl_enum(), gl::STATIC_DRAW);
    assert_eq!(BufferUsage::StaticRead.as_gl_enum(), gl::STATIC_READ);
    assert_eq!(BufferUsage::StaticCopy.as_gl_enum(), gl::STATIC_COPY);
    assert_eq!(BufferUsage::DynamicDraw.as_gl_enum(), gl::DYNAMIC_DRAW);
    assert_eq!(BufferUsage::DynamicRead.as_gl_enum(), gl::DYNAMIC_READ);
    assert_eq!(BufferUsage::DynamicCopy.as_gl_enum(), gl::DYNAMIC_COPY);
}

#[test]
fn usage_codes_have_the_registry_values() {
    assert_eq!(BufferUsage::StreamDraw.as_gl_enum(), 0x88E0);
    assert_eq!(BufferUsage::StreamRead.as_gl_enum(), 0x88E1);
    assert_eq!(BufferUsage::StreamCopy.as_gl_enum(), 0x88E2);
    assert_eq!(BufferUsage::StaticDraw.as_gl_enum(), 0x88E4);
    assert_eq!(BufferUsage::StaticRead.as_gl_enum(), 0x88E5);
    assert_eq!(BufferUsage::StaticCopy.as_gl_enum(), 0x88E6);
    assert_eq!(BufferUsage::DynamicDraw.as_gl_enum(), 0x88E8);
    assert_eq!(BufferUsage::DynamicRead.as_gl_enum(), 0x88E9);
    assert_eq!(BufferUsage::DynamicCopy.as_gl_enum(), 0x88EA);
}

#[test]
fn named_buffer_data_counts_the_bytes_of_the_slice() {
    let data = [1.0f32, 2.0, 3.0];
    assert_eq!(
        named_buffer_data(5, &data, BufferUsage::StaticDraw),
        DriverCall {
            operation: Operation::NamedBufferData { buffer: 5, size: 12, usage: gl::STATIC_DRAW },
            bytes: vec![],
        }
    );
}

#[test]
fn named_buffer_data_goes_by_the_size_of_an_element() {
    let bytes = [0u8; 7];
    let words = [0u64; 7];
    let pairs = [(0u16, 0u16); 7];
    let nothing: [u32; 0] = [];
    let units = [(); 9];
    let size_of = |call: DriverCall| match call.operation {
        Operation::NamedBufferData { size, .. } => size,
        other => panic!("unexpected call: {:?}", other),
    };
    assert_eq!(size_of(named_buffer_data(1, &bytes, BufferUsage::StreamRead)), 7);
    assert_eq!(size_of(named_buffer_data(1, &words, BufferUsage::StreamRead)), 56);
    assert_eq!(size_of(named_buffer_data(1, &pairs, BufferUsage::StreamRead)), 28);
    assert_eq!(size_of(named_buffer_data(1, &nothing, BufferUsage::StreamRead)), 0);
    assert_eq!(size_of(named_buffer_data(1, &units, BufferUsage::StreamRead)), 0);
}

#[test]
fn create_buffer_creates_then_fills() {
    let data = [0u32; 10];
    let mut job = create_buffer(&data, BufferUsage::DynamicCopy);
    match job.pending() {
        Step::Call(call) => {
            assert_eq!(call, DriverCall { operation: Operation::CreateBuffers, bytes: vec![] })
        },
        other => panic!("unexpected step: {:?}", other),
    }
    assert!(!job.accepts(&Reply::Empty));
    assert!(job.accepts(&Reply::Handle(33)));
    job.resume(Reply::Handle(33));
    match job.pending() {
        Step::Call(call) => {
            assert_eq!(call, named_buffer_data(33, &data, BufferUsage::DynamicCopy))
        },
        other => panic!("unexpected step: {:?}", other),
    }
    match job.pending() {
        Step::Call(call) => assert_eq!(
            call.operation,
            Operation::NamedBufferData { buffer: 33, size: 40, usage: gl::DYNAMIC_COPY }
        ),
        other => panic!("unexpected step: {:?}", other),
    }
    assert!(!job.accepts(&Reply::Handle(1)));
    assert!(job.accepts(&Reply::Empty));
    job.resume(Reply::Empty);
    match job.pending() {
        Step::Finished(Ok(buffer)) => assert_eq!(buffer, 33),
        other => panic!("unexpected step: {:?}", other),
    }
    assert!(!job.accepts(&Reply::Empty));
}
