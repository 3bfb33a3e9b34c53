use gl_helpers::ShaderType;

#[test]
fn each_lists_the_six_stages_in_building_order() {
    let stages = ShaderType::each();
    assert_eq!(
        stages,
        [
            ShaderType::Vertex,
            ShaderType::Fragment,
            ShaderType::TessControl,
            ShaderType::TessEval,
            ShaderType::Geometry,
            ShaderType::Compute,
        ]
    );
}

#[test]
fn shader_codes_are_those_of_the_bindings() {
    assert_eq!(ShaderType::Vertex.as_gl_enum(), gl::VERTEX_SHADER);
    assert_eq!(ShaderType::Fragment.as_gl_enum(), gl::FRAGMENT_SHADER);
    assert_eq!(ShaderType::TessControl.as_gl_enum(), gl::TESS_CONTROL_SHADER);
    assert_eq!(ShaderType::TessEval.as_gl_enum(), gl::TESS_EVALUATION_SHADER);
    assert_eq!(ShaderType::Geometry.as_gl_enum(), gl::GEOMETRY_SHADER);
    assert_eq!(ShaderType::Compute.as_gl_enum(), gl::COMPUTE_SHADER);
}

#[test]
fn shader_codes_have_the_registry_values() {
    assert_eq!(ShaderType::Vertex.as_gl_enum(), 0x8B31);
    assert_eq!(ShaderType::Fragment.as_gl_enum(), 0x8B30);
    assert_eq!(ShaderType::TessControl.as_gl_enum(), 0x8E88);
    assert_eq!(ShaderType::TessEval.as_gl_enum(), 0x8E87);
    assert_eq!(ShaderType::Geometry.as_gl_enum(), 0x8DD9);
    assert_eq!(ShaderType::Compute.as_gl_enum(), 0x91B9);
}

#[test]
fn the_codes_written_down_agree_with_the_bindings() {
    assert_eq!(gl_helpers::codes::VERTEX_SHADER, gl::VERTEX_SHADER);
    assert_eq!(gl_helpers::codes::FRAGMENT_SHADER, gl::FRAGMENT_SHADER);
    assert_eq!(gl_helpers::codes::TESS_CONTROL_SHADER, gl::TESS_CONTROL_SHADER);
    assert_eq!(gl_helpers::codes::TESS_EVALUATION_SHADER, gl::TESS_EVALUATION_SHADER);
    assert_eq!(gl_helpers::codes::GEOMETRY_SHADER, gl::GEOMETRY_SHADER);
    assert_eq!(gl_helpers::codes::COMPUTE_SHADER, gl::COMPUTE_SHADER);
    assert_eq!(gl_helpers::codes::COMPILE_STATUS, gl::COMPILE_STATUS);
    assert_eq!(gl_helpers::codes::LINK_STATUS, gl::LINK_STATUS);
    assert_eq!(gl_helpers::codes::INFO_LOG_LENGTH, gl::INFO_LOG_LENGTH);
    assert_eq!(gl_helpers::codes::ARRAY_BUFFER, gl::ARRAY_BUFFER);
    assert_eq!(gl_helpers::codes::FLOAT, gl::FLOAT);
    assert_eq!(gl_helpers::codes::FALSE, gl::FALSE);
    assert_eq!(gl_helpers::codes::STREAM_DRAW, gl::STREAM_DRAW);
    assert_eq!(gl_helpers::codes::STREAM_READ, gl::STREAM_READ);
    assert_eq!(gl_helpers::codes::STREAM_COPY, gl::STREAM_COPY);
    assert_eq!(gl_helpers::codes::STATIC_DRAW, gl::STATIC_DRAW);
    assert_eq!(gl_helpers::codes::STATIC_READ, gl::STATIC_READ);
    assert_eq!(gl_helpers::codes::STATIC_COPY, gl::STATIC_COPY);
    assert_eq!(gl_helpers::codes::DYNAMIC_DRAW, gl::DYNAMIC_DRAW);
    assert_eq!(gl_helpers::codes::DYNAMIC_READ, gl::DYNAMIC_READ);
    assert_eq!(gl_helpers::codes::DYNAMIC_COPY, gl::DYNAMIC_COPY);
}

#[test]
fn short_names_are_spelled_as_in_messages() {
    assert_eq!(ShaderType::Vertex.short_name(), "vertex");
    assert_eq!(ShaderType::Fragment.short_name(), "fragment");
    assert_eq!(ShaderType::TessControl.short_name(), "tess control");
    assert_eq!(ShaderType::TessEval.short_name(), "tess eval");
    assert_eq!(ShaderType::Geometry.short_name(), "geometry");
    assert_eq!(ShaderType::Compute.short_name(), "compute");
}
