use rendering::buffer::Buffer;
use rendering::commands::{BufferKind, DataType, GlCommand};
use rendering::shader::Shader;
use rendering::shader_program::ShaderProgram;
use rendering::vertex_array::{ArrayPointer, VertexArray};

/// The worked scenario: four vertices of interleaved 2-component position
/// and 3-component color, drawn as two triangles through a six-element
/// index buffer, with both attributes fed from the same vertex buffer.
#[test]
fn interleaved_quad_is_fully_configured() {
    let vertices: [f32; 20] = [
        0.5, 0.5, 1.0, 0.0, 0.0, //
        0.5, -0.5, 0.0, 1.0, 0.0, //
        -0.5, -0.5, 0.0, 0.0, 1.0, //
        -0.5, 0.5, 0.0, 0.0, 0.0,
    ];
    let indices: [u32; 6] = [0, 1, 3, 1, 2, 3];

    let vertex_words: Vec<u32> = vertices.iter().map(|v| v.to_bits()).collect();

    let vert = Shader::vert(1, true, String::new()).unwrap();
    let frag = Shader::frag(2, true, String::new()).unwrap();
    let shader = ShaderProgram::new().with(&vert).with(&frag).build(7, true, String::new());
    let shader = shader.unwrap();

    let (vbo, vbo_cmds) = Buffer::new(vertex_words.clone()).build(10);
    assert_eq!(
        vbo_cmds,
        vec![
            GlCommand::BindBuffer { target: BufferKind::Array, buffer: 10 },
            GlCommand::BufferData { target: BufferKind::Array, data: vertex_words },
        ]
    );
    assert_eq!(vbo.count, 20);

    let (ebo, ebo_cmds) =
        Buffer::new(indices.to_vec()).kind(BufferKind::ElementArray).build(11);
    assert_eq!(
        ebo_cmds,
        vec![
            GlCommand::BindBuffer { target: BufferKind::ElementArray, buffer: 11 },
            GlCommand::BufferData { target: BufferKind::ElementArray, data: indices.to_vec() },
        ]
    );
    assert_eq!(ebo.count, 6);

    // Positions: attribute 0, two floats per vertex, five floats apart.
    let positions = ArrayPointer::new().shader_attribute(0).components(2).stride(5);
    // Colors: attribute 1, three floats per vertex, starting two floats in.
    let colors = ArrayPointer::new().shader_attribute(1).components(3).stride(5).offset(2);
    assert_eq!(positions.stride, 20);
    assert_eq!(positions.offset, 0);
    assert_eq!(colors.stride, 20);
    assert_eq!(colors.offset, 8);

    let (vao, vao_cmds) = VertexArray::new()
        .buffer(&vbo)
        .buffer(&ebo)
        .pointer(&positions)
        .pointer(&colors)
        .build(3);
    assert_eq!(
        vao_cmds,
        vec![
            GlCommand::BindVertexArray { array: 3 },
            GlCommand::BindBuffer { target: BufferKind::Array, buffer: 10 },
            GlCommand::BindBuffer { target: BufferKind::ElementArray, buffer: 11 },
            GlCommand::VertexAttribPointer {
                location: 0,
                components: 2,
                data_type: DataType::Float,
                normalize: false,
                stride: 20,
                offset: 0,
            },
            GlCommand::EnableVertexAttribArray { location: 0 },
            GlCommand::VertexAttribPointer {
                location: 1,
                components: 3,
                data_type: DataType::Float,
                normalize: false,
                stride: 20,
                offset: 8,
            },
            GlCommand::EnableVertexAttribArray { location: 1 },
            GlCommand::BindVertexArray { array: 0 },
        ]
    );

    assert_eq!(shader.bind(), GlCommand::UseProgram { program: 7 });
    assert_eq!(vao.bind(), GlCommand::BindVertexArray { array: 3 });
    assert_eq!(VertexArray::unbind(), GlCommand::BindVertexArray { array: 0 });
}

#[test]
fn single_configuration_build_applies_pending_attribute() {
    let data: Vec<u32> = vec![0, 1, 2, 3, 4, 5];
    let (vbo, _) = Buffer::new(data).build(4);
    let (_, cmds) = VertexArray::new()
        .buffer(&vbo)
        .location(2)
        .components(3)
        .data_type(DataType::UnsignedInt)
        .normalize(false)
        .build(6);
    assert_eq!(
        cmds,
        vec![
            GlCommand::BindVertexArray { array: 6 },
            GlCommand::BindBuffer { target: BufferKind::Array, buffer: 4 },
            GlCommand::VertexAttribPointer {
                location: 2,
                components: 3,
                data_type: DataType::UnsignedInt,
                normalize: false,
                stride: 0,
                offset: 0,
            },
            GlCommand::EnableVertexAttribArray { location: 2 },
            GlCommand::BindVertexArray { array: 0 },
        ]
    );
}

#[test]
fn missed_attribute_name_leaves_descriptor_unchanged() {
    let p = ArrayPointer::new().location(5).components(4);
    let same = p.shader_attribute(-1);
    assert_eq!(same, p);
    let moved = p.shader_attribute(9);
    assert_eq!(moved.location, 9);
}

#[test]
fn offsets_and_strides_scale_by_scalar_size() {
    let p = ArrayPointer::new()
        .data_type(DataType::UnsignedByte)
        .components(4)
        .stride(8)
        .offset(3);
    assert_eq!(p.stride, 8);
    assert_eq!(p.offset, 3);
    let q = ArrayPointer::new().components(1).stride(7).offset(6);
    assert_eq!(q.stride, 28);
    assert_eq!(q.offset, 24);
}
