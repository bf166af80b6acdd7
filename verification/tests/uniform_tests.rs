use rendering::commands::{GlCommand, ScalarKind};
use rendering::shader_program::ShaderProgram;
use rendering::uniform_vector::{ElementScalar, ElementType, UniformVector};

fn sample(scalar: ElementScalar, lanes: usize) -> ElementType {
    ElementType { scalar, lanes }
}

#[test]
fn twelve_recognized_shapes_resolve_distinctly() {
    let scalars = [
        (ElementScalar::Float, ScalarKind::Float),
        (ElementScalar::Int, ScalarKind::Int),
        (ElementScalar::UnsignedInt, ScalarKind::UnsignedInt),
    ];
    let mut seen: Vec<(ScalarKind, usize)> = Vec::new();
    for (declared, resolved) in scalars {
        for lanes in 1..=4usize {
            let shape = UniformVector::kind_components(sample(declared, lanes)).unwrap();
            assert_eq!(shape, (resolved, lanes));
            assert!(!seen.contains(&shape));
            seen.push(shape);
        }
    }
    assert_eq!(seen.len(), 12);
}

#[test]
fn unrecognized_shapes_yield_no_binding() {
    assert!(UniformVector::kind_components(sample(ElementScalar::Float, 0)).is_none());
    assert!(UniformVector::kind_components(sample(ElementScalar::Float, 5)).is_none());
    assert!(UniformVector::kind_components(sample(ElementScalar::Int, 16)).is_none());
    assert!(UniformVector::kind_components(sample(ElementScalar::Double, 3)).is_none());
    assert!(UniformVector::kind_components(sample(ElementScalar::Bool, 2)).is_none());

    let program = ShaderProgram { id: 4 };
    let rejected = UniformVector::new(0, &program, vec![0, 0], sample(ElementScalar::Double, 2));
    assert!(rejected.is_none());
}

#[test]
fn resolved_binding_uploads_resolved_shape() {
    let program = ShaderProgram { id: 7 };
    let words: Vec<u32> = vec![1, 2, 3, 4, 5, 6];
    let binding =
        UniformVector::new(3, &program, words.clone(), sample(ElementScalar::Int, 3)).unwrap();
    let c = binding.set();
    assert_eq!(
        c,
        GlCommand::ProgramUniform {
            kind: ScalarKind::Int,
            components: 3,
            program: 7,
            location: 3,
            count: 2,
            data: words,
        }
    );
}

#[test]
fn repeated_set_issues_identical_upload() {
    let program = ShaderProgram { id: 2 };
    let value = vec![0x3f800000u32, 0x40000000u32];
    let binding =
        UniformVector::new(1, &program, value, sample(ElementScalar::Float, 2)).unwrap();
    assert_eq!(binding.set(), binding.set());
}

#[test]
fn missing_name_sentinel_is_non_fatal() {
    let program = ShaderProgram { id: 9 };
    let binding = UniformVector::new(-1, &program, vec![5], sample(ElementScalar::UnsignedInt, 1));
    let binding = binding.expect("a missed name lookup must not prevent construction");
    match binding.set() {
        GlCommand::ProgramUniform { location, .. } => assert_eq!(location, -1),
        _ => panic!("set must issue a uniform upload"),
    }
}
