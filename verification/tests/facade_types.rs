use ravia_engine::TextureFilterMode;
use ravia_engine::UniformType;

#[test]
fn texture_filtering_defaults_to_bilinear() {
    assert_eq!(TextureFilterMode::default(), TextureFilterMode::Bilinear);
}

#[test]
fn filter_modes_are_plain_copyable_values() {
    let mode = TextureFilterMode::Trilinear;
    let copy = mode;
    assert_eq!(mode, copy);
    assert!(mode != TextureFilterMode::Point);
}

#[test]
fn uniform_types_are_distinct() {
    let all = [
        UniformType::Texture2D,
        UniformType::Camera,
        UniformType::CameraTransform,
        UniformType::ModelTransform,
    ];
    for (i, a) in all.iter().enumerate() {
        for (j, b) in all.iter().enumerate() {
            assert_eq!(i == j, a == b);
        }
    }
}
