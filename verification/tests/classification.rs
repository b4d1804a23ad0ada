use instanced_mesh::phase::{blend_flag_of_alpha_mode, classify_alpha_mode};
use instanced_mesh::{AlphaMode, BlendFlag, Phase};

#[test]
fn opaque_goes_to_opaque_phase() {
    assert_eq!(classify_alpha_mode(&AlphaMode::Opaque), Phase::Opaque);
}

#[test]
fn mask_goes_to_alpha_mask_phase_for_every_threshold() {
    for threshold in [0.0f32, 0.25, 0.5, 0.999, 1.0] {
        let mode = AlphaMode::Mask(threshold.to_bits());
        assert_eq!(classify_alpha_mode(&mode), Phase::AlphaMask);
    }
}

#[test]
fn blending_modes_go_to_transparent_phase() {
    assert_eq!(classify_alpha_mode(&AlphaMode::Blend), Phase::Transparent);
    assert_eq!(classify_alpha_mode(&AlphaMode::Premultiplied), Phase::Transparent);
    assert_eq!(classify_alpha_mode(&AlphaMode::Add), Phase::Transparent);
    assert_eq!(classify_alpha_mode(&AlphaMode::Multiply), Phase::Transparent);
}

#[test]
fn blend_premultiplied_and_add_share_the_premultiplied_flag() {
    assert_eq!(blend_flag_of_alpha_mode(&AlphaMode::Blend), BlendFlag::PremultipliedAlpha);
    assert_eq!(
        blend_flag_of_alpha_mode(&AlphaMode::Premultiplied),
        BlendFlag::PremultipliedAlpha
    );
    assert_eq!(blend_flag_of_alpha_mode(&AlphaMode::Add), BlendFlag::PremultipliedAlpha);
}

#[test]
fn multiply_gets_the_multiply_flag() {
    assert_eq!(blend_flag_of_alpha_mode(&AlphaMode::Multiply), BlendFlag::Multiply);
}

#[test]
fn opaque_and_mask_get_no_blend_flag() {
    assert_eq!(blend_flag_of_alpha_mode(&AlphaMode::Opaque), BlendFlag::NoBlend);
    assert_eq!(blend_flag_of_alpha_mode(&AlphaMode::Mask(0.5f32.to_bits())), BlendFlag::NoBlend);
}
