use gpu_life::command::{Pass, TextureId, Uniform};
use gpu_life::quad::{vertices, ATTRIBUTE, COMPONENTS};
use gpu_life::shader::{Shader, Stage, COMPUTE_FRAG_SHADER, DISPLAY_FRAG_SHADER, VERT_SHADER};

#[test]
fn shaders_know_their_stage_and_text() {
    assert_eq!(Shader::Vertex.stage(), Stage::Vertex);
    assert_eq!(Shader::ComputeFragment.stage(), Stage::Fragment);
    assert_eq!(Shader::DisplayFragment.stage(), Stage::Fragment);
    assert_eq!(Shader::Vertex.source(), VERT_SHADER);
    assert_eq!(Shader::ComputeFragment.source(), COMPUTE_FRAG_SHADER);
    assert_eq!(Shader::DisplayFragment.source(), DISPLAY_FRAG_SHADER);
}

#[test]
fn shader_text_declares_what_the_engine_names() {
    for text in [VERT_SHADER, COMPUTE_FRAG_SHADER, DISPLAY_FRAG_SHADER] {
        assert!(text.starts_with("#version 300 es\n"));
    }
    assert!(VERT_SHADER.contains(&format!("in vec4 {};", ATTRIBUTE)));
    assert!(COMPUTE_FRAG_SHADER.contains(&format!("uniform sampler2D {};", Uniform::Texture.name())));
    assert!(COMPUTE_FRAG_SHADER.contains(&format!("uniform vec2 {};", Uniform::GridSize.name())));
    assert!(DISPLAY_FRAG_SHADER.contains(&format!("uniform sampler2D {};", Uniform::Texture.name())));
    assert!(DISPLAY_FRAG_SHADER.contains(&format!("uniform float {};", Uniform::PixelSize.name())));
    assert!(COMPUTE_FRAG_SHADER.contains("isAlive_f - 0.85 + 1.45 * willBeAlive"));
}

#[test]
fn uniform_names() {
    assert_eq!(Uniform::Texture.name(), "u_texture");
    assert_eq!(Uniform::GridSize.name(), "u_size");
    assert_eq!(Uniform::PixelSize.name(), "u_px_size");
}

#[test]
fn passes_and_textures() {
    assert_eq!(Pass::Display.fragment(), Shader::DisplayFragment);
    assert_eq!(Pass::Compute.fragment(), Shader::ComputeFragment);
    assert_ne!(TextureId::Blank, TextureId::Seeded);
}

#[test]
fn quad_is_two_triangles_over_the_clip_square() {
    let v = vertices();
    assert_eq!(v, [-1, -1, 1, -1, -1, 1, 1, -1, 1, 1, -1, 1]);
    assert_eq!(v.len() as i32, COMPONENTS * 6);
    assert_eq!(ATTRIBUTE, "position");
}
