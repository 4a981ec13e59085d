use gpu_life::command::{Command, Pass, TextureId, Uniform};
use gpu_life::engine::{PerPass, GOL, QUAD_VERTICES, TEXTURE_UNIT, UNPACK_ALIGNMENT};
use gpu_life::shader::Shader;
use gpu_life::size::Size;

fn engine() -> GOL {
    GOL::new(Size { width: 1920, height: 1080 })
}

#[test]
fn new_derives_the_grid_and_assigns_roles() {
    let gol = engine();
    assert_eq!(gol.size.display, Size { width: 1920, height: 1080 });
    assert_eq!(gol.size.compute, Size { width: 480, height: 270 });
    assert_eq!(gol.texture.display, TextureId::Seeded);
    assert_eq!(gol.texture.compute, TextureId::Blank);
}

#[test]
fn seed_has_one_byte_per_cell() {
    assert_eq!(engine().seed_len(), Some(480 * 270));
    assert_eq!(GOL::new(Size { width: 3, height: 3 }).seed_len(), Some(0));
    assert_eq!(GOL::new(Size { width: 12, height: 12 }).seed_len(), Some(9));
    assert_eq!(GOL::new(Size { width: -12, height: 12 }).seed_len(), None);
}

#[test]
fn setup_lists_every_step_in_order() {
    let grid = Size { width: 480, height: 270 };
    let expected = vec![
        Command::CompileShader(Shader::Vertex),
        Command::CompileShader(Shader::ComputeFragment),
        Command::CompileShader(Shader::DisplayFragment),
        Command::LinkProgram(Pass::Display),
        Command::LinkProgram(Pass::Compute),
        Command::UseProgram(Pass::Compute),
        Command::LocateAttribute,
        Command::CreateBuffer,
        Command::BindBuffer,
        Command::UploadVertexData,
        Command::CreateVertexArray,
        Command::BindVertexArray,
        Command::DescribeVertices,
        Command::EnableVertices,
        Command::BindVertexArray,
        Command::LocateUniform { pass: Pass::Compute, uniform: Uniform::Texture },
        Command::LocateUniform { pass: Pass::Display, uniform: Uniform::Texture },
        Command::SetUnpackAlignment(1),
        Command::CreateTexture { texture: TextureId::Blank, size: grid, seeded: false },
        Command::CreateTexture { texture: TextureId::Seeded, size: grid, seeded: true },
        Command::BindTexture(TextureId::Seeded),
        Command::LocateUniform { pass: Pass::Display, uniform: Uniform::PixelSize },
        Command::LocateUniform { pass: Pass::Compute, uniform: Uniform::GridSize },
        Command::UseProgram(Pass::Compute),
        Command::SetSampler { pass: Pass::Compute, unit: 0 },
        Command::SetGridSize(grid),
        Command::UseProgram(Pass::Display),
        Command::SetSampler { pass: Pass::Display, unit: 0 },
        Command::SetPixelSize(4),
        Command::CreateFramebuffer,
    ];
    assert_eq!(engine().setup(true), expected);
}

#[test]
fn setup_without_seed_differs_in_one_command() {
    let seeded = engine().setup(true);
    let unseeded = engine().setup(false);
    assert_eq!(seeded.len(), 30);
    assert_eq!(unseeded.len(), 30);
    for i in 0..30 {
        if i == 19 {
            assert_eq!(
                unseeded[i],
                Command::CreateTexture {
                    texture: TextureId::Seeded,
                    size: Size { width: 480, height: 270 },
                    seeded: false,
                }
            );
        } else {
            assert_eq!(unseeded[i], seeded[i]);
        }
    }
}

#[test]
fn draw_lists_display_pass_then_compute_pass() {
    let mut gol = engine();
    let commands = gol.draw();
    let expected = vec![
        Command::UseProgram(Pass::Display),
        Command::SetViewport(Size { width: 1920, height: 1080 }),
        Command::Clear,
        Command::DrawTriangles(6),
        Command::UseProgram(Pass::Compute),
        Command::SetViewport(Size { width: 480, height: 270 }),
        Command::BindFramebuffer(true),
        Command::AttachColorTarget(TextureId::Blank),
        Command::Clear,
        Command::DrawTriangles(6),
        Command::BindFramebuffer(false),
        Command::BindTexture(TextureId::Blank),
    ];
    assert_eq!(commands, expected);
}

#[test]
fn draw_exchanges_the_roles() {
    let mut gol = engine();
    gol.draw();
    assert_eq!(gol.texture.display, TextureId::Blank);
    assert_eq!(gol.texture.compute, TextureId::Seeded);
    assert_eq!(gol.size.display, Size { width: 1920, height: 1080 });
    assert_eq!(gol.size.compute, Size { width: 480, height: 270 });
}

#[test]
fn two_draws_restore_the_roles() {
    let mut gol = engine();
    let first = gol.draw();
    let second = gol.draw();
    assert_eq!(gol, engine());
    assert_ne!(first, second);
    assert_eq!(second[7], Command::AttachColorTarget(TextureId::Seeded));
    assert_eq!(second[11], Command::BindTexture(TextureId::Seeded));
    let third = gol.draw();
    assert_eq!(first, third);
}

#[test]
fn second_frame_writes_where_the_first_read() {
    let mut gol = engine();
    let before = gol.texture.display;
    let first = gol.draw();
    assert_eq!(first[7], Command::AttachColorTarget(gol.texture.display));
    let second = gol.draw();
    assert_eq!(second[7], Command::AttachColorTarget(before));
    assert_eq!(gol.texture.display, before);
}

#[test]
fn swap_exchanges_a_pair() {
    let mut pair = PerPass { display: 1u8, compute: 2u8 };
    pair.swap();
    assert_eq!(pair, PerPass { display: 2, compute: 1 });
    pair.swap();
    assert_eq!(pair, PerPass { display: 1, compute: 2 });
}

#[test]
fn constants_of_the_pipeline() {
    assert_eq!(QUAD_VERTICES, 6);
    assert_eq!(UNPACK_ALIGNMENT, 1);
    assert_eq!(TEXTURE_UNIT, 0);
}
