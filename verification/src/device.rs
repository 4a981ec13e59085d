//! A model of the graphics backend: what each command does to the state of
//! the device, and what the engine's command lists achieve on it.
//!
//! Nothing here runs. The model states the assumptions under which the
//! engine's commands are the right ones, and the theorems at the end of the
//! file are proved against it.

use vstd::prelude::*;
use crate::command::{Command, Pass, TextureId, Uniform};
use crate::engine::{GOL, QUAD_VERTICES, TEXTURE_UNIT};
use crate::grid::Image;
use crate::shader::Shader;
use crate::size::{Size, PXSIZE};

verus! {

/// What a display pass has put on the visible surface.
pub struct Frame {
    /// The generation that was sampled.
    pub image: Image,
    /// The viewport that was painted.
    pub surface: Size,
    /// Edge length of the block of pixels that shows one cell.
    pub block: int,
}

impl Frame {
    /// The grey value of the surface pixel `(px, py)`, where the frame has one.
    pub open spec fn pixel(self, px: int, py: int) -> Option<u8> {
        if 0 <= px < self.surface.width && 0 <= py < self.surface.height {
            self.image.shown(px, py, self.block)
        } else {
            None
        }
    }
}

/// An image of the given extents with every cell dead.
pub open spec fn blank(size: Size) -> Image {
    Image {
        width: size.width as int,
        height: size.height as int,
        texels: Seq::new(size.area() as nat, |i: int| 0u8),
    }
}

/// The image that a buffer of bytes makes when it is read row by row.
pub open spec fn filled(size: Size, bytes: Seq<u8>) -> Image {
    Image { width: size.width as int, height: size.height as int, texels: bytes }
}

/// The state of the backend as far as the engine depends on it.
pub struct Device {
    /// The seed buffer that the host holds ready for the seeded texture.
    pub seed: Seq<u8>,
    pub compiled: Set<Shader>,
    pub linked: Set<Pass>,
    /// The current program.
    pub used: Option<Pass>,
    pub attribute_located: bool,
    pub buffer_created: bool,
    pub buffer_bound: bool,
    pub buffer_filled: bool,
    pub vertex_array_created: bool,
    pub vertex_array_bound: bool,
    pub vertices_described: bool,
    pub vertices_enabled: bool,
    pub located: Set<(Pass, Uniform)>,
    pub unpack_alignment: int,
    /// The state textures that exist, with their contents.
    pub textures: Map<TextureId, Image>,
    /// The texture bound to the texture unit that the samplers read.
    pub sampled: Option<TextureId>,
    /// The texture unit that each program's sampler points at.
    pub sampler: Map<Pass, int>,
    /// The compute program's notion of the extents of the grid.
    pub grid_size: Option<Size>,
    /// The display program's notion of the block factor.
    pub pixel_size: Option<int>,
    pub framebuffer_created: bool,
    /// Whether drawing goes to the off-screen target.
    pub offscreen: bool,
    /// The colour attachment of the off-screen target.
    pub target: Option<TextureId>,
    pub viewport: Size,
    /// What the last display pass left on the visible surface, if anything.
    pub screen: Option<Frame>,
    /// Set by the first command that the device cannot carry out as meant.
    pub fault: bool,
}

impl Device {
    /// A device on which nothing has been created yet.
    pub open spec fn fresh(seed: Seq<u8>) -> Device {
        Device {
            seed,
            compiled: Set::empty(),
            linked: Set::empty(),
            used: None,
            attribute_located: false,
            buffer_created: false,
            buffer_bound: false,
            buffer_filled: false,
            vertex_array_created: false,
            vertex_array_bound: false,
            vertices_described: false,
            vertices_enabled: false,
            located: Set::empty(),
            unpack_alignment: 4,
            textures: Map::empty(),
            sampled: None,
            sampler: Map::empty(),
            grid_size: None,
            pixel_size: None,
            framebuffer_created: false,
            offscreen: false,
            target: None,
            viewport: Size { width: 0, height: 0 },
            screen: None,
            fault: false,
        }
    }

    /// The quad can be drawn: its corners are in a buffer, and the vertex
    /// array describes them to the enabled attribute.
    pub open spec fn quad_ready(self) -> bool {
        &&& self.buffer_filled
        &&& self.vertex_array_bound
        &&& self.vertices_described
        &&& self.vertices_enabled
    }

    /// The current program can sample the state: a texture is bound to the
    /// unit that the program's sampler points at.
    pub open spec fn samples(self, pass: Pass, texture: TextureId) -> bool {
        &&& self.used == Some(pass)
        &&& self.linked.contains(pass)
        &&& self.sampler.dom().contains(pass)
        &&& self.sampler[pass] == TEXTURE_UNIT
        &&& self.sampled == Some(texture)
        &&& self.textures.dom().contains(texture)
    }

    /// A draw call would paint the visible surface from `texture`.
    pub open spec fn displays(self, texture: TextureId) -> bool {
        &&& self.samples(Pass::Display, texture)
        &&& !self.offscreen
        &&& self.pixel_size matches Some(k)
        &&& k >= 1
    }

    /// A draw call would write the next generation of `source` into `sink`:
    /// the two are different textures of equal extents, the sink is the colour
    /// attachment of the bound off-screen target, and viewport and grid size
    /// match those extents, so that fragments and cells correspond one to one.
    pub open spec fn computes(self, source: TextureId, sink: TextureId) -> bool {
        &&& self.samples(Pass::Compute, source)
        &&& self.offscreen
        &&& self.target == Some(sink)
        &&& sink != source
        &&& self.textures.dom().contains(sink)
        &&& self.textures[sink].width == self.textures[source].width
        &&& self.textures[sink].height == self.textures[source].height
        &&& self.viewport.width == self.textures[source].width
        &&& self.viewport.height == self.textures[source].height
        &&& self.grid_size == Some(self.viewport)
    }

    /// Whether the device can carry out a command as the engine means it.
    pub open spec fn accepts(self, command: Command) -> bool {
        match command {
            Command::CompileShader(_) => true,
            Command::LinkProgram(pass) => self.compiled.contains(Shader::Vertex)
                && self.compiled.contains(pass.fragment_of()),
            Command::UseProgram(pass) => self.linked.contains(pass),
            Command::LocateAttribute => self.linked.contains(Pass::Compute),
            Command::CreateBuffer => true,
            Command::BindBuffer => self.buffer_created,
            Command::UploadVertexData => self.buffer_bound,
            Command::CreateVertexArray => true,
            Command::BindVertexArray => self.vertex_array_created,
            Command::DescribeVertices => self.vertex_array_bound && self.buffer_bound,
            Command::EnableVertices => self.vertex_array_bound && self.attribute_located,
            Command::LocateUniform { pass, uniform } => self.linked.contains(pass) && pass.declares(
                uniform,
            ),
            Command::SetUnpackAlignment(bytes) => bytes == 1 || bytes == 2 || bytes == 4 || bytes
                == 8,
            Command::CreateTexture { texture, size, seeded } => size.valid() && (seeded ==> {
                &&& self.seed.len() == size.area()
                &&& size.width as int % self.unpack_alignment == 0
            }),
            Command::BindTexture(texture) => self.textures.dom().contains(texture),
            Command::SetSampler { pass, unit } => self.used == Some(pass) && self.located.contains(
                (pass, Uniform::Texture),
            ),
            Command::SetGridSize(_) => self.used == Some(Pass::Compute) && self.located.contains(
                (Pass::Compute, Uniform::GridSize),
            ),
            Command::SetPixelSize(_) => self.used == Some(Pass::Display) && self.located.contains(
                (Pass::Display, Uniform::PixelSize),
            ),
            Command::CreateFramebuffer => true,
            Command::BindFramebuffer(offscreen) => offscreen ==> self.framebuffer_created,
            Command::AttachColorTarget(texture) => self.offscreen && self.textures.dom().contains(
                texture,
            ),
            Command::SetViewport(size) => size.valid(),
            Command::Clear => self.offscreen ==> (self.target matches Some(texture)
                && self.textures.dom().contains(texture)),
            Command::DrawTriangles(count) => {
                &&& count == QUAD_VERTICES
                &&& self.quad_ready()
                &&& self.sampled matches Some(source)
                &&& if self.offscreen {
                    self.target matches Some(sink) && self.computes(source, sink)
                } else {
                    self.displays(source)
                }
            },
        }
    }

    /// What a command does to a device that accepts it.
    pub open spec fn effect(self, command: Command) -> Device {
        match command {
            Command::CompileShader(shader) => Device {
                compiled: self.compiled.insert(shader),
                ..self
            },
            Command::LinkProgram(pass) => Device { linked: self.linked.insert(pass), ..self },
            Command::UseProgram(pass) => Device { used: Some(pass), ..self },
            Command::LocateAttribute => Device { attribute_located: true, ..self },
            Command::CreateBuffer => Device { buffer_created: true, ..self },
            Command::BindBuffer => Device { buffer_bound: true, ..self },
            Command::UploadVertexData => Device { buffer_filled: true, ..self },
            Command::CreateVertexArray => Device { vertex_array_created: true, ..self },
            Command::BindVertexArray => Device { vertex_array_bound: true, ..self },
            Command::DescribeVertices => Device { vertices_described: true, ..self },
            Command::EnableVertices => Device { vertices_enabled: true, ..self },
            Command::LocateUniform { pass, uniform } => Device {
                located: self.located.insert((pass, uniform)),
                ..self
            },
            Command::SetUnpackAlignment(bytes) => Device { unpack_alignment: bytes as int, ..self },
            Command::CreateTexture { texture, size, seeded } => Device {
                textures: self.textures.insert(
                    texture,
                    if seeded {
                        filled(size, self.seed)
                    } else {
                        blank(size)
                    },
                ),
                sampled: Some(texture),
                ..self
            },
            Command::BindTexture(texture) => Device { sampled: Some(texture), ..self },
            Command::SetSampler { pass, unit } => Device {
                sampler: self.sampler.insert(pass, unit as int),
                ..self
            },
            Command::SetGridSize(size) => Device { grid_size: Some(size), ..self },
            Command::SetPixelSize(k) => Device { pixel_size: Some(k as int), ..self },
            Command::CreateFramebuffer => Device { framebuffer_created: true, ..self },
            Command::BindFramebuffer(offscreen) => Device { offscreen, ..self },
            Command::AttachColorTarget(texture) => Device { target: Some(texture), ..self },
            Command::SetViewport(size) => Device { viewport: size, ..self },
            Command::Clear => if self.offscreen {
                let sink = self.target->0;
                let size = Size {
                    width: self.textures[sink].width as i32,
                    height: self.textures[sink].height as i32,
                };
                Device { textures: self.textures.insert(sink, blank(size)), ..self }
            } else {
                Device { screen: None, ..self }
            },
            Command::DrawTriangles(_) => {
                let source = self.sampled->0;
                if self.offscreen {
                    Device {
                        textures: self.textures.insert(
                            self.target->0,
                            self.textures[source].next(),
                        ),
                        ..self
                    }
                } else {
                    Device {
                        screen: Some(
                            Frame {
                                image: self.textures[source],
                                surface: self.viewport,
                                block: self.pixel_size->0,
                            },
                        ),
                        ..self
                    }
                }
            },
        }
    }

    /// The device after one command. A command that the device does not
    /// accept leaves a fault behind, and a faulty device stays as it is.
    pub open spec fn apply(self, command: Command) -> Device {
        if self.fault {
            self
        } else if self.accepts(command) {
            self.effect(command)
        } else {
            Device { fault: true, ..self }
        }
    }

    /// The device after the commands from position `from` on.
    pub open spec fn run_from(self, commands: Seq<Command>, from: int) -> Device
        decreases commands.len() - from,
    {
        if 0 <= from < commands.len() {
            self.apply(commands[from]).run_from(commands, from + 1)
        } else {
            self
        }
    }

    /// The device after a list of commands, performed in order.
    pub open spec fn run(self, commands: Seq<Command>) -> Device {
        self.run_from(commands, 0)
    }

    /// The device after `frames` frames of the engine, which starts out as `gol`.
    pub open spec fn play(self, gol: GOL, frames: nat) -> Device
        decreases frames,
    {
        if frames == 0 {
            self
        } else {
            self.run(gol.frame_commands()).play(gol.stepped(), (frames - 1) as nat)
        }
    }

    /// The device is set up for the engine in its present state: nothing has
    /// gone wrong, both programs and the quad are in place, both state
    /// textures exist with the extents of the grid, the current generation is
    /// the texture bound for sampling, and drawing goes to the visible surface.
    pub open spec fn ready(self, gol: GOL) -> bool {
        let current = gol.texture.display;
        let scratch = gol.texture.compute;
        &&& !self.fault
        &&& gol.wf()
        &&& gol.size.display.valid()
        &&& self.quad_ready()
        &&& self.linked.contains(Pass::Display)
        &&& self.linked.contains(Pass::Compute)
        &&& self.sampler.dom().contains(Pass::Display)
        &&& self.sampler.dom().contains(Pass::Compute)
        &&& self.sampler[Pass::Display] == TEXTURE_UNIT
        &&& self.sampler[Pass::Compute] == TEXTURE_UNIT
        &&& self.grid_size == Some(gol.size.compute)
        &&& self.pixel_size == Some(PXSIZE as int)
        &&& self.framebuffer_created
        &&& !self.offscreen
        &&& self.sampled == Some(current)
        &&& self.textures.dom().contains(current)
        &&& self.textures.dom().contains(scratch)
        &&& self.textures[current].wf()
        &&& self.textures[scratch].wf()
        &&& self.textures[current].width == gol.size.compute.width
        &&& self.textures[current].height == gol.size.compute.height
        &&& self.textures[scratch].width == gol.size.compute.width
        &&& self.textures[scratch].height == gol.size.compute.height
    }
}

/// One frame on a ready device: the display pass shows the current generation
/// in blocks of [`PXSIZE`] pixels, the compute pass writes that generation's
/// successor into the other texture and leaves the current one untouched,
/// and the device ends up ready for the engine with its roles exchanged.
pub proof fn frame_advances(gol: GOL, device: Device)
    requires
        device.ready(gol),
    ensures
        ({
            let after = device.run(gol.frame_commands());
            let current = gol.texture.display;
            let scratch = gol.texture.compute;
            &&& after.ready(gol.stepped())
            &&& after.textures[scratch] == device.textures[current].next()
            &&& after.textures[current] == device.textures[current]
            &&& after.screen == Some(
                Frame {
                    image: device.textures[current],
                    surface: gol.size.display,
                    block: PXSIZE as int,
                },
            )
        }),
{
    let commands = gol.frame_commands();
    let current = gol.texture.display;
    let scratch = gol.texture.compute;
    let image = device.textures[current];
    let frame = Frame { image, surface: gol.size.display, block: PXSIZE as int };
    next_is_well_formed(image);

    let d1 = Device { used: Some(Pass::Display), ..device };
    assert(device.apply(commands[0]) == d1);
    let d2 = Device { viewport: gol.size.display, ..d1 };
    assert(d1.apply(commands[1]) == d2);
    let d3 = Device { screen: None, ..d2 };
    assert(d2.apply(commands[2]) == d3);
    let d4 = Device { screen: Some(frame), ..d3 };
    assert(d3.apply(commands[3]) == d4) by {
        assert(d3.displays(current));
    }
    let d5 = Device { used: Some(Pass::Compute), ..d4 };
    assert(d4.apply(commands[4]) == d5);
    let d6 = Device { viewport: gol.size.compute, ..d5 };
    assert(d5.apply(commands[5]) == d6);
    let d7 = Device { offscreen: true, ..d6 };
    assert(d6.apply(commands[6]) == d7);
    let d8 = Device { target: Some(scratch), ..d7 };
    assert(d7.apply(commands[7]) == d8);
    let d9 = Device { textures: d8.textures.insert(scratch, blank(gol.size.compute)), ..d8 };
    assert(d8.apply(commands[8]) == d9);
    let d10 = Device { textures: d9.textures.insert(scratch, image.next()), ..d9 };
    assert(d9.apply(commands[9]) == d10) by {
        assert(d9.textures[current] == image);
        assert(d9.computes(current, scratch));
    }
    let d11 = Device { offscreen: false, ..d10 };
    assert(d10.apply(commands[10]) == d11);
    let d12 = Device { sampled: Some(scratch), ..d11 };
    assert(d11.apply(commands[11]) == d12);

    assert(device.run(commands) == d12) by {
        reveal_with_fuel(Device::run_from, 13);
    }
}

/// The compute pass keeps the extents of the grid.
pub proof fn next_is_well_formed(image: Image)
    requires
        image.wf(),
    ensures
        image.next().wf(),
        image.next().width == image.width,
        image.next().height == image.height,
{
}

/// The seed buffer as the host holds it: the bytes, or nothing.
pub open spec fn seed_bytes(seed: Option<Seq<u8>>) -> Seq<u8> {
    match seed {
        Some(bytes) => bytes,
        None => Seq::empty(),
    }
}

/// Generation zero: the seed read row by row, or a blank grid without one.
pub open spec fn first_generation(size: Size, seed: Option<Seq<u8>>) -> Image {
    match seed {
        Some(bytes) => filled(size, bytes),
        None => blank(size),
    }
}

/// The seed, if there is one, holds one byte for every cell of the grid.
pub open spec fn seed_fits(gol: GOL, seed: Option<Seq<u8>>) -> bool {
    seed matches Some(bytes) ==> bytes.len() == gol.size.compute.area()
}

/// The device once both programs are linked.
spec fn with_programs(gol: GOL, seed: Option<Seq<u8>>) -> Device {
    let d0 = Device::fresh(seed_bytes(seed));
    let d1 = Device { compiled: d0.compiled.insert(Shader::Vertex), ..d0 };
    let d2 = Device { compiled: d1.compiled.insert(Shader::ComputeFragment), ..d1 };
    let d3 = Device { compiled: d2.compiled.insert(Shader::DisplayFragment), ..d2 };
    let d4 = Device { linked: d3.linked.insert(Pass::Display), ..d3 };
    let d5 = Device { linked: d4.linked.insert(Pass::Compute), ..d4 };
    let d6 = Device { used: Some(Pass::Compute), ..d5 };
    d6
}

proof fn reach_programs(gol: GOL, seed: Option<Seq<u8>>)
    requires
        gol.wf(),
        gol.size.display.valid(),
        seed_fits(gol, seed),
    ensures
        Device::fresh(seed_bytes(seed)).run_from(gol.setup_commands(seed is Some), 0) == with_programs(
            gol,
            seed,
        ).run_from(gol.setup_commands(seed is Some), 6),
        !with_programs(gol, seed).fault,
{
    let commands = gol.setup_commands(seed is Some);
    let d0 = Device::fresh(seed_bytes(seed));
    let d1 = Device { compiled: d0.compiled.insert(Shader::Vertex), ..d0 };
    assert(d0.apply(commands[0]) == d1);
    let d2 = Device { compiled: d1.compiled.insert(Shader::ComputeFragment), ..d1 };
    assert(d1.apply(commands[1]) == d2);
    let d3 = Device { compiled: d2.compiled.insert(Shader::DisplayFragment), ..d2 };
    assert(d2.apply(commands[2]) == d3);
    let d4 = Device { linked: d3.linked.insert(Pass::Display), ..d3 };
    assert(d3.apply(commands[3]) == d4);
    let d5 = Device { linked: d4.linked.insert(Pass::Compute), ..d4 };
    assert(d4.apply(commands[4]) == d5);
    let d6 = Device { used: Some(Pass::Compute), ..d5 };
    assert(d5.apply(commands[5]) == d6);
    assert(d0.run_from(commands, 0) == d6.run_from(commands, 6)) by {
        reveal_with_fuel(Device::run_from, 7);
    }
}

/// The device once the quad is in place as well.
spec fn with_quad(gol: GOL, seed: Option<Seq<u8>>) -> Device {
    let d6 = with_programs(gol, seed);
    let d7 = Device { attribute_located: true, ..d6 };
    let d8 = Device { buffer_created: true, ..d7 };
    let d9 = Device { buffer_bound: true, ..d8 };
    let d10 = Device { buffer_filled: true, ..d9 };
    let d11 = Device { vertex_array_created: true, ..d10 };
    let d12 = Device { vertex_array_bound: true, ..d11 };
    let d13 = Device { vertices_described: true, ..d12 };
    let d14 = Device { vertices_enabled: true, ..d13 };
    let d15 = Device { vertex_array_bound: true, ..d14 };
    d15
}

proof fn reach_quad(gol: GOL, seed: Option<Seq<u8>>)
    requires
        gol.wf(),
        gol.size.display.valid(),
        seed_fits(gol, seed),
    ensures
        with_programs(gol, seed).run_from(gol.setup_commands(seed is Some), 6) == with_quad(
            gol,
            seed,
        ).run_from(gol.setup_commands(seed is Some), 15),
        !with_quad(gol, seed).fault,
{
    let commands = gol.setup_commands(seed is Some);
    let d6 = with_programs(gol, seed);
    let d7 = Device { attribute_located: true, ..d6 };
    assert(d6.apply(commands[6]) == d7);
    let d8 = Device { buffer_created: true, ..d7 };
    assert(d7.apply(commands[7]) == d8);
    let d9 = Device { buffer_bound: true, ..d8 };
    assert(d8.apply(commands[8]) == d9);
    let d10 = Device { buffer_filled: true, ..d9 };
    assert(d9.apply(commands[9]) == d10);
    let d11 = Device { vertex_array_created: true, ..d10 };
    assert(d10.apply(commands[10]) == d11);
    let d12 = Device { vertex_array_bound: true, ..d11 };
    assert(d11.apply(commands[11]) == d12);
    let d13 = Device { vertices_described: true, ..d12 };
    assert(d12.apply(commands[12]) == d13);
    let d14 = Device { vertices_enabled: true, ..d13 };
    assert(d13.apply(commands[13]) == d14);
    let d15 = Device { vertex_array_bound: true, ..d14 };
    assert(d14.apply(commands[14]) == d15);
    assert(d6.run_from(commands, 6) == d15.run_from(commands, 15)) by {
        reveal_with_fuel(Device::run_from, 10);
    }
}

/// The device once the state textures exist as well.
spec fn with_textures(gol: GOL, seed: Option<Seq<u8>>) -> Device {
    let d15 = with_quad(gol, seed);
    let d16 = Device { located: d15.located.insert((Pass::Compute, Uniform::Texture)), ..d15 };
    let d17 = Device { located: d16.located.insert((Pass::Display, Uniform::Texture)), ..d16 };
    let d18 = Device { unpack_alignment: 1, ..d17 };
    let d19 = Device { textures: d18.textures.insert(gol.texture.compute, blank(gol.size.compute)), sampled: Some(gol.texture.compute), ..d18 };
    let d20 = Device { textures: d19.textures.insert(gol.texture.display, first_generation(gol.size.compute, seed)), sampled: Some(gol.texture.display), ..d19 };
    let d21 = Device { sampled: Some(gol.texture.display), ..d20 };
    let d22 = Device { located: d21.located.insert((Pass::Display, Uniform::PixelSize)), ..d21 };
    let d23 = Device { located: d22.located.insert((Pass::Compute, Uniform::GridSize)), ..d22 };
    d23
}

proof fn reach_textures(gol: GOL, seed: Option<Seq<u8>>)
    requires
        gol.wf(),
        gol.size.display.valid(),
        seed_fits(gol, seed),
    ensures
        with_quad(gol, seed).run_from(gol.setup_commands(seed is Some), 15) == with_textures(
            gol,
            seed,
        ).run_from(gol.setup_commands(seed is Some), 23),
        !with_textures(gol, seed).fault,
{
    let commands = gol.setup_commands(seed is Some);
    assert(gol.size.compute.valid());
    assert(gol.size.compute.width as int % 1 == 0);
    let d15 = with_quad(gol, seed);
    let d16 = Device { located: d15.located.insert((Pass::Compute, Uniform::Texture)), ..d15 };
    assert(d15.apply(commands[15]) == d16);
    let d17 = Device { located: d16.located.insert((Pass::Display, Uniform::Texture)), ..d16 };
    assert(d16.apply(commands[16]) == d17);
    let d18 = Device { unpack_alignment: 1, ..d17 };
    assert(d17.apply(commands[17]) == d18);
    let d19 = Device { textures: d18.textures.insert(gol.texture.compute, blank(gol.size.compute)), sampled: Some(gol.texture.compute), ..d18 };
    assert(d18.apply(commands[18]) == d19);
    let d20 = Device { textures: d19.textures.insert(gol.texture.display, first_generation(gol.size.compute, seed)), sampled: Some(gol.texture.display), ..d19 };
    assert(d19.apply(commands[19]) == d20);
    let d21 = Device { sampled: Some(gol.texture.display), ..d20 };
    assert(d20.apply(commands[20]) == d21);
    let d22 = Device { located: d21.located.insert((Pass::Display, Uniform::PixelSize)), ..d21 };
    assert(d21.apply(commands[21]) == d22);
    let d23 = Device { located: d22.located.insert((Pass::Compute, Uniform::GridSize)), ..d22 };
    assert(d22.apply(commands[22]) == d23);
    assert(d15.run_from(commands, 15) == d23.run_from(commands, 23)) by {
        reveal_with_fuel(Device::run_from, 9);
    }
}

/// The device at the end of the setup.
spec fn with_uniforms(gol: GOL, seed: Option<Seq<u8>>) -> Device {
    let d23 = with_textures(gol, seed);
    let d24 = Device { used: Some(Pass::Compute), ..d23 };
    let d25 = Device { sampler: d24.sampler.insert(Pass::Compute, TEXTURE_UNIT as int), ..d24 };
    let d26 = Device { grid_size: Some(gol.size.compute), ..d25 };
    let d27 = Device { used: Some(Pass::Display), ..d26 };
    let d28 = Device { sampler: d27.sampler.insert(Pass::Display, TEXTURE_UNIT as int), ..d27 };
    let d29 = Device { pixel_size: Some(PXSIZE as int), ..d28 };
    let d30 = Device { framebuffer_created: true, ..d29 };
    d30
}

proof fn reach_uniforms(gol: GOL, seed: Option<Seq<u8>>)
    requires
        gol.wf(),
        gol.size.display.valid(),
        seed_fits(gol, seed),
    ensures
        with_textures(gol, seed).run_from(gol.setup_commands(seed is Some), 23) == with_uniforms(
            gol,
            seed,
        ).run_from(gol.setup_commands(seed is Some), 30),
        !with_uniforms(gol, seed).fault,
{
    let commands = gol.setup_commands(seed is Some);
    let d23 = with_textures(gol, seed);
    let d24 = Device { used: Some(Pass::Compute), ..d23 };
    assert(d23.apply(commands[23]) == d24);
    let d25 = Device { sampler: d24.sampler.insert(Pass::Compute, TEXTURE_UNIT as int), ..d24 };
    assert(d24.apply(commands[24]) == d25);
    let d26 = Device { grid_size: Some(gol.size.compute), ..d25 };
    assert(d25.apply(commands[25]) == d26);
    let d27 = Device { used: Some(Pass::Display), ..d26 };
    assert(d26.apply(commands[26]) == d27);
    let d28 = Device { sampler: d27.sampler.insert(Pass::Display, TEXTURE_UNIT as int), ..d27 };
    assert(d27.apply(commands[27]) == d28);
    let d29 = Device { pixel_size: Some(PXSIZE as int), ..d28 };
    assert(d28.apply(commands[28]) == d29);
    let d30 = Device { framebuffer_created: true, ..d29 };
    assert(d29.apply(commands[29]) == d30);
    assert(d23.run_from(commands, 23) == d30.run_from(commands, 30)) by {
        reveal_with_fuel(Device::run_from, 8);
    }
}

/// Setting up a fresh device: once the engine's setup commands have run, the
/// device is ready for the engine, the write target is blank, and the current
/// generation is the seed, read byte for byte, or blank where there is no
/// seed. A seed has to hold one byte for every cell of the grid.
pub proof fn setup_readies(gol: GOL, seed: Option<Seq<u8>>)
    requires
        gol.wf(),
        gol.size.display.valid(),
        seed_fits(gol, seed),
    ensures
        ({
            let after = Device::fresh(seed_bytes(seed)).run(gol.setup_commands(seed is Some));
            &&& after.ready(gol)
            &&& after.textures[gol.texture.display] == first_generation(gol.size.compute, seed)
            &&& after.textures[gol.texture.compute] == blank(gol.size.compute)
        }),
{
    let commands = gol.setup_commands(seed is Some);
    let grid = gol.size.compute;
    assert(grid.valid());
    assert(grid.area() >= 0) by (nonlinear_arith)
        requires
            grid.area() == grid.width * grid.height,
            grid.width >= 0,
            grid.height >= 0,
    ;
    assert(blank(grid).wf());
    assert(first_generation(grid, seed).wf());
    reach_programs(gol, seed);
    reach_quad(gol, seed);
    reach_textures(gol, seed);
    reach_uniforms(gol, seed);
    let end = with_uniforms(gol, seed);
    assert(commands.len() == 30);
    assert(end.run_from(commands, 30) == end);
    assert(Device::fresh(seed_bytes(seed)).run(commands) == end);
}

/// Any number of frames on a ready device: the device stays ready, and the
/// texture that ends up current holds that many generations after the one
/// that was current at the start.
pub proof fn frames_advance(gol: GOL, device: Device, frames: nat)
    requires
        device.ready(gol),
    ensures
        device.play(gol, frames).ready(gol.after(frames)),
        device.play(gol, frames).textures[gol.after(frames).texture.display]
            == device.textures[gol.texture.display].generation(frames),
    decreases frames,
{
    if frames > 0 {
        frame_advances(gol, device);
        frames_advance(
            gol.stepped(),
            device.run(gol.frame_commands()),
            (frames - 1) as nat,
        );
    }
}

/// The engine as a whole: a fresh device that performs the setup commands and
/// then the commands of any number of frames never faults, and the texture
/// that is current in the end holds that generation of the seed.
pub proof fn engine_runs(gol: GOL, seed: Option<Seq<u8>>, frames: nat)
    requires
        gol.wf(),
        gol.size.display.valid(),
        seed_fits(gol, seed),
    ensures
        ({
            let start = Device::fresh(seed_bytes(seed)).run(gol.setup_commands(seed is Some));
            let end = start.play(gol, frames);
            &&& !end.fault
            &&& end.textures[gol.after(frames).texture.display] == first_generation(
                gol.size.compute,
                seed,
            ).generation(frames)
        }),
{
    setup_readies(gol, seed);
    frames_advance(
        gol,
        Device::fresh(seed_bytes(seed)).run(gol.setup_commands(seed is Some)),
        frames,
    );
}

} // verus!
