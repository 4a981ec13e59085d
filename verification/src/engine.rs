//! The frame driver: which commands set the engine up, which commands make
//! one frame, and which state texture plays which role.

use vstd::prelude::*;
use crate::command::{Command, Pass, TextureId, Uniform};
use crate::shader::Shader;
use crate::size::{Size, PXSIZE};

verus! {

/// Number of vertices in the two triangles of the full-screen quad.
pub const QUAD_VERTICES: i32 = 6;

/// Row alignment under which a one-byte-per-cell buffer is read verbatim.
pub const UNPACK_ALIGNMENT: i32 = 1;

/// Texture unit through which both programs sample the state.
pub const TEXTURE_UNIT: i32 = 0;

/// One value for the display pass and one for the compute pass.
#[derive(Debug, PartialEq, Eq, Structural)]
pub struct PerPass<T> {
    pub display: T,
    pub compute: T,
}

impl<T> PerPass<T> {
    /// The same two values with their places exchanged.
    pub open spec fn swapped(self) -> PerPass<T> {
        PerPass { display: self.compute, compute: self.display }
    }

    /// Exchanges the two values in place.
    pub fn swap(&mut self)
        ensures
            *final(self) == old(self).swapped(),
    {
        std::mem::swap(&mut self.display, &mut self.compute);
    }
}

/// The engine's own state: the two extents, and the role of each state texture.
///
/// `texture.display` is the current generation, which both passes sample;
/// `texture.compute` is the write target of the compute pass.
#[derive(Debug, PartialEq, Eq, Structural)]
pub struct GOL {
    pub size: PerPass<Size>,
    pub texture: PerPass<TextureId>,
}

impl GOL {
    /// The grid is the surface shrunk by the block factor, and the two roles
    /// are held by different textures.
    pub open spec fn wf(self) -> bool {
        &&& self.size.compute == self.size.display.shrunk(PXSIZE as int)
        &&& self.texture.display != self.texture.compute
    }

    /// The engine after one frame: same extents, roles exchanged.
    pub open spec fn stepped(self) -> GOL {
        GOL { size: self.size, texture: self.texture.swapped() }
    }

    /// The engine after `frames` frames.
    pub open spec fn after(self, frames: nat) -> GOL
        decreases frames,
    {
        if frames == 0 {
            self
        } else {
            self.stepped().after((frames - 1) as nat)
        }
    }

    /// The commands that bring a fresh backend into the state in which frames
    /// can be drawn; `seeded` tells whether there is a seed for generation zero.
    pub open spec fn setup_commands(self, seeded: bool) -> Seq<Command> {
        seq![
            Command::CompileShader(Shader::Vertex),
            Command::CompileShader(Shader::ComputeFragment),
            Command::CompileShader(Shader::DisplayFragment),
            Command::LinkProgram(Pass::Display),
            Command::LinkProgram(Pass::Compute),
            Command::UseProgram(Pass::Compute),
            Command::LocateAttribute,
            Command::CreateBuffer,
            Command::BindBuffer,
            Command::UploadVertexData,
            Command::CreateVertexArray,
            Command::BindVertexArray,
            Command::DescribeVertices,
            Command::EnableVertices,
            Command::BindVertexArray,
            Command::LocateUniform { pass: Pass::Compute, uniform: Uniform::Texture },
            Command::LocateUniform { pass: Pass::Display, uniform: Uniform::Texture },
            Command::SetUnpackAlignment(UNPACK_ALIGNMENT),
            Command::CreateTexture { texture: self.texture.compute, size: self.size.compute, seeded: false },
            Command::CreateTexture { texture: self.texture.display, size: self.size.compute, seeded },
            Command::BindTexture(self.texture.display),
            Command::LocateUniform { pass: Pass::Display, uniform: Uniform::PixelSize },
            Command::LocateUniform { pass: Pass::Compute, uniform: Uniform::GridSize },
            Command::UseProgram(Pass::Compute),
            Command::SetSampler { pass: Pass::Compute, unit: TEXTURE_UNIT },
            Command::SetGridSize(self.size.compute),
            Command::UseProgram(Pass::Display),
            Command::SetSampler { pass: Pass::Display, unit: TEXTURE_UNIT },
            Command::SetPixelSize(PXSIZE),
            Command::CreateFramebuffer,
        ]
    }

    /// The commands of one frame: the display pass onto the visible surface,
    /// then the compute pass into the write target, which is left bound for
    /// sampling.
    pub open spec fn frame_commands(self) -> Seq<Command> {
        seq![
            Command::UseProgram(Pass::Display),
            Command::SetViewport(self.size.display),
            Command::Clear,
            Command::DrawTriangles(QUAD_VERTICES),
            Command::UseProgram(Pass::Compute),
            Command::SetViewport(self.size.compute),
            Command::BindFramebuffer(true),
            Command::AttachColorTarget(self.texture.compute),
            Command::Clear,
            Command::DrawTriangles(QUAD_VERTICES),
            Command::BindFramebuffer(false),
            Command::BindTexture(self.texture.compute),
        ]
    }

    /// The engine for a visible surface of the given extents.
    ///
    /// The grid has the surface's extents divided by [`PXSIZE`], which is
    /// four, each rounded down. The seeded texture starts as the current
    /// generation and the blank one as the write target.
    pub fn new(display: Size) -> (gol: GOL)
        ensures
            gol.wf(),
            gol.size.display == display,
            gol.size.compute == display.shrunk(PXSIZE as int),
            display.valid() ==> gol.size.compute.width == display.width / 4
                && gol.size.compute.height == display.height / 4,
            gol.texture.display == TextureId::Seeded,
            gol.texture.compute == TextureId::Blank,
    {
        GOL {
            size: PerPass { display, compute: display.scaled_down(PXSIZE) },
            texture: PerPass { display: TextureId::Seeded, compute: TextureId::Blank },
        }
    }

    /// The length that the seed buffer has to have: one byte for every cell of
    /// the grid. There is none if the grid has a negative extent or more cells
    /// than a buffer can hold.
    pub fn seed_len(&self) -> (len: Option<usize>)
        ensures
            len is Some <==> self.size.compute.valid() && self.size.compute.area() <= usize::MAX,
            len matches Some(n) ==> n == self.size.compute.area(),
    {
        self.size.compute.cell_count()
    }

    /// The commands to perform once, in this order, before the first frame.
    ///
    /// With `seeded` the current generation is created from the host's seed
    /// buffer; without, it starts out with every cell dead.
    pub fn setup(&self, seeded: bool) -> (commands: Vec<Command>)
        ensures
            commands@ == self.setup_commands(seeded),
    {
        let mut commands: Vec<Command> = Vec::new();
        commands.push(Command::CompileShader(Shader::Vertex));
        commands.push(Command::CompileShader(Shader::ComputeFragment));
        commands.push(Command::CompileShader(Shader::DisplayFragment));
        commands.push(Command::LinkProgram(Pass::Display));
        commands.push(Command::LinkProgram(Pass::Compute));
        commands.push(Command::UseProgram(Pass::Compute));
        commands.push(Command::LocateAttribute);
        commands.push(Command::CreateBuffer);
        commands.push(Command::BindBuffer);
        commands.push(Command::UploadVertexData);
        commands.push(Command::CreateVertexArray);
        commands.push(Command::BindVertexArray);
        commands.push(Command::DescribeVertices);
        commands.push(Command::EnableVertices);
        commands.push(Command::BindVertexArray);
        commands.push(Command::LocateUniform { pass: Pass::Compute, uniform: Uniform::Texture });
        commands.push(Command::LocateUniform { pass: Pass::Display, uniform: Uniform::Texture });
        commands.push(Command::SetUnpackAlignment(UNPACK_ALIGNMENT));
        commands.push(Command::CreateTexture { texture: self.texture.compute, size: self.size.compute, seeded: false });
        commands.push(Command::CreateTexture { texture: self.texture.display, size: self.size.compute, seeded });
        commands.push(Command::BindTexture(self.texture.display));
        commands.push(Command::LocateUniform { pass: Pass::Display, uniform: Uniform::PixelSize });
        commands.push(Command::LocateUniform { pass: Pass::Compute, uniform: Uniform::GridSize });
        commands.push(Command::UseProgram(Pass::Compute));
        commands.push(Command::SetSampler { pass: Pass::Compute, unit: TEXTURE_UNIT });
        commands.push(Command::SetGridSize(self.size.compute));
        commands.push(Command::UseProgram(Pass::Display));
        commands.push(Command::SetSampler { pass: Pass::Display, unit: TEXTURE_UNIT });
        commands.push(Command::SetPixelSize(PXSIZE));
        commands.push(Command::CreateFramebuffer);
        commands
    }

    /// Advances the engine by one frame and returns the frame's commands.
    ///
    /// The commands are those of the state before the call; afterwards the
    /// texture that was written is the current generation and the former
    /// current generation is the next write target. The extents stay.
    pub fn draw(&mut self) -> (commands: Vec<Command>)
        ensures
            commands@ == old(self).frame_commands(),
            *final(self) == old(self).stepped(),
            old(self).wf() ==> final(self).wf(),
    {
        let mut commands: Vec<Command> = Vec::new();
        commands.push(Command::UseProgram(Pass::Display));
        commands.push(Command::SetViewport(self.size.display));
        commands.push(Command::Clear);
        commands.push(Command::DrawTriangles(QUAD_VERTICES));
        commands.push(Command::UseProgram(Pass::Compute));
        commands.push(Command::SetViewport(self.size.compute));
        commands.push(Command::BindFramebuffer(true));
        commands.push(Command::AttachColorTarget(self.texture.compute));
        commands.push(Command::Clear);
        commands.push(Command::DrawTriangles(QUAD_VERTICES));
        commands.push(Command::BindFramebuffer(false));
        commands.push(Command::BindTexture(self.texture.compute));
        self.texture.swap();
        commands
    }
}

/// Exchanging roles is its own inverse: after two frames each texture plays
/// the role it played before the first.
pub proof fn two_frames_restore_roles(gol: GOL)
    ensures
        gol.stepped().stepped() == gol,
        gol.after(2) == gol,
        gol.stepped().texture.display == gol.texture.compute,
        gol.stepped().texture.compute == gol.texture.display,
{
    reveal_with_fuel(GOL::after, 3);
}

} // verus!
