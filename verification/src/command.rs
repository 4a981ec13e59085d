//! The vocabulary in which the engine talks to a graphics backend.
//!
//! The engine never touches a device. It hands its host an ordered list of
//! [`Command`]s, each of which stands for one capability of the backend, and
//! the host performs them in that order.

use vstd::prelude::*;
use crate::shader::Shader;
use crate::size::Size;

verus! {

/// The two full-screen passes of a frame, and with them the two programs.
#[derive(Clone, Copy, Debug, PartialEq, Eq, Structural)]
pub enum Pass {
    /// Paints the current generation onto the visible surface.
    Display,
    /// Derives the next generation into the off-screen target.
    Compute,
}

/// The two state textures, named after what they hold when they are created.
#[derive(Clone, Copy, Debug, PartialEq, Eq, Structural)]
pub enum TextureId {
    /// Created without data: every cell dead.
    Blank,
    /// Created from the seed buffer, if there is one: generation zero.
    Seeded,
}

/// The uniforms of the two programs.
#[derive(Clone, Copy, Debug, PartialEq, Eq, Structural)]
pub enum Uniform {
    /// `u_texture`, the sampler; both programs have one.
    Texture,
    /// `u_size`, the extents of the grid; compute program only.
    GridSize,
    /// `u_px_size`, the block factor; display program only.
    PixelSize,
}

/// One request to the graphics backend.
#[derive(Clone, Copy, Debug, PartialEq, Eq, Structural)]
pub enum Command {
    /// Create a shader object from the shader's text and compile it.
    CompileShader(Shader),
    /// Create the program of a pass from the vertex shader and the pass's
    /// fragment shader, and link it.
    LinkProgram(Pass),
    /// Make the program of a pass the current one.
    UseProgram(Pass),
    /// Look up the vertex attribute `position` in the compute program.
    LocateAttribute,
    /// Create the vertex buffer.
    CreateBuffer,
    /// Bind the vertex buffer as the array buffer.
    BindBuffer,
    /// Fill the bound array buffer with the corners of the quad.
    UploadVertexData,
    /// Create the vertex array object.
    CreateVertexArray,
    /// Bind the vertex array object.
    BindVertexArray,
    /// Declare the bound buffer as pairs of floats for attribute 0.
    DescribeVertices,
    /// Enable the attribute found by `LocateAttribute`.
    EnableVertices,
    /// Look up a uniform in the program of a pass.
    LocateUniform { pass: Pass, uniform: Uniform },
    /// Set the row alignment, in bytes, assumed for pixel data read from memory.
    SetUnpackAlignment(i32),
    /// Create a state texture of the given extents on texture unit 0 and leave
    /// it bound there; `seeded` tells whether the seed buffer fills it or zeros.
    CreateTexture { texture: TextureId, size: Size, seeded: bool },
    /// Bind a state texture to texture unit 0.
    BindTexture(TextureId),
    /// Point the sampler of the current program, which is that of `pass`, at a
    /// texture unit.
    SetSampler { pass: Pass, unit: i32 },
    /// Tell the current program, the compute program, the extents of the grid.
    SetGridSize(Size),
    /// Tell the current program, the display program, the block factor.
    SetPixelSize(i32),
    /// Create the off-screen render target.
    CreateFramebuffer,
    /// Draw into the off-screen target (`true`) or the visible surface (`false`).
    BindFramebuffer(bool),
    /// Make a state texture the colour attachment of the bound off-screen target.
    AttachColorTarget(TextureId),
    /// Set the viewport to the given extents, anchored at the origin.
    SetViewport(Size),
    /// Fill the current render target with opaque black.
    Clear,
    /// Draw that many vertices of the quad as triangles.
    DrawTriangles(i32),
}

impl Pass {
    /// The fragment shader of a pass.
    pub open spec fn fragment_of(self) -> Shader {
        match self {
            Pass::Display => Shader::DisplayFragment,
            Pass::Compute => Shader::ComputeFragment,
        }
    }

    /// Whether the program of a pass declares a uniform.
    pub open spec fn declares(self, uniform: Uniform) -> bool {
        match uniform {
            Uniform::Texture => true,
            Uniform::GridSize => self == Pass::Compute,
            Uniform::PixelSize => self == Pass::Display,
        }
    }

    /// The fragment shader of a pass.
    pub fn fragment(self) -> (shader: Shader)
        ensures
            shader == self.fragment_of(),
    {
        match self {
            Pass::Display => Shader::DisplayFragment,
            Pass::Compute => Shader::ComputeFragment,
        }
    }
}

impl Uniform {
    /// The name by which the shader text declares a uniform.
    pub open spec fn name_of(self) -> Seq<char> {
        match self {
            Uniform::Texture => "u_texture"@,
            Uniform::GridSize => "u_size"@,
            Uniform::PixelSize => "u_px_size"@,
        }
    }

    /// The name by which the shader text declares a uniform.
    pub fn name(self) -> (name: &'static str)
        ensures
            name@ == self.name_of(),
    {
        match self {
            Uniform::Texture => "u_texture",
            Uniform::GridSize => "u_size",
            Uniform::PixelSize => "u_px_size",
        }
    }
}

} // verus!
