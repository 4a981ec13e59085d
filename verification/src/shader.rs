//! The three shader stages of the engine and their GLSL ES 3.00 text.

use vstd::prelude::*;

verus! {

/// Which stage of the rasterisation pipeline a shader runs in.
#[derive(Clone, Copy, Debug, PartialEq, Eq, Structural)]
pub enum Stage {
    Vertex,
    Fragment,
}

/// The shaders that make up the two programs.
#[derive(Clone, Copy, Debug, PartialEq, Eq, Structural)]
pub enum Shader {
    /// Passes the quad's corners through unchanged; shared by both programs.
    Vertex,
    /// Evaluates the cell rule for one cell of the grid.
    ComputeFragment,
    /// Paints one surface pixel from the cell that covers it.
    DisplayFragment,
}

/// Text of the vertex shader.
pub const VERT_SHADER: &'static str = r##"#version 300 es
 
in vec4 position;

void main() {

	gl_Position = position;
}
"##;

/// Text of the compute pass's fragment shader: the cell rule on the torus.
pub const COMPUTE_FRAG_SHADER: &'static str = r##"#version 300 es

precision lowp float;
precision lowp int;

uniform sampler2D u_texture;
uniform vec2 u_size;

out vec4 outColor;

vec4 getValueAt(int i, int j) {
	return texelFetch(u_texture, ivec2(mod((gl_FragCoord.xy) - vec2(i, j), u_size)), 0);
}

int getAliveOrDeadAt(int i, int j) {
	return int(getValueAt(i, j).r > 0.50);
}

void main() {
	int isAlive = getAliveOrDeadAt(0, 0);
	float isAlive_f = float(isAlive);
	int aliveNeighbourCount = getAliveOrDeadAt(1, 1) + getAliveOrDeadAt(1, -1) + getAliveOrDeadAt(-1, 1) + getAliveOrDeadAt(-1, -1) + getAliveOrDeadAt(0, 1) + getAliveOrDeadAt(1, 0) + getAliveOrDeadAt(0, -1) + getAliveOrDeadAt(-1, 0);

	float willBeAlive = float((aliveNeighbourCount == 3) || (bool(isAlive) && aliveNeighbourCount == 2));

	outColor.r = isAlive_f - 0.85 + 1.45 * willBeAlive;
}
"##;

/// Text of the display pass's fragment shader: one grey block per cell.
pub const DISPLAY_FRAG_SHADER: &'static str = r##"#version 300 es

precision highp float;

uniform sampler2D u_texture;
uniform float u_px_size;

out vec4 outColor;

void main() {
	float val = texelFetch(u_texture, ivec2(gl_FragCoord.xy / u_px_size), 0).r;
	outColor = vec4(val,val,val,1.0);
}
"##;

impl Shader {
    /// The stage a shader belongs to.
    pub open spec fn stage_of(self) -> Stage {
        match self {
            Shader::Vertex => Stage::Vertex,
            Shader::ComputeFragment => Stage::Fragment,
            Shader::DisplayFragment => Stage::Fragment,
        }
    }

    /// The text handed to the compiler for a shader.
    pub open spec fn text_of(self) -> Seq<char> {
        match self {
            Shader::Vertex => VERT_SHADER@,
            Shader::ComputeFragment => COMPUTE_FRAG_SHADER@,
            Shader::DisplayFragment => DISPLAY_FRAG_SHADER@,
        }
    }

    /// The stage a shader belongs to.
    pub fn stage(self) -> (stage: Stage)
        ensures
            stage == self.stage_of(),
    {
        match self {
            Shader::Vertex => Stage::Vertex,
            Shader::ComputeFragment => Stage::Fragment,
            Shader::DisplayFragment => Stage::Fragment,
        }
    }

    /// The text handed to the compiler for a shader.
    pub fn source(self) -> (text: &'static str)
        ensures
            text@ == self.text_of(),
    {
        match self {
            Shader::Vertex => VERT_SHADER,
            Shader::ComputeFragment => COMPUTE_FRAG_SHADER,
            Shader::DisplayFragment => DISPLAY_FRAG_SHADER,
        }
    }
}

} // verus!
