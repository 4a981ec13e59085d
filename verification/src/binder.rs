//! What the engine makes of the backend's answers when resources are created.
//!
//! The host creates shaders, programs and textures on the device and reports
//! what came back; the functions here decide whether that counts as success
//! and, if not, which error it is.

use vstd::prelude::*;
use crate::engine::TEXTURE_UNIT;
use crate::shader::Stage;

verus! {

/// Why the engine could not be set up. Every one of these is fatal.
#[derive(Debug, PartialEq, Eq)]
pub enum EngineError {
    /// The backend handed out no object where one was asked for.
    ResourceAcquisitionFailed,
    /// A shader did not compile; `log` is the backend's diagnostic, verbatim.
    ShaderCompileFailed { stage: Stage, log: String },
    /// A program did not link; `log` is the backend's diagnostic, verbatim.
    ProgramLinkFailed { log: String },
    /// A state texture could not be created as asked.
    TextureCreateFailed,
}

/// How texels between cell centres are chosen.
#[derive(Clone, Copy, Debug, PartialEq, Eq, Structural)]
pub enum Filter {
    Nearest,
    Linear,
}

/// What a coordinate outside the texture refers to.
#[derive(Clone, Copy, Debug, PartialEq, Eq, Structural)]
pub enum Wrap {
    Repeat,
    ClampToEdge,
}

/// How the backend has to lay out and configure a texture.
#[derive(Clone, Copy, Debug, PartialEq, Eq, Structural)]
pub struct TextureLayout {
    /// Texture unit that is made active and on which the texture stays bound.
    pub unit: i32,
    pub width: i32,
    pub height: i32,
    /// Bytes per texel; the single channel is red.
    pub bytes_per_texel: i32,
    /// Filter for both minification and magnification.
    pub filter: Filter,
    /// Addressing on both axes.
    pub wrap: Wrap,
}

/// The text reported when a failed compilation left no diagnostic.
pub open spec fn unknown_shader_error() -> Seq<char> {
    "Unknown error creating shader"@
}

/// The text reported when a failed link left no diagnostic.
pub open spec fn unknown_program_error() -> Seq<char> {
    "Unknown error creating program object"@
}

/// The diagnostic to surface: the backend's own if there is one.
pub open spec fn diagnostic(log: Option<String>, fallback: Seq<char>) -> Seq<char> {
    match log {
        Some(text) => text@,
        None => fallback,
    }
}

/// A texture of these extents exists, and `data`, if any, fills it exactly.
pub open spec fn texture_fits(width: int, height: int, data: Option<Seq<u8>>) -> bool {
    &&& 0 <= width
    &&& 0 <= height
    &&& data matches Some(bytes) ==> bytes.len() == width * height
}

/// The layout of a state texture: one byte per cell, never interpolated, and
/// addressed as a torus.
pub open spec fn state_layout(width: i32, height: i32) -> TextureLayout {
    TextureLayout {
        unit: TEXTURE_UNIT,
        width,
        height,
        bytes_per_texel: 1,
        filter: Filter::Nearest,
        wrap: Wrap::Repeat,
    }
}

/// The view of an optional byte buffer.
pub open spec fn bytes_of(data: Option<&[u8]>) -> Option<Seq<u8>> {
    match data {
        Some(bytes) => Some(bytes@),
        None => None,
    }
}

/// Unwraps an object that the backend was asked to create.
pub fn acquire<T>(object: Option<T>) -> (r: Result<T, EngineError>)
    ensures
        match object {
            Some(o) => r == Ok::<T, EngineError>(o),
            None => r == Err::<T, EngineError>(EngineError::ResourceAcquisitionFailed),
        },
{
    match object {
        Some(o) => Ok(o),
        None => Err(EngineError::ResourceAcquisitionFailed),
    }
}

/// Judges the compilation of one shader.
///
/// `shader` is the object the backend created, `compiled` its compile status
/// as far as the backend reported one, `log` its diagnostic if it has any.
/// The shader is handed back when, and only when, the status is a plain yes.
pub fn compile_shader<S>(
    stage: Stage,
    shader: Option<S>,
    compiled: Option<bool>,
    log: Option<String>,
) -> (r: Result<S, EngineError>)
    ensures
        match shader {
            None => r == Err::<S, EngineError>(EngineError::ResourceAcquisitionFailed),
            Some(s) => if compiled == Some(true) {
                r == Ok::<S, EngineError>(s)
            } else {
                &&& r matches Err(EngineError::ShaderCompileFailed { stage: failed, log: text })
                &&& failed == stage
                &&& text@ == diagnostic(log, unknown_shader_error())
            },
        },
{
    match shader {
        None => Err(EngineError::ResourceAcquisitionFailed),
        Some(s) => {
            match compiled {
                Some(true) => Ok(s),
                _ => {
                    let text = match log {
                        Some(t) => t,
                        None => "Unknown error creating shader".to_owned(),
                    };
                    Err(EngineError::ShaderCompileFailed { stage, log: text })
                },
            }
        },
    }
}

/// Judges the linking of one program, in the way [`compile_shader`] judges a
/// compilation.
pub fn link_program<P>(
    program: Option<P>,
    linked: Option<bool>,
    log: Option<String>,
) -> (r: Result<P, EngineError>)
    ensures
        match program {
            None => r == Err::<P, EngineError>(EngineError::ResourceAcquisitionFailed),
            Some(p) => if linked == Some(true) {
                r == Ok::<P, EngineError>(p)
            } else {
                &&& r matches Err(EngineError::ProgramLinkFailed { log: text })
                &&& text@ == diagnostic(log, unknown_program_error())
            },
        },
{
    match program {
        None => Err(EngineError::ResourceAcquisitionFailed),
        Some(p) => {
            match linked {
                Some(true) => Ok(p),
                _ => {
                    let text = match log {
                        Some(t) => t,
                        None => "Unknown error creating program object".to_owned(),
                    };
                    Err(EngineError::ProgramLinkFailed { log: text })
                },
            }
        },
    }
}

/// Decides whether a state texture can be created, and how.
///
/// `texture` is the object the backend created. Without `data` the texture
/// starts out all zero; with `data` it is filled from it byte for byte, so the
/// buffer has to hold exactly one byte per cell. On success the texture comes
/// back together with the layout the backend has to give it.
pub fn create_texture<T>(
    texture: Option<T>,
    sizew: i32,
    sizeh: i32,
    data: Option<&[u8]>,
) -> (r: Result<(T, TextureLayout), EngineError>)
    ensures
        match texture {
            Some(t) if texture_fits(sizew as int, sizeh as int, bytes_of(data)) => r == Ok::<
                (T, TextureLayout),
                EngineError,
            >((t, state_layout(sizew, sizeh))),
            _ => r == Err::<(T, TextureLayout), EngineError>(EngineError::TextureCreateFailed),
        },
{
    let t = match texture {
        Some(t) => t,
        None => {
            return Err(EngineError::TextureCreateFailed);
        },
    };
    if sizew < 0 || sizeh < 0 {
        return Err(EngineError::TextureCreateFailed);
    }
    assert(sizew * sizeh <= i32::MAX * i32::MAX) by (nonlinear_arith)
        requires
            0 <= sizew <= i32::MAX,
            0 <= sizeh <= i32::MAX,
    ;
    let cells: u64 = (sizew as u64) * (sizeh as u64);
    let fits = match data {
        Some(bytes) => bytes.len() as u64 == cells,
        None => true,
    };
    if !fits {
        return Err(EngineError::TextureCreateFailed);
    }
    let layout = TextureLayout {
        unit: TEXTURE_UNIT,
        width: sizew,
        height: sizeh,
        bytes_per_texel: 1,
        filter: Filter::Nearest,
        wrap: Wrap::Repeat,
    };
    Ok((t, layout))
}

/// Judges the upload of a texture's contents: a texture whose contents the
/// backend did not accept has not been created.
pub fn upload_texture<T>(texture: T, accepted: bool) -> (r: Result<T, EngineError>)
    ensures
        accepted ==> r == Ok::<T, EngineError>(texture),
        !accepted ==> r == Err::<T, EngineError>(EngineError::TextureCreateFailed),
{
    if accepted {
        Ok(texture)
    } else {
        Err(EngineError::TextureCreateFailed)
    }
}

impl EngineError {
    /// The text of an error, as one would log it.
    pub open spec fn text_of(self) -> Seq<char> {
        match self {
            EngineError::ResourceAcquisitionFailed => "unable to acquire a graphics resource"@,
            EngineError::ShaderCompileFailed { stage, log } => log@,
            EngineError::ProgramLinkFailed { log } => log@,
            EngineError::TextureCreateFailed => "unable to initialize"@,
        }
    }

    /// The text of an error; for a failed compilation or link, the backend's
    /// diagnostic and nothing else.
    pub fn message(&self) -> (text: String)
        ensures
            text@ == self.text_of(),
    {
        match self {
            EngineError::ResourceAcquisitionFailed => "unable to acquire a graphics resource".to_owned(),
            EngineError::ShaderCompileFailed { stage, log } => log.clone(),
            EngineError::ProgramLinkFailed { log } => log.clone(),
            EngineError::TextureCreateFailed => "unable to initialize".to_owned(),
        }
    }
}

} // verus!
