//! The rasterizer's shader program: the record of a linked program and the
//! verdict on each stage of compiling and linking it. The graphics calls that
//! compile and link happen outside this crate; the status each stage reports
//! is judged here, with the diagnostic the operator sees on failure.

use vstd::prelude::*;

use crate::error::SessionError;

verus! {

/// A linked shader program, by its program object name.
#[derive(Clone, Copy, PartialEq, Eq, Structural, Debug)]
pub struct Shader {
    pub shader_program: u32,
}

impl Shader {
    /// The record of an already-linked program object.
    pub fn from_program(shader_program: u32) -> (s: Shader)
        ensures
            s.shader_program == shader_program,
    {
        Shader { shader_program }
    }
}

/// One stage of building a shader program.
#[derive(Clone, Copy, PartialEq, Eq, Structural, Debug)]
pub enum ShaderStage {
    Vertex,
    Fragment,
    Link,
}

/// The diagnostic prefix of a failed stage.
pub open spec fn stage_diagnostic_prefix(stage: ShaderStage) -> Seq<char> {
    match stage {
        ShaderStage::Vertex => "Vertex Compile Error: "@,
        ShaderStage::Fragment => "Fragment Compile Error: "@,
        ShaderStage::Link => "Program Link Error: "@,
    }
}

/// Judges the status one build stage reported: zero means the stage failed and
/// building is fatal, with the stage's prefix and the compiler's log as the
/// diagnostic; any other status lets the build proceed.
pub fn stage_outcome(stage: ShaderStage, status: i32, info_log: &str) -> (r: Result<
    (),
    SessionError,
>)
    ensures
        status != 0 ==> r matches Result::Ok(_),
        status == 0 ==> (r matches Result::Err(e) && e matches SessionError::Build(m) && m@
            == stage_diagnostic_prefix(stage) + info_log@),
{
    if status != 0 {
        Result::Ok(())
    } else {
        let mut m = match stage {
            ShaderStage::Vertex => String::from_str("Vertex Compile Error: "),
            ShaderStage::Fragment => String::from_str("Fragment Compile Error: "),
            ShaderStage::Link => String::from_str("Program Link Error: "),
        };
        m.append(info_log);
        Result::Err(SessionError::Build(m))
    }
}

} // verus!
