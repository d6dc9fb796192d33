//! Shader stages, shader and program objects, uniforms, and the decisions
//! taken on the driver's compile and link reports.
use vstd::prelude::*;
use vstd::string::StringSliceAdditionalSpecFns;

use crate::render::gl_consts::{
    GL_COMPUTE_SHADER, GL_FRAGMENT_SHADER, GL_GEOMETRY_SHADER, GL_VERTEX_SHADER,
};

verus! {

/// The pipeline stage a shader is compiled for.
#[derive(Clone, Copy, Debug, PartialEq, Eq, Structural)]
pub enum ShaderType {
    Vertex,
    Fragment,
    Compute,
    Geometry,
}

/// The OpenGL enumerant that names a shader stage.
pub open spec fn shader_type_enum(t: ShaderType) -> u32 {
    match t {
        ShaderType::Vertex => GL_VERTEX_SHADER,
        ShaderType::Fragment => GL_FRAGMENT_SHADER,
        ShaderType::Compute => GL_COMPUTE_SHADER,
        ShaderType::Geometry => GL_GEOMETRY_SHADER,
    }
}

impl ShaderType {
    /// The OpenGL enumerant (`GLenum`) for this stage.
    pub fn gl_enum(&self) -> (r: u32)
        ensures
            r == shader_type_enum(*self),
    {
        match self {
            ShaderType::Vertex => GL_VERTEX_SHADER,
            ShaderType::Fragment => GL_FRAGMENT_SHADER,
            ShaderType::Compute => GL_COMPUTE_SHADER,
            ShaderType::Geometry => GL_GEOMETRY_SHADER,
        }
    }
}

/// Distinct shader stages are named by distinct OpenGL enumerants.
pub proof fn lemma_shader_type_enum_injective(a: ShaderType, b: ShaderType)
    requires
        a != b,
    ensures
        shader_type_enum(a) != shader_type_enum(b),
{
}

/// A text can be handed to OpenGL as a NUL-terminated C string exactly when
/// its UTF-8 encoding holds no zero byte.
pub open spec fn c_string_compatible(s: &str) -> bool {
    !s.spec_bytes().contains(0u8)
}

/// Whether `s` (a shader source or a uniform name) can be passed to the
/// driver as a C string, that is, whether it holds no NUL byte.
pub fn is_c_string_compatible(s: &str) -> (r: bool)
    ensures
        r == c_string_compatible(s),
        r <==> forall|j: int| 0 <= j < s.spec_bytes().len() ==> #[trigger] s.spec_bytes()[j] != 0u8,
{
    let bytes = s.as_bytes();
    let n = bytes.len();
    let mut i: usize = 0;
    while i < n
        invariant
            n == bytes@.len(),
            bytes@ == s.spec_bytes(),
            i <= n,
            forall|j: int| 0 <= j < i ==> bytes@[j] != 0u8,
        decreases n - i,
    {
        if bytes[i] == 0u8 {
            assert(bytes@[i as int] == 0u8);
            return false;
        }
        i = i + 1;
    }
    assert(!bytes@.contains(0u8));
    true
}

/// A text is refused exactly when one of its bytes is zero: every text
/// whose bytes are all nonzero (newlines, tabs, any other character) is
/// accepted, and any text holding a zero byte is refused.
pub proof fn lemma_c_string_compatible_iff_no_zero_byte(s: &str)
    ensures
        c_string_compatible(s) <==> forall|j: int|
            0 <= j < s.spec_bytes().len() ==> #[trigger] s.spec_bytes()[j] != 0u8,
        (exists|j: int| 0 <= j < s.spec_bytes().len() && #[trigger] s.spec_bytes()[j] == 0u8)
            ==> !c_string_compatible(s),
{
    if !c_string_compatible(s) {
        let j = choose|j: int| 0 <= j < s.spec_bytes().len() && s.spec_bytes()[j] == 0u8;
        assert(s.spec_bytes()[j] == 0u8);
    }
}

/// A compiled shader object.
pub struct Shader {
    id: u32,
}

impl Shader {
    pub closed spec fn spec_id(&self) -> u32 {
        self.id
    }

    /// The outcome of compiling shader object `id`: the driver reported
    /// `success` (its `GL_COMPILE_STATUS`, zero for failure) and, on
    /// failure, the info log `log`. A failed compile gives the log as the
    /// error; any other status gives the shader.
    pub fn from_compile_status(id: u32, success: i32, log: String) -> (r: Result<Shader, String>)
        ensures
            success != 0 <==> r is Ok,
            r matches Ok(sh) ==> sh.spec_id() == id,
            r matches Err(e) ==> e@ == log@,
    {
        if success == 0 {
            Err(log)
        } else {
            Ok(Shader { id })
        }
    }

    /// The name OpenGL gave this shader object.
    pub fn id(&self) -> (r: u32)
        ensures
            r == self.spec_id(),
    {
        self.id
    }
}

/// A linked program object.
pub struct Program {
    id: u32,
}

/// The text `n` spaces long.
pub open spec fn spaces(n: nat) -> Seq<char> {
    Seq::new(n, |_i: int| ' ')
}

/// The error of a failed link is made of spaces only, exactly as many as
/// the log length.
pub proof fn lemma_spaces(n: nat)
    ensures
        spaces(n).len() == n,
        forall|j: int| 0 <= j < n ==> #[trigger] spaces(n)[j] == ' ',
{
}

impl Program {
    pub closed spec fn spec_id(&self) -> u32 {
        self.id
    }

    /// The outcome of linking program object `id`: the driver reported
    /// `success` (its `GL_LINK_STATUS`, zero for failure) and the length of
    /// its info log, `log_len`. A failed link gives as error a text of
    /// `log_len` spaces (the log itself is not read back); any other status
    /// gives the program. A failed link needs a length that is not negative.
    pub fn from_link_status(id: u32, success: i32, log_len: i32) -> (r: Result<Program, String>)
        requires
            success == 0 ==> 0 <= log_len,
        ensures
            success != 0 <==> r is Ok,
            r matches Ok(p) ==> p.spec_id() == id,
            r matches Err(e) ==> e@ == spaces(log_len as nat),
    {
        if success == 0 {
            let n: usize = log_len as usize;
            let mut error = String::new();
            let mut i: usize = 0;
            while i < n
                invariant
                    i <= n,
                    error@ == spaces(i as nat),
                decreases n - i,
            {
                error.append(" ");
                proof {
                    reveal_strlit(" ");
                }
                assert(error@ =~= spaces((i + 1) as nat));
                i = i + 1;
            }
            Err(error)
        } else {
            Ok(Program { id })
        }
    }

    /// The name OpenGL gave this program object.
    pub fn id(&self) -> (r: u32)
        ensures
            r == self.spec_id(),
    {
        self.id
    }
}

/// A program made of a single compute shader.
pub struct ComputeProgram {
    program: Program,
}

impl ComputeProgram {
    pub closed spec fn spec_program(&self) -> Program {
        self.program
    }

    /// The compute program that runs the linked program `program`.
    pub fn new(program: Program) -> (r: ComputeProgram)
        ensures
            r.spec_program() == program,
    {
        ComputeProgram { program }
    }

    /// The linked program this compute program runs.
    pub fn program(&self) -> (r: &Program)
        ensures
            *r == self.spec_program(),
    {
        &self.program
    }
}

/// The location of a uniform variable in a linked program.
pub struct Uniform {
    location: i32,
}

impl Uniform {
    pub closed spec fn spec_location(&self) -> i32 {
        self.location
    }

    /// The uniform at `location`, as the driver reported it (`-1` when the
    /// program has no active uniform of the name asked for).
    pub fn from_location(location: i32) -> (r: Uniform)
        ensures
            r.spec_location() == location,
    {
        Uniform { location }
    }

    /// The location of this uniform.
    pub fn location(&self) -> (r: i32)
        ensures
            r == self.spec_location(),
    {
        self.location
    }
}

} // verus!
