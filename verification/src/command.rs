//! The vocabulary of the planner: what a backend is told to do, and what it
//! is asked.
//!
//! A command names one OpenGL entry point with the arguments that vary; the
//! arguments that never vary are fixed by the variant. A query is an entry
//! point whose answer the planner needs before it can go on.

use vstd::prelude::*;
use vstd::string::StringExecFns;

verus! {

/// An RGBA colour. Each channel is the bit pattern of an IEEE-754
/// single-precision number.
#[derive(Debug, Clone, Copy, PartialEq, Eq, Structural)]
pub struct Colour {
    pub red: u32,
    pub green: u32,
    pub blue: u32,
    pub alpha: u32,
}

/// The bit pattern of `0.0`.
pub const ZERO_BITS: u32 = 0x0000_0000;

/// The bit pattern of `1.0`.
pub const ONE_BITS: u32 = 0x3F80_0000;

/// The bit pattern of `-1.0`.
pub const MINUS_ONE_BITS: u32 = 0xBF80_0000;

impl Colour {
    /// Whether the colour lets everything behind it through: alpha is `0.0`.
    pub open spec fn is_transparent(self) -> bool {
        self.alpha == ZERO_BITS
    }
}

/// Which list handed to the call a buffer upload takes its bytes from.
#[derive(Debug, Clone, Copy, PartialEq, Eq, Structural)]
pub enum Payload {
    Vertices,
    Indices,
}

/// The uniforms that the framebuffers set on a shader program.
#[derive(Debug, Clone, Copy, PartialEq, Eq, Structural)]
pub enum UniformName {
    ScreenSize,
    Samples,
    Direction,
    ColourTexture,
    BloomTexture,
    FramebufferTexture,
    DepthBufferTexture,
}

/// A value for a uniform.
#[derive(Debug, Clone, Copy, PartialEq, Eq, Structural)]
pub enum UniformValue {
    /// A signed integer, also used for sampler units and flags.
    Int(i32),
    /// A two-component float vector holding these two pixel counts.
    Extent(u32, u32),
    /// A two-component integer vector.
    IVec2(i32, i32),
}

impl UniformName {
    /// The name of the uniform in the shader source.
    pub open spec fn text(self) -> Seq<char> {
        match self {
            UniformName::ScreenSize => "screen_size"@,
            UniformName::Samples => "samples"@,
            UniformName::Direction => "direction"@,
            UniformName::ColourTexture => "colour_texture"@,
            UniformName::BloomTexture => "bloom_texture"@,
            UniformName::FramebufferTexture => "framebuffer_texture"@,
            UniformName::DepthBufferTexture => "depth_buffer_texture"@,
        }
    }

    /// The name of the uniform in the shader source.
    pub fn as_str(&self) -> (name: &'static str)
        ensures
            name@ == self.text(),
    {
        match self {
            UniformName::ScreenSize => "screen_size",
            UniformName::Samples => "samples",
            UniformName::Direction => "direction",
            UniformName::ColourTexture => "colour_texture",
            UniformName::BloomTexture => "bloom_texture",
            UniformName::FramebufferTexture => "framebuffer_texture",
            UniformName::DepthBufferTexture => "depth_buffer_texture",
        }
    }
}

/// The text of one decimal digit.
pub open spec fn digit(d: nat) -> Seq<char> {
    if d == 0 {
        "0"@
    } else if d == 1 {
        "1"@
    } else if d == 2 {
        "2"@
    } else if d == 3 {
        "3"@
    } else if d == 4 {
        "4"@
    } else if d == 5 {
        "5"@
    } else if d == 6 {
        "6"@
    } else if d == 7 {
        "7"@
    } else if d == 8 {
        "8"@
    } else {
        "9"@
    }
}

/// A natural number in decimal, without leading zeros.
pub open spec fn decimal_nat(n: nat) -> Seq<char>
    decreases n,
{
    if n < 10 {
        digit(n)
    } else {
        decimal_nat(n / 10) + digit(n % 10)
    }
}

/// An integer in decimal, with a minus sign where it is negative.
pub open spec fn decimal(i: int) -> Seq<char> {
    if i < 0 {
        "-"@ + decimal_nat((-i) as nat)
    } else {
        decimal_nat(i as nat)
    }
}

/// Two numbers as a pair in brackets.
pub open spec fn pair_text(first: int, second: int) -> Seq<char> {
    "("@ + decimal(first) + ", "@ + decimal(second) + ")"@
}

fn digit_text(d: u64) -> (text: &'static str)
    requires
        d < 10,
    ensures
        text@ == digit(d as nat),
{
    if d == 0 {
        "0"
    } else if d == 1 {
        "1"
    } else if d == 2 {
        "2"
    } else if d == 3 {
        "3"
    } else if d == 4 {
        "4"
    } else if d == 5 {
        "5"
    } else if d == 6 {
        "6"
    } else if d == 7 {
        "7"
    } else if d == 8 {
        "8"
    } else {
        "9"
    }
}

fn nat_text(n: u64) -> (text: String)
    ensures
        text@ == decimal_nat(n as nat),
    decreases n,
{
    if n < 10 {
        String::from_str(digit_text(n))
    } else {
        let mut text = nat_text(n / 10);
        text.append(digit_text(n % 10));
        text
    }
}

/// `i` in decimal.
pub fn int_text(i: i64) -> (text: String)
    ensures
        text@ == decimal(i as int),
{
    if i < 0 {
        let magnitude: u64 = if i == i64::MIN {
            0x8000_0000_0000_0000
        } else {
            (-i) as u64
        };
        let mut text = String::from_str("-");
        text.append(nat_text(magnitude).as_str());
        text
    } else {
        nat_text(i as u64)
    }
}

impl UniformValue {
    /// The value as a reader sees it: a number in decimal, a pair as two
    /// numbers in brackets.
    pub open spec fn text(self) -> Seq<char> {
        match self {
            UniformValue::Int(i) => decimal(i as int),
            UniformValue::Extent(width, height) => pair_text(width as int, height as int),
            UniformValue::IVec2(x, y) => pair_text(x as int, y as int),
        }
    }

    /// The value as text.
    pub fn to_text(&self) -> (text: String)
        ensures
            text@ == self.text(),
    {
        match self {
            UniformValue::Int(i) => int_text(*i as i64),
            UniformValue::Extent(width, height) => pair(*width as i64, *height as i64),
            UniformValue::IVec2(x, y) => pair(*x as i64, *y as i64),
        }
    }
}

fn pair(first: i64, second: i64) -> (text: String)
    ensures
        text@ == pair_text(first as int, second as int),
{
    let mut text = String::from_str("(");
    text.append(int_text(first).as_str());
    text.append(", ");
    text.append(int_text(second).as_str());
    text.append(")");
    text
}

/// One instruction for the backend.
#[derive(Debug, Clone, Copy, PartialEq, Eq, Structural)]
pub enum GlCommand {
    /// `glBindTexture(target, texture)`.
    BindTexture { target: u32, texture: u32 },
    /// `glTexImage2D(TEXTURE_2D, 0, internal_format, width, height, 0, format,
    /// data_type, null)`: storage without contents.
    TexImage2D { internal_format: u32, width: i32, height: i32, format: u32, data_type: u32 },
    /// `glTexImage2DMultisample(TEXTURE_2D_MULTISAMPLE, samples,
    /// internal_format, width, height, false)`.
    TexImage2DMultisample { samples: i32, internal_format: u32, width: i32, height: i32 },
    /// `glTexImage1D(TEXTURE_1D, 0, internal_format, width, 0, format,
    /// data_type, data)`, with the data list handed to the call as `data`.
    TexImage1D { internal_format: u32, width: i32, format: u32, data_type: u32 },
    /// `glTexImage2D(TEXTURE_2D, 0, internal_format, width, height, 0, format,
    /// data_type, data)`, with the data list handed to the call as `data`.
    TexImage2DData { internal_format: u32, width: i32, height: i32, format: u32, data_type: u32 },
    /// `glTexImage3D(TEXTURE_3D, 0, internal_format, width, height, layers, 0,
    /// format, data_type, data)`, with the data list handed to the call as
    /// `data`.
    TexImage3D {
        internal_format: u32,
        width: i32,
        height: i32,
        layers: i32,
        format: u32,
        data_type: u32,
    },
    /// `glPixelStorei(parameter, number)`.
    PixelStorei { parameter: u32, number: i32 },
    /// `glTexParameteri(target, parameter, setting)`.
    TexParameteri { target: u32, parameter: u32, setting: u32 },
    /// `glActiveTexture(unit)`.
    ActiveTexture { unit: u32 },
    /// `glDeleteTextures(1, [texture])`.
    DeleteTexture { texture: u32 },
    /// `glBindFramebuffer(target, framebuffer)`.
    BindFramebuffer { target: u32, framebuffer: u32 },
    /// `glFramebufferTexture2D(FRAMEBUFFER, attachment, texture_target,
    /// texture, 0)`.
    FramebufferTexture2D { attachment: u32, texture_target: u32, texture: u32 },
    /// `glDrawBuffers(2, [first, second])`.
    DrawBuffers { first: u32, second: u32 },
    /// `glReadBuffer(source)`.
    ReadBuffer { source: u32 },
    /// `glClearBufferfv(COLOR, draw_buffer, colour)`.
    ClearColour { draw_buffer: i32, colour: Colour },
    /// `glClearBufferfv(DEPTH, 0, [depth])`, `depth` by its bit pattern.
    ClearDepth { depth: u32 },
    /// `glClear(mask)`.
    Clear { mask: u32 },
    /// `glBlitFramebuffer(0, 0, source_width, source_height, 0, 0,
    /// target_width, target_height, mask, filter)`.
    BlitFramebuffer {
        source_width: i32,
        source_height: i32,
        target_width: u32,
        target_height: u32,
        mask: u32,
        filter: u32,
    },
    /// `glDeleteFramebuffers(1, [framebuffer])`.
    DeleteFramebuffer { framebuffer: u32 },
    /// `glEnable(capability)`.
    Enable { capability: u32 },
    /// `glDisable(capability)`.
    Disable { capability: u32 },
    /// `glBlendFunc(source, destination)`.
    BlendFunc { source: u32, destination: u32 },
    /// `glBindVertexArray(array)`.
    BindVertexArray { array: u32 },
    /// `glBindBuffer(target, buffer)`.
    BindBuffer { target: u32, buffer: u32 },
    /// `glBufferData(target, bytes, payload, STATIC_DRAW)`.
    BufferData { target: u32, payload: Payload, bytes: usize },
    /// `glVertexAttribPointer(index, components, FLOAT, false, stride,
    /// offset)`.
    VertexAttribPointer { index: u32, components: i32, stride: i32, offset: usize },
    /// `glEnableVertexAttribArray(index)`.
    EnableVertexAttribArray { index: u32 },
    /// `glDrawArrays(TRIANGLES, 0, count)`.
    DrawArrays { count: i32 },
    /// `glDrawElements(TRIANGLES, count, UNSIGNED_INT, null)`.
    DrawElements { count: i32 },
    /// `glDeleteVertexArrays(1, [array])`.
    DeleteVertexArray { array: u32 },
    /// `glDeleteBuffers(1, [buffer])`.
    DeleteBuffer { buffer: u32 },
    /// Make `program` the current shader program.
    UseProgram { program: u32 },
    /// Set the uniform `name` of `program` to `value`.
    SetUniform { program: u32, name: UniformName, value: UniformValue },
    /// `glDeleteShader(shader)`.
    DeleteShader { shader: u32 },
}

/// A question to the backend. The answer is one 32-bit number.
#[derive(Debug, Clone, Copy, PartialEq, Eq, Structural)]
pub enum GlQuery {
    /// `glGenFramebuffers(1, ..)`: the new name, 0 on failure.
    GenFramebuffer,
    /// `glGenTextures(1, ..)`: the new name, 0 on failure.
    GenTexture,
    /// `glGenVertexArrays(1, ..)`: the new name, 0 on failure.
    GenVertexArray,
    /// `glGenBuffers(1, ..)`: the new name, 0 on failure.
    GenBuffer,
    /// `glCheckFramebufferStatus(FRAMEBUFFER)`.
    CheckFramebufferStatus,
}

} // verus!
