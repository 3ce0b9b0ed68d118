//! The device-facing vocabulary: primitive modes, the numeric tags the
//! OpenGL 3.3 API gives to types and targets, and the commands the library
//! emits.
//!
//! The library never touches the driver itself. Every call it decides on is
//! emitted as a [`DeviceCommand`] value carrying the exact arguments of the
//! corresponding OpenGL call; an unverified shell replays the commands in
//! order against the real context. Sizes that the API takes as `f32`
//! (point size, line width) travel as their IEEE-754 bit patterns, so the
//! verified code never holds a floating-point value.

use vstd::prelude::*;
use crate::vertex::{Type, VertexComponentFormat, spec_supported};

verus! {

/// `GL_BYTE`.
pub const GL_BYTE: u32 = 0x1400;

/// `GL_UNSIGNED_BYTE`.
pub const GL_UNSIGNED_BYTE: u32 = 0x1401;

/// `GL_SHORT`.
pub const GL_SHORT: u32 = 0x1402;

/// `GL_UNSIGNED_SHORT`.
pub const GL_UNSIGNED_SHORT: u32 = 0x1403;

/// `GL_INT`.
pub const GL_INT: u32 = 0x1404;

/// `GL_UNSIGNED_INT`.
pub const GL_UNSIGNED_INT: u32 = 0x1405;

/// `GL_FLOAT`.
pub const GL_FLOAT: u32 = 0x1406;

/// `GL_POINTS`.
pub const GL_POINTS: u32 = 0x0000;

/// `GL_LINES`.
pub const GL_LINES: u32 = 0x0001;

/// `GL_LINE_STRIP`.
pub const GL_LINE_STRIP: u32 = 0x0003;

/// `GL_TRIANGLES`.
pub const GL_TRIANGLES: u32 = 0x0004;

/// `GL_TRIANGLE_STRIP`.
pub const GL_TRIANGLE_STRIP: u32 = 0x0005;

/// `GL_TRIANGLE_FAN`.
pub const GL_TRIANGLE_FAN: u32 = 0x0006;

/// `GL_ARRAY_BUFFER`: the binding target of a vertex buffer.
pub const GL_ARRAY_BUFFER: u32 = 0x8892;

/// `GL_ELEMENT_ARRAY_BUFFER`: the binding target of an index buffer.
pub const GL_ELEMENT_ARRAY_BUFFER: u32 = 0x8893;

/// IEEE-754 bit pattern of the `f32` value 1.0: the default point size and
/// line width when a draw call gives none.
pub const DEFAULT_SIZE_BITS: u32 = 0x3F80_0000;

/// The primitive topology a tessellation renders with.
#[derive(Clone, Copy, Debug, PartialEq, Eq, Structural)]
pub enum Mode {
    Point,
    Line,
    LineStrip,
    Triangle,
    TriangleFan,
    TriangleStrip,
}

/// The numeric tag the device gives to a primitive mode.
pub open spec fn spec_opengl_mode(mode: Mode) -> u32 {
    match mode {
        Mode::Point => GL_POINTS,
        Mode::Line => GL_LINES,
        Mode::LineStrip => GL_LINE_STRIP,
        Mode::Triangle => GL_TRIANGLES,
        Mode::TriangleFan => GL_TRIANGLE_FAN,
        Mode::TriangleStrip => GL_TRIANGLE_STRIP,
    }
}

/// The numeric tag the device gives to a supported component format.
pub open spec fn spec_opengl_sized_type(f: VertexComponentFormat) -> u32 {
    match f.comp_type {
        Type::Integral =>
            if f.comp_size == 8 {
                GL_BYTE
            } else if f.comp_size == 16 {
                GL_SHORT
            } else {
                GL_INT
            },
        Type::Unsigned =>
            if f.comp_size == 8 {
                GL_UNSIGNED_BYTE
            } else if f.comp_size == 16 {
                GL_UNSIGNED_SHORT
            } else {
                GL_UNSIGNED_INT
            },
        Type::Boolean => GL_UNSIGNED_BYTE,
        Type::Floating => GL_FLOAT,
    }
}

/// The numeric tag the device gives to a primitive mode.
pub fn opengl_mode(mode: Mode) -> (r: u32)
    ensures
        r == spec_opengl_mode(mode),
{
    match mode {
        Mode::Point => GL_POINTS,
        Mode::Line => GL_LINES,
        Mode::LineStrip => GL_LINE_STRIP,
        Mode::Triangle => GL_TRIANGLES,
        Mode::TriangleFan => GL_TRIANGLE_FAN,
        Mode::TriangleStrip => GL_TRIANGLE_STRIP,
    }
}

/// The numeric tag the device gives to a component format. Defined only for
/// supported formats; an unsupported pair is a fatal configuration error and
/// gets no tag.
pub fn opengl_sized_type(f: &VertexComponentFormat) -> (r: u32)
    requires
        spec_supported(*f),
    ensures
        r == spec_opengl_sized_type(*f),
{
    match f.comp_type {
        Type::Integral =>
            if f.comp_size == 8 {
                GL_BYTE
            } else if f.comp_size == 16 {
                GL_SHORT
            } else {
                GL_INT
            },
        Type::Unsigned =>
            if f.comp_size == 8 {
                GL_UNSIGNED_BYTE
            } else if f.comp_size == 16 {
                GL_UNSIGNED_SHORT
            } else {
                GL_UNSIGNED_INT
            },
        Type::Boolean => GL_UNSIGNED_BYTE,
        Type::Floating => GL_FLOAT,
    }
}

/// One device call, with the exact arguments the shell passes to the driver.
#[derive(Debug, PartialEq, Eq)]
pub enum DeviceCommand {
    /// Make a vertex-array-state object the active one; handle 0 unbinds.
    BindVertexArray(u32),
    /// Bind a buffer to a target (`GL_ARRAY_BUFFER` or
    /// `GL_ELEMENT_ARRAY_BUFFER`).
    BindBuffer { target: u32, buffer: u32 },
    /// Bind attribute slot `index` to the active buffer with an
    /// implicit-conversion pointer, for floating-point categories.
    VertexAttribPointer {
        index: u32,
        size: i32,
        sized_type: u32,
        normalized: bool,
        stride: u32,
        offset: u32,
    },
    /// Bind attribute slot `index` to the active buffer with a pure-integer
    /// pointer, for integer categories.
    VertexAttribIPointer { index: u32, size: i32, sized_type: u32, stride: u32, offset: u32 },
    /// Enable attribute slot `index` on the active vertex-array-state.
    EnableVertexAttribArray(u32),
    /// Set the rasterized point size; the field holds the IEEE-754 bits of
    /// the `f32` size.
    SetPointSize { size_bits: u32 },
    /// Set the rasterized line width; the field holds the IEEE-754 bits of
    /// the `f32` width.
    SetLineWidth { size_bits: u32 },
    /// A single non-indexed draw of `count` vertices.
    DrawArrays { mode: u32, first: i32, count: usize },
    /// An instanced non-indexed draw of `count` vertices, repeated
    /// `instances` times.
    DrawArraysInstanced { mode: u32, first: i32, count: usize, instances: u32 },
    /// A single indexed draw over `count` 32-bit unsigned indices taken from
    /// the element buffer of the active vertex-array-state.
    DrawElements { mode: u32, count: usize },
    /// An instanced indexed draw over `count` indices, repeated `instances`
    /// times.
    DrawElementsInstanced { mode: u32, count: usize, instances: u32 },
    /// Release one vertex-array-state handle.
    DeleteVertexArrays(u32),
    /// Release a batch of buffer handles in one call.
    DeleteBuffers(Vec<u32>),
}

/// The vertex-array-state handle the device holds active after replaying
/// `cmds` in order, starting from `init`; handle 0 is the unbound state.
/// Only a bind command moves it — the active binding is process-wide shared
/// state, and this is the one slot of it the library's commands touch.
pub open spec fn spec_bound_vao_after(init: u32, cmds: Seq<DeviceCommand>) -> u32
    decreases cmds.len(),
{
    if cmds.len() == 0 {
        init
    } else {
        match cmds.last() {
            DeviceCommand::BindVertexArray(v) => v,
            _ => spec_bound_vao_after(init, cmds.drop_last()),
        }
    }
}

/// Law: a command sequence that ends by binding vertex-array-state 0 —
/// as every construction path's sequence does — leaves the device with no
/// vertex-array-state active, whatever was bound before it ran.
pub proof fn lemma_trailing_unbind_leaves_unbound(init: u32, cmds: Seq<DeviceCommand>)
    requires
        cmds.len() > 0,
        cmds.last() == DeviceCommand::BindVertexArray(0),
    ensures
        spec_bound_vao_after(init, cmds) == 0,
{
}

} // verus!
