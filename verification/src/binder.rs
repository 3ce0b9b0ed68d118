//! The attribute layout binder: turns an ordered vertex format into the
//! device calls that bind each component to its place in the active buffer.
//!
//! For component `i` the binder emits one attribute-pointer command at the
//! component's byte offset with the whole vertex's byte weight as stride —
//! an implicit-conversion pointer for the floating category, a pure-integer
//! pointer for the integer categories — followed by a command enabling slot
//! `i`. The commands come out in component order.

use vstd::prelude::*;
use crate::device::{DeviceCommand, spec_opengl_sized_type, opengl_sized_type};
use crate::vertex::{
    VertexComponentFormat, Type, all_supported, component_weight, dim_as_size,
    lemma_vertex_weight_prefix, spec_dim_size, spec_offset, spec_supported, spec_vertex_weight,
    vertex_weight,
};

verus! {

/// The two commands that bind and enable component `i` of a vertex whose
/// byte weight is `stride`, when the component starts `off` bytes into the
/// vertex: a pointer command whose variant follows the numeric category, and
/// an enable command for the same slot.
pub open spec fn spec_component_commands(
    i: int,
    stride: int,
    off: int,
    f: VertexComponentFormat,
) -> Seq<DeviceCommand> {
    let pointer = match f.comp_type {
        Type::Floating => (DeviceCommand::VertexAttribPointer {
            index: i as u32,
            size: spec_dim_size(f.dim) as i32,
            sized_type: spec_opengl_sized_type(f),
            normalized: false,
            stride: stride as u32,
            offset: off as u32,
        }),
        Type::Integral | Type::Unsigned | Type::Boolean => (DeviceCommand::VertexAttribIPointer {
            index: i as u32,
            size: spec_dim_size(f.dim) as i32,
            sized_type: spec_opengl_sized_type(f),
            stride: stride as u32,
            offset: off as u32,
        }),
    };
    seq![pointer, DeviceCommand::EnableVertexAttribArray(i as u32)]
}

/// The binder's output for the first `n` components of `s`: each component's
/// two commands, in component order, every one at that component's own
/// offset and with the whole vertex's weight as stride.
pub open spec fn spec_pointer_commands_prefix(
    s: Seq<VertexComponentFormat>,
    n: int,
) -> Seq<DeviceCommand>
    decreases n,
{
    if n <= 0 {
        Seq::empty()
    } else {
        spec_pointer_commands_prefix(s, n - 1)
            + spec_component_commands(n - 1, spec_vertex_weight(s), spec_offset(s, n - 1), s[n - 1])
    }
}

/// The binder's whole output for the vertex format `s`.
pub open spec fn spec_pointer_commands(s: Seq<VertexComponentFormat>) -> Seq<DeviceCommand> {
    spec_pointer_commands_prefix(s, s.len() as int)
}

/// The two commands that bind and enable one component. Defined only for
/// supported formats: an unsupported pair is a fatal configuration error,
/// and no command exists for it.
pub fn set_component_format(
    i: u32,
    stride: u32,
    off: u32,
    f: &VertexComponentFormat,
) -> (r: Vec<DeviceCommand>)
    requires
        spec_supported(*f),
    ensures
        r@ == spec_component_commands(i as int, stride as int, off as int, *f),
{
    let mut r: Vec<DeviceCommand> = Vec::new();
    match f.comp_type {
        Type::Floating => {
            r.push(DeviceCommand::VertexAttribPointer {
                index: i,
                size: dim_as_size(&f.dim),
                sized_type: opengl_sized_type(f),
                normalized: false,
                stride,
                offset: off,
            });
        },
        Type::Integral | Type::Unsigned | Type::Boolean => {
            r.push(DeviceCommand::VertexAttribIPointer {
                index: i,
                size: dim_as_size(&f.dim),
                sized_type: opengl_sized_type(f),
                stride,
                offset: off,
            });
        },
    }
    r.push(DeviceCommand::EnableVertexAttribArray(i));
    proof {
        assert(r@ =~= spec_component_commands(i as int, stride as int, off as int, *f));
    }
    r
}

/// The binder: computes the stride and every component's offset, and emits,
/// in component order, the pointer and enable commands binding each
/// component of the vertex format to the active buffer.
pub fn set_vertex_pointers(formats: &Vec<VertexComponentFormat>) -> (r: Vec<DeviceCommand>)
    requires
        all_supported(formats@),
        spec_vertex_weight(formats@) <= u32::MAX,
        formats@.len() <= u32::MAX,
    ensures
        r@ == spec_pointer_commands(formats@),
{
    let stride = vertex_weight(formats);
    let mut offset: u32 = 0;
    let mut r: Vec<DeviceCommand> = Vec::new();
    let mut i: usize = 0;
    while i < formats.len()
        invariant
            0 <= i <= formats@.len(),
            all_supported(formats@),
            spec_vertex_weight(formats@) <= u32::MAX,
            formats@.len() <= u32::MAX,
            stride == spec_vertex_weight(formats@),
            offset == spec_offset(formats@, i as int),
            r@ == spec_pointer_commands_prefix(formats@, i as int),
        decreases formats@.len() - i,
    {
        proof {
            assert(formats@.take(i + 1).drop_last() =~= formats@.take(i as int));
            assert(formats@.take(i + 1).last() == formats@[i as int]);
            lemma_vertex_weight_prefix(formats@, i + 1);
        }
        let mut cmds = set_component_format(i as u32, stride, offset, &formats[i]);
        r.append(&mut cmds);
        offset = offset + component_weight(&formats[i]);
        i = i + 1;
    }
    proof {
        assert(formats@.take(formats@.len() as int) =~= formats@);
    }
    r
}

} // verus!
