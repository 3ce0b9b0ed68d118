//! GPU-resident geometry: construction, draw dispatch and destruction.
//!
//! A [`GLTess`] owns a vertex-array-state handle and the device buffers
//! backing it, and remembers — as a plain, inspectable variant rather than a
//! captured closure — everything a draw call needs: the primitive mode, the
//! vertex or index count, and the owned handles. The device itself hands out
//! the handles (buffer allocation and fill are the device buffer service's
//! business); the constructors here take those handles, take ownership of
//! them, and emit the exact command sequence that wires them up.

use vstd::prelude::*;
use crate::binder::{set_vertex_pointers, spec_pointer_commands};
use crate::device::{
    DEFAULT_SIZE_BITS, DeviceCommand, GL_ARRAY_BUFFER, GL_ELEMENT_ARRAY_BUFFER, Mode,
    lemma_trailing_unbind_leaves_unbound, opengl_mode, spec_bound_vao_after, spec_opengl_mode,
};
use crate::vertex::{VertexComponentFormat, all_supported, spec_vertex_weight};

verus! {

/// The commands a buffered construction path emits for vertex format
/// `formats`, vertex-array-state `vao` and vertex buffer `vbo`: bind the
/// vertex-array-state, bind the vertex buffer and run the layout binder over
/// it, then, for indexed geometry, bind the index buffer into the
/// vertex-array-state, and unbind the vertex-array-state last.
pub open spec fn spec_new_commands(
    formats: Seq<VertexComponentFormat>,
    vao: u32,
    vbo: u32,
    indices: Option<(usize, u32)>,
) -> Seq<DeviceCommand> {
    let head = seq![
        DeviceCommand::BindVertexArray(vao),
        (DeviceCommand::BindBuffer { target: GL_ARRAY_BUFFER, buffer: vbo }),
    ] + spec_pointer_commands(formats);
    match indices {
        Some((_, ibo)) => head + seq![
            (DeviceCommand::BindBuffer { target: GL_ELEMENT_ARRAY_BUFFER, buffer: ibo }),
            DeviceCommand::BindVertexArray(0),
        ],
        None => head + seq![DeviceCommand::BindVertexArray(0)],
    }
}

/// The commands the attributeless construction path emits: bind the fresh
/// vertex-array-state and unbind it again, touching no buffer at all.
pub open spec fn spec_attributeless_commands(vao: u32) -> Seq<DeviceCommand> {
    seq![DeviceCommand::BindVertexArray(vao), DeviceCommand::BindVertexArray(0)]
}

/// Law: a buffered construction path leaves the device with no
/// vertex-array-state active, whatever was active before it ran, so
/// construction leaks no binding state into unrelated later calls.
pub proof fn lemma_new_leaves_unbound(
    init: u32,
    formats: Seq<VertexComponentFormat>,
    vao: u32,
    vbo: u32,
    indices: Option<(usize, u32)>,
)
    ensures
        spec_bound_vao_after(init, spec_new_commands(formats, vao, vbo, indices)) == 0,
{
    let cmds = spec_new_commands(formats, vao, vbo, indices);
    assert(cmds.last() == DeviceCommand::BindVertexArray(0));
    lemma_trailing_unbind_leaves_unbound(init, cmds);
}

/// Law: the attributeless construction path leaves the device with no
/// vertex-array-state active, whatever was active before it ran.
pub proof fn lemma_attributeless_leaves_unbound(init: u32, vao: u32)
    ensures
        spec_bound_vao_after(init, spec_attributeless_commands(vao)) == 0,
{
    lemma_trailing_unbind_leaves_unbound(init, spec_attributeless_commands(vao));
}

/// What a draw call dispatches on: the counts and owned handles fixed at
/// construction, one variant per construction path.
#[derive(Clone, Copy, Debug, PartialEq, Eq, Structural)]
pub enum RenderKind {
    /// Indexed geometry: draws walk `ind_nb` indices from the index buffer.
    Indexed { ind_nb: usize, vbo: u32, ibo: u32 },
    /// Plain geometry: draws walk `vert_nb` vertices from the vertex buffer.
    NonIndexed { vert_nb: usize, vbo: u32 },
    /// No buffers at all: draws still cover `vert_nb` vertices, and a shader
    /// synthesizes the geometry from the vertex index alone.
    Attributeless { vert_nb: usize },
}

/// One GPU-resident tessellation: a vertex-array-state handle, the list of
/// device buffers it owns, and the draw parameters fixed at construction.
/// Immutable after construction; destroyed exactly once, by value.
#[derive(Debug)]
pub struct GLTess {
    /// The vertex-array-state handle the draws rebind.
    pub vao: u32,
    /// Every device buffer this tessellation owns, in creation order:
    /// vertex buffer first, then the index buffer if there is one.
    pub buffers: Vec<u32>,
    /// The primitive topology, fixed at construction.
    pub mode: Mode,
    /// The counts and handles the draw dispatcher switches on.
    pub kind: RenderKind,
}

/// The commands that apply a point or line size: for the point mode a
/// point-size command, for the line modes a line-width command, for every
/// other mode nothing. A missing size means 1.0 (its IEEE-754 bits are
/// [`DEFAULT_SIZE_BITS`]).
pub open spec fn spec_size_commands(mode: Mode, size_bits: Option<u32>) -> Seq<DeviceCommand> {
    let bits = match size_bits {
        Some(b) => b,
        None => DEFAULT_SIZE_BITS,
    };
    match mode {
        Mode::Point => seq![(DeviceCommand::SetPointSize { size_bits: bits })],
        Mode::Line | Mode::LineStrip => seq![(DeviceCommand::SetLineWidth { size_bits: bits })],
        _ => Seq::empty(),
    }
}

/// The one draw call a tessellation of kind `kind` issues for `instances`
/// instances: indexed kinds draw over the stored index count, the others
/// over the stored vertex count; one instance selects the single variant,
/// more than one the instanced variant. Zero instances is a fatal invocation
/// error and selects nothing.
pub open spec fn spec_draw_command(kind: RenderKind, mode: Mode, instances: u32) -> DeviceCommand {
    match kind {
        RenderKind::Indexed { ind_nb, .. } =>
            if instances == 1 {
                (DeviceCommand::DrawElements { mode: spec_opengl_mode(mode), count: ind_nb })
            } else {
                (DeviceCommand::DrawElementsInstanced {
                    mode: spec_opengl_mode(mode),
                    count: ind_nb,
                    instances,
                })
            },
        RenderKind::NonIndexed { vert_nb, .. } | RenderKind::Attributeless { vert_nb } =>
            if instances == 1 {
                (DeviceCommand::DrawArrays { mode: spec_opengl_mode(mode), first: 0, count: vert_nb })
            } else {
                (DeviceCommand::DrawArraysInstanced {
                    mode: spec_opengl_mode(mode),
                    first: 0,
                    count: vert_nb,
                    instances,
                })
            },
    }
}

/// The commands that apply a point or line size, as data.
pub fn set_point_line_size(mode: Mode, size_bits: Option<u32>) -> (r: Vec<DeviceCommand>)
    ensures
        r@ == spec_size_commands(mode, size_bits),
{
    let bits = match size_bits {
        Some(b) => b,
        None => DEFAULT_SIZE_BITS,
    };
    let mut r: Vec<DeviceCommand> = Vec::new();
    match mode {
        Mode::Point => {
            r.push(DeviceCommand::SetPointSize { size_bits: bits });
        },
        Mode::Line | Mode::LineStrip => {
            r.push(DeviceCommand::SetLineWidth { size_bits: bits });
        },
        _ => {},
    }
    proof {
        assert(r@ =~= spec_size_commands(mode, size_bits));
    }
    r
}

impl GLTess {
    /// The draw routine's captured handles always equal the owned-handle
    /// list: an indexed tessellation owns exactly its vertex and index
    /// buffers, a plain one exactly its vertex buffer, an attributeless one
    /// nothing. Established by every constructor; nothing after construction
    /// can break it, since a tessellation is never mutated.
    pub open spec fn wf(self) -> bool {
        match self.kind {
            RenderKind::Indexed { vbo, ibo, .. } => self.buffers@ == seq![vbo, ibo],
            RenderKind::NonIndexed { vbo, .. } => self.buffers@ == seq![vbo],
            RenderKind::Attributeless { .. } => self.buffers@ == Seq::<u32>::empty(),
        }
    }

    /// Build a tessellation around handles the device has already assigned:
    /// `vao` for the vertex-array-state, `vbo` for the filled vertex buffer
    /// holding `vert_nb` vertices laid out as `formats` says, and, for
    /// indexed geometry, the filled index buffer and its index count.
    ///
    /// Takes ownership of every handle it is given, and emits exactly the
    /// commands that wire them up: bind the vertex-array-state, bind the
    /// vertex buffer and run the layout binder over it, bind the index
    /// buffer into the vertex-array-state if there is one, and unbind the
    /// vertex-array-state again, so construction leaks no binding state.
    pub fn new(
        mode: Mode,
        formats: &Vec<VertexComponentFormat>,
        vert_nb: usize,
        vao: u32,
        vbo: u32,
        indices: Option<(usize, u32)>,
    ) -> (r: (GLTess, Vec<DeviceCommand>))
        requires
            all_supported(formats@),
            spec_vertex_weight(formats@) <= u32::MAX,
            formats@.len() <= u32::MAX,
        ensures
            r.0.wf(),
            r.0.vao == vao,
            r.0.mode == mode,
            r.1@ == spec_new_commands(formats@, vao, vbo, indices),
            (match indices {
                Some((ind_nb, ibo)) => {
                    &&& r.0.kind == (RenderKind::Indexed { ind_nb, vbo, ibo })
                    &&& r.0.buffers@ == seq![vbo, ibo]
                },
                None => {
                    &&& r.0.kind == (RenderKind::NonIndexed { vert_nb, vbo })
                    &&& r.0.buffers@ == seq![vbo]
                },
            }),
    {
        let mut cmds: Vec<DeviceCommand> = Vec::new();
        cmds.push(DeviceCommand::BindVertexArray(vao));
        cmds.push(DeviceCommand::BindBuffer { target: GL_ARRAY_BUFFER, buffer: vbo });
        let mut pointers = set_vertex_pointers(formats);
        cmds.append(&mut pointers);
        match indices {
            Some((ind_nb, ibo)) => {
                cmds.push(DeviceCommand::BindBuffer {
                    target: GL_ELEMENT_ARRAY_BUFFER,
                    buffer: ibo,
                });
                cmds.push(DeviceCommand::BindVertexArray(0));
                let mut buffers: Vec<u32> = Vec::new();
                buffers.push(vbo);
                buffers.push(ibo);
                let tess = GLTess {
                    vao,
                    buffers,
                    mode,
                    kind: RenderKind::Indexed { ind_nb, vbo, ibo },
                };
                proof {
                    assert(cmds@ =~= spec_new_commands(formats@, vao, vbo, indices));
                    assert(tess.buffers@ =~= seq![vbo, ibo]);
                }
                (tess, cmds)
            },
            None => {
                cmds.push(DeviceCommand::BindVertexArray(0));
                let mut buffers: Vec<u32> = Vec::new();
                buffers.push(vbo);
                let tess = GLTess {
                    vao,
                    buffers,
                    mode,
                    kind: RenderKind::NonIndexed { vert_nb, vbo },
                };
                proof {
                    assert(cmds@ =~= spec_new_commands(formats@, vao, vbo, indices));
                    assert(tess.buffers@ =~= seq![vbo]);
                }
                (tess, cmds)
            },
        }
    }

    /// Build a tessellation with no buffers at all around a fresh
    /// vertex-array-state handle: draws will cover `vert_nb` vertices with
    /// no bound data. Emits only the bind and unbind of the
    /// vertex-array-state, so construction leaks no binding state.
    pub fn attributeless(mode: Mode, vert_nb: usize, vao: u32) -> (r: (GLTess, Vec<DeviceCommand>))
        ensures
            r.0.wf(),
            r.0.vao == vao,
            r.0.mode == mode,
            r.0.kind == (RenderKind::Attributeless { vert_nb }),
            r.0.buffers@ == Seq::<u32>::empty(),
            r.1@ == spec_attributeless_commands(vao),
    {
        let mut cmds: Vec<DeviceCommand> = Vec::new();
        cmds.push(DeviceCommand::BindVertexArray(vao));
        cmds.push(DeviceCommand::BindVertexArray(0));
        let tess = GLTess {
            vao,
            buffers: Vec::new(),
            mode,
            kind: RenderKind::Attributeless { vert_nb },
        };
        proof {
            assert(cmds@ =~= spec_attributeless_commands(vao));
        }
        (tess, cmds)
    }

    /// One frame's draw: rebind this tessellation's vertex-array-state
    /// (the device's active binding is shared state and may have moved since
    /// the last call), apply the point or line size if the mode has one, and
    /// issue the one draw call [`spec_draw_command`] selects. `size_bits`
    /// holds the IEEE-754 bits of the `f32` point size or line width.
    /// Drawing zero instances is a fatal invocation error and is excluded.
    pub fn draw(&self, size_bits: Option<u32>, instances: u32) -> (r: Vec<DeviceCommand>)
        requires
            instances >= 1,
        ensures
            r@ == seq![DeviceCommand::BindVertexArray(self.vao)]
                + spec_size_commands(self.mode, size_bits)
                + seq![spec_draw_command(self.kind, self.mode, instances)],
    {
        let mut r: Vec<DeviceCommand> = Vec::new();
        r.push(DeviceCommand::BindVertexArray(self.vao));
        let mut size_cmds = set_point_line_size(self.mode, size_bits);
        r.append(&mut size_cmds);
        let gl_mode = opengl_mode(self.mode);
        match self.kind {
            RenderKind::Indexed { ind_nb, .. } => {
                if instances == 1 {
                    r.push(DeviceCommand::DrawElements { mode: gl_mode, count: ind_nb });
                } else {
                    r.push(DeviceCommand::DrawElementsInstanced {
                        mode: gl_mode,
                        count: ind_nb,
                        instances,
                    });
                }
            },
            RenderKind::NonIndexed { vert_nb, .. } | RenderKind::Attributeless { vert_nb } => {
                if instances == 1 {
                    r.push(DeviceCommand::DrawArrays { mode: gl_mode, first: 0, count: vert_nb });
                } else {
                    r.push(DeviceCommand::DrawArraysInstanced {
                        mode: gl_mode,
                        first: 0,
                        count: vert_nb,
                        instances,
                    });
                }
            },
        }
        proof {
            assert(r@ =~= seq![DeviceCommand::BindVertexArray(self.vao)]
                + spec_size_commands(self.mode, size_bits)
                + seq![spec_draw_command(self.kind, self.mode, instances)]);
        }
        r
    }

    /// Release every device resource this tessellation owns: exactly one
    /// release of the vertex-array-state handle and, when any buffers are
    /// owned, exactly one batched release naming all of them; a tessellation
    /// without buffers issues no buffer release at all. Consumes the
    /// tessellation, so it can be destroyed only once and never used after.
    pub fn destroy(self) -> (r: Vec<DeviceCommand>)
        ensures
            self.buffers@.len() == 0 ==> r@ == seq![DeviceCommand::DeleteVertexArrays(self.vao)],
            self.buffers@.len() > 0 ==> {
                &&& r@.len() == 2
                &&& r@[0] == DeviceCommand::DeleteVertexArrays(self.vao)
                &&& r@[1] matches DeviceCommand::DeleteBuffers(bs) && bs@ == self.buffers@
            },
    {
        let GLTess { vao, buffers, mode: _, kind: _ } = self;
        let mut r: Vec<DeviceCommand> = Vec::new();
        r.push(DeviceCommand::DeleteVertexArrays(vao));
        if buffers.len() > 0 {
            r.push(DeviceCommand::DeleteBuffers(buffers));
        }
        r
    }
}

} // verus!
