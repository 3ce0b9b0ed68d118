//! Construction, draw dispatch and destruction of tessellations.

use luminance_gl::device::{
    DEFAULT_SIZE_BITS, DeviceCommand, GL_ARRAY_BUFFER, GL_ELEMENT_ARRAY_BUFFER, GL_LINES,
    GL_LINE_STRIP, GL_POINTS, GL_TRIANGLES, GL_TRIANGLE_FAN, GL_TRIANGLE_STRIP, Mode, opengl_mode,
};
use luminance_gl::tessellation::{GLTess, RenderKind};
use luminance_gl::vertex::{Dim, Type, VertexComponentFormat};

fn xyz_format() -> Vec<VertexComponentFormat> {
    vec![VertexComponentFormat { comp_type: Type::Floating, dim: Dim::Dim3, comp_size: 32 }]
}

#[test]
fn mode_tags() {
    assert_eq!(opengl_mode(Mode::Point), GL_POINTS);
    assert_eq!(opengl_mode(Mode::Line), GL_LINES);
    assert_eq!(opengl_mode(Mode::LineStrip), GL_LINE_STRIP);
    assert_eq!(opengl_mode(Mode::Triangle), GL_TRIANGLES);
    assert_eq!(opengl_mode(Mode::TriangleFan), GL_TRIANGLE_FAN);
    assert_eq!(opengl_mode(Mode::TriangleStrip), GL_TRIANGLE_STRIP);
}

#[test]
fn default_size_bits_encode_one() {
    assert_eq!(DEFAULT_SIZE_BITS, 1.0f32.to_bits());
}

#[test]
fn indexed_construction_owns_both_buffers_and_binds_them() {
    let formats = xyz_format();
    let (tess, cmds) = GLTess::new(Mode::Triangle, &formats, 4, 10, 20, Some((6, 30)));
    assert_eq!(tess.vao, 10);
    assert_eq!(tess.buffers, vec![20, 30]);
    assert_eq!(tess.mode, Mode::Triangle);
    assert_eq!(tess.kind, RenderKind::Indexed { ind_nb: 6, vbo: 20, ibo: 30 });
    assert_eq!(
        cmds,
        vec![
            DeviceCommand::BindVertexArray(10),
            DeviceCommand::BindBuffer { target: GL_ARRAY_BUFFER, buffer: 20 },
            DeviceCommand::VertexAttribPointer {
                index: 0,
                size: 3,
                sized_type: 0x1406,
                normalized: false,
                stride: 12,
                offset: 0,
            },
            DeviceCommand::EnableVertexAttribArray(0),
            DeviceCommand::BindBuffer { target: GL_ELEMENT_ARRAY_BUFFER, buffer: 30 },
            DeviceCommand::BindVertexArray(0),
        ]
    );
}

#[test]
fn non_indexed_construction_owns_one_buffer() {
    let formats = xyz_format();
    let (tess, cmds) = GLTess::new(Mode::Triangle, &formats, 4, 10, 20, None);
    assert_eq!(tess.buffers, vec![20]);
    assert_eq!(tess.kind, RenderKind::NonIndexed { vert_nb: 4, vbo: 20 });
    assert_eq!(
        cmds,
        vec![
            DeviceCommand::BindVertexArray(10),
            DeviceCommand::BindBuffer { target: GL_ARRAY_BUFFER, buffer: 20 },
            DeviceCommand::VertexAttribPointer {
                index: 0,
                size: 3,
                sized_type: 0x1406,
                normalized: false,
                stride: 12,
                offset: 0,
            },
            DeviceCommand::EnableVertexAttribArray(0),
            DeviceCommand::BindVertexArray(0),
        ]
    );
}

#[test]
fn indexed_draw_selects_indexed_paths_over_index_count() {
    let formats = xyz_format();
    let (tess, _) = GLTess::new(Mode::Triangle, &formats, 4, 10, 20, Some((6, 30)));
    let single = tess.draw(None, 1);
    assert_eq!(
        single,
        vec![
            DeviceCommand::BindVertexArray(10),
            DeviceCommand::DrawElements { mode: GL_TRIANGLES, count: 6 },
        ]
    );
    let instanced = tess.draw(None, 3);
    assert_eq!(
        instanced,
        vec![
            DeviceCommand::BindVertexArray(10),
            DeviceCommand::DrawElementsInstanced { mode: GL_TRIANGLES, count: 6, instances: 3 },
        ]
    );
}

#[test]
fn non_indexed_draw_selects_array_paths_over_vertex_count() {
    let formats = xyz_format();
    let (tess, _) = GLTess::new(Mode::Triangle, &formats, 4, 10, 20, None);
    let single = tess.draw(None, 1);
    assert_eq!(
        single,
        vec![
            DeviceCommand::BindVertexArray(10),
            DeviceCommand::DrawArrays { mode: GL_TRIANGLES, first: 0, count: 4 },
        ]
    );
    let instanced = tess.draw(None, 2);
    assert_eq!(
        instanced,
        vec![
            DeviceCommand::BindVertexArray(10),
            DeviceCommand::DrawArraysInstanced { mode: GL_TRIANGLES, first: 0, count: 4, instances: 2 },
        ]
    );
}

#[test]
fn attributeless_construction_binds_no_buffer_and_draws_over_count() {
    let (tess, cmds) = GLTess::attributeless(Mode::Triangle, 10, 7);
    assert_eq!(tess.buffers, Vec::<u32>::new());
    assert_eq!(tess.kind, RenderKind::Attributeless { vert_nb: 10 });
    assert_eq!(
        cmds,
        vec![DeviceCommand::BindVertexArray(7), DeviceCommand::BindVertexArray(0)]
    );
    let draw = tess.draw(None, 1);
    assert_eq!(
        draw,
        vec![
            DeviceCommand::BindVertexArray(7),
            DeviceCommand::DrawArrays { mode: GL_TRIANGLES, first: 0, count: 10 },
        ]
    );
}

#[test]
fn point_mode_sets_point_size_with_default_one() {
    let (tess, _) = GLTess::attributeless(Mode::Point, 10, 7);
    let sized = tess.draw(Some(5.0f32.to_bits()), 1);
    assert_eq!(sized[1], DeviceCommand::SetPointSize { size_bits: 5.0f32.to_bits() });
    let unsized_draw = tess.draw(None, 1);
    assert_eq!(unsized_draw[1], DeviceCommand::SetPointSize { size_bits: 1.0f32.to_bits() });
}

#[test]
fn line_modes_set_line_width() {
    let (tess, _) = GLTess::attributeless(Mode::Line, 2, 7);
    let sized = tess.draw(Some(2.5f32.to_bits()), 1);
    assert_eq!(sized[1], DeviceCommand::SetLineWidth { size_bits: 2.5f32.to_bits() });
    let (strip, _) = GLTess::attributeless(Mode::LineStrip, 3, 8);
    let unsized_draw = strip.draw(None, 1);
    assert_eq!(unsized_draw[1], DeviceCommand::SetLineWidth { size_bits: DEFAULT_SIZE_BITS });
}

#[test]
fn triangle_mode_issues_no_size_command() {
    let (tess, _) = GLTess::attributeless(Mode::Triangle, 3, 7);
    let draw = tess.draw(Some(5.0f32.to_bits()), 1);
    assert_eq!(draw.len(), 2);
    assert!(matches!(draw[0], DeviceCommand::BindVertexArray(7)));
    assert!(matches!(draw[1], DeviceCommand::DrawArrays { .. }));
}

#[test]
fn destroying_two_buffers_batches_one_release_call() {
    let formats = xyz_format();
    let (tess, _) = GLTess::new(Mode::Triangle, &formats, 4, 10, 20, Some((6, 30)));
    let cmds = tess.destroy();
    assert_eq!(
        cmds,
        vec![
            DeviceCommand::DeleteVertexArrays(10),
            DeviceCommand::DeleteBuffers(vec![20, 30]),
        ]
    );
}

#[test]
fn destroying_attributeless_releases_only_the_vertex_array() {
    let (tess, _) = GLTess::attributeless(Mode::Triangle, 10, 7);
    let cmds = tess.destroy();
    assert_eq!(cmds, vec![DeviceCommand::DeleteVertexArrays(7)]);
}
