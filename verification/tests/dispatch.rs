//! Whole draw requests: submission selection, fences and the counter.

use glsync::caps::{Api, Capabilities, ExtensionSet, Version};
use glsync::commands::{Command, EntryPath};
use glsync::draw::{draw, DrawContext};
use glsync::index::{BufferDesc, IndexType, IndicesSource, PrimitiveType};
use glsync::params::{DepthRange, DrawParameters};
use glsync::vertex::VerticesSource;
use glsync::DrawError;

fn desktop_caps() -> Capabilities {
    Capabilities {
        version: Version { api: Api::Gl, major: 4, minor: 5 },
        extensions: ExtensionSet::none(),
        max_patch_vertices: Some(32),
        max_viewport_width: 16384,
        max_viewport_height: 16384,
    }
}

fn plain_sources(len: usize) -> Vec<VerticesSource> {
    vec![VerticesSource::Marker { len, per_instance: false }]
}

#[test]
fn a_successful_draw_advances_the_counter_by_one() {
    let mut ctx = DrawContext::new(desktop_caps());
    assert_eq!(ctx.next_draw_call_id(), 0);
    let sources = plain_sources(3);
    let indices = IndicesSource::NoIndices { primitives: PrimitiveType::TrianglesList };
    let p = DrawParameters::default();
    let mut cmds = Vec::new();
    draw(&mut ctx, &mut cmds, 0, &sources, &indices, 1, 1, &p, (640, 480), 0).unwrap();
    assert_eq!(ctx.next_draw_call_id(), 1);
    draw(&mut ctx, &mut cmds, 0, &sources, &indices, 1, 1, &p, (640, 480), 0).unwrap();
    assert_eq!(ctx.next_draw_call_id(), 2);
}

#[test]
fn a_failed_draw_leaves_the_counter_untouched() {
    let mut ctx = DrawContext::new(desktop_caps());
    let sources = plain_sources(3);
    let indices = IndicesSource::NoIndices { primitives: PrimitiveType::TrianglesList };
    let mut p = DrawParameters::default();
    p.depth_range = DepthRange { near: 2_000_000, far: 0 };
    let mut cmds = Vec::new();
    let r = draw(&mut ctx, &mut cmds, 0, &sources, &indices, 1, 1, &p, (640, 480), 0);
    assert_eq!(r, Err(DrawError::InvalidDepthRange));
    assert_eq!(ctx.next_draw_call_id(), 0);
    assert_eq!(cmds, vec![]);
    // A failure after synchronization leaves the counter alone too.
    let mismatched = vec![
        VerticesSource::Marker { len: 3, per_instance: false },
        VerticesSource::Marker { len: 4, per_instance: false },
    ];
    let r2 = draw(&mut ctx, &mut cmds, 0, &mismatched, &indices, 1, 1,
        &DrawParameters::default(), (640, 480), 0);
    assert_eq!(r2, Err(DrawError::VerticesSourcesLengthMismatch));
    assert_eq!(ctx.next_draw_call_id(), 0);
}

#[test]
fn a_plain_draw_ends_with_its_submission() {
    let mut ctx = DrawContext::new(desktop_caps());
    let sources = plain_sources(12);
    let indices = IndicesSource::NoIndices { primitives: PrimitiveType::LineStrip };
    let mut cmds = Vec::new();
    draw(&mut ctx, &mut cmds, 5, &sources, &indices, 9, 4, &DrawParameters::default(),
        (640, 480), 0).unwrap();
    assert_eq!(
        cmds.last(),
        Some(&Command::DrawArrays { primitives: 0x0003, first: 0, count: 12 })
    );
    assert!(cmds.contains(&Command::BindDrawFramebuffer { framebuffer: 5 }));
    assert!(cmds.contains(&Command::UseProgram { program: 9 }));
    assert!(cmds.contains(&Command::BindUniforms { uniforms: 4 }));
}

#[test]
fn instanced_draws_use_the_instanced_command() {
    let mut ctx = DrawContext::new(desktop_caps());
    let sources = vec![
        VerticesSource::Marker { len: 6, per_instance: false },
        VerticesSource::Marker { len: 10, per_instance: true },
    ];
    let indices = IndicesSource::NoIndices { primitives: PrimitiveType::TrianglesList };
    let mut cmds = Vec::new();
    draw(&mut ctx, &mut cmds, 0, &sources, &indices, 1, 1, &DrawParameters::default(),
        (640, 480), 0).unwrap();
    assert_eq!(
        cmds.last(),
        Some(&Command::DrawArraysInstanced {
            primitives: 0x0004,
            first: 0,
            count: 6,
            instances: 10,
        })
    );
}

#[test]
fn indexed_draws_carry_type_count_and_offset() {
    let mut ctx = DrawContext::new(desktop_caps());
    let sources = plain_sources(100);
    let indices = IndicesSource::IndexBuffer {
        buffer: BufferDesc { id: 77, elements_count: 36, offset_bytes: 8, fenced: false },
        data_type: IndexType::U16,
        primitives: PrimitiveType::TrianglesList,
    };
    let mut cmds = Vec::new();
    draw(&mut ctx, &mut cmds, 0, &sources, &indices, 1, 1, &DrawParameters::default(),
        (640, 480), 0).unwrap();
    assert_eq!(
        cmds.last(),
        Some(&Command::DrawElements {
            primitives: 0x0004,
            count: 36,
            index_type: 0x1403,
            offset: 8,
        })
    );
}

#[test]
fn base_vertex_uses_the_core_path_where_available() {
    let mut ctx = DrawContext::new(desktop_caps());
    let sources = plain_sources(100);
    let indices = IndicesSource::IndexBuffer {
        buffer: BufferDesc { id: 1, elements_count: 30, offset_bytes: 0, fenced: false },
        data_type: IndexType::U32,
        primitives: PrimitiveType::TrianglesList,
    };
    let mut cmds = Vec::new();
    draw(&mut ctx, &mut cmds, 0, &sources, &indices, 1, 1, &DrawParameters::default(),
        (640, 480), 7).unwrap();
    assert_eq!(
        cmds.last(),
        Some(&Command::DrawElementsBaseVertex {
            path: EntryPath::Core,
            primitives: 0x0004,
            count: 30,
            index_type: 0x1405,
            offset: 0,
            base_vertex: 7,
        })
    );
}

#[test]
fn base_vertex_falls_back_to_the_extension_path() {
    let mut caps = desktop_caps();
    caps.version = Version { api: Api::GlEs, major: 3, minor: 0 };
    caps.extensions.gl_oes_draw_elements_base_vertex = true;
    let mut ctx = DrawContext::new(caps);
    let sources = plain_sources(100);
    let indices = IndicesSource::IndexBuffer {
        buffer: BufferDesc { id: 1, elements_count: 30, offset_bytes: 0, fenced: false },
        data_type: IndexType::U32,
        primitives: PrimitiveType::TrianglesList,
    };
    let mut cmds = Vec::new();
    draw(&mut ctx, &mut cmds, 0, &sources, &indices, 1, 1, &DrawParameters::default(),
        (640, 480), 7).unwrap();
    assert!(matches!(
        cmds.last(),
        Some(&Command::DrawElementsBaseVertex { path: EntryPath::Ext, base_vertex: 7, .. })
    ));
}

#[test]
fn base_vertex_is_forced_to_zero_without_support() {
    let mut caps = desktop_caps();
    caps.version = Version { api: Api::GlEs, major: 3, minor: 0 };
    let mut ctx = DrawContext::new(caps);
    let sources = plain_sources(100);
    let indices = IndicesSource::IndexBuffer {
        buffer: BufferDesc { id: 1, elements_count: 30, offset_bytes: 0, fenced: false },
        data_type: IndexType::U8,
        primitives: PrimitiveType::TrianglesList,
    };
    let mut cmds = Vec::new();
    draw(&mut ctx, &mut cmds, 0, &sources, &indices, 1, 1, &DrawParameters::default(),
        (640, 480), 7).unwrap();
    assert_eq!(
        cmds.last(),
        Some(&Command::DrawElements {
            primitives: 0x0004,
            count: 30,
            index_type: 0x1401,
            offset: 0,
        })
    );
}

#[test]
fn multidraw_paths_bind_the_command_buffer_and_take_no_base_vertex() {
    let mut ctx = DrawContext::new(desktop_caps());
    let sources = vec![
        VerticesSource::Marker { len: 10, per_instance: false },
        VerticesSource::Marker { len: 12, per_instance: false },
    ];
    // The unresolved vertex count is no failure here: the indirect path
    // needs none.
    let indices = IndicesSource::MultidrawArray {
        buffer: BufferDesc { id: 50, elements_count: 4, offset_bytes: 16, fenced: false },
        primitives: PrimitiveType::Points,
    };
    let mut cmds = Vec::new();
    draw(&mut ctx, &mut cmds, 0, &sources, &indices, 1, 1, &DrawParameters::default(),
        (640, 480), 9).unwrap();
    let n = cmds.len();
    assert_eq!(cmds[n - 2], Command::BindDrawIndirectBuffer { buffer: 50 });
    assert_eq!(
        cmds[n - 1],
        Command::MultiDrawArraysIndirect { primitives: 0x0000, offset: 16, count: 4 }
    );
}

#[test]
fn indexed_multidraw_uses_the_command_buffer_description() {
    let mut ctx = DrawContext::new(desktop_caps());
    let sources = plain_sources(64);
    let indices = IndicesSource::MultidrawElement {
        commands: BufferDesc { id: 60, elements_count: 2, offset_bytes: 0, fenced: true },
        indices: BufferDesc { id: 61, elements_count: 600, offset_bytes: 0, fenced: true },
        data_type: IndexType::U16,
        primitives: PrimitiveType::TriangleStrip,
    };
    let mut cmds = Vec::new();
    draw(&mut ctx, &mut cmds, 0, &sources, &indices, 1, 1, &DrawParameters::default(),
        (640, 480), 0).unwrap();
    let n = cmds.len();
    // Both externally-owned buffers get their fences, after submission.
    assert_eq!(cmds[n - 2], Command::InsertFence { buffer: 60 });
    assert_eq!(cmds[n - 1], Command::InsertFence { buffer: 61 });
    assert_eq!(
        cmds[n - 3],
        Command::MultiDrawElementsIndirect {
            primitives: 0x0005,
            index_type: 0x1403,
            offset: 0,
            count: 2,
        }
    );
}

#[test]
fn fences_cover_every_touched_buffer_in_order() {
    let mut ctx = DrawContext::new(desktop_caps());
    let sources = vec![
        VerticesSource::VertexBuffer {
            buffer: BufferDesc { id: 10, elements_count: 3, offset_bytes: 0, fenced: true },
            per_instance: false,
        },
        VerticesSource::VertexBuffer {
            buffer: BufferDesc { id: 11, elements_count: 3, offset_bytes: 0, fenced: false },
            per_instance: false,
        },
        VerticesSource::VertexBuffer {
            buffer: BufferDesc { id: 12, elements_count: 3, offset_bytes: 0, fenced: true },
            per_instance: false,
        },
    ];
    let indices = IndicesSource::IndexBuffer {
        buffer: BufferDesc { id: 13, elements_count: 3, offset_bytes: 0, fenced: true },
        data_type: IndexType::U16,
        primitives: PrimitiveType::TrianglesList,
    };
    let mut cmds = Vec::new();
    draw(&mut ctx, &mut cmds, 0, &sources, &indices, 1, 1, &DrawParameters::default(),
        (640, 480), 0).unwrap();
    let n = cmds.len();
    assert_eq!(cmds[n - 3], Command::InsertFence { buffer: 10 });
    assert_eq!(cmds[n - 2], Command::InsertFence { buffer: 12 });
    assert_eq!(cmds[n - 1], Command::InsertFence { buffer: 13 });
}

#[test]
fn no_index_draw_without_a_count_fails_late() {
    let mut ctx = DrawContext::new(desktop_caps());
    let sources: Vec<VerticesSource> = vec![];
    let indices = IndicesSource::NoIndices { primitives: PrimitiveType::TrianglesList };
    let mut cmds = Vec::new();
    let r = draw(&mut ctx, &mut cmds, 0, &sources, &indices, 1, 1, &DrawParameters::default(),
        (640, 480), 0);
    assert_eq!(r, Err(DrawError::VerticesSourcesLengthMismatch));
}

#[test]
fn patches_need_tessellation_support() {
    let mut caps = desktop_caps();
    caps.max_patch_vertices = None;
    let mut ctx = DrawContext::new(caps);
    let sources = plain_sources(9);
    let indices = IndicesSource::NoIndices {
        primitives: PrimitiveType::Patches { vertices_per_patch: 3 },
    };
    let mut cmds = Vec::new();
    let r = draw(&mut ctx, &mut cmds, 0, &sources, &indices, 1, 1, &DrawParameters::default(),
        (640, 480), 0);
    assert_eq!(r, Err(DrawError::TessellationNotSupported));
}

#[test]
fn patch_sizes_are_bounded_by_the_device() {
    let mut ctx = DrawContext::new(desktop_caps());
    let sources = plain_sources(9);
    let too_big = IndicesSource::NoIndices {
        primitives: PrimitiveType::Patches { vertices_per_patch: 33 },
    };
    let mut cmds = Vec::new();
    let r = draw(&mut ctx, &mut cmds, 0, &sources, &too_big, 1, 1, &DrawParameters::default(),
        (640, 480), 0);
    assert_eq!(r, Err(DrawError::UnsupportedVerticesPerPatch));
    let zero = IndicesSource::NoIndices {
        primitives: PrimitiveType::Patches { vertices_per_patch: 0 },
    };
    let r2 = draw(&mut ctx, &mut cmds, 0, &sources, &zero, 1, 1, &DrawParameters::default(),
        (640, 480), 0);
    assert_eq!(r2, Err(DrawError::UnsupportedVerticesPerPatch));
}

#[test]
fn an_accepted_patch_size_reaches_the_device() {
    let mut ctx = DrawContext::new(desktop_caps());
    let sources = plain_sources(9);
    let indices = IndicesSource::NoIndices {
        primitives: PrimitiveType::Patches { vertices_per_patch: 9 },
    };
    let mut cmds = Vec::new();
    draw(&mut ctx, &mut cmds, 0, &sources, &indices, 1, 1, &DrawParameters::default(),
        (640, 480), 0).unwrap();
    assert!(cmds.contains(&Command::PatchParameter { pname: 0x8E72, value: 9 }));
    assert_eq!(
        cmds.last(),
        Some(&Command::DrawArrays { primitives: 0x000E, first: 0, count: 9 })
    );
}
