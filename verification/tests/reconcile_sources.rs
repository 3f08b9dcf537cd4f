//! Reconciliation of heterogeneous vertex sources into counts.

use glsync::index::BufferDesc;
use glsync::vertex::{reconcile, VerticesSource};
use glsync::DrawError;

fn buffer(id: u64, len: usize, per_instance: bool) -> VerticesSource {
    VerticesSource::VertexBuffer {
        buffer: BufferDesc { id, elements_count: len, offset_bytes: 0, fenced: false },
        per_instance,
    }
}

#[test]
fn agreeing_sources_yield_both_counts() {
    let sources = vec![buffer(1, 10, false), buffer(2, 10, false), buffer(3, 5, true)];
    let counts = reconcile(&sources).unwrap();
    assert_eq!(counts.vertices, Some(10));
    assert_eq!(counts.instances, Some(5));
}

#[test]
fn per_vertex_disagreement_is_unresolved_not_fatal() {
    let sources = vec![buffer(1, 10, false), buffer(2, 12, false)];
    let counts = reconcile(&sources).unwrap();
    assert_eq!(counts.vertices, None);
    assert_eq!(counts.instances, None);
}

#[test]
fn per_instance_disagreement_fails_regardless_of_other_sources() {
    let sources = vec![
        buffer(1, 10, false),
        buffer(2, 5, true),
        buffer(3, 10, false),
        buffer(4, 6, true),
    ];
    assert_eq!(reconcile(&sources), Err(DrawError::InstancesCountMismatch));
}

#[test]
fn per_instance_disagreement_fails_alone_too() {
    let sources = vec![buffer(1, 5, true), buffer(2, 6, true)];
    assert_eq!(reconcile(&sources), Err(DrawError::InstancesCountMismatch));
}

#[test]
fn markers_count_like_buffers() {
    let sources = vec![
        VerticesSource::Marker { len: 10, per_instance: false },
        buffer(1, 10, false),
        VerticesSource::Marker { len: 4, per_instance: true },
    ];
    let counts = reconcile(&sources).unwrap();
    assert_eq!(counts.vertices, Some(10));
    assert_eq!(counts.instances, Some(4));
}

#[test]
fn no_sources_yield_no_counts() {
    let sources: Vec<VerticesSource> = vec![];
    let counts = reconcile(&sources).unwrap();
    assert_eq!(counts.vertices, None);
    assert_eq!(counts.instances, None);
}

#[test]
fn unresolved_candidate_stays_unresolved() {
    let sources = vec![buffer(1, 10, false), buffer(2, 12, false), buffer(3, 12, false)];
    let counts = reconcile(&sources).unwrap();
    assert_eq!(counts.vertices, None);
}
