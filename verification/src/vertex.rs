//! The vertex side of a draw request: the shapes a vertex source can
//! take, and the reconciliation of heterogeneous sources into one
//! vertex count and one instance count.

use vstd::prelude::*;
use crate::commands::Command;
use crate::index::BufferDesc;
use crate::DrawError;

verus! {

/// One source of vertex attributes.
#[derive(Clone, Copy, PartialEq, Eq, Structural, Debug)]
pub enum VerticesSource {
    /// A dense buffer, advanced once per vertex or once per instance.
    VertexBuffer {
        /// The attribute buffer.
        buffer: BufferDesc,
        /// Whether the buffer advances per instance instead of per
        /// vertex.
        per_instance: bool,
    },
    /// A synthetic length marker carrying no data.
    Marker {
        /// The length the marker asserts.
        len: usize,
        /// Whether the length counts instances instead of vertices.
        per_instance: bool,
    },
}

/// The element count a source contributes.
pub open spec fn source_len(s: VerticesSource) -> usize {
    match s {
        VerticesSource::VertexBuffer { buffer, .. } => buffer.elements_count,
        VerticesSource::Marker { len, .. } => len,
    }
}

/// Whether a source advances per instance.
pub open spec fn source_per_instance(s: VerticesSource) -> bool {
    match s {
        VerticesSource::VertexBuffer { per_instance, .. } => per_instance,
        VerticesSource::Marker { per_instance, .. } => per_instance,
    }
}

/// The vertex-count candidate while scanning: not yet seen, agreed on
/// one count, or seen a disagreement. A disagreement is not by itself
/// a failure: only the draw path that needs a definite count turns an
/// unresolved candidate into one.
#[derive(Clone, Copy, PartialEq, Eq, Structural, Debug)]
pub enum VertexCandidate {
    /// No per-vertex source seen yet.
    Unset,
    /// Every per-vertex source so far agrees on this count.
    Agreed(usize),
    /// Two per-vertex sources disagreed.
    Unresolved,
}

/// The accumulator of the reconciliation scan.
#[derive(Clone, Copy, PartialEq, Eq, Structural, Debug)]
pub struct ReconcileAcc {
    /// The vertex-count candidate.
    pub vertices: VertexCandidate,
    /// The agreed instance count, once a per-instance source was seen.
    pub instances: Option<usize>,
}

/// What reconciliation yields: one vertex count shared by every
/// per-vertex source, or `None` when there was none or they disagreed;
/// and one instance count shared by every per-instance source, or
/// `None` when there was none.
#[derive(Clone, Copy, PartialEq, Eq, Structural, Debug)]
pub struct ReconciledCounts {
    /// The common vertex count, if resolved.
    pub vertices: Option<usize>,
    /// The common instance count, if any per-instance source exists.
    pub instances: Option<usize>,
}

/// One scan step. A per-vertex disagreement makes the candidate
/// unresolved and the scan goes on; a per-instance disagreement is an
/// immediate failure, because every instanced path needs a definite
/// count before submission.
pub open spec fn reconcile_step(acc: ReconcileAcc, src: VerticesSource)
    -> Result<ReconcileAcc, DrawError> {
    let len = source_len(src);
    if source_per_instance(src) {
        match acc.instances {
            Some(c) => if c != len {
                Err(DrawError::InstancesCountMismatch)
            } else {
                Ok(acc)
            },
            None => Ok(ReconcileAcc { instances: Some(len), ..acc }),
        }
    } else {
        match acc.vertices {
            VertexCandidate::Unset => Ok(
                ReconcileAcc { vertices: VertexCandidate::Agreed(len), ..acc },
            ),
            VertexCandidate::Agreed(c) => if c != len {
                Ok(ReconcileAcc { vertices: VertexCandidate::Unresolved, ..acc })
            } else {
                Ok(acc)
            },
            VertexCandidate::Unresolved => Ok(acc),
        }
    }
}

/// The scan over a suffix of the sources, from a given accumulator.
pub open spec fn reconcile_scan(s: Seq<VerticesSource>, acc: ReconcileAcc)
    -> Result<ReconcileAcc, DrawError>
    decreases s.len(),
{
    if s.len() == 0 {
        Ok(acc)
    } else {
        match reconcile_step(acc, s[0]) {
            Ok(a) => reconcile_scan(s.drop_first(), a),
            Err(e) => Err(e),
        }
    }
}

/// The counts an accumulator resolves to.
pub open spec fn counts_of_acc(acc: ReconcileAcc) -> ReconciledCounts {
    ReconciledCounts {
        vertices: match acc.vertices {
            VertexCandidate::Agreed(c) => Some(c),
            _ => None,
        },
        instances: acc.instances,
    }
}

/// The accumulator the scan starts from.
pub open spec fn empty_acc() -> ReconcileAcc {
    ReconcileAcc { vertices: VertexCandidate::Unset, instances: None }
}

/// What reconciling a source list yields.
pub open spec fn spec_reconcile(s: Seq<VerticesSource>) -> Result<ReconciledCounts, DrawError> {
    match reconcile_scan(s, empty_acc()) {
        Ok(acc) => Ok(counts_of_acc(acc)),
        Err(e) => Err(e),
    }
}

/// Resolves the vertex sources into one vertex count and one instance
/// count, or fails on the first per-instance disagreement.
pub fn reconcile(sources: &Vec<VerticesSource>) -> (r: Result<ReconciledCounts, DrawError>)
    ensures
        r == spec_reconcile(sources@),
{
    let mut acc = ReconcileAcc { vertices: VertexCandidate::Unset, instances: None };
    let n = sources.len();
    let mut i: usize = 0;
    proof {
        assert(sources@.skip(0) =~= sources@);
    }
    while i < n
        invariant
            i <= n,
            n == sources@.len(),
            reconcile_scan(sources@, empty_acc()) == reconcile_scan(sources@.skip(i as int), acc),
        decreases n - i,
    {
        let ghost prefix = sources@.skip(i as int);
        let src = sources[i];
        let len = match src {
            VerticesSource::VertexBuffer { buffer, .. } => buffer.elements_count,
            VerticesSource::Marker { len, .. } => len,
        };
        let per_instance = match src {
            VerticesSource::VertexBuffer { per_instance, .. } => per_instance,
            VerticesSource::Marker { per_instance, .. } => per_instance,
        };
        if per_instance {
            match acc.instances {
                Some(c) => {
                    if c != len {
                        proof {
                            assert(prefix[0] == sources@[i as int]);
                            assert(reconcile_step(acc, prefix[0]) == Err::<ReconcileAcc,
                                DrawError>(DrawError::InstancesCountMismatch));
                        }
                        return Err(DrawError::InstancesCountMismatch);
                    }
                },
                None => {
                    acc = ReconcileAcc { instances: Some(len), ..acc };
                },
            }
        } else {
            match acc.vertices {
                VertexCandidate::Unset => {
                    acc = ReconcileAcc { vertices: VertexCandidate::Agreed(len), ..acc };
                },
                VertexCandidate::Agreed(c) => {
                    if c != len {
                        acc = ReconcileAcc { vertices: VertexCandidate::Unresolved, ..acc };
                    }
                },
                VertexCandidate::Unresolved => {},
            }
        }
        proof {
            assert(prefix[0] == sources@[i as int]);
            assert(prefix.drop_first() =~= sources@.skip(i + 1));
        }
        i = i + 1;
    }
    proof {
        assert(sources@.skip(n as int) =~= Seq::<VerticesSource>::empty());
    }
    Ok(ReconciledCounts {
        vertices: match acc.vertices {
            VertexCandidate::Agreed(c) => Some(c),
            _ => None,
        },
        instances: acc.instances,
    })
}

/// Every count the scan agrees on is the length of one of the scanned
/// sources, so a bound on all source lengths bounds the scan's result.
pub proof fn lemma_reconcile_scan_bounded(s: Seq<VerticesSource>, acc: ReconcileAcc, bound: int)
    requires
        forall|i: int| 0 <= i < s.len() ==> source_len(#[trigger] s[i]) <= bound,
        acc.vertices matches VertexCandidate::Agreed(c) ==> c <= bound,
        acc.instances matches Some(c) ==> c <= bound,
    ensures
        (match reconcile_scan(s, acc) {
            Ok(a) => {
                &&& (a.vertices matches VertexCandidate::Agreed(c) ==> c <= bound)
                &&& (a.instances matches Some(c) ==> c <= bound)
            },
            Err(_) => true,
        }),
    decreases s.len(),
{
    if s.len() != 0 {
        match reconcile_step(acc, s[0]) {
            Ok(a) => {
                assert(source_len(s[0]) <= bound);
                assert(forall|i: int| 0 <= i < s.drop_first().len() ==> source_len(
                    #[trigger] s.drop_first()[i]) <= bound);
                lemma_reconcile_scan_bounded(s.drop_first(), a, bound);
            },
            Err(_) => {},
        }
    }
}

/// A bound on all source lengths bounds both reconciled counts.
pub proof fn lemma_reconcile_bounded(s: Seq<VerticesSource>, bound: int)
    requires
        forall|i: int| 0 <= i < s.len() ==> source_len(#[trigger] s[i]) <= bound,
    ensures
        (match spec_reconcile(s) {
            Ok(c) => {
                &&& (c.vertices matches Some(v) ==> v <= bound)
                &&& (c.instances matches Some(v) ==> v <= bound)
            },
            Err(_) => true,
        }),
{
    lemma_reconcile_scan_bounded(s, empty_acc(), bound);
}

/// The fence commands a source list asks for: one per fenced buffer,
/// in source order.
pub open spec fn vertex_fence_cmds(s: Seq<VerticesSource>) -> Seq<Command>
    decreases s.len(),
{
    if s.len() == 0 {
        Seq::empty()
    } else {
        let head: Seq<Command> = match s[0] {
            VerticesSource::VertexBuffer { buffer, .. } => if buffer.fenced {
                seq![Command::InsertFence { buffer: buffer.id }]
            } else {
                Seq::empty()
            },
            VerticesSource::Marker { .. } => Seq::empty(),
        };
        head + vertex_fence_cmds(s.drop_first())
    }
}

/// Appends a fence-registration command for every fenced vertex buffer.
pub fn emit_vertex_fences(cmds: &mut Vec<Command>, sources: &Vec<VerticesSource>)
    ensures
        final(cmds)@ == old(cmds)@ + vertex_fence_cmds(sources@),
{
    let n = sources.len();
    let mut i: usize = 0;
    proof {
        assert(sources@.skip(0) =~= sources@);
    }
    while i < n
        invariant
            i <= n,
            n == sources@.len(),
            old(cmds)@ + vertex_fence_cmds(sources@) == cmds@ + vertex_fence_cmds(
                sources@.skip(i as int),
            ),
        decreases n - i,
    {
        let ghost prefix = sources@.skip(i as int);
        if let VerticesSource::VertexBuffer { buffer, .. } = sources[i] {
            if buffer.fenced {
                crate::state::emit(cmds, Command::InsertFence { buffer: buffer.id });
            }
        }
        proof {
            assert(prefix[0] == sources@[i as int]);
            assert(prefix.drop_first() =~= sources@.skip(i + 1));
            assert(old(cmds)@ + vertex_fence_cmds(sources@) =~= cmds@ + vertex_fence_cmds(
                sources@.skip(i + 1)));
        }
        i = i + 1;
    }
    proof {
        assert(sources@.skip(n as int) =~= Seq::<VerticesSource>::empty());
        assert(cmds@ =~= old(cmds)@ + vertex_fence_cmds(sources@));
    }
}

/// A recorded instance count that some later per-instance source
/// contradicts makes the scan fail.
pub proof fn lemma_scan_instance_conflict(s: Seq<VerticesSource>, acc: ReconcileAcc, k: int)
    requires
        acc.instances matches Some(c) && 0 <= k < s.len() && source_per_instance(s[k])
            && source_len(s[k]) != c,
    ensures
        reconcile_scan(s, acc) is Err,
    decreases s.len(),
{
    match reconcile_step(acc, s[0]) {
        Ok(a) => {
            assert(a.instances == acc.instances);
            if k > 0 {
                assert(s.drop_first()[k - 1] == s[k]);
                lemma_scan_instance_conflict(s.drop_first(), a, k - 1);
            }
        },
        Err(_) => {},
    }
}

/// Two per-instance sources that disagree on their length make the scan
/// fail, whatever else the list holds and whatever was recorded so far.
pub proof fn lemma_scan_instance_mismatch(s: Seq<VerticesSource>, acc: ReconcileAcc, i: int, j: int)
    requires
        0 <= i < j < s.len(),
        source_per_instance(s[i]),
        source_per_instance(s[j]),
        source_len(s[i]) != source_len(s[j]),
    ensures
        reconcile_scan(s, acc) is Err,
    decreases s.len(),
{
    match reconcile_step(acc, s[0]) {
        Ok(a) => {
            if i == 0 {
                assert(a.instances matches Some(c) && c == source_len(s[0]));
                assert(s.drop_first()[j - 1] == s[j]);
                lemma_scan_instance_conflict(s.drop_first(), a, j - 1);
            } else {
                assert(s.drop_first()[i - 1] == s[i]);
                assert(s.drop_first()[j - 1] == s[j]);
                lemma_scan_instance_mismatch(s.drop_first(), a, i - 1, j - 1);
            }
        },
        Err(_) => {},
    }
}

/// Law: two per-instance sources that disagree on their length fail
/// reconciliation with the instances-mismatch error, regardless of the
/// other sources present. The scan's only failure is that error, raised
/// before any state mutation.
pub proof fn lemma_instance_mismatch_always_fails(s: Seq<VerticesSource>, i: int, j: int)
    requires
        0 <= i < j < s.len(),
        source_per_instance(s[i]),
        source_per_instance(s[j]),
        source_len(s[i]) != source_len(s[j]),
    ensures
        spec_reconcile(s) == Err::<ReconciledCounts, DrawError>(DrawError::InstancesCountMismatch),
{
    lemma_scan_instance_mismatch(s, empty_acc(), i, j);
    lemma_scan_only_instance_error(s, empty_acc());
}

/// The scan's only failure is the instances-mismatch error.
pub proof fn lemma_scan_only_instance_error(s: Seq<VerticesSource>, acc: ReconcileAcc)
    ensures
        reconcile_scan(s, acc) matches Err(e) ==> e == DrawError::InstancesCountMismatch,
    decreases s.len(),
{
    if s.len() != 0 {
        match reconcile_step(acc, s[0]) {
            Ok(a) => {
                lemma_scan_only_instance_error(s.drop_first(), a);
            },
            Err(_) => {},
        }
    }
}

} // verus!
