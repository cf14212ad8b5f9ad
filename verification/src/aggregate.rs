//! Aggregation of per-chunk mesh streams into combined, draw-ready buffers.
//!
//! Visible chunks are merged in the order given, per transparency class:
//! each chunk's vertices are appended verbatim and its indices are shifted
//! by the running vertex count of that class, so every combined stream stays
//! a valid triangle list with its own independent index space. Non-visible
//! chunks contribute nothing. Callers that want the deterministic batch
//! order hand the chunks over sorted by [`ChunkPosition`]'s lexicographic
//! order.

use vstd::prelude::*;
use crate::block::Transparency;
use crate::chunk::ChunkPosition;
use crate::mesh::ChunkMesh;
use crate::mesh::MeshStream;
use crate::mesh::Vertex;

verus! {

/// A chunk's cached mesh together with its position and the externally
/// decided visibility flag, as the aggregator consumes it.
pub struct MeshedChunk {
    /// Lattice coordinate of the chunk, the key for the stable batch order.
    pub position: ChunkPosition,
    /// Whether the chunk passes the external visibility test.
    pub visible: bool,
    /// The chunk's three mesh streams.
    pub mesh: ChunkMesh,
}

/// The stream of class `tc` of a meshed chunk.
pub open spec fn spec_stream_of(mc: MeshedChunk, tc: Transparency) -> MeshStream {
    match tc {
        Transparency::Opaque => mc.mesh.opaque,
        Transparency::Transparent => mc.mesh.transparent,
        Transparency::Translucent => mc.mesh.translucent,
    }
}

/// Index sequence shifted by a vertex offset.
pub open spec fn spec_shift_indices(inds: Seq<u32>, off: int) -> Seq<u32> {
    inds.map_values(|ix: u32| (ix + off) as u32)
}

/// Vertices of the combined stream of class `tc`: every visible chunk's
/// vertices, in the order given.
pub open spec fn spec_agg_verts(s: Seq<MeshedChunk>, tc: Transparency) -> Seq<Vertex>
    decreases s.len(),
{
    if s.len() == 0 {
        Seq::empty()
    } else {
        spec_agg_verts(s.drop_last(), tc) + (if s.last().visible {
            spec_stream_of(s.last(), tc).vertices@
        } else {
            Seq::empty()
        })
    }
}

/// Indices of the combined stream of class `tc`: every visible chunk's
/// indices, each chunk's shifted by the vertex count the class had
/// accumulated before it.
pub open spec fn spec_agg_indices(s: Seq<MeshedChunk>, tc: Transparency) -> Seq<u32>
    decreases s.len(),
{
    if s.len() == 0 {
        Seq::empty()
    } else {
        spec_agg_indices(s.drop_last(), tc) + (if s.last().visible {
            spec_shift_indices(
                spec_stream_of(s.last(), tc).indices@,
                spec_agg_verts(s.drop_last(), tc).len() as int,
            )
        } else {
            Seq::empty()
        })
    }
}

/// The combined vertex stream of a prefix never outgrows that of the whole
/// sequence.
pub proof fn lemma_agg_verts_prefix_len(s: Seq<MeshedChunk>, tc: Transparency, j: int)
    requires
        0 <= j <= s.len(),
    ensures
        spec_agg_verts(s.take(j), tc).len() <= spec_agg_verts(s, tc).len(),
    decreases s.len() - j,
{
    if j == s.len() {
        assert(s.take(j) =~= s);
    } else {
        lemma_agg_verts_prefix_len(s, tc, j + 1);
        assert(s.take(j + 1).drop_last() =~= s.take(j));
        assert(s.take(j + 1).last() == s[j]);
    }
}

/// Appends one valid stream to a combined stream, shifting its indices by
/// the vertex count accumulated so far.
fn append_stream(dst: &mut MeshStream, src: &MeshStream)
    requires
        src.valid(),
        old(dst).vertices@.len() + src.vertices@.len() <= u32::MAX,
    ensures
        final(dst).vertices@ == old(dst).vertices@ + src.vertices@,
        final(dst).indices@ == old(dst).indices@ + spec_shift_indices(
            src.indices@,
            old(dst).vertices@.len() as int,
        ),
{
    let ghost base_v = dst.vertices@;
    let ghost base_i = dst.indices@;
    let off = dst.vertices.len() as u32;
    let mut k: usize = 0;
    while k < src.vertices.len()
        invariant
            k <= src.vertices@.len(),
            dst.vertices@ == base_v + src.vertices@.take(k as int),
            dst.indices@ == base_i,
        decreases src.vertices@.len() - k,
    {
        let v = src.vertices[k];
        dst.vertices.push(v);
        k = k + 1;
        proof {
            assert(dst.vertices@ =~= base_v + src.vertices@.take(k as int));
        }
    }
    proof {
        assert(src.vertices@.take(src.vertices@.len() as int) == src.vertices@);
    }
    let mut k: usize = 0;
    while k < src.indices.len()
        invariant
            k <= src.indices@.len(),
            src.valid(),
            off as int == base_v.len() as int,
            base_v.len() + src.vertices@.len() <= u32::MAX,
            dst.vertices@ == base_v + src.vertices@,
            dst.indices@ == base_i + spec_shift_indices(src.indices@.take(k as int), off as int),
        decreases src.indices@.len() - k,
    {
        let ix = src.indices[k];
        dst.indices.push(ix + off);
        k = k + 1;
        proof {
            assert(dst.indices@ =~= base_i + spec_shift_indices(
                src.indices@.take(k as int),
                off as int,
            ));
        }
    }
    proof {
        assert(src.indices@.take(src.indices@.len() as int) == src.indices@);
    }
}

/// Merges the streams of all visible chunks, per transparency class, into
/// three combined buffers.
///
/// Vertices are appended verbatim in the order given; each chunk's indices
/// are shifted by the running vertex count of its class, so the result of
/// each class is a valid triangle list over its own vertex buffer, sharing
/// nothing with the other classes.
pub fn aggregate(chunks: &Vec<MeshedChunk>) -> (r: ChunkMesh)
    requires
        forall|j: int| 0 <= j < chunks@.len() ==> (#[trigger] chunks@[j]).mesh.valid(),
        spec_agg_verts(chunks@, Transparency::Opaque).len() <= u32::MAX,
        spec_agg_verts(chunks@, Transparency::Transparent).len() <= u32::MAX,
        spec_agg_verts(chunks@, Transparency::Translucent).len() <= u32::MAX,
    ensures
        r.opaque.vertices@ == spec_agg_verts(chunks@, Transparency::Opaque),
        r.opaque.indices@ == spec_agg_indices(chunks@, Transparency::Opaque),
        r.transparent.vertices@ == spec_agg_verts(chunks@, Transparency::Transparent),
        r.transparent.indices@ == spec_agg_indices(chunks@, Transparency::Transparent),
        r.translucent.vertices@ == spec_agg_verts(chunks@, Transparency::Translucent),
        r.translucent.indices@ == spec_agg_indices(chunks@, Transparency::Translucent),
        r.valid(),
{
    let mut opaque = MeshStream { vertices: Vec::new(), indices: Vec::new() };
    let mut transparent = MeshStream { vertices: Vec::new(), indices: Vec::new() };
    let mut translucent = MeshStream { vertices: Vec::new(), indices: Vec::new() };
    let mut j: usize = 0;
    while j < chunks.len()
        invariant
            j <= chunks@.len(),
            forall|k: int| 0 <= k < chunks@.len() ==> (#[trigger] chunks@[k]).mesh.valid(),
            spec_agg_verts(chunks@, Transparency::Opaque).len() <= u32::MAX,
            spec_agg_verts(chunks@, Transparency::Transparent).len() <= u32::MAX,
            spec_agg_verts(chunks@, Transparency::Translucent).len() <= u32::MAX,
            opaque.vertices@ == spec_agg_verts(chunks@.take(j as int), Transparency::Opaque),
            opaque.indices@ == spec_agg_indices(chunks@.take(j as int), Transparency::Opaque),
            transparent.vertices@ == spec_agg_verts(
                chunks@.take(j as int),
                Transparency::Transparent,
            ),
            transparent.indices@ == spec_agg_indices(
                chunks@.take(j as int),
                Transparency::Transparent,
            ),
            translucent.vertices@ == spec_agg_verts(
                chunks@.take(j as int),
                Transparency::Translucent,
            ),
            translucent.indices@ == spec_agg_indices(
                chunks@.take(j as int),
                Transparency::Translucent,
            ),
            opaque.valid(),
            transparent.valid(),
            translucent.valid(),
        decreases chunks@.len() - j,
    {
        let ghost jj = j as int;
        proof {
            assert(chunks@.take(jj + 1).drop_last() =~= chunks@.take(jj));
            assert(chunks@.take(jj + 1).last() == chunks@[jj]);
            lemma_agg_verts_prefix_len(chunks@, Transparency::Opaque, jj + 1);
            lemma_agg_verts_prefix_len(chunks@, Transparency::Transparent, jj + 1);
            lemma_agg_verts_prefix_len(chunks@, Transparency::Translucent, jj + 1);
        }
        let c = &chunks[j];
        if c.visible {
            append_stream(&mut opaque, &c.mesh.opaque);
            append_stream(&mut transparent, &c.mesh.transparent);
            append_stream(&mut translucent, &c.mesh.translucent);
        } else {
            proof {
                assert(opaque.vertices@ =~= spec_agg_verts(
                    chunks@.take(jj + 1),
                    Transparency::Opaque,
                ));
                assert(opaque.indices@ =~= spec_agg_indices(
                    chunks@.take(jj + 1),
                    Transparency::Opaque,
                ));
                assert(transparent.vertices@ =~= spec_agg_verts(
                    chunks@.take(jj + 1),
                    Transparency::Transparent,
                ));
                assert(transparent.indices@ =~= spec_agg_indices(
                    chunks@.take(jj + 1),
                    Transparency::Transparent,
                ));
                assert(translucent.vertices@ =~= spec_agg_verts(
                    chunks@.take(jj + 1),
                    Transparency::Translucent,
                ));
                assert(translucent.indices@ =~= spec_agg_indices(
                    chunks@.take(jj + 1),
                    Transparency::Translucent,
                ));
            }
        }
        j = j + 1;
    }
    proof {
        assert(chunks@.take(chunks@.len() as int) =~= chunks@);
    }
    ChunkMesh { opaque, transparent, translucent }
}

/// Whether the chunks stand in the strict lexicographic position order used
/// for deterministic batches.
pub open spec fn spec_sorted_by_position(s: Seq<MeshedChunk>) -> bool {
    forall|i: int|
        0 <= i < s.len() - 1 ==> (#[trigger] s[i].position).spec_lt(s[i + 1].position)
}

/// Checks that the chunks stand in strictly increasing lexicographic
/// position order, the stable order of a deterministic batch.
pub fn sorted_by_position(chunks: &Vec<MeshedChunk>) -> (r: bool)
    ensures
        r == spec_sorted_by_position(chunks@),
{
    let n = chunks.len();
    if n <= 1 {
        return true;
    }
    let mut i: usize = 0;
    while i < n - 1
        invariant
            n == chunks@.len(),
            1 <= n,
            i <= n - 1,
            forall|k: int|
                0 <= k < i as int ==> (#[trigger] chunks@[k].position).spec_lt(
                    chunks@[k + 1].position,
                ),
        decreases n - 1 - i,
    {
        if !chunks[i].position.lt(&chunks[i + 1].position) {
            return false;
        }
        i = i + 1;
    }
    true
}

/// Law: aggregation is deterministic. [`aggregate`] pins each combined
/// stream to a function of the chunk sequence alone, so two aggregations of
/// the same chunks in the same order yield identical buffers.
pub proof fn lemma_aggregate_deterministic(
    s: Seq<MeshedChunk>,
    tc: Transparency,
    v1: Seq<Vertex>,
    v2: Seq<Vertex>,
    i1: Seq<u32>,
    i2: Seq<u32>,
)
    requires
        v1 == spec_agg_verts(s, tc),
        v2 == spec_agg_verts(s, tc),
        i1 == spec_agg_indices(s, tc),
        i2 == spec_agg_indices(s, tc),
    ensures
        v1 == v2,
        i1 == i2,
{
}

} // verus!
