//! Procedural voxel terrain: deterministic column classification, per-chunk
//! voxel generation, face-culled meshing with cross-chunk occlusion, and
//! aggregation of per-chunk mesh streams into draw-ready buffers, one per
//! transparency class.

pub mod aggregate;
pub mod block;
pub mod chunk;
pub mod mesh;
pub mod terrain;

pub use aggregate::aggregate;
pub use aggregate::MeshedChunk;
pub use block::Block;
pub use block::BlockProperties;
pub use block::MeshType;
pub use block::Transparency;
pub use chunk::generate_chunk;
pub use chunk::Chunk;
pub use chunk::ChunkPosition;
pub use chunk::VoxelCell;
pub use mesh::build;
pub use mesh::ChunkMesh;
pub use mesh::MeshStream;
pub use mesh::NeighborSet;
pub use mesh::Vertex;
pub use terrain::classify;
pub use terrain::ColumnSample;
