//! A retrieval-augmented question answering core: documents are split into
//! line chunks, each chunk is embedded and stored in a vector index, and a
//! question is answered from the single nearest stored chunk.
//!
//! The services themselves (embedding, vector index, completion) are driven
//! from outside; this crate decides what is asked of them and what their
//! answers mean.
pub mod answer;
pub mod calls;
pub mod files;
pub mod ingest;
