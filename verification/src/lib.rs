//! Verified core of a Shadertoy browser: catalog queries, shader source
//! assembly, the ingestion job that decides what to fetch, cache and build,
//! the staged shader transformation, the append-only pipeline registry, the
//! composition of frames and the viewer's navigation.
//!
//! Everything here is pure decision logic over plain values. Network access,
//! the on-disk cache and the GPU are driven by the caller, who performs the
//! commands these state machines hand out and reports back what happened.
//!
//! - [`query`], [`types`]: what is asked of the catalog and what it answers.
//! - [`search`]: a search with its result cache.
//! - [`assemble`], [`layout`], [`digest`]: the source of a pass and where
//!   everything is kept.
//! - [`ingest`], [`schedule`]: the ingestion of one entry, and of how many.
//! - [`decisions`], [`run`], [`rerun`], [`campaign`]: what ingestion is
//!   bound to do, proved over a model of cache, catalog and backend.
//! - [`transform`]: the stages from source to pipeline.
//! - [`registry`], [`compose`], [`viewer`]: pipelines, frames and
//!   navigation.

pub mod text;
pub mod types;
pub mod query;
pub mod digest;
pub mod assemble;
pub mod layout;
pub mod ingest;
pub mod decisions;
pub mod schedule;
pub mod registry;
pub mod transform;
pub mod search;
pub mod viewer;
pub mod compose;
pub mod run;
pub mod rerun;
pub mod campaign;

pub use crate::compose::RenderQuad;
pub use crate::query::{
    QueryError, SearchFilter, SearchParams, SearchQuery, SearchSortOrder, ShaderQuery,
};
pub use crate::registry::RenderPipelineHandle;
pub use crate::types::{
    RenderPass, RenderPassInput, RenderPassOutput, Root, Sampler, Shader, ShaderInfo,
};
