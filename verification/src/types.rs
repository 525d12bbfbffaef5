//! The records a shader definition is made of, field for field as the
//! catalog delivers them.

use vstd::prelude::*;

verus! {

/// A complete shader definition: catalog metadata and its render passes in
/// execution order.
#[derive(Debug, Clone)]
pub struct Shader {
    pub ver: String,
    pub info: ShaderInfo,
    pub renderpass: Vec<RenderPass>,
}

/// Catalog metadata of a shader.
#[derive(Debug, Clone)]
pub struct ShaderInfo {
    pub id: String,
    pub date: String,
    pub viewed: u64,
    pub name: String,
    pub username: String,
    pub description: String,
    pub likes: u64,
    pub published: u64,
    pub flags: u64,
    pub tags: Vec<String>,
    pub hasliked: u64,
    pub use_preview: u64,
}

/// One stage of a shader: its code, what it reads and what it writes.
#[derive(Debug, Clone)]
pub struct RenderPass {
    pub inputs: Vec<RenderPassInput>,
    pub outputs: Vec<RenderPassOutput>,
    pub code: String,
    pub name: String,
    pub description: String,
    /// The stage kind as the catalog spells it: `image`, `sound`, `buffer`, ...
    pub pass_type: String,
}

/// A resource bound to one input channel of a render pass.
#[derive(Debug, Clone)]
pub struct RenderPassInput {
    pub id: u64,
    /// Path of the asset on the catalog's server, starting with a slash.
    pub src: String,
    /// The content class as the catalog spells it: `texture`, `cubemap`, ...
    pub ctype: String,
    pub channel: u64,
    pub sampler: Sampler,
    pub published: u64,
}

/// An output slot of a render pass.
#[derive(Debug, Clone)]
pub struct RenderPassOutput {
    pub id: u64,
    pub channel: u64,
}

/// Sampling settings of an input, kept as the catalog's strings.
#[derive(Debug, Clone)]
pub struct Sampler {
    pub filter: String,
    pub wrap: String,
    pub vflip: String,
    pub srgb: String,
    pub internal: String,
}

/// The envelope in which the catalog delivers a single shader.
#[derive(Debug, Clone)]
pub struct Root {
    pub shader: Shader,
}

} // verus!
