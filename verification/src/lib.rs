//! Core of a headless real-time video compositing engine.
//!
//! A declarative scene description (a graph of [`scene::NodeSpec`] entries) is
//! compiled into render-graph vertices ([`node::Node`]), each owning one
//! polymorphic renderer ([`node::RenderNode`]) and one output buffer
//! ([`texture::NodeTexture`]). Built-in layout transforms are governed by the
//! [`builtin::Builtin`] policy (clear color, output resolution, fallback
//! trigger). Finished frames are handed to the transport stage, whose RTP
//! framing lives in [`payloader`]. The [`markdown`] module renders the
//! declarative type schema as markdown for the API documentation.

pub mod builtin;
pub mod markdown;
pub mod node;
pub mod payloader;
pub mod renderers;
pub mod scene;
pub mod texture;
