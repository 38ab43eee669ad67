//! A render-graph compiler: labelled descriptions of buffers, textures, bind
//! groups and shader passes are checked and resolved into an ordered list of
//! passes that address their resources by index.

pub mod descriptor;
pub mod error;
pub mod label;
pub mod resolve;
pub mod compile;
pub mod node;
pub mod order;
pub mod pipeline;
pub mod compiled;
pub mod rebuild;
pub mod feed;
pub mod dynamic;
pub mod mesh;
pub mod laws;
pub mod def_render;
pub mod deferred_valid;
pub mod visual;
pub mod visual_valid;
pub mod debug;
pub mod frame;
