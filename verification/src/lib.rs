//! A small code-generation pipeline: prompts are assembled from templates,
//! handed to one of several interchangeable model backends, and the code
//! contained in the raw completions is extracted for use as final output.
//!
//! The verified core is pure logic: prompt construction and rendering,
//! backend capability descriptions and argument validation, the bounded
//! FIFO request queue that serializes dispatch, and the tolerant parser
//! that extracts a code block from unstructured model output. All I/O
//! (files, processes, sockets) lives outside this crate.

pub mod errors;
pub mod output_parser;
pub mod prompt_builder;
pub mod prompts;
pub mod provider;
pub mod registry;
pub mod relay;
pub mod text;
