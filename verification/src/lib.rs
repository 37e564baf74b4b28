//! Retrieval-augmented chat pipeline: chunking a question into overlapping
//! token windows, decoding vector-search results into a cited context block,
//! building the generation prompt, and managing chat sessions that thread an
//! opaque continuation state through successive turns.

pub mod chat;
pub mod chunk;
pub mod context;
pub mod decimal;
pub mod ids;
pub mod prompt;
pub mod registration;
pub mod session;
pub mod tokenize;
