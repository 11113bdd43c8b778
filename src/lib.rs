//! State of a terminal browser for at-sign key files: the panel that has
//! focus, the cursor over the discovered key files, and the dispatch of key
//! presses onto that state.

pub mod app;
pub mod handler;
pub mod logs;
pub mod outside;
