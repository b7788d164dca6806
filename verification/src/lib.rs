use vstd::prelude::*;

pub mod cli;
pub mod clip_path;
pub mod export;
pub mod filter;
pub mod image;
pub mod names;
pub mod paint;
pub mod path;
pub mod phf;
pub mod pixels;
pub mod render_state;
pub mod strings;
pub mod text_chunks;
pub mod text_style;

verus! {
} // verus!
