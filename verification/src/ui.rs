//! What a frame of the browser shows: a borrowed snapshot of the
//! navigator's visible state for the embedder's renderer to draw, and the
//! styles its separators come in. Drawing itself is terminal work and
//! stays with the embedder.

use vstd::prelude::*;
use crate::models::file_entry::FileEntry;
use crate::navigator::NavigatorMode;
use crate::search::SearchMode;

verus! {

/// Everything one frame needs: the listing, the cursor and marks, the
/// scroll window, the active mode and its transient inputs.
pub struct RenderContext<'a> {
    pub current_dir: &'a String,
    pub entries: &'a Vec<FileEntry>,
    pub selected_index: usize,
    pub selected_items: &'a Vec<usize>,
    pub scroll_offset: usize,
    pub terminal_height: u16,
    pub mode: &'a NavigatorMode,
    pub is_root: bool,
    pub pattern_input: &'a String,
    pub status_message: &'a Option<String>,
    pub search_mode: Option<&'a SearchMode>,
    pub preview_focused: bool,
}

/// The renderer handle the embedder draws through.
pub struct Renderer {
}

impl Renderer {
    pub fn new() -> (r: Self) {
        Renderer {  }
    }
}

/// How a horizontal separator is drawn.
pub enum SeparatorStyle {
    Single,
    Double,
    Dotted,
    Dashed,
}

} // verus!
