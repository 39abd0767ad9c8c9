use crate::editor::EditBuffer;
use vstd::prelude::*;

verus! {

/// The interaction mode that decides where a key goes.
#[derive(Clone, Copy, Debug, PartialEq, Eq, Structural)]
pub enum ViewMode {
    ListView,
    ContentView,
    Rename,
    Create,
    FileEdit,
}

/// The single-line name prompt of the rename and create modes.
#[derive(Debug)]
pub struct Input {
    pub content: Vec<char>,
}

/// The number of colour pairs the display cycles through.
pub const COLOR_COUNT: usize = 9;

/// The state owned by the interactive loop: the mode, the name prompt, the
/// edit buffer, the scroll offsets of the content view, the palette index and
/// the exit flag.
#[derive(Debug)]
pub struct FileScout {
    pub input: Input,
    pub editor: EditBuffer,
    pub text_scroll_y: usize,
    pub text_scroll_x: usize,
    pub color_index: usize,
    pub mode: ViewMode,
    pub exit: bool,
}

impl FileScout {
    pub open spec fn wf(&self) -> bool {
        &&& self.editor.wf()
        &&& self.color_index < COLOR_COUNT
    }

    /// The state at start: browsing, nothing typed, nothing scrolled.
    pub fn new() -> (r: FileScout)
        ensures
            r.wf(),
            r.mode == ViewMode::ListView,
            r.input.content@.len() == 0,
            r.text_scroll_x == 0,
            r.text_scroll_y == 0,
            r.color_index == 0,
            !r.exit,
    {
        FileScout {
            input: Input { content: Vec::new() },
            editor: EditBuffer::new(),
            text_scroll_y: 0,
            text_scroll_x: 0,
            color_index: 0,
            mode: ViewMode::ListView,
            exit: false,
        }
    }

    /// Opens `text`, read from the selected file, in the edit buffer.
    pub fn begin_edit(&mut self, text: &Vec<char>)
        requires
            old(self).wf(),
        ensures
            final(self).wf(),
            final(self).mode == ViewMode::FileEdit,
            final(self).editor@.lines == crate::editor::split_lines(text@),
            final(self).editor@.row == 0,
            final(self).editor@.col == 0,
            final(self).color_index == old(self).color_index,
            final(self).exit == old(self).exit,
    {
        self.editor = EditBuffer::from_text(text);
        self.mode = ViewMode::FileEdit;
    }

    /// Leaves a text-entry mode: the prompt is emptied and browsing resumes.
    pub fn reset_mode(&mut self)
        requires
            old(self).wf(),
        ensures
            final(self).wf(),
            final(self).mode == ViewMode::ListView,
            final(self).input.content@.len() == 0,
            final(self).editor == old(self).editor,
            final(self).text_scroll_x == old(self).text_scroll_x,
            final(self).text_scroll_y == old(self).text_scroll_y,
            final(self).color_index == old(self).color_index,
            final(self).exit == old(self).exit,
    {
        self.input.content = Vec::new();
        self.mode = ViewMode::ListView;
    }
}

} // verus!
