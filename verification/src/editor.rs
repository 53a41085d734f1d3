use vstd::prelude::*;
use crate::command::{
    EditorCommand, InputEvent, InsertCommand, Mode, NormalCommand, spec_classify,
};
use crate::fragment::FragModel;
use crate::geometry::Size;
use crate::view::{inserted, moved, resized, EditorView};

verus! {

/// The viewport handed to the view: the terminal minus the two rows
/// reserved for the status and message bars.
pub open spec fn view_size(size: Size) -> Size {
    Size {
        height: (if size.height >= 2 {
            size.height - 2
        } else {
            0
        }) as usize,
        width: size.width,
    }
}

/// One editing session: whether it should end, the current mode, the
/// view over the document, and the last-known terminal size.
pub struct Editor {
    pub should_quit: bool,
    pub mode: Mode,
    pub view: EditorView,
    pub terminal_size: Size,
}

impl Editor {
    /// A fresh session over an empty document: `Normal` mode, not
    /// quitting, with the view sized to the terminal minus the bar rows.
    pub fn new(size: Size) -> (e: Editor)
        ensures
            !e.should_quit,
            e.mode == Mode::Normal,
            e.terminal_size == size,
            e.view.buffer@ == Seq::<Seq<FragModel>>::empty(),
            !e.view.buffer.dirty,
            e.view.buffer.file_name is None,
            e.view.size == view_size(size),
            e.view.text_location.line_index == 0,
            e.view.text_location.grapheme_index == 0,
            e.view.scroll_offset.row == 0,
            e.view.scroll_offset.col == 0,
            e.view.needs_redraw,
            e.view.wf(),
    {
        Editor {
            should_quit: false,
            mode: Mode::Normal,
            view: EditorView::new(
                Size { height: size.height.saturating_sub(2), width: size.width },
            ),
            terminal_size: size,
        }
    }

    /// Adopts a new terminal size: the view's viewport becomes the
    /// terminal minus the two bar rows, and its scroll is re-adjusted.
    pub fn resize(&mut self, size: Size)
        requires
            old(self).view.wf(),
        ensures
            final(self).terminal_size == size,
            resized(old(self).view, final(self).view, view_size(size)),
            final(self).view.wf(),
            final(self).mode == old(self).mode,
            final(self).should_quit == old(self).should_quit,
    {
        self.terminal_size = size;
        self.view.resize(Size { height: size.height.saturating_sub(2), width: size.width });
    }

    /// Processes one input event to completion: classifies it under the
    /// current mode and applies the command it maps to. Quit ends the
    /// session; the cancel key returns to `Normal`; a mode change
    /// switches modes; a resize re-sizes the session; movement and
    /// insertion go to the view; a failed classification is ignored and
    /// changes nothing.
    pub fn evaluate_event(&mut self, event: InputEvent)
        requires
            old(self).view.wf(),
        ensures
            final(self).view.wf(),
            match spec_classify(event, old(self).mode) {
                Result::Err(_) => *final(self) == *old(self),
                Result::Ok(cmd) => match cmd {
                    EditorCommand::Quit => {
                        &&& final(self).should_quit
                        &&& final(self).mode == old(self).mode
                        &&& final(self).view == old(self).view
                        &&& final(self).terminal_size == old(self).terminal_size
                    },
                    EditorCommand::Esc => {
                        &&& final(self).mode == Mode::Normal
                        &&& final(self).should_quit == old(self).should_quit
                        &&& final(self).view == old(self).view
                        &&& final(self).terminal_size == old(self).terminal_size
                    },
                    EditorCommand::Change(m) => {
                        &&& final(self).mode == m
                        &&& final(self).should_quit == old(self).should_quit
                        &&& final(self).view == old(self).view
                        &&& final(self).terminal_size == old(self).terminal_size
                    },
                    EditorCommand::Resize(s) => {
                        &&& final(self).terminal_size == s
                        &&& resized(old(self).view, final(self).view, view_size(s))
                        &&& final(self).mode == old(self).mode
                        &&& final(self).should_quit == old(self).should_quit
                    },
                    EditorCommand::Normal(nc) => match nc {
                        NormalCommand::Move(d) => {
                            &&& moved(old(self).view, final(self).view, d)
                            &&& final(self).mode == old(self).mode
                            &&& final(self).should_quit == old(self).should_quit
                            &&& final(self).terminal_size == old(self).terminal_size
                        },
                    },
                    EditorCommand::Insert(ic) => match ic {
                        InsertCommand::Char(c) => {
                            &&& inserted(old(self).view, final(self).view, c)
                            &&& final(self).mode == old(self).mode
                            &&& final(self).should_quit == old(self).should_quit
                            &&& final(self).terminal_size == old(self).terminal_size
                        },
                    },
                    EditorCommand::Visual(_) => *final(self) == *old(self),
                },
            },
    {
        match EditorCommand::try_from(event, &self.mode) {
            Ok(command) => match command {
                EditorCommand::Quit => {
                    self.should_quit = true;
                },
                EditorCommand::Esc => {
                    self.mode = Mode::Normal;
                },
                EditorCommand::Change(mode) => {
                    self.mode = mode;
                },
                _ => {
                    self.view.handle_command(command);
                    if let EditorCommand::Resize(size) = command {
                        self.resize(size);
                    }
                },
            },
            Err(_) => {},
        }
    }
}

} // verus!
