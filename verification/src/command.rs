use vstd::prelude::*;
use crate::geometry::Size;

verus! {

/// The editor's modal state. Every session starts in `Normal`.
#[derive(Clone, Copy, Debug, PartialEq, Eq)]
pub enum Mode {
    Normal,
    Insert,
    Visual,
}

impl Default for Mode {
    fn default() -> (m: Self)
        ensures
            m == Mode::Normal,
    {
        Mode::Normal
    }
}

/// A cursor movement request.
#[derive(Clone, Copy, Debug, PartialEq, Eq)]
pub enum Direction {
    PageUp,
    PageDown,
    Home,
    End,
    Up,
    Left,
    Right,
    Down,
}

/// A command recognized in `Normal` mode.
#[derive(Clone, Copy, Debug, PartialEq, Eq)]
pub enum NormalCommand {
    Move(Direction),
}

/// A command recognized in `Insert` mode.
#[derive(Clone, Copy, Debug, PartialEq, Eq)]
pub enum InsertCommand {
    Char(char),
}

/// A command recognized in `Visual` mode. The mode is a placeholder and
/// recognizes nothing yet.
#[derive(Clone, Copy, Debug, PartialEq, Eq)]
pub enum VisualCommand {
    Idle,
}

/// One keyboard key, as the input layer hands it over after decoding.
#[derive(Clone, Copy, Debug, PartialEq, Eq)]
pub enum Key {
    Char(char),
    Up,
    Down,
    Left,
    Right,
    PageUp,
    PageDown,
    Home,
    End,
    Esc,
    Other,
}

/// The modifier keys held during a key press. `other` stands for any
/// modifier beyond the three named ones.
#[derive(Clone, Copy, Debug, PartialEq, Eq)]
pub struct Modifiers {
    pub control: bool,
    pub shift: bool,
    pub alt: bool,
    pub other: bool,
}

impl Modifiers {
    /// No modifier at all.
    pub open spec fn is_plain(self) -> bool {
        !self.control && !self.shift && !self.alt && !self.other
    }

    /// Exactly the control key.
    pub open spec fn is_control_only(self) -> bool {
        self.control && !self.shift && !self.alt && !self.other
    }

    /// Exactly the shift key.
    pub open spec fn is_shift_only(self) -> bool {
        self.shift && !self.control && !self.alt && !self.other
    }
}

/// A processed input event: a pressed key with its modifiers, or a
/// viewport resize carrying the new width and height in cells.
#[derive(Clone, Copy, Debug, PartialEq, Eq)]
pub enum InputEvent {
    Key(Key, Modifiers),
    Resize(u16, u16),
}

/// Classification failure: the event means nothing in the current mode.
/// Recoverable; the caller ignores it and the session continues.
#[derive(Clone, Copy, Debug, PartialEq, Eq)]
pub enum ClassifyError {
    Unsupported,
}

/// An editing command: one scoped to a mode, or one of the global
/// commands recognized in every mode.
#[derive(Clone, Copy, Debug, PartialEq, Eq)]
pub enum EditorCommand {
    Normal(NormalCommand),
    Insert(InsertCommand),
    Visual(VisualCommand),
    Resize(Size),
    Change(Mode),
    Esc,
    Quit,
}

/// What classification makes of a key press in `Normal` mode: `i` and
/// `v` switch modes, control-`q` alone quits, the arrow keys and the
/// `hjkl` aliases move, and the paging keys page; anything else fails.
pub open spec fn spec_classify_normal(code: Key, mods: Modifiers) -> Result<
    EditorCommand,
    ClassifyError,
> {
    match code {
        Key::Char(c) => if c == 'i' {
            Ok(EditorCommand::Change(Mode::Insert))
        } else if c == 'v' {
            Ok(EditorCommand::Change(Mode::Visual))
        } else if c == 'q' && mods.is_control_only() {
            Ok(EditorCommand::Quit)
        } else if c == 'k' {
            Ok(EditorCommand::Normal(NormalCommand::Move(Direction::Up)))
        } else if c == 'j' {
            Ok(EditorCommand::Normal(NormalCommand::Move(Direction::Down)))
        } else if c == 'l' {
            Ok(EditorCommand::Normal(NormalCommand::Move(Direction::Right)))
        } else if c == 'h' {
            Ok(EditorCommand::Normal(NormalCommand::Move(Direction::Left)))
        } else {
            Err(ClassifyError::Unsupported)
        },
        Key::Up => Ok(EditorCommand::Normal(NormalCommand::Move(Direction::Up))),
        Key::Down => Ok(EditorCommand::Normal(NormalCommand::Move(Direction::Down))),
        Key::Right => Ok(EditorCommand::Normal(NormalCommand::Move(Direction::Right))),
        Key::Left => Ok(EditorCommand::Normal(NormalCommand::Move(Direction::Left))),
        Key::PageDown => Ok(EditorCommand::Normal(NormalCommand::Move(Direction::PageDown))),
        Key::PageUp => Ok(EditorCommand::Normal(NormalCommand::Move(Direction::PageUp))),
        Key::Home => Ok(EditorCommand::Normal(NormalCommand::Move(Direction::Home))),
        Key::End => Ok(EditorCommand::Normal(NormalCommand::Move(Direction::End))),
        _ => Err(ClassifyError::Unsupported),
    }
}

/// What classification makes of a key press in `Insert` mode: any plain
/// printable character, unmodified or with shift alone, inserts itself;
/// anything else fails.
pub open spec fn spec_classify_insert(code: Key, mods: Modifiers) -> Result<
    EditorCommand,
    ClassifyError,
> {
    match code {
        Key::Char(c) => if mods.is_plain() || mods.is_shift_only() {
            Ok(EditorCommand::Insert(InsertCommand::Char(c)))
        } else {
            Err(ClassifyError::Unsupported)
        },
        _ => Err(ClassifyError::Unsupported),
    }
}

/// What classification makes of an input event under a mode. A resize
/// is recognized in every mode and carries the new dimensions; the
/// cancel key is recognized in every mode and pre-empts mode-specific
/// dispatch; everything else is classified by the current mode, with
/// `Visual` a placeholder that recognizes nothing of its own.
pub open spec fn spec_classify(event: InputEvent, mode: Mode) -> Result<
    EditorCommand,
    ClassifyError,
> {
    match event {
        InputEvent::Resize(w, h) => Ok(
            EditorCommand::Resize(Size { height: h as usize, width: w as usize }),
        ),
        InputEvent::Key(code, mods) => if code == Key::Esc {
            Ok(EditorCommand::Esc)
        } else {
            match mode {
                Mode::Normal => spec_classify_normal(code, mods),
                Mode::Visual => Ok(EditorCommand::Visual(VisualCommand::Idle)),
                Mode::Insert => spec_classify_insert(code, mods),
            }
        },
    }
}

impl EditorCommand {
    /// Classifies a processed input event under the current mode.
    pub fn try_from(event: InputEvent, mode: &Mode) -> (r: Result<EditorCommand, ClassifyError>)
        ensures
            r == spec_classify(event, *mode),
    {
        match event {
            InputEvent::Resize(width_u16, height_u16) => {
                let height = height_u16 as usize;
                let width = width_u16 as usize;
                Ok(EditorCommand::Resize(Size { height, width }))
            },
            InputEvent::Key(code, mods) => match code {
                Key::Esc => Ok(EditorCommand::Esc),
                _ => match mode {
                    Mode::Normal => Self::from_normal_command(code, mods),
                    Mode::Visual => Self::from_visual_command(code, mods),
                    Mode::Insert => Self::from_insert_command(code, mods),
                },
            },
        }
    }

    /// Classifies a key press under `Normal` mode's bindings.
    fn from_normal_command(code: Key, mods: Modifiers) -> (r: Result<
        EditorCommand,
        ClassifyError,
    >)
        ensures
            r == spec_classify_normal(code, mods),
    {
        match code {
            Key::Char(c) => if c == 'i' {
                Ok(EditorCommand::Change(Mode::Insert))
            } else if c == 'v' {
                Ok(EditorCommand::Change(Mode::Visual))
            } else if c == 'q' && mods.control && !mods.shift && !mods.alt && !mods.other {
                Ok(EditorCommand::Quit)
            } else if c == 'k' {
                Ok(EditorCommand::Normal(NormalCommand::Move(Direction::Up)))
            } else if c == 'j' {
                Ok(EditorCommand::Normal(NormalCommand::Move(Direction::Down)))
            } else if c == 'l' {
                Ok(EditorCommand::Normal(NormalCommand::Move(Direction::Right)))
            } else if c == 'h' {
                Ok(EditorCommand::Normal(NormalCommand::Move(Direction::Left)))
            } else {
                Err(ClassifyError::Unsupported)
            },
            Key::Up => Ok(EditorCommand::Normal(NormalCommand::Move(Direction::Up))),
            Key::Down => Ok(EditorCommand::Normal(NormalCommand::Move(Direction::Down))),
            Key::Right => Ok(EditorCommand::Normal(NormalCommand::Move(Direction::Right))),
            Key::Left => Ok(EditorCommand::Normal(NormalCommand::Move(Direction::Left))),
            Key::PageDown => Ok(EditorCommand::Normal(NormalCommand::Move(Direction::PageDown))),
            Key::PageUp => Ok(EditorCommand::Normal(NormalCommand::Move(Direction::PageUp))),
            Key::Home => Ok(EditorCommand::Normal(NormalCommand::Move(Direction::Home))),
            Key::End => Ok(EditorCommand::Normal(NormalCommand::Move(Direction::End))),
            _ => Err(ClassifyError::Unsupported),
        }
    }

    /// Classifies a key press under `Insert` mode's bindings.
    fn from_insert_command(code: Key, mods: Modifiers) -> (r: Result<
        EditorCommand,
        ClassifyError,
    >)
        ensures
            r == spec_classify_insert(code, mods),
    {
        match code {
            Key::Char(c) => {
                let plain = !mods.control && !mods.shift && !mods.alt && !mods.other;
                let shifted = mods.shift && !mods.control && !mods.alt && !mods.other;
                if plain || shifted {
                    Ok(EditorCommand::Insert(InsertCommand::Char(c)))
                } else {
                    Err(ClassifyError::Unsupported)
                }
            },
            _ => Err(ClassifyError::Unsupported),
        }
    }

    /// Classifies a key press under `Visual` mode's bindings: the mode
    /// recognizes nothing of its own yet.
    fn from_visual_command(_code: Key, _mods: Modifiers) -> (r: Result<
        EditorCommand,
        ClassifyError,
    >)
        ensures
            r == Ok::<EditorCommand, ClassifyError>(EditorCommand::Visual(VisualCommand::Idle)),
    {
        Ok(EditorCommand::Visual(VisualCommand::Idle))
    }
}

} // verus!
