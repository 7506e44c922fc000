use vstd::prelude::*;

verus! {

/// The glyphs of the Material Icons font that the editor's controls use.
#[derive(Clone, Copy, Debug, PartialEq, Eq, Structural)]
pub enum Icon {
    Add,
    AddCircle,
    Edit,
    FolderOpen,
    KeyboardArrowRight,
    KeyboardArrowDown,
    Language,
    OpenInNew,
    Remove,
    RemoveCircle,
    Search,
    SubdirectoryArrowRight,
    Delete,
    PlayCircleOutline,
    Settings,
    MoreVert,
    Refresh,
    FastForward,
}

impl Icon {
    /// The code point of the icon in the Material Icons font.
    pub open spec fn code_point(self) -> u32 {
        match self {
            Icon::Add => 0xE145,
            Icon::AddCircle => 0xE147,
            Icon::Edit => 0xE150,
            Icon::FolderOpen => 0xE2C8,
            Icon::KeyboardArrowRight => 0xE315,
            Icon::KeyboardArrowDown => 0xE313,
            Icon::Language => 0xE894,
            Icon::OpenInNew => 0xE89E,
            Icon::Remove => 0xE15B,
            Icon::RemoveCircle => 0xE15C,
            Icon::Search => 0xE8B6,
            Icon::SubdirectoryArrowRight => 0xE5DA,
            Icon::Delete => 0xE872,
            Icon::PlayCircleOutline => 0xE039,
            Icon::Settings => 0xE8B8,
            Icon::MoreVert => 0xE5D4,
            Icon::Refresh => 0xE5D5,
            Icon::FastForward => 0xE01F,
        }
    }

    /// The character that draws this icon when set in the icon font.
    pub fn as_char(&self) -> (r: char)
        ensures
            r as u32 == self.code_point(),
    {
        match self {
            Self::Add => '\u{E145}',
            Self::AddCircle => '\u{E147}',
            Self::Edit => '\u{E150}',
            Self::FolderOpen => '\u{E2C8}',
            Self::KeyboardArrowRight => '\u{E315}',
            Self::KeyboardArrowDown => '\u{E313}',
            Self::Language => '\u{E894}',
            Self::OpenInNew => '\u{E89E}',
            Self::Remove => '\u{E15B}',
            Self::RemoveCircle => '\u{E15C}',
            Self::Search => '\u{E8B6}',
            Self::SubdirectoryArrowRight => '\u{E5DA}',
            Self::Delete => '\u{E872}',
            Self::PlayCircleOutline => '\u{E039}',
            Self::Settings => '\u{E8B8}',
            Self::MoreVert => '\u{E5D4}',
            Self::Refresh => '\u{E5D5}',
            Self::FastForward => '\u{E01F}',
        }
    }
}

} // verus!
