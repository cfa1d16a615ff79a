//! The course of a file dialog: what was asked, whether an answer is
//! pending, and what the answer means. Showing the dialog is the caller's
//! part.

use vstd::prelude::*;
use vstd::string::*;

verus! {

/// What a dialog asks for.
#[derive(Copy, Clone, Debug, PartialEq, Eq, Structural)]
pub enum FileDialogType {
    OpenRom,
    SaveState,
    InputUrl,
}

/// What a dialog ended with.
pub enum FileDialogResult {
    /// No answer: the dialog is still open, or was dismissed.
    Nothing,
    /// The file to open.
    OpenRom(String),
    /// The file to save the state to.
    SaveState(String),
    /// The address to load a ROM from.
    InputUrl(String),
}

/// Extension that a state file gets where the user gave none.
pub open spec fn state_extension() -> Seq<char> {
    ".p8s"@
}

/// The meaning of `answer` to a dialog of type `dialog_type`: a dismissed
/// dialog and an empty address mean nothing; a state file without a dot in
/// its path gets the extension `.p8s`.
pub open spec fn spec_from_answer(
    dialog_type: FileDialogType,
    answer: Option<Seq<char>>,
) -> Option<(FileDialogType, Seq<char>)> {
    match answer {
        None => None,
        Some(text) => match dialog_type {
            FileDialogType::OpenRom => Some((dialog_type, text)),
            FileDialogType::SaveState => Some(
                (
                    dialog_type,
                    if text.contains('.') {
                        text
                    } else {
                        text + state_extension()
                    },
                ),
            ),
            FileDialogType::InputUrl => if text.len() == 0 {
                None
            } else {
                Some((dialog_type, text))
            },
        },
    }
}

impl FileDialogResult {
    /// The result as a dialog type and a text, or nothing.
    pub open spec fn parts(self) -> Option<(FileDialogType, Seq<char>)> {
        match self {
            FileDialogResult::Nothing => None,
            FileDialogResult::OpenRom(path) => Some((FileDialogType::OpenRom, path@)),
            FileDialogResult::SaveState(path) => Some((FileDialogType::SaveState, path@)),
            FileDialogResult::InputUrl(url) => Some((FileDialogType::InputUrl, url@)),
        }
    }

    /// The result that the answer `answer` to a dialog of type
    /// `dialog_type` stands for.
    pub fn from_answer(dialog_type: FileDialogType, answer: Option<String>) -> (r: Self)
        ensures
            r.parts() == spec_from_answer(
                dialog_type,
                match answer {
                    Some(text) => Some(text@),
                    None => None,
                },
            ),
    {
        match answer {
            None => FileDialogResult::Nothing,
            Some(text) => match dialog_type {
                FileDialogType::OpenRom => FileDialogResult::OpenRom(text),
                FileDialogType::SaveState => {
                    if has_dot(text.as_str()) {
                        FileDialogResult::SaveState(text)
                    } else {
                        FileDialogResult::SaveState(text.concat(".p8s"))
                    }
                },
                FileDialogType::InputUrl => {
                    if text.as_str().unicode_len() == 0 {
                        FileDialogResult::Nothing
                    } else {
                        FileDialogResult::InputUrl(text)
                    }
                },
            },
        }
    }
}

/// Whether `text` holds a dot.
fn has_dot(text: &str) -> (r: bool)
    ensures
        r == text@.contains('.'),
{
    let n = text.unicode_len();
    let mut i: usize = 0;
    while i < n
        invariant
            i <= n,
            n == text@.len(),
            forall|j: int| 0 <= j < i ==> text@[j] != '.',
        decreases n - i,
    {
        if text.get_char(i) == '.' {
            return true;
        }
        i += 1;
    }
    false
}

/// Knows whether a dialog is open.
pub struct DialogHandler {
    is_open: bool,
}

impl DialogHandler {
    /// Whether a dialog is open.
    pub closed spec fn spec_is_open(&self) -> bool {
        self.is_open
    }

    /// A handler with no dialog open.
    pub fn new() -> (r: Self)
        ensures
            !r.spec_is_open(),
    {
        Self { is_open: false }
    }

    pub fn is_open(&self) -> (r: bool)
        ensures
            r == self.spec_is_open(),
    {
        self.is_open
    }

    /// Notes that a dialog was opened. The caller shows it and hands its
    /// answer to `check_result` when there is one.
    pub fn open_file_dialog(&mut self, dialog_type: FileDialogType)
        ensures
            final(self).spec_is_open(),
    {
        self.is_open = true;
    }

    /// Takes what has arrived from the dialog: with a result the dialog is
    /// closed and the result handed on; with none nothing changes.
    pub fn check_result(&mut self, arrived: Option<FileDialogResult>) -> (r: FileDialogResult)
        ensures
            match arrived {
                Some(result) => !final(self).spec_is_open() && r == result,
                None => final(self).spec_is_open() == old(self).spec_is_open()
                    && r is Nothing,
            },
    {
        match arrived {
            Some(result) => {
                self.is_open = false;
                result
            },
            None => FileDialogResult::Nothing,
        }
    }
}

} // verus!
