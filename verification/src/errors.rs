use vstd::prelude::*;
use vstd::string::StringExecFns;

verus! {

/// Everything that can go wrong while one event is handled.
#[derive(Debug, PartialEq, Eq)]
pub enum LoreGuiError {
    /// The path of the database could not be stored or handed over.
    FileError(String),
    /// The user typed or submitted something that cannot be used.
    InputError(String),
    /// A database was needed and none is open.
    NoDatabase,
    /// A lookup that must match at most one record matched several.
    MultipleResults,
    /// The database layer reported a failure; its words are kept as they came.
    LoreCoreError(String),
}

impl LoreGuiError {
    /// The text that a variant carries; empty for the two that carry none.
    pub open spec fn detail(self) -> Seq<char> {
        match self {
            LoreGuiError::FileError(msg) => msg@,
            LoreGuiError::InputError(msg) => msg@,
            LoreGuiError::NoDatabase => Seq::empty(),
            LoreGuiError::MultipleResults => Seq::empty(),
            LoreGuiError::LoreCoreError(msg) => msg@,
        }
    }

    /// What stands in front of the detail when the error is shown.
    pub open spec fn heading(self) -> Seq<char> {
        match self {
            LoreGuiError::FileError(_) => "File error: "@,
            LoreGuiError::InputError(_) => "Input error: "@,
            LoreGuiError::NoDatabase => "No database"@,
            LoreGuiError::MultipleResults => "Multiple results"@,
            LoreGuiError::LoreCoreError(_) => "Lore core error: "@,
        }
    }

    /// An input error with the given words.
    pub fn input(words: &str) -> (error: LoreGuiError)
        ensures
            error is InputError,
            error.detail() == words@,
    {
        LoreGuiError::InputError(String::from_str(words))
    }

    /// The line shown to the user: the heading, then the detail.
    pub fn to_text(&self) -> (text: String)
        ensures
            text@ == self.heading() + self.detail(),
    {
        match self {
            LoreGuiError::FileError(msg) => String::from_str("File error: ").concat(msg.as_str()),
            LoreGuiError::InputError(msg) => String::from_str("Input error: ").concat(msg.as_str()),
            LoreGuiError::NoDatabase => {
                let text = String::from_str("No database");
                assert(text@ + Seq::<char>::empty() == text@);
                text
            },
            LoreGuiError::MultipleResults => {
                let text = String::from_str("Multiple results");
                assert(text@ + Seq::<char>::empty() == text@);
                text
            },
            LoreGuiError::LoreCoreError(msg) => String::from_str("Lore core error: ").concat(
                msg.as_str(),
            ),
        }
    }
}

impl Clone for LoreGuiError {
    fn clone(&self) -> (copy: Self)
        ensures
            copy == *self,
    {
        match self {
            LoreGuiError::FileError(msg) => LoreGuiError::FileError(msg.clone()),
            LoreGuiError::InputError(msg) => LoreGuiError::InputError(msg.clone()),
            LoreGuiError::NoDatabase => LoreGuiError::NoDatabase,
            LoreGuiError::MultipleResults => LoreGuiError::MultipleResults,
            LoreGuiError::LoreCoreError(msg) => LoreGuiError::LoreCoreError(msg.clone()),
        }
    }
}

} // verus!
