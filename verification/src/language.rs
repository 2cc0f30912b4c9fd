//! The target languages that declarations are generated for.

use vstd::prelude::*;

verus! {

/// A target language.
#[derive(Clone, Copy, Debug, PartialEq, Eq, Structural)]
pub enum ProgrammingLanguage {
    Rust,
    Python,
}

impl ProgrammingLanguage {
    /// The extension of a source file in this language, as characters.
    pub open spec fn extension(self) -> Seq<char> {
        match self {
            Self::Rust => "rs"@,
            Self::Python => "py"@,
        }
    }

    /// The lower case name of this language, as characters.
    pub open spec fn lower_name(self) -> Seq<char> {
        match self {
            Self::Rust => "rust"@,
            Self::Python => "python"@,
        }
    }

    /// The extension of a source file in this language.
    pub fn file_extension(&self) -> (r: &'static str)
        ensures
            r@ == self.extension(),
    {
        match self {
            Self::Rust => "rs",
            Self::Python => "py",
        }
    }

    /// The name of the directory that holds this language's output.
    pub fn alias(&self) -> (r: &'static str)
        ensures
            r@ == self.lower_name(),
    {
        match self {
            Self::Rust => "rust",
            Self::Python => "python",
        }
    }
}

} // verus!
