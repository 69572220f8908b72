use vstd::prelude::*;

verus! {

/// The ways fetching and realizing a database can fail.
#[derive(Debug, Clone, PartialEq, Eq)]
pub enum Error {
    /// No catalog entry for the requested database and version.
    NotFound,
    /// A request failed or returned a non-success status.
    Transport(String),
    /// The checksum manifest holds fewer than two tokens.
    ManifestFormat,
    /// A freshly downloaded file does not match the expected digest.
    Integrity,
    /// A filesystem operation failed.
    Io(String),
}

impl Error {
    /// A copy equal to `self`.
    pub fn duplicate(&self) -> (r: Self)
        ensures
            r == *self,
    {
        match self {
            Error::NotFound => Error::NotFound,
            Error::Transport(m) => Error::Transport(m.clone()),
            Error::ManifestFormat => Error::ManifestFormat,
            Error::Integrity => Error::Integrity,
            Error::Io(m) => Error::Io(m.clone()),
        }
    }
}

} // verus!
