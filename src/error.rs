use vstd::prelude::*;

verus! {

/// The kinds of failure a command can end in.
#[derive(Debug, Clone, PartialEq, Eq)]
pub enum Error {
    InvalidArguments,
    DetailedInvalidArguments(String),
    AlreadyDeafened,
    AlreadyMuted,
    NotInVoiceChannel,
    NotSeekable,
    SongbirdInitialization,
    /// An error handed through from a collaborator, by its own text.
    Other(String),
    Unknown,
}

/// The human-readable text of an error, as shown to the user.
pub open spec fn error_text(e: Error) -> Seq<char> {
    match e {
        Error::InvalidArguments => "Invalid Arguments"@,
        Error::DetailedInvalidArguments(d) => "Invalid Arguments: "@ + d@,
        Error::AlreadyDeafened => "Already deafened"@,
        Error::AlreadyMuted => "Already muted"@,
        Error::NotInVoiceChannel => "Not in voice channel"@,
        Error::NotSeekable => "Not seekable"@,
        Error::SongbirdInitialization => "Songbird Voice client placed in at initialization"@,
        Error::Other(t) => t@,
        Error::Unknown => "Unknown Error"@,
    }
}

impl Error {
    /// The text shown to the user for this error.
    pub fn message(&self) -> (r: String)
        ensures
            r@ == error_text(*self),
    {
        match self {
            Error::InvalidArguments => String::from_str("Invalid Arguments"),
            Error::DetailedInvalidArguments(d) => {
                let mut s = String::from_str("Invalid Arguments: ");
                s.append(d.as_str());
                s
            },
            Error::AlreadyDeafened => String::from_str("Already deafened"),
            Error::AlreadyMuted => String::from_str("Already muted"),
            Error::NotInVoiceChannel => String::from_str("Not in voice channel"),
            Error::NotSeekable => String::from_str("Not seekable"),
            Error::SongbirdInitialization => String::from_str(
                "Songbird Voice client placed in at initialization",
            ),
            Error::Other(t) => t.clone(),
            Error::Unknown => String::from_str("Unknown Error"),
        }
    }
}

} // verus!
