//! The failures that resolution and location can end in.

use vstd::prelude::*;

verus! {

/// Which filesystem step could not be carried out.
#[derive(Clone, Copy, Debug, PartialEq, Eq, Structural)]
pub enum IoStage {
    /// The directory could not be listed.
    Listing,
    /// The creation time of a file could not be read.
    Metadata,
}

/// What was looked for and not found.
#[derive(Clone, Copy, Debug, PartialEq, Eq, Structural)]
pub enum Missing {
    /// The directory holds no file at all.
    File,
    /// The newest file's stem holds no hyphen.
    Hyphen,
    /// The page holds no player box element.
    Playbox,
    /// The player box carries no descriptor attribute.
    Vid,
}

/// Which segment of a file stem is not an integer.
#[derive(Clone, Copy, Debug, PartialEq, Eq, Structural)]
pub enum Segment {
    Show,
    Episode,
}

/// What could not be parsed.
#[derive(Clone, Copy, Debug, PartialEq, Eq, Structural)]
pub enum Malformed {
    /// The page is too long for a document to be built from it.
    Document,
    /// The document query could not be constructed.
    Query,
    /// The descriptor holds no `$` delimiter.
    Descriptor,
}

/// The five kinds of failure.
#[derive(Clone, Copy, Debug, PartialEq, Eq, Structural)]
pub enum FailureKind {
    IoError,
    NotFound,
    FormatError,
    NetworkError,
    ParseError,
}

/// A terminal failure, with the stage at which it arose. The input that it
/// speaks of stays with the caller: the file is the one that
/// `resolver::pick_latest` gives, the descriptor the one that
/// `locator::page_descriptor` gives.
#[derive(Clone, Copy, Debug, PartialEq, Eq, Structural)]
pub enum Failure {
    Io(IoStage),
    NotFound(Missing),
    Format(Segment),
    Network,
    Parse(Malformed),
}

impl Failure {
    pub open spec fn spec_kind(self) -> FailureKind {
        match self {
            Failure::Io(_) => FailureKind::IoError,
            Failure::NotFound(_) => FailureKind::NotFound,
            Failure::Format(_) => FailureKind::FormatError,
            Failure::Network => FailureKind::NetworkError,
            Failure::Parse(_) => FailureKind::ParseError,
        }
    }

    /// The kind of this failure.
    pub fn kind(&self) -> (k: FailureKind)
        ensures
            k == self.spec_kind(),
    {
        match self {
            Failure::Io(_) => FailureKind::IoError,
            Failure::NotFound(_) => FailureKind::NotFound,
            Failure::Format(_) => FailureKind::FormatError,
            Failure::Network => FailureKind::NetworkError,
            Failure::Parse(_) => FailureKind::ParseError,
        }
    }

    pub open spec fn spec_message(self) -> Seq<char> {
        match self {
            Failure::Io(IoStage::Listing) => "cannot list the directory"@,
            Failure::Io(IoStage::Metadata) => "cannot read a file's creation time"@,
            Failure::NotFound(Missing::File) => "no file found"@,
            Failure::NotFound(Missing::Hyphen) => "newest file is not named show-episode"@,
            Failure::NotFound(Missing::Playbox) => "no playbox"@,
            Failure::NotFound(Missing::Vid) => "no VID"@,
            Failure::Format(Segment::Show) => "show number is not an integer"@,
            Failure::Format(Segment::Episode) => "episode number is not an integer"@,
            Failure::Network => "cannot fetch the episode page"@,
            Failure::Parse(Malformed::Document) => "page is too long to parse"@,
            Failure::Parse(Malformed::Query) => "cannot construct the document query"@,
            Failure::Parse(Malformed::Descriptor) => "descriptor holds no delimiter"@,
        }
    }

    /// A short text that names the stage and what went wrong there.
    pub fn message(&self) -> (m: &'static str)
        ensures
            m@ == self.spec_message(),
    {
        match self {
            Failure::Io(IoStage::Listing) => "cannot list the directory",
            Failure::Io(IoStage::Metadata) => "cannot read a file's creation time",
            Failure::NotFound(Missing::File) => "no file found",
            Failure::NotFound(Missing::Hyphen) => "newest file is not named show-episode",
            Failure::NotFound(Missing::Playbox) => "no playbox",
            Failure::NotFound(Missing::Vid) => "no VID",
            Failure::Format(Segment::Show) => "show number is not an integer",
            Failure::Format(Segment::Episode) => "episode number is not an integer",
            Failure::Network => "cannot fetch the episode page",
            Failure::Parse(Malformed::Document) => "page is too long to parse",
            Failure::Parse(Malformed::Query) => "cannot construct the document query",
            Failure::Parse(Malformed::Descriptor) => "descriptor holds no delimiter",
        }
    }
}

} // verus!
