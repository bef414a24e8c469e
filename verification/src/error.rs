//! Why a value could not be sampled.

use vstd::prelude::*;

verus! {

/// The kinds of failure.
#[derive(Clone, Copy, Debug, PartialEq, Eq, Structural)]
pub enum SampleErrorKind {
    /// A key that must be configured is absent.
    MissingConfig,
    /// The node is there, but is of the wrong kind or length.
    WrongShape,
    /// An array of choices is empty, or holds no element of the wanted kind.
    EmptyDomain,
    /// The bounds of a numeric range are no numbers of the wanted kind or
    /// bound no interval, or a double was drawn outside its interval.
    InvalidRangeValues,
    /// The selected variant is none of the declared ones.
    UnknownVariant,
    /// A variant with fields has no object to draw them from.
    MissingOrInvalidVariantConfig,
    /// There is no variant to select.
    NoVariantsAvailable,
}

/// A failure: its kind, and the field or variant at which it occurred.
#[derive(Debug, PartialEq, Eq)]
pub struct SampleError {
    pub kind: SampleErrorKind,
    pub path: String,
}

/// What a failure of the kind says of the place where it occurred.
pub open spec fn message_of(kind: SampleErrorKind, path: Seq<char>) -> Seq<char> {
    match kind {
        SampleErrorKind::MissingConfig => "Configuration for '"@ + path + "' is missing"@,
        SampleErrorKind::WrongShape => "Configuration for '"@ + path
            + "' is of the wrong kind or length"@,
        SampleErrorKind::EmptyDomain => "Values array for field '"@ + path
            + "' is empty or contains invalid types"@,
        SampleErrorKind::InvalidRangeValues => "Invalid range values for field '"@ + path + "'"@,
        SampleErrorKind::UnknownVariant => "Variant '"@ + path + "' is not recognized"@,
        SampleErrorKind::MissingOrInvalidVariantConfig => "Configuration for variant '"@ + path
            + "' is missing or invalid"@,
        SampleErrorKind::NoVariantsAvailable => "No variants to select from for '"@ + path + "'"@,
    }
}

/// Puts a place between the two parts of a message.
fn quoted(before: &str, path: &String, after: &str) -> (text: String)
    ensures
        text@ == before@ + path@ + after@,
{
    let mut text = String::from_str(before);
    text.append(path.as_str());
    text.append(after);
    text
}

impl SampleError {
    /// Whether this is the failure of the given kind at the given place.
    pub open spec fn reports(self, kind: SampleErrorKind, path: Seq<char>) -> bool {
        self.kind == kind && self.path@ == path
    }

    /// The failure of the given kind at the given place.
    pub fn new(kind: SampleErrorKind, path: &String) -> (e: SampleError)
        ensures
            e.reports(kind, path@),
    {
        SampleError { kind, path: path.clone() }
    }

    /// The message of the failure.
    pub fn message(&self) -> (text: String)
        ensures
            text@ == message_of(self.kind, self.path@),
    {
        match self.kind {
            SampleErrorKind::MissingConfig => quoted(
                "Configuration for '",
                &self.path,
                "' is missing",
            ),
            SampleErrorKind::WrongShape => quoted(
                "Configuration for '",
                &self.path,
                "' is of the wrong kind or length",
            ),
            SampleErrorKind::EmptyDomain => quoted(
                "Values array for field '",
                &self.path,
                "' is empty or contains invalid types",
            ),
            SampleErrorKind::InvalidRangeValues => quoted(
                "Invalid range values for field '",
                &self.path,
                "'",
            ),
            SampleErrorKind::UnknownVariant => quoted(
                "Variant '",
                &self.path,
                "' is not recognized",
            ),
            SampleErrorKind::MissingOrInvalidVariantConfig => quoted(
                "Configuration for variant '",
                &self.path,
                "' is missing or invalid",
            ),
            SampleErrorKind::NoVariantsAvailable => quoted(
                "No variants to select from for '",
                &self.path,
                "'",
            ),
        }
    }
}

} // verus!
