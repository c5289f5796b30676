use vstd::prelude::*;

verus! {

// Configuration is read from the process environment by the caller; this
// module holds the decisions: whether a flag value enables the bootstrap
// sync, and whether the two roots (as observed on disk) are usable.

/// What the caller observed about one configured root on disk.
#[derive(Clone, Copy, Debug, PartialEq, Eq, Structural)]
pub struct RootStatus {
    pub exists: bool,
    pub is_dir: bool,
}

/// Why a configuration is rejected, in the order the checks run.
#[derive(Clone, Copy, Debug, PartialEq, Eq, Structural)]
pub enum ConfigError {
    SourceMissing,
    SourceNotDir,
    DestMissing,
    DestNotDir,
}

impl ConfigError {
    /// The diagnostic line reported for this rejection.
    pub fn message(&self) -> (m: String)
        ensures
            *self == ConfigError::SourceMissing ==> m@ == "source does not exist"@,
            *self == ConfigError::SourceNotDir ==> m@ == "source is not a directory"@,
            *self == ConfigError::DestMissing ==> m@ == "destination does not exist"@,
            *self == ConfigError::DestNotDir ==> m@ == "destination is not a directory"@,
    {
        match self {
            ConfigError::SourceMissing => String::from_str("source does not exist"),
            ConfigError::SourceNotDir => String::from_str("source is not a directory"),
            ConfigError::DestMissing => String::from_str("destination does not exist"),
            ConfigError::DestNotDir => String::from_str("destination is not a directory"),
        }
    }
}

/// The verdict on a pair of observed roots: the source must exist and be a
/// directory, then the destination must, and the first failed check names
/// the error.
pub open spec fn validate_spec(src: RootStatus, dest: RootStatus) -> Result<(), ConfigError> {
    if !src.exists {
        Result::Err(ConfigError::SourceMissing)
    } else if !src.is_dir {
        Result::Err(ConfigError::SourceNotDir)
    } else if !dest.exists {
        Result::Err(ConfigError::DestMissing)
    } else if !dest.is_dir {
        Result::Err(ConfigError::DestNotDir)
    } else {
        Result::Ok(())
    }
}

/// Validates the configured roots from what the caller observed on disk.
/// Both roots must exist and be directories before any watching starts;
/// a rejection is fatal to the process.
pub fn validate_config(src: &RootStatus, dest: &RootStatus) -> (r: Result<(), ConfigError>)
    ensures
        r == validate_spec(*src, *dest),
{
    if !src.exists {
        Result::Err(ConfigError::SourceMissing)
    } else if !src.is_dir {
        Result::Err(ConfigError::SourceNotDir)
    } else if !dest.exists {
        Result::Err(ConfigError::DestMissing)
    } else if !dest.is_dir {
        Result::Err(ConfigError::DestNotDir)
    } else {
        Result::Ok(())
    }
}

/// The lowercase form of a string, as the Unicode lowercase mapping gives
/// it.
pub uninterp spec fn lower_of(s: Seq<char>) -> Seq<char>;

/// Relies on str::to_lowercase: the lowercase equivalent of the string,
/// determined by its characters alone (the Unicode `Lowercase` property,
/// independent of locale or environment).
#[verifier::external_body]
fn lowercase(s: &str) -> (r: String)
    ensures
        r@ == lower_of(s@),
{
    s.to_lowercase()
}

/// A flag value enables the bootstrap sync when it reads, ignoring case,
/// as one of the accepted truthy spellings.
pub open spec fn bootstrap_enabled(s: Seq<char>) -> bool {
    ||| lower_of(s) == "1"@
    ||| lower_of(s) == "t"@
    ||| lower_of(s) == "true"@
    ||| lower_of(s) == "y"@
    ||| lower_of(s) == "yes"@
}

/// Reads a boolean-like flag value, case-insensitively.  Anything outside
/// the accepted truthy spellings — including an absent value, passed as the
/// empty string — leaves the bootstrap sync off.
pub fn parse_bootstrap(s: &str) -> (b: bool)
    ensures
        b == bootstrap_enabled(s@),
{
    let low = lowercase(s);
    low == String::from_str("1") || low == String::from_str("t") || low == String::from_str("true")
        || low == String::from_str("y") || low == String::from_str("yes")
}

} // verus!
