use vstd::prelude::*;
use vstd::string::StringExecFns;

verus! {

/// Every failure of a generation run. Each variant carries the offending
/// source path or resource, so that the message is actionable; every error
/// aborts the whole run.
#[derive(Debug)]
pub enum SiteError {
    /// The site configuration is missing, unparseable, or the blog source
    /// set is unusable (for instance, empty).
    ConfigError { detail: String },
    /// A create/read/write/copy/remove failure on the named path.
    FilesystemError { path: String },
    /// A source document lacks the two-delimiter frontmatter structure.
    MalformedDocument { source: String },
    /// The frontmatter block fails to parse, or a required key is absent.
    InvalidMetadata { source: String, detail: String },
    /// The `date` value is not a parseable calendar date.
    InvalidDate { source: String, value: String },
    /// The template failed to parse or a render invocation failed.
    TemplateError { path: String },
}

/// The exact text that `SiteError::message` renders for each variant.
pub open spec fn message_of(e: SiteError) -> Seq<char> {
    match e {
        SiteError::ConfigError { detail } => "configuration error: "@ + detail@,
        SiteError::FilesystemError { path } => "filesystem error on "@ + path@,
        SiteError::MalformedDocument { source } => source@
            + " does not have a +++ section"@,
        SiteError::InvalidMetadata { source, detail } => "invalid metadata in "@ + source@
            + ": "@ + detail@,
        SiteError::InvalidDate { source, value } => "invalid date in "@ + source@ + ": "@
            + value@,
        SiteError::TemplateError { path } => "template error for "@ + path@,
    }
}

impl SiteError {
    /// A human-readable description naming the offending file or resource.
    pub fn message(&self) -> (r: String)
        ensures
            r@ == message_of(*self),
    {
        match self {
            SiteError::ConfigError { detail } => {
                let mut s = String::from_str("configuration error: ");
                s.append(detail.as_str());
                s
            },
            SiteError::FilesystemError { path } => {
                let mut s = String::from_str("filesystem error on ");
                s.append(path.as_str());
                s
            },
            SiteError::MalformedDocument { source } => {
                let mut s = source.clone();
                s.append(" does not have a +++ section");
                s
            },
            SiteError::InvalidMetadata { source, detail } => {
                let mut s = String::from_str("invalid metadata in ");
                s.append(source.as_str());
                s.append(": ");
                s.append(detail.as_str());
                s
            },
            SiteError::InvalidDate { source, value } => {
                let mut s = String::from_str("invalid date in ");
                s.append(source.as_str());
                s.append(": ");
                s.append(value.as_str());
                s
            },
            SiteError::TemplateError { path } => {
                let mut s = String::from_str("template error for ");
                s.append(path.as_str());
                s
            },
        }
    }
}

} // verus!
