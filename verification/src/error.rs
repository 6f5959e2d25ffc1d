//! The failures that end a run.

use vstd::prelude::*;
use vstd::string::StringExecFns;

verus! {

/// Why a run failed.
///
/// A failure of reading or writing carries the path of the file concerned,
/// `None` for standard input or output, and the detail that the system gave.
/// A failure of an outside library carries that library's own diagnostic.
#[derive(Debug)]
pub enum Failure {
    /// Configuration error: no template file was named and standard input is
    /// not routed to the template, so no template text can be had.
    NoTemplate,
    /// Source conflict: a template file was named and standard input was
    /// requested for the template as well.
    SourceConflict,
    /// Neither a template file nor standard input was given for the template.
    NoTemplateFile,
    /// The template could not be read.
    ReadTemplate { path: Option<String>, detail: String },
    /// The data could not be read.
    ReadData { path: Option<String>, detail: String },
    /// The data is no valid JSON.
    ParseData { path: Option<String>, cause: serde_json::Error },
    /// The engine refused the template text.
    AddTemplate { diagnostic: tera::Error },
    /// The engine failed to expand the template.
    Render { diagnostic: tera::Error },
    /// The output could not be written.
    WriteOutput { path: Option<String>, detail: String },
}

/// Whether a stored path is the given one; both may be absent.
pub open spec fn same_path(stored: Option<String>, given: Option<&str>) -> bool {
    match (stored, given) {
        (Some(kept), Some(path)) => kept@ == path@,
        (None, None) => true,
        _ => false,
    }
}

/// Keeps a copy of a path for a failure to carry.
pub(crate) fn owned_path(path: Option<&str>) -> (stored: Option<String>)
    ensures
        same_path(stored, path),
{
    match path {
        Some(file) => Some(file.to_owned()),
        None => None,
    }
}

/// A headline that names the file concerned, or the other headline where
/// there is no file.
pub open spec fn headline(with_path: Seq<char>, without_path: Seq<char>, path: Option<String>) -> Seq<
    char,
> {
    match path {
        Some(file) => with_path + file@,
        None => without_path,
    }
}

impl Failure {
    /// The message that `to_string` returns: which step failed and, where a
    /// file is concerned, which file.
    pub open spec fn message(self) -> Seq<char> {
        match self {
            Failure::NoTemplate => "No template provided"@,
            Failure::SourceConflict => "Cannot read template from both file and stdin"@,
            Failure::NoTemplateFile => "No template file provided"@,
            Failure::ReadTemplate { path, .. } => headline(
                "Failed to read template file: "@,
                "Failed to read template from stdin"@,
                path,
            ),
            Failure::ReadData { path, .. } => headline(
                "Failed to read JSON file: "@,
                "Failed to read JSON from stdin"@,
                path,
            ),
            Failure::ParseData { path, .. } => headline(
                "Failed to parse JSON from file: "@,
                "Failed to parse JSON from stdin"@,
                path,
            ),
            Failure::AddTemplate { .. } => "Failed to add template to Tera"@,
            Failure::Render { .. } => "Failed to render template"@,
            Failure::WriteOutput { path, .. } => headline(
                "Failed to write to output file: "@,
                "Failed to write to stdout"@,
                path,
            ),
        }
    }

    /// A one-line description of the failure for the user.
    pub fn to_string(&self) -> (text: String)
        ensures
            text@ == self.message(),
    {
        match self {
            Failure::NoTemplate => "No template provided".to_owned(),
            Failure::SourceConflict => "Cannot read template from both file and stdin".to_owned(),
            Failure::NoTemplateFile => "No template file provided".to_owned(),
            Failure::ReadTemplate { path, .. } => compose_headline(
                "Failed to read template file: ",
                "Failed to read template from stdin",
                path,
            ),
            Failure::ReadData { path, .. } => compose_headline(
                "Failed to read JSON file: ",
                "Failed to read JSON from stdin",
                path,
            ),
            Failure::ParseData { path, .. } => compose_headline(
                "Failed to parse JSON from file: ",
                "Failed to parse JSON from stdin",
                path,
            ),
            Failure::AddTemplate { .. } => "Failed to add template to Tera".to_owned(),
            Failure::Render { .. } => "Failed to render template".to_owned(),
            Failure::WriteOutput { path, .. } => compose_headline(
                "Failed to write to output file: ",
                "Failed to write to stdout",
                path,
            ),
        }
    }
}

fn compose_headline(with_path: &str, without_path: &str, path: &Option<String>) -> (text: String)
    ensures
        text@ == headline(with_path@, without_path@, *path),
{
    match path {
        Some(file) => with_path.to_owned().concat(file.as_str()),
        None => without_path.to_owned(),
    }
}

} // verus!
