//! The typed failures that the resolution engine reports.

use vstd::prelude::*;

verus! {

/// View of a [`ResolveError`], with every string as a character sequence.
pub ghost enum ResolveErrorV {
    UnsupportedLanguage { language: Seq<char> },
    MissingShellCommand { place: Seq<char> },
    RenderFailed { template: Seq<char>, message: Seq<char> },
    MissingSourceTemplate { name: Seq<char> },
}

/// A failure that target resolution surfaces to its caller instead of
/// aborting the process.
#[derive(Debug)]
pub enum ResolveError {
    /// The configured language is recognized but has no working provider.
    UnsupportedLanguage { language: String },
    /// A shell was requested but the target configures no shell command.
    /// `place` names the kind of target the configuration belongs to.
    MissingShellCommand { place: String },
    /// The template of the given name failed to render.
    RenderFailed { template: String, message: String },
    /// A shell recipe names a source template that the target does not hold.
    MissingSourceTemplate { name: String },
}

impl View for ResolveError {
    type V = ResolveErrorV;

    open spec fn view(&self) -> ResolveErrorV {
        match self {
            ResolveError::UnsupportedLanguage { language } => ResolveErrorV::UnsupportedLanguage {
                language: language@,
            },
            ResolveError::MissingShellCommand { place } => ResolveErrorV::MissingShellCommand {
                place: place@,
            },
            ResolveError::RenderFailed { template, message } => ResolveErrorV::RenderFailed {
                template: template@,
                message: message@,
            },
            ResolveError::MissingSourceTemplate { name } => ResolveErrorV::MissingSourceTemplate {
                name: name@,
            },
        }
    }
}

/// The descriptive text of an error view.
pub open spec fn spec_error_message(e: ResolveErrorV) -> Seq<char> {
    match e {
        ResolveErrorV::UnsupportedLanguage { language } => language
            + " is not a supported language"@,
        ResolveErrorV::MissingShellCommand { place } => "No shell command specified in config for this "@
            + place,
        ResolveErrorV::RenderFailed { template, message } => "Failed to render "@ + template
            + ": "@ + message,
        ResolveErrorV::MissingSourceTemplate { name } => "No source template named "@ + name,
    }
}

impl ResolveError {
    /// A human-readable description of the failure.
    pub fn message(&self) -> (r: String)
        ensures
            r@ == spec_error_message(self@),
    {
        match self {
            ResolveError::UnsupportedLanguage { language } => {
                let mut s = language.clone();
                s.append(" is not a supported language");
                s
            },
            ResolveError::MissingShellCommand { place } => {
                let mut s = String::from_str("No shell command specified in config for this ");
                s.append(place.as_str());
                s
            },
            ResolveError::RenderFailed { template, message } => {
                let mut s = String::from_str("Failed to render ");
                s.append(template.as_str());
                s.append(": ");
                s.append(message.as_str());
                s
            },
            ResolveError::MissingSourceTemplate { name } => {
                let mut s = String::from_str("No source template named ");
                s.append(name.as_str());
                s
            },
        }
    }
}

} // verus!
