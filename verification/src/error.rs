//! The failures that the resolution core reports.

use crate::platform::{Arch, Os};
use vstd::prelude::*;
use vstd::string::*;

verus! {

/// Why a request could not be answered.
#[derive(Debug, PartialEq, Eq)]
pub enum ResolveError {
    /// The tag source could not be reached.
    CatalogUnavailable,
    /// The tool publishes no build for this operating system and
    /// architecture.
    UnsupportedPlatform { tool: String, os: Os, arch: Arch },
    /// Nothing stands behind this symbolic version name.
    UnresolvableAlias { alias: String },
}

/// The mathematical value of a [`ResolveError`].
pub ghost enum ResolveErrorView {
    CatalogUnavailable,
    UnsupportedPlatform { tool: Seq<char>, os: Os, arch: Arch },
    UnresolvableAlias { alias: Seq<char> },
}

impl View for ResolveError {
    type V = ResolveErrorView;

    open spec fn view(&self) -> ResolveErrorView {
        match self {
            ResolveError::CatalogUnavailable => ResolveErrorView::CatalogUnavailable,
            ResolveError::UnsupportedPlatform { tool, os, arch } => {
                ResolveErrorView::UnsupportedPlatform { tool: tool@, os: *os, arch: *arch }
            },
            ResolveError::UnresolvableAlias { alias } => {
                ResolveErrorView::UnresolvableAlias { alias: alias@ }
            },
        }
    }
}

/// The sentence that reports `e` to a user.
pub open spec fn message_text(e: ResolveErrorView) -> Seq<char> {
    match e {
        ResolveErrorView::CatalogUnavailable => "Unable to load versions, the tag source is unavailable."@,
        ResolveErrorView::UnsupportedPlatform { tool, os, arch } => {
            "Unable to install "@ + tool + ", unsupported architecture "@ + arch.label() + " for "@
                + os.label() + "."@
        },
        ResolveErrorView::UnresolvableAlias { alias } => {
            "Unable to resolve the version alias "@ + alias + "."@
        },
    }
}

impl ResolveError {
    /// Writes the sentence that reports this failure to a user.
    pub fn message(&self) -> (r: String)
        ensures
            r@ == message_text(self@),
    {
        match self {
            ResolveError::CatalogUnavailable => {
                String::from_str("Unable to load versions, the tag source is unavailable.")
            },
            ResolveError::UnsupportedPlatform { tool, os, arch } => {
                let mut out = String::from_str("Unable to install ");
                out.append(tool.as_str());
                out.append(", unsupported architecture ");
                out.append(arch.name());
                out.append(" for ");
                out.append(os.name());
                out.append(".");
                out
            },
            ResolveError::UnresolvableAlias { alias } => {
                let mut out = String::from_str("Unable to resolve the version alias ");
                out.append(alias.as_str());
                out.append(".");
                out
            },
        }
    }
}

} // verus!
