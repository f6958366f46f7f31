//! The failures that configuration loading and command resolution report.

use vstd::prelude::*;

verus! {

/// A failure of the dispatcher. Every variant carries the data a caller
/// needs to render a message; none is retried.
#[derive(Debug)]
pub enum ProtoHandlerError {
    /// The given path could not be turned into a usable file location.
    PathError { path: String },
    /// The URI carries no recognizable scheme prefix.
    UriParseError { uri: String },
    /// The scheme was recognized but no protocol of that name is configured.
    ProtocolNotConfigured { proto: String },
    /// The protocol names a shell that is absent from the shell list.
    ShellNotConfigured { sh: String },
    /// The configuration file could not be read or parsed.
    ConfigParseError { path: String },
}

/// The mathematical value of a [`ProtoHandlerError`]: the same variants over
/// character sequences.
pub enum ProtoHandlerErrorView {
    PathError { path: Seq<char> },
    UriParseError { uri: Seq<char> },
    ProtocolNotConfigured { proto: Seq<char> },
    ShellNotConfigured { sh: Seq<char> },
    ConfigParseError { path: Seq<char> },
}

impl View for ProtoHandlerError {
    type V = ProtoHandlerErrorView;

    open spec fn view(&self) -> ProtoHandlerErrorView {
        match self {
            ProtoHandlerError::PathError { path } => ProtoHandlerErrorView::PathError {
                path: path@,
            },
            ProtoHandlerError::UriParseError { uri } => ProtoHandlerErrorView::UriParseError {
                uri: uri@,
            },
            ProtoHandlerError::ProtocolNotConfigured { proto } => {
                ProtoHandlerErrorView::ProtocolNotConfigured { proto: proto@ }
            },
            ProtoHandlerError::ShellNotConfigured { sh } => {
                ProtoHandlerErrorView::ShellNotConfigured { sh: sh@ }
            },
            ProtoHandlerError::ConfigParseError { path } => {
                ProtoHandlerErrorView::ConfigParseError { path: path@ }
            },
        }
    }
}

} // verus!
