//! What can go wrong in the agent at large.

use crate::text::{i64_to_decimal, prefixed, signed_decimal};
use vstd::prelude::*;

verus! {

/// An error of the agent. Where the cause lies in another library, the
/// variant carries that library's description of it.
#[derive(Clone, Debug, PartialEq, Eq)]
pub enum Error {
    ParseMacFailed(String),
    TryFromFailed(String),
    KubeWatcher(String),
    PlatformSynchronizer(String),
    NotFound(String),
    KubernetesApiWatcher(String),
    SysMonitor(String),
    Environment(String),
    ParsePacketFailed(String),
    InvalidTpVersion(isize),
    Windows(String),
}

/// An `Error` with its texts as character sequences.
pub enum ErrorView {
    ParseMacFailed(Seq<char>),
    TryFromFailed(Seq<char>),
    KubeWatcher(Seq<char>),
    PlatformSynchronizer(Seq<char>),
    NotFound(Seq<char>),
    KubernetesApiWatcher(Seq<char>),
    SysMonitor(Seq<char>),
    Environment(Seq<char>),
    ParsePacketFailed(Seq<char>),
    InvalidTpVersion(isize),
    Windows(Seq<char>),
}

impl View for Error {
    type V = ErrorView;

    open spec fn view(&self) -> ErrorView {
        match self {
            Error::ParseMacFailed(s) => ErrorView::ParseMacFailed(s@),
            Error::TryFromFailed(s) => ErrorView::TryFromFailed(s@),
            Error::KubeWatcher(s) => ErrorView::KubeWatcher(s@),
            Error::PlatformSynchronizer(s) => ErrorView::PlatformSynchronizer(s@),
            Error::NotFound(s) => ErrorView::NotFound(s@),
            Error::KubernetesApiWatcher(s) => ErrorView::KubernetesApiWatcher(s@),
            Error::SysMonitor(s) => ErrorView::SysMonitor(s@),
            Error::Environment(s) => ErrorView::Environment(s@),
            Error::ParsePacketFailed(s) => ErrorView::ParsePacketFailed(s@),
            Error::InvalidTpVersion(v) => ErrorView::InvalidTpVersion(*v),
            Error::Windows(s) => ErrorView::Windows(s@),
        }
    }
}

impl ErrorView {
    /// The message shown for the error.
    pub open spec fn message(self) -> Seq<char> {
        match self {
            ErrorView::ParseMacFailed(s) => "parse mac address failed from: "@ + s,
            ErrorView::TryFromFailed(s) => "call try_from() failed from "@ + s,
            ErrorView::KubeWatcher(s) => s,
            ErrorView::PlatformSynchronizer(s) => "PlatformSynchronizer failed: "@ + s + " "@,
            ErrorView::NotFound(s) => "data not found: "@ + s,
            ErrorView::KubernetesApiWatcher(s) => "Kubernetes ApiWatcher error: "@ + s,
            ErrorView::SysMonitor(s) => "system: "@ + s,
            ErrorView::Environment(s) => "environment error: "@ + s,
            ErrorView::ParsePacketFailed(s) => "parse packet failed from: "@ + s,
            ErrorView::InvalidTpVersion(v) => "invalid tpacket version: "@ + signed_decimal(
                v as int,
            ),
            ErrorView::Windows(s) => "windows error: "@ + s,
        }
    }
}

impl Error {
    /// The message shown for the error.
    pub fn to_string(&self) -> (r: String)
        ensures
            r@ == self@.message(),
    {
        match self {
            Error::ParseMacFailed(s) => prefixed("parse mac address failed from: ", s.as_str()),
            Error::TryFromFailed(s) => prefixed("call try_from() failed from ", s.as_str()),
            Error::KubeWatcher(s) => s.clone(),
            Error::PlatformSynchronizer(s) => {
                prefixed("PlatformSynchronizer failed: ", s.as_str()).concat(" ")
            },
            Error::NotFound(s) => prefixed("data not found: ", s.as_str()),
            Error::KubernetesApiWatcher(s) => prefixed("Kubernetes ApiWatcher error: ", s.as_str()),
            Error::SysMonitor(s) => prefixed("system: ", s.as_str()),
            Error::Environment(s) => prefixed("environment error: ", s.as_str()),
            Error::ParsePacketFailed(s) => prefixed("parse packet failed from: ", s.as_str()),
            Error::InvalidTpVersion(v) => {
                let n: i64 = *v as i64;
                prefixed("invalid tpacket version: ", i64_to_decimal(n).as_str())
            },
            Error::Windows(s) => prefixed("windows error: ", s.as_str()),
        }
    }
}

} // verus!
