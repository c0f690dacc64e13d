//! What can go wrong when dealing with links and addresses.

use crate::text::{decimal, prefixed, u64_to_decimal};
use vstd::prelude::*;

verus! {

/// An error of the network utilities. Where the cause lies in another
/// library, the variant carries that library's description of it.
#[derive(Clone, Debug, PartialEq, Eq)]
pub enum Error {
    ParseMacFailed(String),
    NeighborLookup(String),
    LinkNotFound(String),
    LinkNotFoundIndex(u32),
    LinkRegexInvalid(String),
    NetlinkError(String),
    IoError(String),
    NoRouteToHost(String),
    Windows(String),
    LinkIdxNotFoundByIP(String),
    Errno(String),
    Ethtool(String),
}

/// An `Error` with its texts as character sequences.
pub enum ErrorView {
    ParseMacFailed(Seq<char>),
    NeighborLookup(Seq<char>),
    LinkNotFound(Seq<char>),
    LinkNotFoundIndex(u32),
    LinkRegexInvalid(Seq<char>),
    NetlinkError(Seq<char>),
    IoError(Seq<char>),
    NoRouteToHost(Seq<char>),
    Windows(Seq<char>),
    LinkIdxNotFoundByIP(Seq<char>),
    Errno(Seq<char>),
    Ethtool(Seq<char>),
}

impl View for Error {
    type V = ErrorView;

    open spec fn view(&self) -> ErrorView {
        match self {
            Error::ParseMacFailed(s) => ErrorView::ParseMacFailed(s@),
            Error::NeighborLookup(s) => ErrorView::NeighborLookup(s@),
            Error::LinkNotFound(s) => ErrorView::LinkNotFound(s@),
            Error::LinkNotFoundIndex(i) => ErrorView::LinkNotFoundIndex(*i),
            Error::LinkRegexInvalid(s) => ErrorView::LinkRegexInvalid(s@),
            Error::NetlinkError(s) => ErrorView::NetlinkError(s@),
            Error::IoError(s) => ErrorView::IoError(s@),
            Error::NoRouteToHost(s) => ErrorView::NoRouteToHost(s@),
            Error::Windows(s) => ErrorView::Windows(s@),
            Error::LinkIdxNotFoundByIP(s) => ErrorView::LinkIdxNotFoundByIP(s@),
            Error::Errno(s) => ErrorView::Errno(s@),
            Error::Ethtool(s) => ErrorView::Ethtool(s@),
        }
    }
}

impl ErrorView {
    /// The message shown for the error.
    pub open spec fn message(self) -> Seq<char> {
        match self {
            ErrorView::ParseMacFailed(s) => "parse mac address failed: "@ + s,
            ErrorView::NeighborLookup(s) => "neighbor lookup failed from: "@ + s,
            ErrorView::LinkNotFound(s) => "link not found: "@ + s,
            ErrorView::LinkNotFoundIndex(i) => "link not found index: "@ + decimal(i as nat),
            ErrorView::LinkRegexInvalid(_) => "link regex invalid"@,
            ErrorView::NetlinkError(s) => "netlink error: "@ + s,
            ErrorView::IoError(_) => "IO error"@,
            ErrorView::NoRouteToHost(s) => "no route to host: "@ + s,
            ErrorView::Windows(s) => "Windows related error:"@ + s,
            ErrorView::LinkIdxNotFoundByIP(s) => s,
            ErrorView::Errno(s) => s,
            ErrorView::Ethtool(s) => "ethtool: "@ + s,
        }
    }
}

impl Error {
    /// The message shown for the error.
    pub fn to_string(&self) -> (r: String)
        ensures
            r@ == self@.message(),
    {
        match self {
            Error::ParseMacFailed(s) => prefixed("parse mac address failed: ", s.as_str()),
            Error::NeighborLookup(s) => prefixed("neighbor lookup failed from: ", s.as_str()),
            Error::LinkNotFound(s) => prefixed("link not found: ", s.as_str()),
            Error::LinkNotFoundIndex(i) => {
                let n: u64 = *i as u64;
                prefixed("link not found index: ", u64_to_decimal(n).as_str())
            },
            Error::LinkRegexInvalid(_) => "link regex invalid".to_owned(),
            Error::NetlinkError(s) => prefixed("netlink error: ", s.as_str()),
            Error::IoError(_) => "IO error".to_owned(),
            Error::NoRouteToHost(s) => prefixed("no route to host: ", s.as_str()),
            Error::Windows(s) => prefixed("Windows related error:", s.as_str()),
            Error::LinkIdxNotFoundByIP(s) => s.clone(),
            Error::Errno(s) => s.clone(),
            Error::Ethtool(s) => prefixed("ethtool: ", s.as_str()),
        }
    }
}

} // verus!
