//! The ways in which mirroring a stream can fail.

use vstd::prelude::*;
use vstd::string::StringExecFns;

verus! {

/// Why a run stopped. Each kind carries a text for the user: the offending
/// input, or the message of the layer that failed.
#[derive(Debug)]
pub enum HlsError {
    /// The source address is no absolute URL.
    InvalidUrl(String),
    /// A reference of a playlist is neither an absolute URL nor can it be
    /// joined to the address of its playlist.
    InvalidReference(String),
    /// A playlist or a segment could not be fetched.
    NetworkError(String),
    /// The destination directory or a file in it could not be written.
    IoError(String),
    /// A playlist is not one in its structure.
    PlaylistParseError(String),
    /// A fetch came back, but not with what was asked for.
    DownloadError(String),
}

/// An error with its text as a sequence of characters.
pub enum HlsErrorView {
    InvalidUrl(Seq<char>),
    InvalidReference(Seq<char>),
    NetworkError(Seq<char>),
    IoError(Seq<char>),
    PlaylistParseError(Seq<char>),
    DownloadError(Seq<char>),
}

impl View for HlsError {
    type V = HlsErrorView;

    open spec fn view(&self) -> HlsErrorView {
        match self {
            HlsError::InvalidUrl(text) => HlsErrorView::InvalidUrl(text@),
            HlsError::InvalidReference(text) => HlsErrorView::InvalidReference(text@),
            HlsError::NetworkError(text) => HlsErrorView::NetworkError(text@),
            HlsError::IoError(text) => HlsErrorView::IoError(text@),
            HlsError::PlaylistParseError(text) => HlsErrorView::PlaylistParseError(text@),
            HlsError::DownloadError(text) => HlsErrorView::DownloadError(text@),
        }
    }
}

impl Clone for HlsError {
    fn clone(&self) -> (copy: Self)
        ensures
            copy@ == self@,
    {
        match self {
            HlsError::InvalidUrl(text) => HlsError::InvalidUrl(text.clone()),
            HlsError::InvalidReference(text) => HlsError::InvalidReference(text.clone()),
            HlsError::NetworkError(text) => HlsError::NetworkError(text.clone()),
            HlsError::IoError(text) => HlsError::IoError(text.clone()),
            HlsError::PlaylistParseError(text) => HlsError::PlaylistParseError(text.clone()),
            HlsError::DownloadError(text) => HlsError::DownloadError(text.clone()),
        }
    }
}

impl HlsError {
    /// The error in words: its kind, then the text it carries.
    pub fn message(&self) -> (text: String)
        ensures
            text@ == self@.message(),
    {
        let (mut text, detail) = match self {
            HlsError::InvalidUrl(detail) => (String::from_str("Invalid URL: "), detail),
            HlsError::InvalidReference(detail) => (
                String::from_str("Invalid reference: "),
                detail,
            ),
            HlsError::NetworkError(detail) => (String::from_str("Network error: "), detail),
            HlsError::IoError(detail) => (String::from_str("IO error: "), detail),
            HlsError::PlaylistParseError(detail) => (
                String::from_str("Playlist parsing error: "),
                detail,
            ),
            HlsError::DownloadError(detail) => (String::from_str("Download error: "), detail),
        };
        text.append(detail.as_str());
        text
    }
}

impl HlsErrorView {
    /// The text that the error carries.
    pub open spec fn detail(self) -> Seq<char> {
        match self {
            HlsErrorView::InvalidUrl(text) => text,
            HlsErrorView::InvalidReference(text) => text,
            HlsErrorView::NetworkError(text) => text,
            HlsErrorView::IoError(text) => text,
            HlsErrorView::PlaylistParseError(text) => text,
            HlsErrorView::DownloadError(text) => text,
        }
    }

    /// The words that name the kind of the error.
    pub open spec fn heading(self) -> Seq<char> {
        match self {
            HlsErrorView::InvalidUrl(_) => "Invalid URL: "@,
            HlsErrorView::InvalidReference(_) => "Invalid reference: "@,
            HlsErrorView::NetworkError(_) => "Network error: "@,
            HlsErrorView::IoError(_) => "IO error: "@,
            HlsErrorView::PlaylistParseError(_) => "Playlist parsing error: "@,
            HlsErrorView::DownloadError(_) => "Download error: "@,
        }
    }

    /// The error in words.
    pub open spec fn message(self) -> Seq<char> {
        self.heading() + self.detail()
    }
}

} // verus!
