//! Normalizing a readme into Markdown, one step at a time.
//!
//! The library decides and the caller acts: `normalize` and each `resume`
//! return a `Step` that either names the next action to perform or holds the
//! final result. The caller performs the action and hands its outcome to the
//! step's `resume`.

use crate::b64::{decode, decoding};
use crate::client::{extension_of, extract_extension, lemma_no_dot_no_extension};
use crate::error::Error;
use crate::pandoc::{
    save_to_file_and_convert, starts_conversion, ConverterRun, Download, OutputRead, SourceWrite,
    WorkspaceRequest,
};
use crate::text::{same_text, text_from_utf8};
use vstd::prelude::*;
use vstd::string::*;
use vstd::utf8::*;

verus! {

/// How the raw content of a readme was obtained from the host.
#[derive(Debug, Clone, PartialEq, Eq)]
pub enum ReadmeSource {
    /// The content came embedded in the host's answer, base64-encoded.
    Inline { file_name: String, content: String },
    /// The host's answer only pointed at the content.
    Remote { resolved_url: String },
}

/// The four ways through normalization. Which one is taken depends on two
/// things only: whether the extension is the native one, and whether the
/// content is inline or remote.
#[derive(Debug, Clone, Copy, PartialEq, Eq, Structural)]
pub enum Route {
    /// Markdown that came embedded: decode it.
    NativeInline,
    /// Markdown behind a reference: fetch it.
    NativeRemote,
    /// Another format that came embedded: decode it and convert it.
    ForeignInline,
    /// Another format behind a reference: download it and convert it.
    ForeignRemote,
}

/// What happens next in a normalization.
#[derive(Debug)]
pub enum Step {
    /// Fetch the text of a Markdown readme.
    FetchText(TextFetch),
    /// Create a fresh temporary directory for a conversion.
    CreateWorkspace(WorkspaceRequest),
    /// Download the raw bytes of a readme in another format.
    Download(Download),
    /// Write the content to convert into the workspace.
    WriteSource(SourceWrite),
    /// Run the document converter and wait for it to exit.
    RunConverter(ConverterRun),
    /// Read what the converter wrote.
    ReadOutput(OutputRead),
    /// Nothing is left to do: the Markdown text, or the failure.
    Done(Result<String, Error>),
}

/// The action of fetching, as text, what lies at `url`.
#[derive(Debug, Clone, PartialEq, Eq)]
pub struct TextFetch {
    pub url: String,
}

/// The extension of the format that every readme is normalized to.
pub open spec fn native_format() -> Seq<char> {
    "md"@
}

/// The route for a readme with the given extension and source.
pub open spec fn route_of(extension: Seq<char>, source: ReadmeSource) -> Route {
    match source {
        ReadmeSource::Inline { .. } => if extension == native_format() {
            Route::NativeInline
        } else {
            Route::ForeignInline
        },
        ReadmeSource::Remote { .. } => if extension == native_format() {
            Route::NativeRemote
        } else {
            Route::ForeignRemote
        },
    }
}

/// `result` is what reading `bytes` as UTF-8 text gives: the characters that
/// they encode, or `Error::Utf8` where they are not well-formed.
pub open spec fn is_text_of(bytes: Seq<u8>, result: Result<String, Error>) -> bool {
    if valid_utf8(bytes) {
        result matches Ok(text) && text@ == decode_utf8(bytes)
    } else {
        result matches Err(Error::Utf8(_))
    }
}

/// `result` is what inline Markdown `content` gives: its decoded bytes read
/// as UTF-8 text, or the error of the first of the two that fails.
pub open spec fn is_native_text(content: Seq<char>, result: Result<String, Error>) -> bool {
    match decoding(content) {
        Some(bytes) => is_text_of(bytes, result),
        None => result matches Err(Error::Base64(_)),
    }
}

/// Picks the route for a readme with the given extension and source.
pub fn route(extension: &str, source: &ReadmeSource) -> (chosen: Route)
    ensures
        chosen == route_of(extension@, *source),
{
    let native = same_text(extension, "md");
    match source {
        ReadmeSource::Inline { .. } => if native {
            Route::NativeInline
        } else {
            Route::ForeignInline
        },
        ReadmeSource::Remote { .. } => if native {
            Route::NativeRemote
        } else {
            Route::ForeignRemote
        },
    }
}

/// Reads bytes as UTF-8 text.
pub fn utf8_text(bytes: Vec<u8>) -> (result: Result<String, Error>)
    ensures
        is_text_of(bytes@, result),
{
    match text_from_utf8(bytes) {
        Ok(text) => Ok(text),
        Err(cause) => Err(Error::Utf8(cause)),
    }
}

/// Reads inline Markdown: decodes the base64 content and takes the bytes as
/// UTF-8 text.
pub fn native_text(content: &str) -> (result: Result<String, Error>)
    ensures
        is_native_text(content@, result),
{
    match decode(content) {
        Ok(bytes) => utf8_text(bytes),
        Err(cause) => Err(cause),
    }
}

/// Starts the normalization of a readme named `file_name`.
///
/// A name without extension ends it at once with `Error::NoExtensionFound`,
/// whatever the content. Inline Markdown is decoded on the spot, with no
/// action left to perform; remote Markdown is to be fetched; any other
/// format goes to the converter under its extension.
pub fn normalize(file_name: &str, source: ReadmeSource) -> (step: Step)
    ensures
        !file_name@.contains('.') ==> step == Step::Done(Err(Error::NoExtensionFound)),
        match extension_of(file_name@) {
            None => step == Step::Done(Err(Error::NoExtensionFound)),
            Some(extension) => match route_of(extension, source) {
                Route::NativeInline => step matches Step::Done(result) && is_native_text(
                    source->content@,
                    result,
                ),
                Route::NativeRemote => step matches Step::FetchText(fetch) && fetch.url
                    == source->resolved_url,
                _ => step matches Step::CreateWorkspace(request) && starts_conversion(
                    request,
                    source,
                    extension,
                ),
            },
        },
{
    proof {
        lemma_no_dot_no_extension(file_name@);
    }
    let extension = match extract_extension(file_name) {
        Some(extension) => extension,
        None => {
            return Step::Done(Err(Error::NoExtensionFound));
        },
    };
    match (route(extension.as_str(), &source), source) {
        (Route::NativeInline, ReadmeSource::Inline { file_name: _, content }) => Step::Done(
            native_text(content.as_str()),
        ),
        (Route::NativeRemote, ReadmeSource::Remote { resolved_url }) => Step::FetchText(
            TextFetch { url: resolved_url },
        ),
        (_, source) => save_to_file_and_convert(source, extension),
    }
}

impl Step {
    /// How many actions are left at most before the normalization is done.
    pub open spec fn actions_left(self) -> nat {
        match self {
            Step::CreateWorkspace(_) => 5,
            Step::Download(_) => 4,
            Step::WriteSource(_) => 3,
            Step::RunConverter(_) => 2,
            Step::ReadOutput(_) => 1,
            Step::FetchText(_) => 1,
            Step::Done(_) => 0,
        }
    }
}

impl TextFetch {
    /// Takes the outcome of the fetch: the text is the readme, a failure is
    /// final.
    pub fn resume(self, outcome: Result<String, Error>) -> (step: Step)
        ensures
            step == Step::Done(outcome),
    {
        Step::Done(outcome)
    }
}

} // verus!
