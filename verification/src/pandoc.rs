//! Driving the document converter: where files go and how it is invoked.

use crate::address::{Address, AddressView};
use crate::b64::{decode, decoding};
use crate::error::Error;
use crate::readme::{ReadmeSource, Step};
use crate::text::joined;
use vstd::prelude::*;
use vstd::string::*;

verus! {

/// A document to convert: where it lies and which format it is in.
#[derive(Debug, Clone, PartialEq, Eq)]
pub struct ConversionRequest {
    /// The path of the file that holds the document.
    pub origin_identifier: String,
    /// The format of the document, as its file extension.
    pub source_format: String,
}

/// The action of creating a fresh, uniquely named temporary directory whose
/// name starts with `prefix`.
#[derive(Debug, Clone, PartialEq, Eq)]
pub struct WorkspaceRequest {
    pub prefix: String,
    /// The content that will be converted in the directory.
    pub source: ReadmeSource,
    /// The format of that content.
    pub source_format: String,
}

/// The action of downloading, as raw bytes, what lies at `url`.
#[derive(Debug, Clone, PartialEq, Eq)]
pub struct Download {
    pub url: String,
    /// The workspace that will receive the bytes.
    pub directory: String,
    /// The format of the content.
    pub source_format: String,
}

/// What a download brought.
#[derive(Debug, Clone, PartialEq, Eq)]
pub struct Downloaded {
    /// The address that answered, after any redirection.
    pub final_url: Address,
    /// The body of the answer, byte for byte.
    pub body: Vec<u8>,
}

/// The action of writing `payload` to the file at
/// `request.origin_identifier`.
#[derive(Debug, Clone, PartialEq, Eq)]
pub struct SourceWrite {
    pub request: ConversionRequest,
    pub payload: Vec<u8>,
}

/// The action of running `program` with `arguments` until it exits.
#[derive(Debug, Clone, PartialEq, Eq)]
pub struct ConverterRun {
    pub program: String,
    pub arguments: Vec<String>,
    /// The file that the converter writes on success.
    pub output_path: String,
}

/// The action of reading the file at `path` in full, as UTF-8 text.
#[derive(Debug, Clone, PartialEq, Eq)]
pub struct OutputRead {
    pub path: String,
}

/// The name under which downloaded content is stored when its address
/// offers none.
pub open spec fn placeholder_name() -> Seq<char> {
    "tmp.file"@
}

/// The file name that an address offers for its content: the last segment of
/// its path if that is not empty, else the placeholder.
pub open spec fn destination_name(address: AddressView) -> Seq<char> {
    match address.path_segments {
        Some(segments) if segments.len() > 0 && segments.last().len() > 0 => segments.last(),
        _ => placeholder_name(),
    }
}

/// The path of the file `name` inside `directory`.
pub open spec fn path_in(directory: Seq<char>, name: Seq<char>) -> Seq<char> {
    directory + "/"@ + name
}

/// Where the converter writes the Markdown made from the file at `origin`.
pub open spec fn output_of(origin: Seq<char>) -> Seq<char> {
    origin + ".md"@
}

/// The converter's arguments for the file at `origin` in `source_format`:
/// the input, the format to read, Markdown as the format to write, and the
/// output file.
pub open spec fn converter_arguments(origin: Seq<char>, source_format: Seq<char>) -> Seq<
    Seq<char>,
> {
    seq![origin, "-f"@, source_format, "-t"@, "md"@, "-o"@, output_of(origin)]
}

/// `request` opens the conversion of `source` from `source_format`.
pub open spec fn starts_conversion(
    request: WorkspaceRequest,
    source: ReadmeSource,
    source_format: Seq<char>,
) -> bool {
    &&& request.prefix@ == "greco"@
    &&& request.source == source
    &&& request.source_format@ == source_format
}

/// `write` stores `payload` as `name` inside `directory`, to be converted
/// from `source_format`.
pub open spec fn writes_source(
    write: SourceWrite,
    directory: Seq<char>,
    name: Seq<char>,
    source_format: Seq<char>,
    payload: Seq<u8>,
) -> bool {
    &&& write.request.origin_identifier@ == path_in(directory, name)
    &&& write.request.source_format@ == source_format
    &&& write.payload@ == payload
}

/// `run` invokes the converter on the file at `origin` in `source_format`.
pub open spec fn runs_converter(run: ConverterRun, origin: Seq<char>, source_format: Seq<char>) -> bool {
    &&& run.program@ == "pandoc"@
    &&& run.arguments.deep_view() == converter_arguments(origin, source_format)
    &&& run.output_path@ == output_of(origin)
}

/// Chooses the name of the local file that receives the content found at
/// `url`.
pub fn destination_file(url: &Address) -> (name: String)
    ensures
        name@ == destination_name(url@),
{
    match url.last_path_segment() {
        Some(segment) if !segment.is_empty() => segment.to_owned(),
        _ => "tmp.file".to_owned(),
    }
}

/// Opens the conversion of a readme that is in another format than
/// Markdown: the first step is a workspace of its own.
pub fn save_to_file_and_convert(source: ReadmeSource, converting_from: String) -> (step: Step)
    ensures
        step matches Step::CreateWorkspace(request) && starts_conversion(
            request,
            source,
            converting_from@,
        ),
{
    Step::CreateWorkspace(
        WorkspaceRequest {
            prefix: "greco".to_owned(),
            source,
            source_format: converting_from,
        },
    )
}

/// Plans the converter's run on the file at `origin`, which is in the format
/// `converting_from`.
pub fn convert_file(origin: &str, converting_from: &str) -> (run: ConverterRun)
    ensures
        runs_converter(run, origin@, converting_from@),
{
    let output_path = joined(origin, ".md");
    let mut arguments: Vec<String> = Vec::new();
    arguments.push(origin.to_owned());
    arguments.push("-f".to_owned());
    arguments.push(converting_from.to_owned());
    arguments.push("-t".to_owned());
    arguments.push("md".to_owned());
    arguments.push("-o".to_owned());
    arguments.push(output_path.clone());
    assert(arguments.deep_view() =~= converter_arguments(origin@, converting_from@));
    ConverterRun { program: "pandoc".to_owned(), arguments, output_path }
}

impl WorkspaceRequest {
    /// Takes the path of the directory that was created. Inline content is
    /// decoded and is to be written there under its own file name; remote
    /// content is to be downloaded first. A failure to create the directory,
    /// or to decode, is final.
    pub fn resume(self, outcome: Result<String, Error>) -> (step: Step)
        ensures
            match outcome {
                Err(cause) => step == Step::Done(Err(cause)),
                Ok(directory) => match self.source {
                    ReadmeSource::Inline { file_name, content } => match decoding(content@) {
                        Some(bytes) => step matches Step::WriteSource(write) && writes_source(
                            write,
                            directory@,
                            file_name@,
                            self.source_format@,
                            bytes,
                        ),
                        None => step matches Step::Done(Err(Error::Base64(_))),
                    },
                    ReadmeSource::Remote { resolved_url } => step matches Step::Download(download)
                        && download.url == resolved_url && download.directory == directory
                        && download.source_format == self.source_format,
                },
            },
            step.actions_left() < Step::CreateWorkspace(self).actions_left(),
    {
        let directory = match outcome {
            Ok(directory) => directory,
            Err(cause) => {
                return Step::Done(Err(cause));
            },
        };
        match self.source {
            ReadmeSource::Inline { file_name, content } => write_step(
                directory.as_str(),
                file_name.as_str(),
                self.source_format,
                decode(content.as_str()),
            ),
            ReadmeSource::Remote { resolved_url } => Step::Download(
                Download { url: resolved_url, directory, source_format: self.source_format },
            ),
        }
    }
}

/// The step that follows once the content to convert is at hand: its bytes
/// are to be written as `name` inside `directory`. Where the content could
/// not be had, the failure is final.
pub fn write_step(
    directory: &str,
    name: &str,
    source_format: String,
    content: Result<Vec<u8>, Error>,
) -> (step: Step)
    ensures
        match content {
            Ok(payload) => step matches Step::WriteSource(write) && writes_source(
                write,
                directory@,
                name@,
                source_format@,
                payload@,
            ),
            Err(cause) => step == Step::Done(Err(cause)),
        },
{
    match content {
        Ok(payload) => Step::WriteSource(
            SourceWrite {
                request: ConversionRequest {
                    origin_identifier: file_in(directory, name),
                    source_format,
                },
                payload,
            },
        ),
        Err(cause) => Step::Done(Err(cause)),
    }
}

/// Writes out the path of the file `name` inside `directory`.
pub fn file_in(directory: &str, name: &str) -> (path: String)
    ensures
        path@ == path_in(directory@, name@),
{
    let mut path = joined(directory, "/");
    path.append(name);
    path
}

impl Download {
    /// Takes what the download brought. The bytes are to be written into the
    /// workspace under the name that the answering address offers. A failed
    /// download is final.
    pub fn resume(self, outcome: Result<Downloaded, Error>) -> (step: Step)
        ensures
            match outcome {
                Err(cause) => step == Step::Done(Err(cause)),
                Ok(downloaded) => step matches Step::WriteSource(write) && writes_source(
                    write,
                    self.directory@,
                    destination_name(downloaded.final_url@),
                    self.source_format@,
                    downloaded.body@,
                ),
            },
            step.actions_left() < Step::Download(self).actions_left(),
    {
        match outcome {
            Ok(downloaded) => {
                let name = destination_file(&downloaded.final_url);
                write_step(
                    self.directory.as_str(),
                    name.as_str(),
                    self.source_format,
                    Ok(downloaded.body),
                )
            },
            Err(cause) => Step::Done(Err(cause)),
        }
    }
}

impl SourceWrite {
    /// Takes the outcome of the write. Once the file is there the converter
    /// is to run on it; a failed write is final.
    pub fn resume(self, outcome: Result<(), Error>) -> (step: Step)
        ensures
            match outcome {
                Err(cause) => step == Step::Done(Err(cause)),
                Ok(_) => step matches Step::RunConverter(run) && runs_converter(
                    run,
                    self.request.origin_identifier@,
                    self.request.source_format@,
                ),
            },
            step.actions_left() < Step::WriteSource(self).actions_left(),
    {
        match outcome {
            Ok(_) => Step::RunConverter(
                convert_file(
                    self.request.origin_identifier.as_str(),
                    self.request.source_format.as_str(),
                ),
            ),
            Err(cause) => Step::Done(Err(cause)),
        }
    }
}

impl ConverterRun {
    /// Takes the outcome of the run: whether the converter exited with
    /// success. After success its output is to be read; any other exit ends
    /// the conversion with `Error::Pandoc` and no text; a failure to run it
    /// at all is final.
    pub fn resume(self, outcome: Result<bool, Error>) -> (step: Step)
        ensures
            match outcome {
                Err(cause) => step == Step::Done(Err(cause)),
                Ok(success) => if success {
                    step matches Step::ReadOutput(read) && read.path == self.output_path
                } else {
                    step == Step::Done(Err(Error::Pandoc))
                },
            },
            step.actions_left() < Step::RunConverter(self).actions_left(),
    {
        match outcome {
            Ok(success) => if success {
                Step::ReadOutput(OutputRead { path: self.output_path })
            } else {
                Step::Done(Err(Error::Pandoc))
            },
            Err(cause) => Step::Done(Err(cause)),
        }
    }
}

impl OutputRead {
    /// Takes the outcome of the read: the text is the normalized readme, a
    /// failure is final.
    pub fn resume(self, outcome: Result<String, Error>) -> (step: Step)
        ensures
            step == Step::Done(outcome),
    {
        Step::Done(outcome)
    }
}

/// The converter's output for a file of a workspace lies in that workspace
/// too, beside the file.
pub proof fn lemma_output_beside_source(directory: Seq<char>, name: Seq<char>)
    ensures
        output_of(path_in(directory, name)) == path_in(directory, name + ".md"@),
{
    assert(directory + "/"@ + name + ".md"@ == directory + "/"@ + (name + ".md"@));
}

/// Workspaces keep their files apart: two plain file names, neither holding
/// a `/`, lead to the same path only inside the same directory, and then
/// only if they are the same name.
pub proof fn lemma_workspaces_apart(
    first_directory: Seq<char>,
    first_name: Seq<char>,
    second_directory: Seq<char>,
    second_name: Seq<char>,
)
    requires
        !first_name.contains('/'),
        !second_name.contains('/'),
        path_in(first_directory, first_name) == path_in(second_directory, second_name),
    ensures
        first_directory == second_directory,
        first_name == second_name,
{
    reveal_strlit("/");
    let first = path_in(first_directory, first_name);
    let second = path_in(second_directory, second_name);
    let m = first_directory.len() as int;
    let n = second_directory.len() as int;
    assert("/"@.len() == 1 && "/"@[0] == '/');
    assert(first.len() == m + 1 + first_name.len());
    assert(second.len() == n + 1 + second_name.len());
    assert(first[m] == '/');
    assert(second[n] == '/');
    if m < n {
        assert(first[n] == first_name[n - m - 1]);
        assert(first_name.contains(first_name[n - m - 1]));
    } else if n < m {
        assert(second[m] == second_name[m - n - 1]);
        assert(second_name.contains(second_name[m - n - 1]));
    } else {
        assert(first_directory =~= first.subrange(0, m));
        assert(second_directory =~= second.subrange(0, m));
        assert(first_name =~= first.subrange(m + 1, first.len() as int));
        assert(second_name =~= second.subrange(m + 1, second.len() as int));
    }
}

} // verus!
