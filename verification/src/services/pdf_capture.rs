use vstd::pervasive::unreached;
use vstd::prelude::*;

use crate::domain::Source;
use crate::error::AppError;
use crate::json::{json_error_text, json_string_literal, to_json_string};
use crate::ports::{answer_kind, kind_of, PathInfo, PdfTextExtractionError, PortCall, PortReply, ReplyKind, Step};
use crate::text::{
    char_count, concat2, concat3, decimal, decimal_string, eq_ignore_ascii_case, is_blank, is_blank_str,
    owned, str_eq_ignore_ascii_case, trim, trim_str,
};

verus! {

/// The largest PDF file that is accepted, in bytes (20 MiB).
pub const MAX_PDF_FILE_SIZE: u64 = 20 * 1024 * 1024;

/// The most characters of extracted text that are accepted.
pub const MAX_EXTRACTED_TEXT_CHARACTERS: usize = 200_000;

/// The extension of the last component of `path`, as `std::path::Path::extension` finds it.
pub uninterp spec fn path_extension(path: Seq<char>) -> Option<Seq<char>>;

/// The last component of `path`, as `std::path::Path::file_name` finds it.
pub uninterp spec fn path_file_name(path: Seq<char>) -> Option<Seq<char>>;

/// `std::path::Path::extension` of `path`, as text. Its result is named, not described.
#[verifier::external_body]
fn file_extension(path: &str) -> (r: Option<String>)
    ensures
        match r {
            Some(e) => path_extension(path@) == Some(e@),
            None => path_extension(path@) is None,
        },
{
    match std::path::Path::new(path).extension() {
        Some(extension) => Some(extension.to_string_lossy().into_owned()),
        None => None,
    }
}

/// `std::path::Path::file_name` of `path`, as text. Its result is named, not described.
#[verifier::external_body]
fn file_name(path: &str) -> (r: Option<String>)
    ensures
        match r {
            Some(n) => path_file_name(path@) == Some(n@),
            None => path_file_name(path@) is None,
        },
{
    match std::path::Path::new(path).file_name() {
        Some(name) => Some(name.to_string_lossy().into_owned()),
        None => None,
    }
}

/// The metadata stored with a PDF source: its file name, its size in bytes, the length of
/// its extracted text, and how it was captured; the path of the file is left out.
pub open spec fn pdf_metadata_json(file_name: Seq<char>, file_size: nat, text_length: nat) -> Seq<char> {
    "{\"originalFileName\":"@ + json_string_literal(file_name) + ",\"fileSize\":"@ + decimal(file_size)
        + ",\"extractedTextLength\":"@ + decimal(text_length) + ",\"capturedVia\":\"pdf\"}"@
}

/// `e` reports that the metadata of a PDF source could not be serialised: an application-state
/// error whose message is a fixed prefix followed by the text of the serialiser's error.
pub open spec fn metadata_failure(e: AppError) -> bool {
    e matches AppError::State(m) && exists|t: Seq<char>|
        m@ == "PDF source metadata could not be serialized: "@ + t
}

/// Frames the metadata JSON around `name_json`, the JSON form of the file name; a failure to
/// produce it becomes an application-state error that carries the serialiser's message.
pub fn pdf_metadata(name_json: Result<String, serde_json::Error>, file_size: u64, text_length: usize) -> (r: Result<String, AppError>)
    ensures
        match name_json {
            Ok(name) => r matches Ok(json) && json@ == "{\"originalFileName\":"@ + name@ + ",\"fileSize\":"@
                + decimal(file_size as nat) + ",\"extractedTextLength\":"@ + decimal(text_length as nat)
                + ",\"capturedVia\":\"pdf\"}"@,
            Err(_) => r matches Err(e) && metadata_failure(e),
        },
{
    match name_json {
        Ok(name) => {
            let mut json = owned("{\"originalFileName\":");
            json.append(name.as_str());
            json.append(",\"fileSize\":");
            json.append(decimal_string(file_size).as_str());
            json.append(",\"extractedTextLength\":");
            json.append(decimal_string(text_length as u64).as_str());
            json.append(",\"capturedVia\":\"pdf\"}");
            Ok(json)
        },
        Err(error) => {
            let prefix = owned("PDF source metadata could not be serialized: ");
            let detail = json_error_text(&error);
            let mut message = prefix.clone();
            message.append(detail.as_str());
            assert(message@ == prefix@ + detail@);
            Err(AppError::State(message))
        },
    }
}

/// The metadata JSON of a PDF source named `file_name`.
fn source_metadata(file_name: &str, file_size: u64, text_length: usize) -> (json: String)
    ensures
        json@ == pdf_metadata_json(file_name@, file_size as nat, text_length as nat),
{
    match pdf_metadata(to_json_string(file_name), file_size, text_length) {
        Ok(json) => json,
        Err(_) => unreached(),
    }
}

/// `path` names a file with a `.pdf` extension, in any case.
pub open spec fn has_pdf_extension(path: Seq<char>) -> bool {
    path_extension(path) matches Some(e) && eq_ignore_ascii_case(e, "pdf"@)
}

/// Capturing the text of a PDF file as a source of the default workspace.
#[derive(Debug)]
pub enum PdfCaptureFlow {
    AwaitMetadata { path: String },
    AwaitText { path: String, file_size: u64 },
    AwaitWorkspace { extracted_text: String, metadata_json: String },
    AwaitInsert,
}

impl PdfCaptureFlow {
    /// The call of `s`, if any, is answered by the kind of reply that the flow then awaits.
    pub open spec fn pairs(s: Step<PdfCaptureFlow, Source>) -> bool {
        s matches Step::Call(f, c) ==> f.awaited() == answer_kind(c)
    }

    pub open spec fn awaited(self) -> ReplyKind {
        match self {
            PdfCaptureFlow::AwaitMetadata { .. } => ReplyKind::Path,
            PdfCaptureFlow::AwaitText { .. } => ReplyKind::Extracted,
            PdfCaptureFlow::AwaitWorkspace { .. } => ReplyKind::Workspace,
            PdfCaptureFlow::AwaitInsert => ReplyKind::Source,
        }
    }

    /// `s` refuses the capture with the validation message `msg`.
    pub open spec fn refuses(s: Step<PdfCaptureFlow, Source>, msg: Seq<char>) -> bool {
        s matches Step::Done(Err(e)) && e.is_validation(msg)
    }

    pub open spec fn steps_to(self, reply: PortReply, s: Step<PdfCaptureFlow, Source>) -> bool {
        match (self, reply) {
            (PdfCaptureFlow::AwaitMetadata { path }, PortReply::Path(info)) => match info {
                PathInfo::Missing => Self::refuses(s, "PDF file does not exist: "@ + path@),
                PathInfo::Inaccessible => Self::refuses(s, "PDF file could not be accessed: "@ + path@),
                PathInfo::Found { is_dir, is_file, len } => {
                    if !is_file {
                        Self::refuses(s, "PDF path is not a file: "@ + path@)
                    } else if !has_pdf_extension(path@) {
                        Self::refuses(s, "selected file must have a .pdf extension"@)
                    } else if len > MAX_PDF_FILE_SIZE {
                        Self::refuses(s, "PDF file exceeds the 20 MiB limit: "@ + decimal(len as nat) + " bytes"@)
                    } else {
                        s == Step::<PdfCaptureFlow, Source>::Call(
                            PdfCaptureFlow::AwaitText { path, file_size: len },
                            PortCall::ExtractPdfText { path },
                        )
                    }
                },
            },
            (PdfCaptureFlow::AwaitText { path, file_size }, PortReply::Extracted(r)) => match r {
                Err(PdfTextExtractionError::Encrypted) => Self::refuses(
                    s,
                    "This PDF is encrypted and cannot be imported without a password"@,
                ),
                Err(PdfTextExtractionError::Invalid(m)) => Self::refuses(
                    s,
                    "PDF is damaged or could not be parsed: "@ + m@,
                ),
                Ok(text) => {
                    let t = trim(text@);
                    if t.len() == 0 {
                        Self::refuses(s, "This PDF has no extractable text. OCR is not supported in the current version"@)
                    } else if t.len() > MAX_EXTRACTED_TEXT_CHARACTERS {
                        Self::refuses(
                            s,
                            "extracted PDF text exceeds the 200,000 character limit: "@ + decimal(t.len()) + " characters"@,
                        )
                    } else {
                        match path_file_name(path@) {
                            Some(name) if name.len() > 0 => s matches Step::Call(
                                PdfCaptureFlow::AwaitWorkspace { extracted_text, metadata_json },
                                PortCall::EnsureDefaultWorkspace,
                            ) && extracted_text@ == t && metadata_json@ == pdf_metadata_json(name, file_size as nat, t.len()),
                            _ => Self::refuses(s, "PDF file name could not be determined"@),
                        }
                    }
                },
            },
            (PdfCaptureFlow::AwaitWorkspace { extracted_text, metadata_json }, PortReply::Workspace(r)) => match r {
                Err(e) => s == Step::<PdfCaptureFlow, Source>::Done(Err(e)),
                Ok(w) => s == Step::<PdfCaptureFlow, Source>::Call(
                    PdfCaptureFlow::AwaitInsert,
                    PortCall::InsertPdfSource { workspace_id: w.id, extracted_text, metadata_json },
                ),
            },
            (PdfCaptureFlow::AwaitInsert, PortReply::Source(r)) => s == Step::<PdfCaptureFlow, Source>::Done(r),
            _ => false,
        }
    }

    /// Starts capturing the PDF at `file_path` (trimmed); a blank path is refused.
    pub fn start(file_path: String) -> (s: Step<PdfCaptureFlow, Source>)
        ensures
            Self::pairs(s),
            is_blank(file_path@) ==> Self::refuses(s, "PDF file path must not be empty"@),
            !is_blank(file_path@) ==> (s matches Step::Call(PdfCaptureFlow::AwaitMetadata { path }, PortCall::InspectPath { path: p })
                && path@ == trim(file_path@) && p == path),
    {
        if is_blank_str(file_path.as_str()) {
            return Step::Done(Err(AppError::Validation(owned("PDF file path must not be empty"))));
        }
        let path = trim_str(file_path.as_str());
        let p = path.clone();
        Step::Call(PdfCaptureFlow::AwaitMetadata { path }, PortCall::InspectPath { path: p })
    }

    fn refuse(msg: String) -> (s: Step<PdfCaptureFlow, Source>)
        ensures
            Self::pairs(s),
            Self::refuses(s, msg@),
    {
        Step::Done(Err(AppError::Validation(msg)))
    }

    fn check_file(path: String, info: PathInfo) -> (s: Step<PdfCaptureFlow, Source>)
        ensures
            Self::pairs(s),
            Self::steps_to(PdfCaptureFlow::AwaitMetadata { path }, PortReply::Path(info), s),
    {
        match info {
            PathInfo::Missing => Self::refuse(concat2("PDF file does not exist: ", path.as_str())),
            PathInfo::Inaccessible => Self::refuse(concat2("PDF file could not be accessed: ", path.as_str())),
            PathInfo::Found { is_dir: _, is_file, len } => {
                if !is_file {
                    return Self::refuse(concat2("PDF path is not a file: ", path.as_str()));
                }
                let pdf = match file_extension(path.as_str()) {
                    Some(extension) => str_eq_ignore_ascii_case(extension.as_str(), "pdf"),
                    None => false,
                };
                if !pdf {
                    return Self::refuse(owned("selected file must have a .pdf extension"));
                }
                if len > MAX_PDF_FILE_SIZE {
                    return Self::refuse(
                        concat3("PDF file exceeds the 20 MiB limit: ", decimal_string(len).as_str(), " bytes"),
                    );
                }
                let p = path.clone();
                Step::Call(PdfCaptureFlow::AwaitText { path, file_size: len }, PortCall::ExtractPdfText { path: p })
            },
        }
    }

    fn check_text(path: String, file_size: u64, text: String) -> (s: Step<PdfCaptureFlow, Source>)
        ensures
            Self::pairs(s),
            Self::steps_to(PdfCaptureFlow::AwaitText { path, file_size }, PortReply::Extracted(Ok(text)), s),
    {
        let extracted_text = trim_str(text.as_str());
        let length = char_count(extracted_text.as_str());
        if length == 0 {
            return Self::refuse(owned("This PDF has no extractable text. OCR is not supported in the current version"));
        }
        if length > MAX_EXTRACTED_TEXT_CHARACTERS {
            return Self::refuse(
                concat3(
                    "extracted PDF text exceeds the 200,000 character limit: ",
                    decimal_string(length as u64).as_str(),
                    " characters",
                ),
            );
        }
        let name = match file_name(path.as_str()) {
            Some(name) => name,
            None => {
                return Self::refuse(owned("PDF file name could not be determined"));
            },
        };
        if char_count(name.as_str()) == 0 {
            return Self::refuse(owned("PDF file name could not be determined"));
        }
        let metadata_json = source_metadata(name.as_str(), file_size, length);
        Step::Call(PdfCaptureFlow::AwaitWorkspace { extracted_text, metadata_json }, PortCall::EnsureDefaultWorkspace)
    }

    pub fn resume(self, reply: PortReply) -> (s: Step<PdfCaptureFlow, Source>)
        requires
            kind_of(reply) == self.awaited(),
        ensures
            Self::pairs(s),
            self.steps_to(reply, s),
    {
        match (self, reply) {
            (PdfCaptureFlow::AwaitMetadata { path }, PortReply::Path(info)) => Self::check_file(path, info),
            (PdfCaptureFlow::AwaitText { path, file_size }, PortReply::Extracted(r)) => match r {
                Err(PdfTextExtractionError::Encrypted) => Self::refuse(
                    owned("This PDF is encrypted and cannot be imported without a password"),
                ),
                Err(PdfTextExtractionError::Invalid(m)) => Self::refuse(
                    concat2("PDF is damaged or could not be parsed: ", m.as_str()),
                ),
                Ok(text) => Self::check_text(path, file_size, text),
            },
            (PdfCaptureFlow::AwaitWorkspace { extracted_text, metadata_json }, PortReply::Workspace(r)) => match r {
                Err(e) => Step::Done(Err(e)),
                Ok(w) => Step::Call(
                    PdfCaptureFlow::AwaitInsert,
                    PortCall::InsertPdfSource { workspace_id: w.id, extracted_text, metadata_json },
                ),
            },
            (PdfCaptureFlow::AwaitInsert, PortReply::Source(r)) => Step::Done(r),
            _ => unreached(),
        }
    }
}

} // verus!
