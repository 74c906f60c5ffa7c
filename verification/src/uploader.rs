//! The uploader: for one file and one kind of upload, the request that is
//! to be sent, and what a response's status means.
//!
//! Nothing here touches the network or the disk. The caller reads the
//! file's length and name into an `UploadTarget`, takes the request to
//! send from the uploader, sends it, and hands the status back.

use vstd::prelude::*;
use vstd::string::StringExecFns;
use vstd::utf8::encode_utf8;
use reqwest::header::HeaderMap;
use crate::chunked::{ChunkedUpload, MAX_CONCURRENT_UPLOADS};
use crate::cli::KindOfUpload;
use crate::dispatch::Dispatch;
use crate::headers::{
    header_entries,
    header_names_held,
    headers_after_set,
    is_header_name,
    is_header_value,
    lower_case_name,
    no_headers,
    set_header,
    HeaderError,
    HEADER_ROOM,
};
use crate::progress::{ProgressState, ProgressView};
use crate::text::{decimal, push_decimal};

verus! {

/// One file to transfer.
#[derive(Debug)]
pub struct UploadTarget {
    /// Absolute path of the file.
    pub path: String,
    /// Length of the file in bytes, read once before the transfer.
    pub size: u64,
    /// Last component of the path, if it has one.
    pub file_name: Option<String>,
}

/// A target as a mathematical value.
pub struct TargetView {
    pub path: Seq<char>,
    pub size: nat,
    pub file_name: Option<Seq<char>>,
}

impl View for UploadTarget {
    type V = TargetView;

    open spec fn view(&self) -> TargetView {
        TargetView {
            path: self.path@,
            size: self.size as nat,
            file_name: match self.file_name {
                Some(name) => Some(name@),
                None => None,
            },
        }
    }
}

/// Why a file's upload failed before or after the request was sent.
#[derive(Debug, Clone, Copy, PartialEq, Eq, Structural)]
pub enum UploadError {
    /// The path has no last component to name the file by.
    MissingFileName,
    /// The server answered with a status outside `200..=299`.
    Status(u16),
}

impl UploadError {
    /// The sentence shown to the user.
    pub fn message(&self) -> (text: String)
        ensures
            text@ == match *self {
                UploadError::MissingFileName => "Failed to get file name"@,
                UploadError::Status(status) => "Request failed with status: "@ + decimal(
                    status as nat,
                ),
            },
    {
        match self {
            UploadError::MissingFileName => "Failed to get file name".to_owned(),
            UploadError::Status(status) => {
                let mut text = "Request failed with status: ".to_owned();
                push_decimal(&mut text, *status as u64);
                text
            },
        }
    }
}

/// The body of a whole-file request.
#[derive(Debug)]
pub enum RequestBody {
    /// A multipart form whose single part carries the file, streamed from
    /// disk. When `observed` is set the bytes are counted as they are read.
    Multipart { field: String, file_name: String, content_type: String, observed: bool },
    /// The file's bytes, read into memory, as the raw body.
    Binary,
}

/// A request body as a mathematical value.
pub enum BodyView {
    Multipart { field: Seq<char>, file_name: Seq<char>, content_type: Seq<char>, observed: bool },
    Binary,
}

impl View for RequestBody {
    type V = BodyView;

    open spec fn view(&self) -> BodyView {
        match self {
            RequestBody::Multipart { field, file_name, content_type, observed } => {
                BodyView::Multipart {
                    field: field@,
                    file_name: file_name@,
                    content_type: content_type@,
                    observed: *observed,
                }
            },
            RequestBody::Binary => BodyView::Binary,
        }
    }
}

impl BodyView {
    /// The bytes of a raw body for a file that holds `file`. A multipart
    /// body has none that could be told in advance: the client frames it.
    pub open spec fn raw_bytes(self, file: Seq<u8>) -> Option<Seq<u8>> {
        match self {
            BodyView::Binary => Some(file),
            BodyView::Multipart { .. } => None,
        }
    }
}

/// One POST request for a whole file.
#[derive(Debug)]
pub struct UploadRequest {
    /// Where the request goes.
    pub url: String,
    /// The file whose bytes it carries.
    pub path: String,
    /// The headers to attach.
    pub headers: HeaderMap,
    /// How the file travels.
    pub body: RequestBody,
}

/// A request as a mathematical value.
pub struct RequestView {
    pub url: Seq<char>,
    pub path: Seq<char>,
    pub headers: Map<Seq<char>, Seq<Seq<u8>>>,
    pub body: BodyView,
}

impl View for UploadRequest {
    type V = RequestView;

    open spec fn view(&self) -> RequestView {
        RequestView {
            url: self.url@,
            path: self.path@,
            headers: header_entries(self.headers),
            body: self.body@,
        }
    }
}

/// An uploader as a mathematical value.
pub struct UploaderView {
    pub url: Seq<char>,
    pub headers: Map<Seq<char>, Seq<Seq<u8>>>,
    /// How many names the header map holds.
    pub names_held: nat,
    pub kind: KindOfUpload,
}

/// The request that an uploader makes for a target: none without a file
/// name; else one to the uploader's URL, with its headers, and with the
/// body that its kind of upload asks for.
pub open spec fn planned_request(uploader: UploaderView, target: TargetView, observed: bool) -> Result<
    RequestView,
    UploadError,
> {
    match target.file_name {
        None => Err(UploadError::MissingFileName),
        Some(name) => Ok(
            RequestView {
                url: uploader.url,
                path: target.path,
                headers: uploader.headers,
                body: match uploader.kind {
                    KindOfUpload::Multipart => BodyView::Multipart {
                        field: "file"@,
                        file_name: name,
                        content_type: "application/octet-stream"@,
                        observed,
                    },
                    KindOfUpload::Binary => BodyView::Binary,
                },
            },
        ),
    }
}

/// Building the request for `Binary` a second time, for the same file and
/// with the same headers supplied, gives the same request: the same URL,
/// the same header set, and as body the file's own bytes.
pub proof fn lemma_binary_request_repeatable(
    first: UploaderView,
    second: UploaderView,
    target: TargetView,
    file: Seq<u8>,
)
    requires
        first.kind == KindOfUpload::Binary,
        second.kind == KindOfUpload::Binary,
        first.url == second.url,
        first.headers == second.headers,
        target.file_name is Some,
    ensures
        planned_request(first, target, false) == planned_request(second, target, false),
        planned_request(first, target, false) is Ok,
        planned_request(first, target, false)->Ok_0.headers == first.headers,
        planned_request(first, target, false)->Ok_0.body.raw_bytes(file) == Some(file),
        planned_request(second, target, false)->Ok_0.body.raw_bytes(file) == Some(file),
{
}

/// What one answer of the server means for the transfer: any status from
/// 200 to 299 is success, any other a failure that carries the status.
pub open spec fn status_outcome(status: u16) -> Result<(), UploadError> {
    if 200 <= status <= 299 {
        Ok(())
    } else {
        Err(UploadError::Status(status))
    }
}

/// The headers of an uploader that was prepared for a file. A multipart
/// upload has none. A binary upload has the content type of raw bytes and,
/// if the file has a name that a header value can hold, that name.
pub open spec fn prepared_headers(kind: KindOfUpload, file_name: Option<Seq<char>>) -> Map<
    Seq<char>,
    Seq<Seq<u8>>,
> {
    match kind {
        KindOfUpload::Multipart => no_headers(),
        KindOfUpload::Binary => {
            let typed = no_headers().insert(
                "content-type"@,
                seq![encode_utf8("application/octet-stream"@)],
            );
            if file_name is Some && is_header_value(encode_utf8(file_name->Some_0)) {
                typed.insert("x-filename"@, seq![encode_utf8(file_name->Some_0)])
            } else {
                typed
            }
        },
    }
}

/// Builds the requests of one upload.
#[derive(Debug)]
pub struct Uploader {
    url: String,
    headers: HeaderMap,
    kind_of_upload: KindOfUpload,
}

impl View for Uploader {
    type V = UploaderView;

    closed spec fn view(&self) -> UploaderView {
        UploaderView {
            url: self.url@,
            headers: header_entries(self.headers),
            names_held: header_names_held(self.headers),
            kind: self.kind_of_upload,
        }
    }
}

/// `Content-Type` is a header name, kept as `content-type`, and
/// `application/octet-stream` is a header value.
proof fn lemma_content_type_header()
    ensures
        is_header_name(encode_utf8("Content-Type"@)),
        lower_case_name(encode_utf8("Content-Type"@)) == "content-type"@,
        is_header_value(encode_utf8("application/octet-stream"@)),
{
    reveal_strlit("Content-Type");
    reveal_strlit("content-type");
    reveal_strlit("application/octet-stream");
    let name = "Content-Type"@;
    let value = "application/octet-stream"@;
    vstd::utf8::is_ascii_chars_encode_utf8(name);
    vstd::utf8::is_ascii_chars_encode_utf8(value);
}

/// `X-Filename` is a header name, kept as `x-filename`.
proof fn lemma_file_name_header()
    ensures
        is_header_name(encode_utf8("X-Filename"@)),
        lower_case_name(encode_utf8("X-Filename"@)) == "x-filename"@,
{
    reveal_strlit("X-Filename");
    reveal_strlit("x-filename");
    let name = "X-Filename"@;
    vstd::utf8::is_ascii_chars_encode_utf8(name);
}

impl Default for Uploader {
    /// An uploader without URL and headers that sends multipart forms.
    fn default() -> (uploader: Self)
        ensures
            uploader@.url == Seq::<char>::empty(),
            uploader@.headers == no_headers(),
            uploader@.names_held == 0,
            uploader@.kind == KindOfUpload::Multipart,
    {
        Uploader {
            url: String::new(),
            headers: HeaderMap::new(),
            kind_of_upload: KindOfUpload::Multipart,
        }
    }
}

impl Uploader {
    /// An uploader for `url`, without headers, that sends multipart forms.
    pub fn new(url: &str) -> (uploader: Self)
        ensures
            uploader@.url == url@,
            uploader@.headers == no_headers(),
            uploader@.names_held == 0,
            uploader@.kind == KindOfUpload::Multipart,
    {
        Uploader {
            url: url.to_owned(),
            headers: HeaderMap::new(),
            kind_of_upload: KindOfUpload::Multipart,
        }
    }

    /// An uploader for `url`, without headers, for this kind of upload.
    pub fn with_kind(url: &str, kind: KindOfUpload) -> (uploader: Self)
        ensures
            uploader@.url == url@,
            uploader@.headers == no_headers(),
            uploader@.names_held == 0,
            uploader@.kind == kind,
    {
        Uploader { url: url.to_owned(), headers: HeaderMap::new(), kind_of_upload: kind }
    }

    /// The uploader for one file of a run: for the run's kind of upload,
    /// and for `Binary` with the conventional headers, `Content-Type:
    /// application/octet-stream` and `X-Filename` with the file's name.
    ///
    /// A file name that no header value can hold is left out and the error
    /// returned; the upload goes on without that header. Nothing else can
    /// fail.
    pub fn prepare(url: &str, kind: KindOfUpload, target: &UploadTarget) -> (r: (
        Self,
        Option<HeaderError>,
    ))
        ensures
            r.0@.url == url@,
            r.0@.kind == kind,
            r.0@.headers == prepared_headers(kind, target@.file_name),
            r.0@.names_held <= 2,
            r.1 is Some <==> kind == KindOfUpload::Binary && target@.file_name is Some
                && !is_header_value(encode_utf8(target@.file_name->Some_0)),
            r.1 matches Some(e) ==> e is InvalidValue,
    {
        let mut uploader = Uploader::with_kind(url, kind.clone());
        let mut refused: Option<HeaderError> = None;
        match kind {
            KindOfUpload::Multipart => {},
            KindOfUpload::Binary => {
                // An empty map has room, so the content type is set.
                let _ = uploader.set_binary_content_type();
                match &target.file_name {
                    Some(name) => {
                        match uploader.set_file_name(name.as_str()) {
                            Ok(()) => {},
                            Err(e) => {
                                refused = Some(e);
                            },
                        }
                    },
                    None => {},
                }
            },
        }
        (uploader, refused)
    }

    /// Where the requests go.
    pub fn url(&self) -> (url: &str)
        ensures
            url@ == self@.url,
    {
        self.url.as_str()
    }

    /// The kind of upload.
    pub fn kind_of_upload(&self) -> (kind: KindOfUpload)
        ensures
            kind == self@.kind,
    {
        self.kind_of_upload.clone()
    }

    /// The headers that every request of this uploader carries.
    pub fn headers(&self) -> (headers: &HeaderMap)
        ensures
            header_entries(*headers) == self@.headers,
            header_names_held(*headers) == self@.names_held,
    {
        &self.headers
    }

    /// Puts `headers` in the place of the uploader's headers.
    pub fn add_headers(&mut self, headers: HeaderMap)
        ensures
            final(self)@.headers == header_entries(headers),
            final(self)@.names_held == header_names_held(headers),
            final(self)@.url == old(self)@.url,
            final(self)@.kind == old(self)@.kind,
    {
        self.headers = headers;
    }

    /// Sets header `key` to `value`, in place of whatever the name held.
    ///
    /// The name is checked before the value; names are kept in lower case.
    /// An uploader that holds fewer than `HEADER_ROOM` names takes every
    /// header whose name and value pass. On an error the headers are as
    /// they were.
    pub fn add_header(&mut self, key: String, value: String) -> (r: Result<(), HeaderError>)
        ensures
            final(self)@.url == old(self)@.url,
            final(self)@.kind == old(self)@.kind,
            final(self)@.headers == headers_after_set(old(self)@.headers, key@, value@, r),
            final(self)@.names_held <= old(self)@.names_held + 1,
            !is_header_name(encode_utf8(key@)) <==> r matches Err(HeaderError::InvalidName(_)),
            is_header_name(encode_utf8(key@)) && !is_header_value(encode_utf8(value@)) <==> r matches Err(
                HeaderError::InvalidValue(_),
            ),
            old(self)@.names_held < HEADER_ROOM ==> (r is Ok <==> is_header_name(
                encode_utf8(key@),
            ) && is_header_value(encode_utf8(value@))),
    {
        set_header(&mut self.headers, key.as_str(), value.as_str())
    }

    /// Sets `Content-Type: application/octet-stream`, the content type of
    /// a raw body. It can fail only on an uploader without room for
    /// another name.
    pub fn set_binary_content_type(&mut self) -> (r: Result<(), HeaderError>)
        ensures
            final(self)@.url == old(self)@.url,
            final(self)@.kind == old(self)@.kind,
            final(self)@.names_held <= old(self)@.names_held + 1,
            old(self)@.names_held < HEADER_ROOM ==> r is Ok,
            r matches Err(e) ==> e is MapFull,
            r is Ok ==> final(self)@.headers == old(self)@.headers.insert(
                "content-type"@,
                seq![encode_utf8("application/octet-stream"@)],
            ),
            r is Err ==> final(self)@.headers == old(self)@.headers,
    {
        proof {
            lemma_content_type_header();
        }
        set_header(&mut self.headers, "Content-Type", "application/octet-stream")
    }

    /// Sets `X-Filename` to the file's name, which a raw body cannot carry
    /// itself. With room for another name it fails exactly on a name that
    /// no header value can hold.
    pub fn set_file_name(&mut self, file_name: &str) -> (r: Result<(), HeaderError>)
        ensures
            final(self)@.url == old(self)@.url,
            final(self)@.kind == old(self)@.kind,
            final(self)@.names_held <= old(self)@.names_held + 1,
            !is_header_value(encode_utf8(file_name@)) <==> r matches Err(
                HeaderError::InvalidValue(_),
            ),
            old(self)@.names_held < HEADER_ROOM ==> (r is Ok <==> is_header_value(
                encode_utf8(file_name@),
            )),
            r matches Err(e) ==> e is InvalidValue || e is MapFull,
            r is Ok ==> final(self)@.headers == old(self)@.headers.insert(
                "x-filename"@,
                seq![encode_utf8(file_name@)],
            ),
            r is Err ==> final(self)@.headers == old(self)@.headers,
    {
        proof {
            lemma_file_name_header();
        }
        set_header(&mut self.headers, "X-Filename", file_name)
    }

    /// The request that uploads `target` whole.
    ///
    /// A target without a file name is refused. A multipart request has
    /// one part, named `file`, that carries the file's name and the
    /// content type `application/octet-stream`; a binary request has the
    /// file's bytes as its body. Both carry the uploader's headers.
    pub fn upload_file(self, target: &UploadTarget) -> (r: Result<UploadRequest, UploadError>)
        ensures
            match r {
                Ok(request) => planned_request(self@, target@, false) == Ok::<
                    RequestView,
                    UploadError,
                >(request@),
                Err(e) => planned_request(self@, target@, false) == Err::<RequestView, UploadError>(
                    e,
                ),
            },
    {
        self.request(target, false)
    }

    /// The request that uploads `target` whole while its progress is
    /// shown, and the counter for it, at zero and sized to the file.
    ///
    /// The request is that of `upload_file`, but the bytes of a multipart
    /// body are counted as they are read.
    pub fn upload_file_with_progress(self, target: &UploadTarget) -> (r: Result<
        (UploadRequest, ProgressState),
        UploadError,
    >)
        ensures
            match r {
                Ok((request, progress)) => planned_request(self@, target@, true) == Ok::<
                    RequestView,
                    UploadError,
                >(request@) && progress@ == ProgressView::initial(target@.size),
                Err(e) => planned_request(self@, target@, true) == Err::<RequestView, UploadError>(
                    e,
                ),
            },
    {
        let size = target.size;
        match self.request(target, true) {
            Ok(request) => Ok((request, ProgressState::new(size))),
            Err(e) => Err(e),
        }
    }

    fn request(self, target: &UploadTarget, observed: bool) -> (r: Result<
        UploadRequest,
        UploadError,
    >)
        ensures
            match r {
                Ok(request) => planned_request(self@, target@, observed) == Ok::<
                    RequestView,
                    UploadError,
                >(request@),
                Err(e) => planned_request(self@, target@, observed) == Err::<
                    RequestView,
                    UploadError,
                >(e),
            },
    {
        let file_name = match &target.file_name {
            Some(name) => name.clone(),
            None => {
                return Err(UploadError::MissingFileName);
            },
        };
        let body = match self.kind_of_upload {
            KindOfUpload::Multipart => RequestBody::Multipart {
                field: "file".to_owned(),
                file_name,
                content_type: "application/octet-stream".to_owned(),
                observed,
            },
            KindOfUpload::Binary => RequestBody::Binary,
        };
        Ok(UploadRequest { url: self.url, path: target.path.clone(), headers: self.headers, body })
    }

    /// The chunked transfer of `target` in chunks of `chunk_size`, with
    /// nothing started yet and at most `MAX_CONCURRENT_UPLOADS` uploads at
    /// once. A target without a file name is refused.
    pub fn upload_file_with_chunk_size(&self, target: &UploadTarget, chunk_size: usize) -> (r:
        Result<ChunkedUpload, UploadError>)
        requires
            chunk_size > 0,
        ensures
            target@.file_name is None <==> r == Err::<ChunkedUpload, UploadError>(
                UploadError::MissingFileName,
            ),
            target@.file_name is Some <==> r is Ok,
            r matches Ok(upload) ==> upload@ == Dispatch::initial(
                target@.size,
                chunk_size as nat,
                MAX_CONCURRENT_UPLOADS as nat,
            ) && upload.name() == target@.file_name->Some_0,
    {
        match &target.file_name {
            Some(name) => Ok(
                ChunkedUpload::new(name.clone(), target.size, chunk_size, MAX_CONCURRENT_UPLOADS),
            ),
            None => Err(UploadError::MissingFileName),
        }
    }

    /// What the server's answer means: success for a status from 200 to
    /// 299, else a failure that carries the status.
    pub fn check_status(status: u16) -> (r: Result<(), UploadError>)
        ensures
            r == status_outcome(status),
    {
        if 200 <= status && status <= 299 {
            Ok(())
        } else {
            Err(UploadError::Status(status))
        }
    }
}

} // verus!
