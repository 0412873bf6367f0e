//! The audio upload pipeline: resolve the file's format, obtain an upload
//! target, transfer the bytes, then poll a bounded number of times for the
//! transcoded result.
use vstd::prelude::*;
use crate::client::ClientError;
use crate::model::{MediaFormat, content_type_of, format_of_ext};

verus! {

/// Endpoint handing out a one-time upload target.
pub const UPLOAD_URL_ENDPOINT: &'static str = "/media/transcode/audio/uploadUrl";

/// Most transcode-status requests made for one upload.
pub const MAX_POLLS: u32 = 30;

/// Milliseconds slept between two transcode-status requests.
pub const POLL_DELAY_MS: u64 = 500;

/// A one-time upload target: an opaque identifier and where to put the bytes.
#[derive(Debug, Clone)]
pub struct Upload {
    pub id: String,
    pub url: String,
}

/// Why an upload gave no transcoded reference.
#[derive(Debug, Clone, PartialEq, Eq)]
pub enum UploadError {
    /// The file's extension names no supported format; nothing was sent.
    UnsupportedFormat(String),
    /// The upload target could not be obtained.
    Request(ClientError),
    /// The transfer of the bytes was not accepted.
    Transfer,
    /// The transcoder produced no result within the poll budget.
    TranscodeTimeout,
}

/// The transfer phase of an upload whose format is known.
#[derive(Debug, Clone)]
pub struct UploadPipeline {
    pub format: MediaFormat,
}

/// The request that puts a file's bytes at its upload target.
#[derive(Debug, Clone)]
pub struct Transfer {
    pub url: String,
    pub content_type: String,
}

/// Endpoint reporting the transcode of an upload, loudness normalisation off.
pub fn transcode_endpoint(upload_id: &str) -> (r: String)
    ensures
        r@ == "/media/upload/"@ + upload_id@ + "/transcoded?loudnorm=false"@,
{
    "/media/upload/".to_owned().concat(upload_id).concat("/transcoded?loudnorm=false")
}

/// The sentence shown to the operator for an upload error.
pub open spec fn message_of(e: UploadError) -> Seq<char> {
    match e {
        UploadError::UnsupportedFormat(_) => "Unsupported file extension"@,
        UploadError::Request(_) => "Failed to obtain an upload target"@,
        UploadError::Transfer => "Failed to upload file"@,
        UploadError::TranscodeTimeout => "Transcoding did not complete in time"@,
    }
}

impl UploadError {
    /// A sentence for the operator.
    pub fn message(&self) -> (r: String)
        ensures
            r@ == message_of(*self),
    {
        match self {
            UploadError::UnsupportedFormat(_) => "Unsupported file extension".to_owned(),
            UploadError::Request(_) => "Failed to obtain an upload target".to_owned(),
            UploadError::Transfer => "Failed to upload file".to_owned(),
            UploadError::TranscodeTimeout => "Transcoding did not complete in time".to_owned(),
        }
    }
}

impl UploadPipeline {
    /// Starts an upload of a file with extension `ext`. An unsupported
    /// extension fails here, before any request is made.
    pub fn start(ext: &str) -> (r: Result<UploadPipeline, UploadError>)
        ensures
            format_of_ext(ext@) matches Some(f) ==> (r matches Ok(p) && p.format == f),
            format_of_ext(ext@) is None ==> (r matches Err(UploadError::UnsupportedFormat(e))
                && e@ == ext@),
    {
        match MediaFormat::from_ext(ext) {
            Ok(format) => Ok(UploadPipeline { format }),
            Err(_) => Err(UploadError::UnsupportedFormat(ext.to_owned())),
        }
    }

    /// The request that transfers the bytes to `upload`.
    pub fn transfer(&self, upload: &Upload) -> (r: Transfer)
        ensures
            r.url@ == upload.url@,
            r.content_type@ == content_type_of(self.format),
    {
        Transfer { url: upload.url.clone(), content_type: self.format.content_type() }
    }

    /// Reads the HTTP status of the transfer; anything but 200 fails.
    pub fn transfer_done(&self, status: u16) -> (r: Result<(), UploadError>)
        ensures
            status == 200 ==> r is Ok,
            status != 200 ==> r == Err::<(), UploadError>(UploadError::Transfer),
    {
        if status == 200 {
            Ok(())
        } else {
            Err(UploadError::Transfer)
        }
    }
}

/// Progress of the transcode poll: requests made so far.
#[derive(Debug, Clone, Copy, PartialEq, Eq)]
pub struct TranscodePoll {
    pub polls: u32,
}

/// What the transcode poll asks of its driver after one status answer.
#[derive(Debug, Clone, PartialEq, Eq)]
pub enum PollAction {
    /// Sleep this many milliseconds, then request the status again.
    Sleep(u64),
    /// The transcoded audio is ready under this reference.
    Done(String),
    /// The poll budget is spent.
    TimedOut,
}

impl TranscodePoll {
    /// The poll stays within its budget.
    pub open spec fn wf(self) -> bool {
        self.polls < MAX_POLLS
    }

    /// The poll before its first request.
    pub fn new() -> (r: TranscodePoll)
        ensures
            r.polls == 0,
            r.wf(),
    {
        TranscodePoll { polls: 0 }
    }

    /// Decides on one status answer: a reference ends the poll; its absence
    /// sleeps and asks again, unless this was the last request of the budget.
    pub fn step(&mut self, reference: Option<String>) -> (a: PollAction)
        requires
            old(self).wf(),
        ensures
            final(self).polls == old(self).polls + 1,
            reference matches Some(r) ==> a == PollAction::Done(r),
            reference is None && final(self).polls < MAX_POLLS ==> a == PollAction::Sleep(POLL_DELAY_MS),
            reference is None && final(self).polls == MAX_POLLS ==> a == PollAction::TimedOut,
            a is Sleep ==> final(self).wf(),
    {
        self.polls = self.polls + 1;
        match reference {
            Some(r) => PollAction::Done(r),
            None => {
                if self.polls >= MAX_POLLS {
                    PollAction::TimedOut
                } else {
                    PollAction::Sleep(POLL_DELAY_MS)
                }
            },
        }
    }
}

} // verus!
