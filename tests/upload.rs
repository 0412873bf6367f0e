use yoto::model::MediaFormat;
use yoto::upload::{
    transcode_endpoint, PollAction, TranscodePoll, Upload, UploadError, UploadPipeline, MAX_POLLS,
};

/// A scripted service: counts the requests made of it.
struct Stub {
    upload_url_requests: u32,
    puts: Vec<(String, String)>,
    put_status: u16,
    transcode: Vec<Option<String>>,
    polls: u32,
}

/// Drives a whole upload against the stub; returns the result and the
/// milliseconds slept.
fn run_upload(ext: &str, stub: &mut Stub) -> (Result<String, UploadError>, u64) {
    let pipeline = match UploadPipeline::start(ext) {
        Ok(p) => p,
        Err(e) => return (Err(e), 0),
    };
    stub.upload_url_requests += 1;
    let upload = Upload { id: "up1".to_string(), url: "https://bucket.example/up1".to_string() };
    let transfer = pipeline.transfer(&upload);
    stub.puts.push((transfer.url, transfer.content_type));
    if let Err(e) = pipeline.transfer_done(stub.put_status) {
        return (Err(e), 0);
    }
    let mut poll = TranscodePoll::new();
    let mut slept = 0;
    loop {
        let reply = stub.transcode.get(stub.polls as usize).cloned().flatten();
        stub.polls += 1;
        match poll.step(reply) {
            PollAction::Sleep(ms) => slept += ms,
            PollAction::Done(r) => return (Ok(r), slept),
            PollAction::TimedOut => return (Err(UploadError::TranscodeTimeout), slept),
        }
    }
}

fn stub(transcode: Vec<Option<String>>) -> Stub {
    Stub { upload_url_requests: 0, puts: Vec::new(), put_status: 200, transcode, polls: 0 }
}

#[test]
fn upload_happy_path() {
    let mut s = stub(vec![None, None, Some("sha256abc".to_string())]);
    let (r, slept) = run_upload("mp3", &mut s);
    assert_eq!(r, Ok("sha256abc".to_string()));
    assert_eq!(s.polls, 3);
    assert_eq!(slept, 1000);
    assert_eq!(s.upload_url_requests, 1);
    assert_eq!(
        s.puts,
        vec![("https://bucket.example/up1".to_string(), "audio/mpeg".to_string())]
    );
}

#[test]
fn upload_transcode_timeout() {
    let mut s = stub(vec![]);
    let (r, slept) = run_upload("ogg", &mut s);
    assert_eq!(r, Err(UploadError::TranscodeTimeout));
    assert_eq!(s.polls, 30);
    assert_eq!(slept, 29 * 500);
}

#[test]
fn upload_ready_on_last_poll() {
    let mut script = vec![None; 29];
    script.push(Some("late".to_string()));
    let mut s = stub(script);
    let (r, _) = run_upload("aac", &mut s);
    assert_eq!(r, Ok("late".to_string()));
    assert_eq!(s.polls, 30);
}

#[test]
fn poll_budget_exact() {
    let mut poll = TranscodePoll::new();
    for _ in 0..MAX_POLLS - 1 {
        assert_eq!(poll.step(None), PollAction::Sleep(500));
    }
    assert_eq!(poll.step(None), PollAction::TimedOut);
    assert_eq!(poll.polls, 30);
}

#[test]
fn unsupported_extension_makes_no_request() {
    let mut s = stub(vec![Some("x".to_string())]);
    let (r, _) = run_upload("wav", &mut s);
    assert_eq!(r, Err(UploadError::UnsupportedFormat("wav".to_string())));
    assert_eq!(s.upload_url_requests, 0);
    assert!(s.puts.is_empty());
    assert_eq!(s.polls, 0);
}

#[test]
fn upload_transfer_rejected() {
    let mut s = stub(vec![Some("x".to_string())]);
    s.put_status = 403;
    let (r, _) = run_upload("opus", &mut s);
    assert_eq!(r, Err(UploadError::Transfer));
    assert_eq!(s.polls, 0);
}

#[test]
fn content_type_mapping() {
    let ct = |ext: &str| MediaFormat::from_ext(ext).unwrap().content_type();
    assert_eq!(ct("mp3"), "audio/mpeg");
    assert_eq!(ct("aac"), "audio/aac");
    assert_eq!(ct("ogg"), "audio/ogg");
    assert_eq!(ct("opus"), "audio/opus");
    assert_eq!(MediaFormat::Unknown("flac".to_string()).content_type(), "audio/flac");
}

#[test]
fn from_ext_refuses_others() {
    assert_eq!(MediaFormat::from_ext("mp3"), Ok(MediaFormat::Mp3));
    assert_eq!(MediaFormat::from_ext("opus"), Ok(MediaFormat::Opus));
    assert!(MediaFormat::from_ext("wav").is_err());
    assert!(MediaFormat::from_ext("MP3").is_err());
    assert!(MediaFormat::from_ext("").is_err());
}

#[test]
fn transcode_address() {
    assert_eq!(transcode_endpoint("up1"), "/media/upload/up1/transcoded?loudnorm=false");
}

#[test]
fn upload_error_messages() {
    assert_eq!(UploadError::Transfer.message(), "Failed to upload file");
    assert_eq!(
        UploadError::TranscodeTimeout.message(),
        "Transcoding did not complete in time"
    );
}
