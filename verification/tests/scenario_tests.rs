use aliyundrive::download::{DownloadAction, DownloadEngine, ResumeState};
use aliyundrive::progress::{ProgressCounter, ProgressStream};
use aliyundrive::retry::{classify_download_status, classify_upload_status, Outcome, RetryPolicy};
use aliyundrive::session::read_create_reply;
use aliyundrive::text::range_header;
use aliyundrive::upload::{UploadAction, UploadEngine, UploadEvent};

const MIB: usize = 1024 * 1024;

fn source(len: usize) -> Vec<u8> {
    (0..len).map(|i| ((i * 7 + i / 4096) % 256) as u8).collect()
}

/// A server that answers ranged reads from `data` and counts them.
struct RangeServer {
    data: Vec<u8>,
    requests: Vec<String>,
    refuse_once: Option<String>,
}

impl RangeServer {
    fn get(&mut self, range: &str) -> (u16, Vec<u8>) {
        self.requests.push(range.to_string());
        if self.refuse_once.as_deref() == Some(range) {
            self.refuse_once = None;
            return (403, Vec::new());
        }
        let bounds = range.strip_prefix("bytes=").unwrap();
        let (start, end) = bounds.split_once('-').unwrap();
        let start: usize = start.parse().unwrap();
        let end: usize = end.parse().unwrap();
        (206, self.data[start..=end].to_vec())
    }
}

/// Runs a download to its end against the server and gives the file.
fn download(server: &mut RangeServer, mut file: Vec<u8>, part_size: u64) -> (DownloadAction, Vec<u8>) {
    let total = server.data.len() as u64;
    let resume = ResumeState::inspect(Some(file.len() as u64), total);
    let (mut engine, first) =
        DownloadEngine::start(total, resume, part_size, 3, RetryPolicy::default()).unwrap();
    file.resize(server.data.len().max(file.len()), 0);
    let mut counter = ProgressCounter::new(total);
    counter.set_position(resume.bytes_already_present);
    let mut queue: Vec<usize> = first;
    let mut last = if engine.is_finished() { DownloadAction::Complete } else { DownloadAction::Wait };
    while let Some(part) = queue.pop() {
        assert!(engine.in_flight() <= 3);
        let descriptor = engine.part(part);
        let (start, end) = (descriptor.start, descriptor.end_inclusive);
        let (status, bytes) = server.get(&range_header(start, end));
        let outcome = classify_download_status(status);
        if outcome == Outcome::Success {
            assert_eq!(bytes.len() as u64, end - start + 1);
            file[start as usize..=end as usize].copy_from_slice(&bytes);
            counter.inc(bytes.len() as u64);
        }
        last = engine.step(part, outcome);
        if let DownloadAction::Fetch { part, .. } = last {
            queue.insert(0, part);
        }
    }
    assert!(engine.is_finished());
    if last == DownloadAction::Complete {
        assert!(counter.is_complete());
    }
    (last, file)
}

#[test]
fn twenty_mib_download_with_one_refusal() {
    let data = source(20 * MIB);
    let mut server = RangeServer {
        data: data.clone(),
        requests: Vec::new(),
        refuse_once: Some("bytes=8388608-16777215".to_string()),
    };
    let (end, file) = download(&mut server, Vec::new(), 8 * MIB as u64);
    assert_eq!(end, DownloadAction::Complete);
    assert!(file == data);
    let mut counts = std::collections::BTreeMap::new();
    for r in &server.requests {
        *counts.entry(r.clone()).or_insert(0) += 1;
    }
    assert_eq!(counts.len(), 3);
    assert_eq!(counts["bytes=0-8388607"], 1);
    assert_eq!(counts["bytes=8388608-16777215"], 2);
    assert_eq!(counts["bytes=16777216-20971519"], 1);
}

#[test]
fn a_resumed_download_reads_the_rest_only() {
    let data = source(2500);
    let mut server = RangeServer { data: data.clone(), requests: Vec::new(), refuse_once: None };
    let (end, file) = download(&mut server, data[..700].to_vec(), 1000);
    assert_eq!(end, DownloadAction::Complete);
    assert!(file == data);
    let mut requests = server.requests.clone();
    requests.sort();
    assert_eq!(requests, vec!["bytes=1700-2499", "bytes=700-1699"]);
}

#[test]
fn a_complete_copy_is_not_read_again() {
    let data = source(2500);
    let mut server = RangeServer { data: data.clone(), requests: Vec::new(), refuse_once: None };
    let (end, file) = download(&mut server, data.clone(), 1000);
    assert_eq!(end, DownloadAction::Complete);
    assert!(file == data);
    assert!(server.requests.is_empty());
}

#[test]
fn twenty_mib_upload_in_one_part() {
    let data = source(20 * MIB);
    let mut engine =
        UploadEngine::new(data.len() as u64, 100 * MIB as u64, RetryPolicy::default()).unwrap();
    assert_eq!(engine.declared_parts(), 1);
    let reply = read_create_reply(
        r#"{"file_id":"f","upload_id":"u","part_info_list":[{"part_number":1,"upload_url":"https://up/1"}]}"#,
    )
    .unwrap();
    let mut received: Vec<u8> = Vec::new();
    let mut puts = 0;
    let mut finalized = 0;
    let mut action = engine.step(UploadEvent::Session(reply));
    loop {
        match action {
            UploadAction::Send { part, delay_secs } => {
                assert_eq!(delay_secs, 0);
                let descriptor = engine.part(part);
                assert_eq!(descriptor.upload_target.as_deref(), Some("https://up/1"));
                let body = data[descriptor.start as usize..=descriptor.end_inclusive as usize].to_vec();
                assert_eq!(body.len() as u64, descriptor.len());
                let mut stream = ProgressStream::new(body);
                while let Some(piece) = stream.next_chunk() {
                    received.extend_from_slice(&piece);
                }
                puts += 1;
                action = engine.step(UploadEvent::PartResult(classify_upload_status(200)));
            }
            UploadAction::Finalize => {
                finalized += 1;
                action = engine.step(UploadEvent::FinalizeResult(classify_upload_status(200)));
            }
            UploadAction::Succeed => break,
            other => panic!("unexpected action {:?}", other),
        }
    }
    assert_eq!(puts, 1);
    assert_eq!(finalized, 1);
    assert!(received == data);
}

#[test]
fn upload_with_a_refused_part_sends_every_byte_once_in_the_end() {
    let data = source(2500);
    let mut engine = UploadEngine::new(2500, 1000, RetryPolicy::default()).unwrap();
    let reply = read_create_reply(
        r#"{"file_id":"f","upload_id":"u","part_info_list":[
            {"part_number":1,"upload_url":"u1"},{"part_number":2,"upload_url":"u2"},{"part_number":3,"upload_url":"u3"}]}"#,
    )
    .unwrap();
    let mut stored: Vec<Option<Vec<u8>>> = vec![None, None, None];
    let mut counter = ProgressCounter::new(2500);
    let mut requests: Vec<usize> = Vec::new();
    let mut refusals = 2;
    let mut action = engine.step(UploadEvent::Session(reply));
    loop {
        match action {
            UploadAction::Send { part, .. } => {
                requests.push(part);
                let descriptor = engine.part(part);
                let body = data[descriptor.start as usize..=descriptor.end_inclusive as usize].to_vec();
                let len = body.len() as u64;
                let mut stream = ProgressStream::new(body.clone());
                while let Some(piece) = stream.next_chunk() {
                    counter.inc(piece.len() as u64);
                }
                let status = if part == 1 && refusals > 0 {
                    refusals -= 1;
                    403
                } else {
                    stored[part] = Some(body);
                    200
                };
                let outcome = classify_upload_status(status);
                if outcome != Outcome::Success {
                    counter.rollback(len);
                    assert_eq!(counter.position, engine.confirmed_bytes());
                }
                action = engine.step(UploadEvent::PartResult(outcome));
            }
            UploadAction::Finalize => {
                assert!(counter.is_complete());
                action = engine.step(UploadEvent::FinalizeResult(Outcome::Success));
            }
            UploadAction::Succeed => break,
            other => panic!("unexpected action {:?}", other),
        }
    }
    assert_eq!(requests, vec![0, 1, 1, 1, 2]);
    let joined: Vec<u8> = stored.into_iter().flat_map(|p| p.unwrap()).collect();
    assert!(joined == data);
}
