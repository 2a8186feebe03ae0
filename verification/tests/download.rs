use whispercrabs::download::{
    latest, Command, DownloadFailure, DownloadMsg, DownloadState, IoEvent, Phase, Reaction,
    CHUNK_SIZE, PART_SUFFIX,
};

fn ok_response(len: Option<u64>) -> IoEvent {
    IoEvent::Responded { status: 200, content_length: len }
}

fn reading(len: Option<u64>) -> DownloadState {
    let mut d = DownloadState::begin("/m/ggml-tiny.en.bin");
    d.advance(ok_response(len));
    d.advance(IoEvent::PartCreated);
    d
}

#[test]
fn a_download_begins_by_asking_for_the_request() {
    let d = DownloadState::begin("/m/ggml-tiny.en.bin");
    assert_eq!(d.target_path(), "/m/ggml-tiny.en.bin");
    assert_eq!(d.part_path(), "/m/ggml-tiny.en.bin.part");
    assert_eq!(PART_SUFFIX, ".part");
    assert_eq!(d.phase(), Phase::AwaitingResponse);
    assert_eq!(d.pending(), Command::SendRequest);
    assert_eq!(d.bytes_downloaded(), 0);
    assert_eq!(d.total_bytes(), None);
    assert!(!d.is_over());
    assert_eq!(CHUNK_SIZE, 65536);
}

#[test]
fn progress_counts_grow_with_every_chunk_until_done() {
    let mut d = DownloadState::begin("/m/a.bin");
    assert_eq!(
        d.advance(ok_response(Some(150000))),
        Reaction { report: None, next: Command::CreatePart }
    );
    assert_eq!(d.total_bytes(), Some(150000));
    assert_eq!(
        d.advance(IoEvent::PartCreated),
        Reaction { report: None, next: Command::ReadChunk }
    );
    let mut reports: Vec<DownloadMsg> = Vec::new();
    for n in [65536usize, 65536, 18928] {
        assert_eq!(
            d.advance(IoEvent::ChunkRead(n)),
            Reaction { report: None, next: Command::WriteChunk(n) }
        );
        let r = d.advance(IoEvent::ChunkWritten);
        assert_eq!(r.next, Command::ReadChunk);
        reports.push(r.report.expect("a count after each chunk"));
    }
    assert_eq!(
        reports,
        vec![
            DownloadMsg::Progress(65536, Some(150000)),
            DownloadMsg::Progress(131072, Some(150000)),
            DownloadMsg::Progress(150000, Some(150000)),
        ]
    );
    assert_eq!(
        d.advance(IoEvent::ChunkRead(0)),
        Reaction { report: None, next: Command::RenamePart }
    );
    assert_eq!(
        d.advance(IoEvent::Renamed),
        Reaction { report: Some(DownloadMsg::Done), next: Command::Stop }
    );
    assert_eq!(d.phase(), Phase::Done);
    assert!(d.is_over());
    assert_eq!(d.bytes_downloaded(), 150000);
}

#[test]
fn an_unknown_size_is_reported_as_unknown() {
    let mut d = reading(None);
    d.advance(IoEvent::ChunkRead(10));
    assert_eq!(
        d.advance(IoEvent::ChunkWritten).report,
        Some(DownloadMsg::Progress(10, None))
    );
}

#[test]
fn a_refused_status_fails_after_cleaning_up() {
    let mut d = DownloadState::begin("/m/a.bin");
    assert_eq!(
        d.advance(IoEvent::Responded { status: 404, content_length: Some(9) }),
        Reaction { report: None, next: Command::RemovePart }
    );
    assert_eq!(d.phase(), Phase::CleaningUp(DownloadFailure::HttpStatus(404)));
    assert!(!d.is_over());
    assert_eq!(
        d.advance(IoEvent::PartRemoved),
        Reaction {
            report: Some(DownloadMsg::Error(DownloadFailure::HttpStatus(404))),
            next: Command::Stop
        }
    );
    assert_eq!(d.phase(), Phase::Failed(DownloadFailure::HttpStatus(404)));
    assert!(d.is_over());
}

#[test]
fn every_kind_of_failure_ends_with_the_partial_file_removed() {
    let mut request = DownloadState::begin("/m/a.bin");
    assert_eq!(request.advance(IoEvent::RequestFailed).next, Command::RemovePart);
    assert_eq!(
        request.advance(IoEvent::PartRemoved).report,
        Some(DownloadMsg::Error(DownloadFailure::Request))
    );

    let mut create = DownloadState::begin("/m/a.bin");
    create.advance(ok_response(None));
    assert_eq!(create.advance(IoEvent::CreateFailed).next, Command::RemovePart);
    assert_eq!(
        create.advance(IoEvent::PartRemoved).report,
        Some(DownloadMsg::Error(DownloadFailure::CreateFile))
    );

    let mut read = reading(None);
    assert_eq!(read.advance(IoEvent::ReadFailed).next, Command::RemovePart);
    assert_eq!(
        read.advance(IoEvent::PartRemoved).report,
        Some(DownloadMsg::Error(DownloadFailure::Read))
    );

    let mut write = reading(None);
    write.advance(IoEvent::ChunkRead(5));
    assert_eq!(write.advance(IoEvent::WriteFailed).next, Command::RemovePart);
    assert_eq!(
        write.advance(IoEvent::PartRemoved).report,
        Some(DownloadMsg::Error(DownloadFailure::Write))
    );
    assert_eq!(write.bytes_downloaded(), 0);

    let mut rename = reading(None);
    rename.advance(IoEvent::ChunkRead(0));
    assert_eq!(rename.advance(IoEvent::RenameFailed).next, Command::RemovePart);
    assert_eq!(
        rename.advance(IoEvent::PartRemoved).report,
        Some(DownloadMsg::Error(DownloadFailure::Rename))
    );
    assert_eq!(rename.phase(), Phase::Failed(DownloadFailure::Rename));
}

#[test]
fn an_event_that_answers_no_pending_command_changes_nothing() {
    let mut d = reading(Some(10));
    for event in [
        IoEvent::PartCreated,
        IoEvent::ChunkWritten,
        IoEvent::Renamed,
        IoEvent::PartRemoved,
        IoEvent::RequestFailed,
        ok_response(Some(99)),
    ] {
        assert_eq!(d.advance(event), Reaction { report: None, next: Command::ReadChunk });
        assert_eq!(d.phase(), Phase::Reading);
        assert_eq!(d.total_bytes(), Some(10));
    }
}

#[test]
fn a_download_that_is_over_stays_over() {
    let mut d = reading(None);
    d.advance(IoEvent::ChunkRead(0));
    d.advance(IoEvent::Renamed);
    for event in [IoEvent::ChunkRead(5), IoEvent::Renamed, IoEvent::PartRemoved, IoEvent::ReadFailed] {
        assert_eq!(d.advance(event), Reaction { report: None, next: Command::Stop });
        assert_eq!(d.phase(), Phase::Done);
    }
}

#[test]
fn a_count_beyond_sixty_four_bits_is_a_failure() {
    let mut d = reading(None);
    let mut i = 0;
    while i < 3 {
        d.advance(IoEvent::ChunkRead(usize::MAX));
        d.advance(IoEvent::ChunkWritten);
        i += 1;
    }
    if usize::MAX as u128 * 2 > u64::MAX as u128 {
        assert_eq!(d.phase(), Phase::CleaningUp(DownloadFailure::TooLarge));
        assert_eq!(d.bytes_downloaded(), usize::MAX as u64);
    }
}

#[test]
fn of_the_messages_that_arrived_the_newest_counts() {
    assert_eq!(latest(&Vec::new()), None);
    assert_eq!(
        latest(&vec![DownloadMsg::Progress(1, None), DownloadMsg::Progress(2, None)]),
        Some(DownloadMsg::Progress(2, None))
    );
    assert_eq!(
        latest(&vec![DownloadMsg::Progress(1, Some(1)), DownloadMsg::Done]),
        Some(DownloadMsg::Done)
    );
}
