use seven_zip::archive::{NameBuffer, OpenedArchive, SolidBlockCache};
use seven_zip::error::SevenZipError;
use seven_zip::file::ArchiveFile;
use seven_zip::iterator::ArchiveIterator;
use seven_zip::protocol::{Action, Event, Request, INPUT_BUF_SIZE, NO_BLOCK};
use seven_zip::status::{SZ_ERROR_FAIL, SZ_ERROR_MEM};
use seven_zip::stream::{ArchiveStream, Outcome, Phase, SevenZipArchive};

/// One entry of an archive that lives in memory.
#[derive(Clone, Debug)]
struct FakeEntry {
    name: Vec<u16>,
    is_dir: bool,
    content: Vec<u8>,
    block: u32,
    extract_error: Option<i32>,
}

/// A decoder over an archive that lives in memory. It answers requests as the
/// native decoder would, counts what it is asked, and keeps its scratch
/// buffers between calls as the native decoder does.
#[derive(Debug)]
struct FakeDecoder {
    entries: Vec<FakeEntry>,
    reject_input: bool,
    input_out_of_memory: bool,
    index_error: Option<i32>,
    name_out_of_memory: bool,
    close_error: Option<i32>,
    name_buffer: Vec<u16>,
    out_buffer: Vec<u8>,
    block_index: u32,
    decoded_blocks: u32,
    cache_mismatches: u32,
    log: Vec<Request>,
}

impl FakeDecoder {
    fn new(entries: Vec<FakeEntry>) -> FakeDecoder {
        FakeDecoder {
            entries,
            reject_input: false,
            input_out_of_memory: false,
            index_error: None,
            name_out_of_memory: false,
            close_error: None,
            name_buffer: Vec::new(),
            out_buffer: Vec::new(),
            block_index: NO_BLOCK,
            decoded_blocks: 0,
            cache_mismatches: 0,
            log: Vec::new(),
        }
    }

    fn count(&self, request: Request) -> usize {
        self.log.iter().filter(|asked| **asked == request).count()
    }

    fn count_grows(&self) -> usize {
        self.log.iter().filter(|asked| matches!(asked, Request::GrowNameBuffer { .. })).count()
    }

    fn count_extractions(&self) -> usize {
        self.log.iter().filter(|asked| matches!(asked, Request::ExtractBlock { .. })).count()
    }

    fn teardown_requests(&self) -> Vec<Request> {
        self.log
            .iter()
            .filter(|asked| {
                matches!(asked, Request::FreeIndex | Request::FreeBuffer | Request::CloseInput)
            })
            .cloned()
            .collect()
    }

    fn perform(&mut self, request: Request) -> Event<'_> {
        self.log.push(request);
        match request {
            Request::BindInput { handle } => {
                if self.reject_input || handle < 0 {
                    Event::InputRejected
                } else {
                    Event::InputBound
                }
            }
            Request::AllocateInputBuffer { .. } => {
                if self.input_out_of_memory {
                    Event::OutOfMemory
                } else {
                    Event::Allocated
                }
            }
            Request::OpenIndex => match self.index_error {
                Some(native_code) => Event::IndexFailed { native_code },
                None => Event::IndexOpened { entry_count: self.entries.len() as u32 },
            },
            Request::IsDirectory { position } => {
                Event::Directory { is_dir: self.entries[position as usize].is_dir }
            }
            Request::NameLength { position } => {
                Event::NameLength { length: self.entries[position as usize].name.len() + 1 }
            }
            Request::GrowNameBuffer { length } => {
                if self.name_out_of_memory {
                    Event::OutOfMemory
                } else {
                    self.name_buffer = vec![0xFFFF; length];
                    Event::Allocated
                }
            }
            Request::DecodeName { position } => {
                let name = &self.entries[position as usize].name;
                let written = name.len() + 1;
                self.name_buffer[..name.len()].copy_from_slice(name);
                self.name_buffer[name.len()] = 0;
                Event::NameDecoded { units: &self.name_buffer[..written] }
            }
            Request::ExtractBlock { position, block_index, out_buffer_size } => {
                if block_index != self.block_index || out_buffer_size != self.out_buffer.len() {
                    self.cache_mismatches += 1;
                }
                let entry = self.entries[position as usize].clone();
                if let Some(native_code) = entry.extract_error {
                    return Event::ExtractFailed { native_code };
                }
                if self.block_index != entry.block {
                    self.out_buffer.clear();
                    for other in self.entries.iter().filter(|e| e.block == entry.block) {
                        self.out_buffer.extend_from_slice(&other.content);
                    }
                    self.block_index = entry.block;
                    self.decoded_blocks += 1;
                }
                let offset: usize = self.entries[..position as usize]
                    .iter()
                    .filter(|e| e.block == entry.block)
                    .map(|e| e.content.len())
                    .sum();
                Event::Extracted {
                    block_index: self.block_index,
                    out_buffer: &self.out_buffer,
                    offset,
                    length: entry.content.len(),
                }
            }
            Request::FreeIndex => Event::Released,
            Request::FreeBuffer => {
                self.name_buffer = Vec::new();
                self.out_buffer = Vec::new();
                Event::Released
            }
            Request::CloseInput => match self.close_error {
                Some(code) => Event::CloseFailed { code },
                None => Event::InputClosed,
            },
        }
    }
}

fn wide(text: &str) -> Vec<u16> {
    text.encode_utf16().collect()
}

fn file(name: &str, content: &[u8], block: u32) -> FakeEntry {
    FakeEntry {
        name: wide(name),
        is_dir: false,
        content: content.to_vec(),
        block,
        extract_error: None,
    }
}

fn dir(name: &str) -> FakeEntry {
    FakeEntry {
        name: wide(name),
        is_dir: true,
        content: Vec::new(),
        block: NO_BLOCK,
        extract_error: None,
    }
}

/// Ten pages in two solid blocks and one directory named `image_folder`.
fn comic() -> Vec<FakeEntry> {
    let mut entries = Vec::new();
    for i in 0..5u8 {
        entries.push(file(&format!("image_folder/page_{}.jpg", i), &[i, i + 1, i + 2], 0));
    }
    entries.push(dir("image_folder"));
    for i in 5..10u8 {
        entries.push(file(&format!("image_folder/page_{}.jpg", i), &[i; 7], 1));
    }
    entries
}

/// Hands the stream an event and performs what it asks for until it has
/// something for the consumer.
fn drive(stream: &mut ArchiveStream, decoder: &mut FakeDecoder, first: Event) -> Action {
    let mut action = stream.step(first);
    loop {
        match action {
            Action::Ask(request) => {
                let event = decoder.perform(request);
                action = stream.step(event);
            }
            other => return other,
        }
    }
}

fn pull(stream: &mut ArchiveStream, decoder: &mut FakeDecoder) -> Action {
    drive(stream, decoder, Event::Pull)
}

/// Pulls until the stream ends, and returns the records and the last action.
fn drain(stream: &mut ArchiveStream, decoder: &mut FakeDecoder) -> (Vec<ArchiveFile>, Action) {
    let mut files = Vec::new();
    loop {
        match pull(stream, decoder) {
            Action::Yield(file) => files.push(file),
            other => return (files, other),
        }
    }
}

#[test]
fn test_stream_cb7_archive() {
    let fd = 3;
    let mut decoder = FakeDecoder::new(comic());
    let mut stream = SevenZipArchive::new(fd).stream_files();

    let mut file_count = 0u32;

    let (files, last) = drain(&mut stream, &mut decoder);
    assert_eq!(last, Action::Finish);
    for file in files {
        assert_eq!(
            file.content.is_none(),
            file.is_dir,
            "If it's a file it should contain content. Otherwise it should be empty"
        );

        assert_eq!(
            file.is_dir,
            file.name == "image_folder",
            "Wrong dir detection {}",
            file.name
        );

        file_count += 1;
    }

    assert_eq!(
        file_count, 11,
        "Wrong number of 7z archive files. Count {}",
        file_count
    );
}

#[test]
fn streaming_yields_ten_files_and_one_directory() {
    let mut decoder = FakeDecoder::new(comic());
    let mut stream = SevenZipArchive::new(3).stream_files();
    let (files, last) = drain(&mut stream, &mut decoder);
    assert_eq!(last, Action::Finish);
    assert_eq!(files.len(), 11);
    let directories: Vec<&ArchiveFile> = files.iter().filter(|f| f.is_dir).collect();
    assert_eq!(directories.len(), 1);
    assert_eq!(directories[0].name, "image_folder");
    assert_eq!(directories[0].content, None);
    assert_eq!(files.iter().filter(|f| !f.is_dir && f.content.is_some()).count(), 10);
    assert_eq!(stream.outcome(), Outcome::Completed);
    assert_eq!(stream.phase(), Phase::Closed);
    assert_eq!(stream.close_error(), None);
}

#[test]
fn records_come_in_position_order_with_names_and_bytes() {
    let entries = comic();
    let mut decoder = FakeDecoder::new(entries.clone());
    let mut stream = SevenZipArchive::new(3).stream_files();
    let (files, _) = drain(&mut stream, &mut decoder);
    assert_eq!(files.len(), entries.len());
    for (i, file) in files.iter().enumerate() {
        assert_eq!(file.pos, i);
        assert_eq!(file.name, String::from_utf16(&entries[i].name).unwrap());
        assert_eq!(file.is_dir, entries[i].is_dir);
        if entries[i].is_dir {
            assert_eq!(file.content, None);
        } else {
            assert_eq!(file.content, Some(entries[i].content.clone()));
        }
    }
    assert_eq!(files[0].name, "image_folder/page_0.jpg");
    assert_eq!(files[0].content, Some(vec![0, 1, 2]));
    assert_eq!(files[10].content, Some(vec![9; 7]));
}

#[test]
fn nothing_is_asked_before_the_first_pull() {
    let decoder = FakeDecoder::new(comic());
    let stream = SevenZipArchive::new(3).stream_files();
    assert_eq!(stream.phase(), Phase::Idle);
    assert_eq!(stream.outcome(), Outcome::Running);
    assert!(decoder.log.is_empty());
}

#[test]
fn first_pull_opens_the_archive_step_by_step() {
    let mut stream = SevenZipArchive::new(42).stream_files();
    assert_eq!(stream.step(Event::Pull), Action::Ask(Request::BindInput { handle: 42 }));
    assert_eq!(stream.phase(), Phase::Binding);
    assert_eq!(
        stream.step(Event::InputBound),
        Action::Ask(Request::AllocateInputBuffer { size: 262144 })
    );
    assert_eq!(INPUT_BUF_SIZE, 1 << 18);
    assert_eq!(stream.phase(), Phase::Allocating);
    assert_eq!(stream.step(Event::Allocated), Action::Ask(Request::OpenIndex));
    assert_eq!(stream.phase(), Phase::Opening);
    assert_eq!(
        stream.step(Event::IndexOpened { entry_count: 2 }),
        Action::Ask(Request::IsDirectory { position: 0 })
    );
    assert_eq!(stream.phase(), Phase::Streaming);
}

#[test]
fn entry_is_resolved_flag_then_name_then_bytes() {
    let mut stream = SevenZipArchive::new(1).stream_files();
    stream.step(Event::Pull);
    stream.step(Event::InputBound);
    stream.step(Event::Allocated);
    stream.step(Event::IndexOpened { entry_count: 1 });
    assert_eq!(
        stream.step(Event::Directory { is_dir: false }),
        Action::Ask(Request::NameLength { position: 0 })
    );
    assert_eq!(
        stream.step(Event::NameLength { length: 3 }),
        Action::Ask(Request::GrowNameBuffer { length: 3 })
    );
    assert_eq!(stream.step(Event::Allocated), Action::Ask(Request::DecodeName { position: 0 }));
    let units = [0x0061u16, 0x0062, 0];
    assert_eq!(
        stream.step(Event::NameDecoded { units: &units }),
        Action::Ask(Request::ExtractBlock {
            position: 0,
            block_index: 0xFFFF_FFFF,
            out_buffer_size: 0
        })
    );
    let buffer = [9u8, 8, 7, 6];
    assert_eq!(
        stream.step(Event::Extracted { block_index: 5, out_buffer: &buffer, offset: 1, length: 2 }),
        Action::Yield(ArchiveFile {
            pos: 0,
            name: String::from("ab"),
            is_dir: false,
            content: Some(vec![8, 7]),
        })
    );
    assert_eq!(stream.step(Event::Pull), Action::Ask(Request::FreeIndex));
    assert_eq!(stream.outcome(), Outcome::Completed);
}

#[test]
fn directory_is_yielded_without_extraction() {
    let mut decoder = FakeDecoder::new(vec![dir("a"), dir("b")]);
    let mut stream = SevenZipArchive::new(3).stream_files();
    let (files, last) = drain(&mut stream, &mut decoder);
    assert_eq!(last, Action::Finish);
    assert_eq!(files.len(), 2);
    assert_eq!(
        files[0],
        ArchiveFile { pos: 0, name: String::from("a"), is_dir: true, content: None }
    );
    assert_eq!(
        files[1],
        ArchiveFile { pos: 1, name: String::from("b"), is_dir: true, content: None }
    );
    assert_eq!(decoder.count_extractions(), 0);
}

#[test]
fn directory_flag_comes_from_the_index_not_from_the_name() {
    let mut decoder =
        FakeDecoder::new(vec![file("image_folder", b"not a folder", 0), dir("page_1.jpg")]);
    let mut stream = SevenZipArchive::new(3).stream_files();
    let (files, _) = drain(&mut stream, &mut decoder);
    assert_eq!(files.len(), 2);
    assert_eq!(files[0].name, "image_folder");
    assert!(!files[0].is_dir);
    assert_eq!(files[0].content, Some(b"not a folder".to_vec()));
    assert_eq!(files[1].name, "page_1.jpg");
    assert!(files[1].is_dir);
    assert_eq!(files[1].content, None);
}

#[test]
fn content_is_present_exactly_for_files() {
    let mut decoder = FakeDecoder::new(vec![file("empty", b"", 0), dir("d"), file("x", b"x", 0)]);
    let mut stream = SevenZipArchive::new(3).stream_files();
    let (files, _) = drain(&mut stream, &mut decoder);
    assert_eq!(files.len(), 3);
    for file in &files {
        assert_eq!(file.content.is_some(), !file.is_dir);
    }
    assert_eq!(files[0].content, Some(Vec::new()));
}

#[test]
fn saved_content_survives_the_next_extraction() {
    let mut decoder =
        FakeDecoder::new(vec![file("a", &[1, 2, 3], 0), file("b", &[4, 5, 6, 7], 1)]);
    let mut stream = SevenZipArchive::new(3).stream_files();
    let first = match pull(&mut stream, &mut decoder) {
        Action::Yield(file) => file,
        other => panic!("no record: {:?}", other),
    };
    let saved = first.content.clone().unwrap();
    assert_eq!(saved, vec![1, 2, 3]);
    let second = match pull(&mut stream, &mut decoder) {
        Action::Yield(file) => file,
        other => panic!("no record: {:?}", other),
    };
    assert_eq!(second.content, Some(vec![4, 5, 6, 7]));
    assert_eq!(decoder.out_buffer, vec![4, 5, 6, 7]);
    assert_eq!(first.content, Some(saved));
    assert_eq!(first.content, Some(vec![1, 2, 3]));
}

#[test]
fn cache_state_is_threaded_into_every_extraction() {
    let mut decoder = FakeDecoder::new(comic());
    let mut stream = SevenZipArchive::new(3).stream_files();
    let (files, _) = drain(&mut stream, &mut decoder);
    assert_eq!(files.len(), 11);
    assert_eq!(decoder.cache_mismatches, 0);
    assert_eq!(decoder.count_extractions(), 10);
    assert_eq!(decoder.decoded_blocks, 2);
    let extractions: Vec<Request> = decoder
        .log
        .iter()
        .filter(|r| matches!(r, Request::ExtractBlock { .. }))
        .cloned()
        .collect();
    assert_eq!(
        extractions[0],
        Request::ExtractBlock { position: 0, block_index: NO_BLOCK, out_buffer_size: 0 }
    );
    assert_eq!(
        extractions[1],
        Request::ExtractBlock { position: 1, block_index: 0, out_buffer_size: 15 }
    );
    assert_eq!(
        extractions[5],
        Request::ExtractBlock { position: 6, block_index: 0, out_buffer_size: 15 }
    );
    assert_eq!(
        extractions[6],
        Request::ExtractBlock { position: 7, block_index: 1, out_buffer_size: 35 }
    );
}

#[test]
fn name_buffer_grows_to_the_longest_name_and_never_shrinks() {
    let mut decoder = FakeDecoder::new(vec![
        dir("abc"),
        dir("ab"),
        dir("abcdef"),
        dir("abcdef"),
        dir("a"),
        dir("abcdefg"),
    ]);
    let mut stream = SevenZipArchive::new(3).stream_files();
    let (files, _) = drain(&mut stream, &mut decoder);
    assert_eq!(files.len(), 6);
    let grows: Vec<Request> = decoder
        .log
        .iter()
        .filter(|r| matches!(r, Request::GrowNameBuffer { .. }))
        .cloned()
        .collect();
    assert_eq!(
        grows,
        vec![
            Request::GrowNameBuffer { length: 4 },
            Request::GrowNameBuffer { length: 7 },
            Request::GrowNameBuffer { length: 8 },
        ]
    );
    assert_eq!(decoder.count_grows(), 3);
}

#[test]
fn empty_archive_finishes_after_teardown() {
    let mut decoder = FakeDecoder::new(Vec::new());
    let mut stream = SevenZipArchive::new(3).stream_files();
    assert_eq!(pull(&mut stream, &mut decoder), Action::Finish);
    assert_eq!(stream.outcome(), Outcome::Completed);
    assert_eq!(
        decoder.log,
        vec![
            Request::BindInput { handle: 3 },
            Request::AllocateInputBuffer { size: INPUT_BUF_SIZE },
            Request::OpenIndex,
            Request::FreeIndex,
            Request::FreeBuffer,
            Request::CloseInput,
        ]
    );
}

#[test]
fn invalid_handle_gives_open_error_and_no_records() {
    let mut decoder = FakeDecoder::new(comic());
    let mut stream = SevenZipArchive::new(-1).stream_files();
    let (files, last) = drain(&mut stream, &mut decoder);
    assert!(files.is_empty());
    assert_eq!(last, Action::Fail(SevenZipError::Open { status: None }));
    assert_eq!(stream.outcome(), Outcome::Failed(SevenZipError::Open { status: None }));
    assert_eq!(stream.phase(), Phase::Closed);
    assert_eq!(decoder.log, vec![Request::BindInput { handle: -1 }]);
    assert!(decoder.teardown_requests().is_empty());
    assert_eq!(pull(&mut stream, &mut decoder), Action::Finish);
}

#[test]
fn unreadable_input_gives_open_error_and_no_records() {
    let mut decoder = FakeDecoder::new(comic());
    decoder.reject_input = true;
    let mut stream = SevenZipArchive::new(5).stream_files();
    let (files, last) = drain(&mut stream, &mut decoder);
    assert!(files.is_empty());
    assert_eq!(last, Action::Fail(SevenZipError::Open { status: None }));
}

#[test]
fn corrupt_index_gives_open_error_with_the_native_code() {
    let mut decoder = FakeDecoder::new(comic());
    decoder.index_error = Some(16);
    let mut stream = SevenZipArchive::new(3).stream_files();
    let (files, last) = drain(&mut stream, &mut decoder);
    assert!(files.is_empty());
    assert_eq!(last, Action::Fail(SevenZipError::Open { status: Some(16) }));
    assert_eq!(
        decoder.teardown_requests(),
        vec![Request::FreeIndex, Request::FreeBuffer, Request::CloseInput]
    );
}

#[test]
fn missing_input_buffer_gives_open_error_out_of_memory() {
    let mut decoder = FakeDecoder::new(comic());
    decoder.input_out_of_memory = true;
    let mut stream = SevenZipArchive::new(3).stream_files();
    let (files, last) = drain(&mut stream, &mut decoder);
    assert!(files.is_empty());
    assert_eq!(SZ_ERROR_MEM, 2);
    assert_eq!(last, Action::Fail(SevenZipError::Open { status: Some(2) }));
    assert_eq!(decoder.count(Request::OpenIndex), 0);
    assert_eq!(
        decoder.teardown_requests(),
        vec![Request::FreeIndex, Request::FreeBuffer, Request::CloseInput]
    );
}

#[test]
fn failed_extraction_ends_the_stream_with_position_and_code() {
    let mut entries = comic();
    entries[3].extract_error = Some(3);
    let mut decoder = FakeDecoder::new(entries);
    let mut stream = SevenZipArchive::new(3).stream_files();
    let (files, last) = drain(&mut stream, &mut decoder);
    assert_eq!(files.len(), 3);
    assert_eq!(last, Action::Fail(SevenZipError::Extract { position: 3, native_code: 3 }));
    assert_eq!(
        stream.outcome(),
        Outcome::Failed(SevenZipError::Extract { position: 3, native_code: 3 })
    );
    assert_eq!(
        decoder.teardown_requests(),
        vec![Request::FreeIndex, Request::FreeBuffer, Request::CloseInput]
    );
    assert_eq!(pull(&mut stream, &mut decoder), Action::Finish);
    assert_eq!(decoder.count(Request::CloseInput), 1);
}

#[test]
fn refused_name_buffer_ends_the_stream_with_alloc_error() {
    let mut decoder = FakeDecoder::new(comic());
    decoder.name_out_of_memory = true;
    let mut stream = SevenZipArchive::new(3).stream_files();
    let (files, last) = drain(&mut stream, &mut decoder);
    assert!(files.is_empty());
    assert_eq!(last, Action::Fail(SevenZipError::Alloc));
    assert_eq!(decoder.count(Request::DecodeName { position: 0 }), 0);
    assert_eq!(decoder.count(Request::CloseInput), 1);
}

#[test]
fn invalid_name_ends_the_stream_with_encoding_error() {
    let mut entries = comic();
    entries[1].name = vec![0x0061, 0xD800, 0x0062];
    let mut decoder = FakeDecoder::new(entries);
    let mut stream = SevenZipArchive::new(3).stream_files();
    let (files, last) = drain(&mut stream, &mut decoder);
    assert_eq!(files.len(), 1);
    assert_eq!(last, Action::Fail(SevenZipError::Encoding));
    assert_eq!(decoder.count_extractions(), 1);
    assert_eq!(
        decoder.teardown_requests(),
        vec![Request::FreeIndex, Request::FreeBuffer, Request::CloseInput]
    );
}

#[test]
fn cancel_after_three_of_eleven_tears_down_exactly_once() {
    let mut decoder = FakeDecoder::new(comic());
    let mut stream = SevenZipArchive::new(3).stream_files();
    for position in 0..3 {
        match pull(&mut stream, &mut decoder) {
            Action::Yield(file) => assert_eq!(file.pos, position),
            other => panic!("no record: {:?}", other),
        }
    }
    assert_eq!(drive(&mut stream, &mut decoder, Event::Cancel), Action::Finish);
    assert_eq!(stream.outcome(), Outcome::Cancelled);
    assert_eq!(stream.phase(), Phase::Closed);
    assert_eq!(decoder.count(Request::BindInput { handle: 3 }), 1);
    assert_eq!(decoder.count(Request::OpenIndex), 1);
    assert_eq!(decoder.count(Request::FreeIndex), 1);
    assert_eq!(decoder.count(Request::FreeBuffer), 1);
    assert_eq!(decoder.count(Request::CloseInput), 1);
    assert_eq!(
        decoder.teardown_requests(),
        vec![Request::FreeIndex, Request::FreeBuffer, Request::CloseInput]
    );
    assert_eq!(drive(&mut stream, &mut decoder, Event::Cancel), Action::Finish);
    assert_eq!(pull(&mut stream, &mut decoder), Action::Finish);
    assert_eq!(decoder.count(Request::FreeIndex), 1);
    assert_eq!(decoder.count(Request::FreeBuffer), 1);
    assert_eq!(decoder.count(Request::CloseInput), 1);
    assert_eq!(decoder.count_extractions(), 3);
}

#[test]
fn cancel_before_the_first_pull_touches_nothing() {
    let mut decoder = FakeDecoder::new(comic());
    let mut stream = SevenZipArchive::new(3).stream_files();
    assert_eq!(drive(&mut stream, &mut decoder, Event::Cancel), Action::Finish);
    assert_eq!(stream.phase(), Phase::Closed);
    assert_eq!(stream.outcome(), Outcome::Cancelled);
    assert!(decoder.log.is_empty());
    assert_eq!(pull(&mut stream, &mut decoder), Action::Finish);
    assert!(decoder.log.is_empty());
}

#[test]
fn cancel_while_an_entry_is_being_resolved_tears_down() {
    let mut stream = SevenZipArchive::new(3).stream_files();
    stream.step(Event::Pull);
    stream.step(Event::InputBound);
    stream.step(Event::Allocated);
    stream.step(Event::IndexOpened { entry_count: 4 });
    stream.step(Event::Directory { is_dir: false });
    assert_eq!(stream.step(Event::Cancel), Action::Ask(Request::FreeIndex));
    assert_eq!(stream.step(Event::Released), Action::Ask(Request::FreeBuffer));
    assert_eq!(stream.step(Event::Released), Action::Ask(Request::CloseInput));
    assert_eq!(stream.step(Event::InputClosed), Action::Finish);
    assert_eq!(stream.outcome(), Outcome::Cancelled);
}

#[test]
fn close_failure_is_reported_apart_from_completion() {
    let mut decoder = FakeDecoder::new(comic());
    decoder.close_error = Some(-1);
    let mut stream = SevenZipArchive::new(3).stream_files();
    let (files, last) = drain(&mut stream, &mut decoder);
    assert_eq!(files.len(), 11);
    assert_eq!(last, Action::Finish);
    assert_eq!(stream.outcome(), Outcome::Completed);
    assert_eq!(stream.close_error(), Some(SevenZipError::Close { code: -1 }));
}

#[test]
fn close_failure_does_not_replace_the_extraction_error() {
    let mut entries = comic();
    entries[0].extract_error = Some(11);
    let mut decoder = FakeDecoder::new(entries);
    decoder.close_error = Some(9);
    let mut stream = SevenZipArchive::new(3).stream_files();
    let (files, last) = drain(&mut stream, &mut decoder);
    assert!(files.is_empty());
    assert_eq!(last, Action::Fail(SevenZipError::Extract { position: 0, native_code: 11 }));
    assert_eq!(
        stream.outcome(),
        Outcome::Failed(SevenZipError::Extract { position: 0, native_code: 11 })
    );
    assert_eq!(stream.close_error(), Some(SevenZipError::Close { code: 9 }));
}

#[test]
fn events_that_answer_nothing_are_ignored() {
    let mut stream = SevenZipArchive::new(3).stream_files();
    assert_eq!(stream.step(Event::Released), Action::Ignored);
    assert_eq!(stream.step(Event::InputBound), Action::Ignored);
    assert_eq!(stream.phase(), Phase::Idle);
    stream.step(Event::Pull);
    assert_eq!(stream.step(Event::Pull), Action::Ignored);
    assert_eq!(stream.step(Event::Cancel), Action::Ignored);
    assert_eq!(stream.phase(), Phase::Binding);
    stream.step(Event::InputBound);
    stream.step(Event::Allocated);
    stream.step(Event::IndexOpened { entry_count: 1 });
    assert_eq!(stream.step(Event::NameLength { length: 1 }), Action::Ignored);
    assert_eq!(stream.step(Event::Pull), Action::Ignored);
    assert_eq!(
        stream.step(Event::Directory { is_dir: true }),
        Action::Ask(Request::NameLength { position: 0 })
    );
    assert_eq!(stream.step(Event::Cancel), Action::Ask(Request::FreeIndex));
    assert_eq!(stream.step(Event::InputClosed), Action::Ignored);
    assert_eq!(stream.step(Event::Pull), Action::Ignored);
    assert_eq!(stream.phase(), Phase::FreeingIndex);
}

#[test]
fn iterator_failure_does_not_advance_the_cursor() {
    let mut iterator = OpenedArchive::new(2).into_iter();
    assert_eq!(iterator.size_hint(), (0, Some(2)));
    assert_eq!(iterator.position(), 0);
    assert_eq!(iterator.next(Event::Pull), Action::Ask(Request::IsDirectory { position: 0 }));
    iterator.next(Event::Directory { is_dir: true });
    iterator.next(Event::NameLength { length: 2 });
    assert_eq!(iterator.next(Event::OutOfMemory), Action::Fail(SevenZipError::Alloc));
    assert_eq!(iterator.position(), 0);
    assert_eq!(iterator.next(Event::Pull), Action::Ask(Request::IsDirectory { position: 0 }));
    iterator.next(Event::Directory { is_dir: true });
    iterator.next(Event::NameLength { length: 2 });
    iterator.next(Event::Allocated);
    let bad = [0xDC00u16, 0];
    assert_eq!(
        iterator.next(Event::NameDecoded { units: &bad }),
        Action::Fail(SevenZipError::Encoding)
    );
    assert_eq!(iterator.position(), 0);
    iterator.next(Event::Pull);
    iterator.next(Event::Directory { is_dir: false });
    assert_eq!(
        iterator.next(Event::NameLength { length: 2 }),
        Action::Ask(Request::DecodeName { position: 0 })
    );
    let good = [0x0041u16, 0];
    iterator.next(Event::NameDecoded { units: &good });
    assert_eq!(
        iterator.next(Event::ExtractFailed { native_code: 7 }),
        Action::Fail(SevenZipError::Extract { position: 0, native_code: 7 })
    );
    assert_eq!(iterator.position(), 0);
    assert_eq!(iterator.size_hint(), (0, Some(2)));
}

#[test]
fn iterator_ends_when_the_cursor_reaches_the_entry_count() {
    let mut iterator = OpenedArchive::new(1).into_iter();
    iterator.next(Event::Pull);
    iterator.next(Event::Directory { is_dir: true });
    iterator.next(Event::NameLength { length: 0 });
    let nothing: [u16; 0] = [];
    assert_eq!(
        iterator.next(Event::NameDecoded { units: &nothing }),
        Action::Yield(ArchiveFile { pos: 0, name: String::new(), is_dir: true, content: None })
    );
    assert_eq!(iterator.position(), 1);
    assert_eq!(iterator.next(Event::Pull), Action::Finish);
    assert_eq!(iterator.next(Event::Pull), Action::Finish);
    assert_eq!(iterator.position(), 1);
}

#[test]
fn opened_archive_starts_with_an_empty_cache() {
    let archive = OpenedArchive::new(11);
    assert_eq!(archive.files_count(), 11);
    assert_eq!(archive.files_count, 11);
    assert_eq!(archive.name_buffer, NameBuffer { capacity: 0 });
    assert_eq!(archive.cache, SolidBlockCache { block_index: 0xFFFF_FFFF, out_buffer_size: 0 });
    assert_eq!(SolidBlockCache::new(), archive.cache);
    assert_eq!(NO_BLOCK, 0xFFFF_FFFF);
}

#[test]
fn name_buffer_grows_and_never_shrinks() {
    let buffer = NameBuffer::new();
    assert_eq!(buffer.capacity, 0);
    assert!(!buffer.needs_growth(0));
    assert!(buffer.needs_growth(1));
    let buffer = buffer.grow(8);
    assert_eq!(buffer.capacity, 8);
    assert!(!buffer.needs_growth(8));
    assert!(buffer.needs_growth(9));
    let buffer = buffer.grow(3);
    assert_eq!(buffer.capacity, 8);
    let buffer = buffer.grow(9);
    assert_eq!(buffer.capacity, 9);
}

#[test]
fn records_are_built_with_or_without_content() {
    let folder = ArchiveFile::directory(4, String::from("image_folder"));
    assert_eq!(
        folder,
        ArchiveFile { pos: 4, name: String::from("image_folder"), is_dir: true, content: None }
    );
    let mut scratch = vec![1u8, 2, 3];
    let page = ArchiveFile::regular(5, String::from("p.jpg"), &scratch);
    scratch[0] = 9;
    assert_eq!(
        page,
        ArchiveFile {
            pos: 5,
            name: String::from("p.jpg"),
            is_dir: false,
            content: Some(vec![1, 2, 3]),
        }
    );
}

#[test]
fn archive_keeps_its_handle() {
    let archive = SevenZipArchive::new(17);
    let copy = archive;
    let mut first = archive.stream_files();
    let mut second = copy.stream_files();
    assert_eq!(first.step(Event::Pull), Action::Ask(Request::BindInput { handle: 17 }));
    assert_eq!(second.step(Event::Pull), Action::Ask(Request::BindInput { handle: 17 }));
}

#[test]
fn read_file_borrows_the_entry_from_the_buffer() {
    let buffer = [1u8, 2, 3, 4, 5];
    assert_eq!(ArchiveIterator::read_file(&buffer, 1, 3), Some(&buffer[1..4]));
    assert_eq!(ArchiveIterator::read_file(&buffer, 1, 3), Some(&[2u8, 3, 4][..]));
    assert_eq!(ArchiveIterator::read_file(&buffer, 0, 5), Some(&buffer[..]));
    assert_eq!(ArchiveIterator::read_file(&buffer, 5, 0), Some(&buffer[5..]));
    assert_eq!(ArchiveIterator::read_file(&buffer, 0, 0), Some(&buffer[..0]));
    let empty: [u8; 0] = [];
    assert_eq!(ArchiveIterator::read_file(&empty, 0, 0), Some(&empty[..]));
}

#[test]
fn read_file_refuses_what_lies_outside_the_buffer() {
    let buffer = [1u8, 2, 3, 4, 5];
    assert_eq!(ArchiveIterator::read_file(&buffer, 3, 3), None);
    assert_eq!(ArchiveIterator::read_file(&buffer, 0, 6), None);
    assert_eq!(ArchiveIterator::read_file(&buffer, 6, 0), None);
    assert_eq!(ArchiveIterator::read_file(&buffer, usize::MAX, 2), None);
    assert_eq!(ArchiveIterator::read_file(&buffer, 2, usize::MAX), None);
    let empty: [u8; 0] = [];
    assert_eq!(ArchiveIterator::read_file(&empty, 0, 1), None);
}

#[test]
fn entry_outside_the_buffer_is_a_failed_extraction() {
    let mut iterator = OpenedArchive::new(3).into_iter();
    iterator.next(Event::Pull);
    iterator.next(Event::Directory { is_dir: false });
    iterator.next(Event::NameLength { length: 0 });
    let name = [0x0078u16, 0];
    assert_eq!(
        iterator.next(Event::NameDecoded { units: &name }),
        Action::Ask(Request::ExtractBlock {
            position: 0,
            block_index: NO_BLOCK,
            out_buffer_size: 0
        })
    );
    let buffer = [7u8; 4];
    assert_eq!(SZ_ERROR_FAIL, 11);
    assert_eq!(
        iterator.next(Event::Extracted {
            block_index: 0,
            out_buffer: &buffer,
            offset: 3,
            length: 2
        }),
        Action::Fail(SevenZipError::Extract { position: 0, native_code: 11 })
    );
    assert_eq!(iterator.position(), 0);
    iterator.next(Event::Pull);
    iterator.next(Event::Directory { is_dir: false });
    iterator.next(Event::NameLength { length: 0 });
    assert_eq!(
        iterator.next(Event::NameDecoded { units: &name }),
        Action::Ask(Request::ExtractBlock {
            position: 0,
            block_index: NO_BLOCK,
            out_buffer_size: 0
        })
    );
    assert_eq!(
        iterator.next(Event::Extracted {
            block_index: 2,
            out_buffer: &buffer,
            offset: 3,
            length: 1
        }),
        Action::Yield(ArchiveFile {
            pos: 0,
            name: String::from("x"),
            is_dir: false,
            content: Some(vec![7]),
        })
    );
    iterator.next(Event::Pull);
    iterator.next(Event::Directory { is_dir: false });
    iterator.next(Event::NameLength { length: 0 });
    assert_eq!(
        iterator.next(Event::NameDecoded { units: &name }),
        Action::Ask(Request::ExtractBlock { position: 1, block_index: 2, out_buffer_size: 4 })
    );
}
