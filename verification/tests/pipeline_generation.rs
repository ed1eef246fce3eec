use std::io::Write;
use time_signal::errors::BackendError;
use time_signal::pipeline::GenerationPipeline;
use zip::write::SimpleFileOptions;
use zip::CompressionMethod;
use zip::ZipWriter;

fn archive_of(entries: &[&[u8]]) -> Vec<u8> {
    let mut writer = ZipWriter::new(std::io::Cursor::new(Vec::new()));
    let options = SimpleFileOptions::default().compression_method(CompressionMethod::Stored);
    for (i, data) in entries.iter().enumerate() {
        writer.start_file(format!("{:03}.wav", i), options).unwrap();
        writer.write_all(data).unwrap();
    }
    writer.finish().unwrap().into_inner()
}

#[test]
fn full_run_at_interval_fifteen_writes_ninety_six_files() {
    let mut pipeline = GenerationPipeline::new(2, 15);
    assert_eq!(pipeline.total_slots(), 96);

    let mut texts = Vec::new();
    while let Some(text) = pipeline.next_query_text() {
        pipeline.push_query(format!("{{\"slot\":{}}}", texts.len()));
        texts.push(text);
    }
    assert_eq!(texts.len(), 96);
    assert_eq!(pipeline.queries_collected(), 96);
    assert_eq!(texts[0], "零時です");
    assert_eq!(texts[1], "零時15分です");
    assert_eq!(texts[95], "23時45分です");

    let mut paths = Vec::new();
    while let Some((hour, batch)) = pipeline.next_batch() {
        assert_eq!(batch.len(), 4);
        for (i, query) in batch.iter().enumerate() {
            let slot_index = hour as usize * 4 + i;
            assert_eq!(query.as_str(), format!("{{\"slot\":{}}}", slot_index));
        }
        let clip = vec![b'R', b'I', b'F', b'F', hour];
        let data = archive_of(&[&clip[..], &clip[..], &clip[..], &clip[..]]);
        let outputs = pipeline.push_archive(data).unwrap();
        assert_eq!(outputs.len(), 4);
        for output in outputs {
            assert_eq!(output.data, clip);
            paths.push(output.path);
        }
    }
    assert_eq!(paths.len(), 96);
    assert_eq!(paths[0], "voice_files/00-00.wav");
    assert_eq!(paths[1], "voice_files/00-15.wav");
    assert_eq!(paths[95], "voice_files/23-45.wav");
    assert_eq!(pipeline.synthesized_units(), 96);
}

#[test]
fn query_texts_follow_slot_order() {
    let mut pipeline = GenerationPipeline::new(1, 30);
    let first = pipeline.next_query_text().unwrap();
    assert_eq!(first, "零時です");
    pipeline.push_query("{}".to_string());
    let second = pipeline.next_query_text().unwrap();
    assert_eq!(second, "零時30分です");
    pipeline.push_query("{}".to_string());
    let third = pipeline.next_query_text().unwrap();
    assert_eq!(third, "1時です");
}

#[test]
fn short_archive_is_incomplete() {
    let mut pipeline = GenerationPipeline::new(2, 15);
    while pipeline.next_query_text().is_some() {
        pipeline.push_query("{}".to_string());
    }
    let data = archive_of(&[&b"one"[..], &b"two"[..]]);
    let result = pipeline.push_archive(data);
    assert_eq!(result.unwrap_err(), BackendError::IncompleteArchive);
    let (hour, _) = pipeline.next_batch().unwrap();
    assert_eq!(hour, 0);
}

#[test]
fn oversized_archive_entries_are_ignored() {
    let mut pipeline = GenerationPipeline::new(2, 30);
    while pipeline.next_query_text().is_some() {
        pipeline.push_query("{}".to_string());
    }
    let data = archive_of(&[&b"a"[..], &b"b"[..], &b"c"[..], &b"d"[..], &b"e"[..]]);
    let outputs = pipeline.push_archive(data).unwrap();
    assert_eq!(outputs.len(), 2);
    assert_eq!(outputs[1].path, "voice_files/00-30.wav");
}

#[test]
fn malformed_archive_aborts_the_hour() {
    let mut pipeline = GenerationPipeline::new(2, 60);
    while pipeline.next_query_text().is_some() {
        pipeline.push_query("{}".to_string());
    }
    let result = pipeline.push_archive(vec![1, 2, 3, 4]);
    assert_eq!(result.unwrap_err(), BackendError::MalformedArchive);
    let (hour, _) = pipeline.next_batch().unwrap();
    assert_eq!(hour, 0);
}

#[test]
fn directory_entry_cannot_stand_for_a_slot() {
    let mut pipeline = GenerationPipeline::new(2, 60);
    while pipeline.next_query_text().is_some() {
        pipeline.push_query("{}".to_string());
    }
    let mut writer = ZipWriter::new(std::io::Cursor::new(Vec::new()));
    let options = SimpleFileOptions::default().compression_method(CompressionMethod::Stored);
    writer.add_directory("sub", options).unwrap();
    let data = writer.finish().unwrap().into_inner();
    let result = pipeline.push_archive(data);
    assert_eq!(result.unwrap_err(), BackendError::IncompleteArchive);
}

#[test]
fn three_entries_for_four_slots_is_incomplete() {
    let mut pipeline = GenerationPipeline::new(2, 15);
    while pipeline.next_query_text().is_some() {
        pipeline.push_query("{}".to_string());
    }
    let data = archive_of(&[&b"a"[..], &b"b"[..], &b"c"[..]]);
    let result = pipeline.push_archive(data);
    assert_eq!(result.unwrap_err(), BackendError::IncompleteArchive);
}

#[test]
fn batches_stop_after_the_last_hour() {
    let mut pipeline = GenerationPipeline::new(2, 60);
    assert!(pipeline.next_batch().is_none());
    while pipeline.next_query_text().is_some() {
        pipeline.push_query("{}".to_string());
    }
    for _ in 0..24 {
        let data = archive_of(&[&b"x"[..]]);
        pipeline.push_archive(data).unwrap();
    }
    assert!(pipeline.next_batch().is_none());
}
