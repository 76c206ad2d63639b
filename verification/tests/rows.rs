use musium::database::{
    decode_filename_mtime_row, delete_file_metadata_params, insert_file_metadata_params,
    insert_listen_started_params, update_listen_completed_params, FileMetaId, FileMetadata,
    FileMetadataColumns, FileMetadataInsert, Listen, ListenId, Mtime, QueueId,
};
use musium::db2;
use musium::db2::{Query, StatementCache};
use musium::prim::{AlbumId, ArtistId, TrackId};
use musium::sql::{step_action, SqlParam, SqlValue, StepAction, StepState};

#[test]
fn listen_params_follow_the_column_order() {
    let listen = Listen {
        started_at: "2021-01-01T00:00:00Z",
        queue_id: QueueId(7),
        track_id: TrackId(u64::MAX),
        album_id: AlbumId(0x8000_0000_0000_0000),
        album_artist_id: ArtistId(3),
        track_title: "tt",
        track_artist: "ta",
        album_title: "at",
        album_artist: "aa",
        duration_seconds: 301,
        track_number: 4,
        disc_number: 2,
    };
    let params = insert_listen_started_params(&listen);
    assert_eq!(
        params,
        vec![
            SqlParam::Text("2021-01-01T00:00:00Z"),
            SqlParam::Integer(7),
            SqlParam::Integer(-1),
            SqlParam::Integer(i64::MIN),
            SqlParam::Integer(3),
            SqlParam::Text("tt"),
            SqlParam::Text("at"),
            SqlParam::Text("ta"),
            SqlParam::Text("aa"),
            SqlParam::Integer(301),
            SqlParam::Integer(4),
            SqlParam::Integer(2),
        ]
    );
}

#[test]
fn update_listen_params() {
    let params = update_listen_completed_params(
        ListenId::from_row_id(12),
        "2021-01-01T00:05:00Z",
        QueueId(5),
        TrackId(9),
    );
    assert_eq!(
        params,
        vec![
            SqlParam::Text("2021-01-01T00:05:00Z"),
            SqlParam::Integer(12),
            SqlParam::Integer(5),
            SqlParam::Integer(9),
        ]
    );
    assert_eq!(ListenId::from_row_id(12).row_id(), 12);
}

#[test]
fn file_metadata_params_use_null_for_absent_values() {
    let file = FileMetadataInsert {
        filename: "a/b.flac",
        mtime: Mtime(1234),
        imported_at: "2021-01-01T00:00:00Z",
        streaminfo_channels: 2,
        streaminfo_bits_per_sample: 16,
        streaminfo_num_samples: None,
        streaminfo_sample_rate: 44100,
        tag_album: Some("album"),
        tag_albumartist: None,
        tag_albumartistsort: None,
        tag_artist: Some("artist"),
        tag_musicbrainz_albumartistid: None,
        tag_musicbrainz_albumid: None,
        tag_musicbrainz_trackid: Some("tid"),
        tag_discnumber: None,
        tag_tracknumber: Some("3"),
        tag_originaldate: None,
        tag_date: Some("2000"),
        tag_title: Some("title"),
        tag_bs17704_track_loudness: None,
        tag_bs17704_album_loudness: Some("-9.1 LUFS"),
    };
    let params = insert_file_metadata_params(&file);
    assert_eq!(params.len(), 21);
    assert_eq!(params[0], SqlParam::Text("a/b.flac"));
    assert_eq!(params[1], SqlParam::Integer(1234));
    assert_eq!(params[2], SqlParam::Text("2021-01-01T00:00:00Z"));
    assert_eq!(params[3], SqlParam::Integer(2));
    assert_eq!(params[4], SqlParam::Integer(16));
    assert_eq!(params[5], SqlParam::Null);
    assert_eq!(params[6], SqlParam::Integer(44100));
    assert_eq!(params[7], SqlParam::Text("album"));
    assert_eq!(params[8], SqlParam::Null);
    assert_eq!(params[10], SqlParam::Text("artist"));
    assert_eq!(params[13], SqlParam::Text("tid"));
    assert_eq!(params[15], SqlParam::Text("3"));
    assert_eq!(params[17], SqlParam::Text("2000"));
    assert_eq!(params[18], SqlParam::Text("title"));
    assert_eq!(params[19], SqlParam::Null);
    assert_eq!(params[20], SqlParam::Text("-9.1 LUFS"));

    let with_samples = FileMetadataInsert { streaminfo_num_samples: Some(u64::MAX), ..file };
    assert_eq!(insert_file_metadata_params(&with_samples)[5], SqlParam::Integer(-1));
}

#[test]
fn delete_params() {
    assert_eq!(delete_file_metadata_params(FileMetaId(42)), vec![SqlParam::Integer(42)]);
}

#[test]
fn decode_small_rows() {
    let row = vec![SqlValue::Integer(1), SqlValue::Text("x.flac".to_string()), SqlValue::Integer(99)];
    assert_eq!(
        decode_filename_mtime_row(&row),
        Some((FileMetaId(1), "x.flac".to_string(), Mtime(99)))
    );
    let wrong = vec![SqlValue::Integer(1), SqlValue::Integer(2), SqlValue::Integer(99)];
    assert_eq!(decode_filename_mtime_row(&wrong), None);
    let short = vec![SqlValue::Integer(1), SqlValue::Text("x".to_string())];
    assert_eq!(decode_filename_mtime_row(&short), None);
    let real = vec![SqlValue::Integer(1), SqlValue::Text("x".to_string()), SqlValue::Real];
    assert_eq!(decode_filename_mtime_row(&real), None);
    let null = vec![SqlValue::Null, SqlValue::Text("x".to_string()), SqlValue::Integer(3)];
    assert_eq!(decode_filename_mtime_row(&null), None);
}

#[test]
fn file_metadata_from_columns_truncates_integers() {
    let columns = FileMetadataColumns {
        filename: "f.flac".to_string(),
        streaminfo_channels: 2,
        streaminfo_bits_per_sample: (1i64 << 32) + 24,
        streaminfo_num_samples: Some(-1),
        streaminfo_sample_rate: 48000,
        tag_album: Some("album".to_string()),
        tag_albumartist: None,
        tag_albumartistsort: None,
        tag_artist: None,
        tag_musicbrainz_albumartistid: None,
        tag_musicbrainz_albumid: None,
        tag_discnumber: None,
        tag_tracknumber: Some("1".to_string()),
        tag_originaldate: None,
        tag_date: None,
        tag_title: None,
        tag_bs17704_track_loudness: None,
        tag_bs17704_album_loudness: None,
    };
    let m = FileMetadata::from_columns(columns);
    assert_eq!(m.filename, "f.flac");
    assert_eq!(m.streaminfo_channels, 2);
    assert_eq!(m.streaminfo_bits_per_sample, 24);
    assert_eq!(m.streaminfo_num_samples, Some(u64::MAX));
    assert_eq!(m.streaminfo_sample_rate, 48000);
    assert_eq!(m.tag_album.as_deref(), Some("album"));
    assert_eq!(m.tag_tracknumber.as_deref(), Some("1"));
    assert_eq!(m.tag_title, None);
}

#[test]
fn step_rule() {
    // A statement that returns no rows.
    assert_eq!(step_action(Some(0), 0, StepState::Done), StepAction::Finish);
    assert_eq!(step_action(Some(0), 0, StepState::Row), StepAction::Fail);
    // A statement that returns exactly one row.
    assert_eq!(step_action(Some(1), 0, StepState::Row), StepAction::ReadRow);
    assert_eq!(step_action(Some(1), 0, StepState::Done), StepAction::Fail);
    assert_eq!(step_action(Some(1), 1, StepState::Done), StepAction::Finish);
    assert_eq!(step_action(Some(1), 1, StepState::Row), StepAction::Fail);
    // A query that returns any number of rows.
    assert_eq!(step_action(None, 5, StepState::Row), StepAction::ReadRow);
    assert_eq!(step_action(None, 5, StepState::Done), StepAction::Finish);
}

#[test]
fn queries_and_expected_rows() {
    assert_eq!(Query::IterFileMetadata.expected_rows(), None);
    assert_eq!(Query::InsertListenStarted.expected_rows(), Some(1));
    assert_eq!(Query::UpdateListenCompleted.expected_rows(), Some(0));
    assert_eq!(Query::InsertTrackWaveform.expected_rows(), Some(0));
    assert!(Query::InsertListenStarted.sql().contains("returning"));
    let all = [
        Query::IterFileMetadata,
        Query::InsertAlbumLoudness,
        Query::InsertTrackLoudness,
        Query::InsertTrackWaveform,
        Query::InsertListenStarted,
        Query::UpdateListenCompleted,
    ];
    for (i, q) in all.iter().enumerate() {
        assert_eq!(q.index(), i);
    }
}

#[test]
fn statement_cache_keeps_one_statement_per_query() {
    let mut cache: StatementCache<String> = StatementCache::new();
    assert!(!cache.contains(Query::InsertListenStarted));
    cache.insert(Query::InsertListenStarted, "a".to_string());
    assert!(cache.contains(Query::InsertListenStarted));
    assert!(!cache.contains(Query::UpdateListenCompleted));
    cache.get_mut(Query::InsertListenStarted).push('b');
    assert_eq!(cache.get_mut(Query::InsertListenStarted), "ab");
    cache.insert(Query::UpdateListenCompleted, "c".to_string());
    assert_eq!(cache.get_mut(Query::InsertListenStarted), "ab");
    assert_eq!(cache.get_mut(Query::UpdateListenCompleted), "c");
}

#[test]
fn db2_params() {
    let listen = db2::Listen {
        started_at: "s",
        queue_id: 1,
        track_id: 2,
        album_id: 3,
        album_artist_id: 4,
        track_title: "tt",
        track_artist: "ta",
        album_title: "at",
        album_artist: "aa",
        duration_seconds: 5,
        track_number: 6,
        disc_number: 7,
    };
    assert_eq!(
        db2::insert_listen_started_params(&listen),
        vec![
            SqlParam::Text("s"),
            SqlParam::Integer(1),
            SqlParam::Integer(2),
            SqlParam::Integer(3),
            SqlParam::Integer(4),
            SqlParam::Text("tt"),
            SqlParam::Text("ta"),
            SqlParam::Text("at"),
            SqlParam::Text("aa"),
            SqlParam::Integer(5),
            SqlParam::Integer(6),
            SqlParam::Integer(7),
        ]
    );
    assert_eq!(
        db2::update_listen_completed_params(1, 2, 3, "c"),
        vec![SqlParam::Text("c"), SqlParam::Integer(1), SqlParam::Integer(2), SqlParam::Integer(3)]
    );
    let data = [1u8, 2, 3];
    assert_eq!(
        db2::insert_track_waveform_params(9, &data),
        vec![SqlParam::Integer(9), SqlParam::Blob(&data)]
    );
}
