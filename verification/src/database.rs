//! The rows of Musium's SQLite database: what each statement is given, and
//! what a result row is read back into.
//!
//! The statements themselves run against the database outside this library;
//! the parameter lists here are bound to them in order, parameter 1 first.

use vstd::prelude::*;
use crate::prim::{AlbumId, ArtistId, TrackId};
use crate::sql::{opt_text, spec_opt_text, SqlParam, SqlValue};

verus! {

/// The `listens` table.
pub const CREATE_LISTENS_SQL: &'static str = "
        create table if not exists listens
        ( id               integer primary key

        -- ISO-8601 time with UTC offset at which we started playing.
        , started_at       string  not null unique

        -- ISO-8601 time with UTC offset at which we finished playing.
        -- NULL if the track is still playing.
        , completed_at     string  null     check (started_at < completed_at)

        -- Musium ids.
        , queue_id         integer null
        , track_id         integer not null
        , album_id         integer not null
        , album_artist_id  integer not null

        -- General track metadata.
        , track_title      string  not null
        , album_title      string  not null
        , track_artist     string  not null
        , album_artist     string  not null
        , duration_seconds integer not null
        , track_number     integer null
        , disc_number      integer null

        -- Source of the listen. Should be either 'musium' if we produced the
        -- listen, or 'listenbrainz' if we backfilled it from Listenbrainz.
        , source           string  not null

        -- ISO-8601 time with UTC offset at which we scrobbled the track to Last.fm.
        -- NULL if the track has not been scrobbled by us.
        , scrobbled_at     string  null     check (started_at < scrobbled_at)
        );
        ";

/// A unique index on the start time of a listen truncated to seconds: a
/// listen that went to Last.fm and came back does not become a duplicate
/// (this needs at least SQLite 3.20).
pub const CREATE_LISTENS_UNIQUE_SECOND_INDEX_SQL: &'static str = "
        create unique index if not exists ix_listens_unique_second
        on listens (cast(strftime('%s', started_at) as integer));
        ";

/// The `file_metadata` table: the raw tags of each file, indexed when they
/// are loaded.
pub const CREATE_FILE_METADATA_SQL: &'static str = "
        create table if not exists file_metadata
        -- First an id, and properties about the file, but not its contents.
        -- We can use this to see if a file needs to be re-scanned. The mtime
        -- is the raw time_t value returned by 'stat'.
        ( id                             integer primary key
        , filename                       string  not null unique
        , mtime                          integer not null
        -- ISO-8601 timestamp at which we added the file.
        , imported_at                    string not null

        -- The next columns come from the streaminfo block.
        , streaminfo_channels            integer not null
        , streaminfo_bits_per_sample     integer not null
        , streaminfo_num_samples         integer null
        , streaminfo_sample_rate         integer not null

        -- The remaining columns are all tags. They are all nullable,
        -- because no tag is guaranteed to be present.
        , tag_album                      string null
        , tag_albumartist                string null
        , tag_albumartistsort            string null
        , tag_artist                     string null
        , tag_musicbrainz_albumartistid  string null
        , tag_musicbrainz_albumid        string null
        , tag_musicbrainz_trackid        string null
        , tag_discnumber                 string null
        , tag_tracknumber                string null
        , tag_originaldate               string null
        , tag_date                       string null
        , tag_title                      string null
        , tag_bs17704_track_loudness     string null
        , tag_bs17704_album_loudness     string null
        );
        ";

/// Inserts a listen; its parameters are `insert_listen_started_params`.
pub const INSERT_LISTEN_STARTED_SQL: &'static str = "
            insert into listens
            ( started_at
            , queue_id
            , track_id
            , album_id
            , album_artist_id
            , track_title
            , album_title
            , track_artist
            , album_artist
            , duration_seconds
            , track_number
            , disc_number
            , source
            )
            values
            ( ?, ?, ?, ?, ?, ?, ?, ?, ?, ?, ?, ?, 'musium');
            ";

/// Sets the completed time of a listen; its parameters are
/// `update_listen_completed_params`.
pub const UPDATE_LISTEN_COMPLETED_SQL: &'static str = "
            update listens
              set completed_at = ?
            where
              id = ?
              and queue_id = ?
              and track_id = ?;
            ";

/// Inserts a `file_metadata` row; its parameters are
/// `insert_file_metadata_params`.
pub const INSERT_FILE_METADATA_SQL: &'static str = "
            insert into file_metadata
            ( filename
            , mtime
            , imported_at
            , streaminfo_channels
            , streaminfo_bits_per_sample
            , streaminfo_num_samples
            , streaminfo_sample_rate
            , tag_album
            , tag_albumartist
            , tag_albumartistsort
            , tag_artist
            , tag_musicbrainz_albumartistid
            , tag_musicbrainz_albumid
            , tag_musicbrainz_trackid
            , tag_discnumber
            , tag_tracknumber
            , tag_originaldate
            , tag_date
            , tag_title
            , tag_bs17704_track_loudness
            , tag_bs17704_album_loudness
            )
            values
            -- These are 21 columns.
            ( ?, ?, ?, ?, ?, ?, ?, ?, ?, ?, ?, ?, ?, ?, ?, ?, ?, ?, ?, ?, ?);
            ";

/// Deletes a `file_metadata` row; its parameter is
/// `delete_file_metadata_params`.
pub const DELETE_FILE_METADATA_SQL: &'static str = "
            delete from file_metadata where id = ?;
            ";

/// Selects the id, filename and mtime of each `file_metadata` row, by
/// filename; a row is read by `decode_filename_mtime_row`.
pub const SELECT_FILENAME_MTIME_SQL: &'static str = "
            select
              id, filename, mtime
            from
              file_metadata
            order by
              filename asc;
            ";

/// Selects the columns of `FileMetadataColumns` of each `file_metadata` row,
/// by filename.
pub const SELECT_FILE_METADATA_SQL: &'static str = "
            select
              filename,
              streaminfo_channels,
              streaminfo_bits_per_sample,
              streaminfo_num_samples,
              streaminfo_sample_rate,
              tag_album,
              tag_albumartist,
              tag_albumartistsort,
              tag_artist,
              tag_musicbrainz_albumartistid,
              tag_musicbrainz_albumid,
              tag_discnumber,
              tag_tracknumber,
              tag_originaldate,
              tag_date,
              tag_title,
              tag_bs17704_track_loudness,
              tag_bs17704_album_loudness
            from
              file_metadata
            order by
              filename asc;
            ";

/// Row id of a row in the `listens` table.
#[derive(Copy, Clone, Debug, PartialEq, Eq)]
pub struct ListenId(i64);

impl ListenId {
    pub closed spec fn spec_row_id(self) -> i64 {
        self.0
    }

    /// The listen whose row id is `row_id`.
    pub fn from_row_id(row_id: i64) -> (r: ListenId)
        ensures
            r.spec_row_id() == row_id,
    {
        ListenId(row_id)
    }

    /// The row id of the listen.
    pub fn row_id(&self) -> (r: i64)
        ensures
            r == self.spec_row_id(),
    {
        self.0
    }
}

/// Row id of a row in the `file_metadata` table.
#[derive(Copy, Clone, Debug, PartialEq, Eq)]
pub struct FileMetaId(pub i64);

/// Id of an entry in the play queue.
#[derive(Copy, Clone, Debug, PartialEq, Eq, Hash, PartialOrd, Ord)]
pub struct QueueId(pub u64);

/// Container for a row when inserting a new listen.
pub struct Listen<'a> {
    pub started_at: &'a str,
    pub queue_id: QueueId,
    pub track_id: TrackId,
    pub album_id: AlbumId,
    pub album_artist_id: ArtistId,
    pub track_title: &'a str,
    pub track_artist: &'a str,
    pub album_title: &'a str,
    pub album_artist: &'a str,
    pub duration_seconds: u16,
    pub track_number: u8,
    pub disc_number: u8,
}

/// Last modified time of a file, as reported by the file system.
///
/// This is only used to determine whether a file changed since we last read it,
/// the meaning of the inner value is not relevant, only that it implements
/// `Ord`.
#[derive(Copy, Clone, Debug, PartialEq, Eq, PartialOrd, Ord)]
pub struct Mtime(pub i64);

/// Container for a row when inserting into `file_metadata`.
pub struct FileMetadataInsert<'a> {
    pub filename: &'a str,
    pub mtime: Mtime,
    pub imported_at: &'a str,
    pub streaminfo_channels: u32,
    pub streaminfo_bits_per_sample: u32,
    pub streaminfo_num_samples: Option<u64>,
    pub streaminfo_sample_rate: u32,
    pub tag_album: Option<&'a str>,
    pub tag_albumartist: Option<&'a str>,
    pub tag_albumartistsort: Option<&'a str>,
    pub tag_artist: Option<&'a str>,
    pub tag_musicbrainz_albumartistid: Option<&'a str>,
    pub tag_musicbrainz_albumid: Option<&'a str>,
    pub tag_musicbrainz_trackid: Option<&'a str>,
    pub tag_discnumber: Option<&'a str>,
    pub tag_tracknumber: Option<&'a str>,
    pub tag_originaldate: Option<&'a str>,
    pub tag_date: Option<&'a str>,
    pub tag_title: Option<&'a str>,
    pub tag_bs17704_track_loudness: Option<&'a str>,
    pub tag_bs17704_album_loudness: Option<&'a str>,
}

/// The parameters of the `insert into listens` statement, in the order of
/// its columns: `started_at`, `queue_id`, `track_id`, `album_id`,
/// `album_artist_id`, `track_title`, `album_title`, `track_artist`,
/// `album_artist`, `duration_seconds`, `track_number`, `disc_number`. The
/// unsigned ids are stored as the `i64` with the same bits.
pub fn insert_listen_started_params<'a>(listen: &Listen<'a>) -> (r: Vec<SqlParam<'a>>)
    ensures
        r@ == seq![
            SqlParam::Text(listen.started_at),
            SqlParam::Integer(listen.queue_id.0 as i64),
            SqlParam::Integer(listen.track_id.0 as i64),
            SqlParam::Integer(listen.album_id.0 as i64),
            SqlParam::Integer(listen.album_artist_id.0 as i64),
            SqlParam::Text(listen.track_title),
            SqlParam::Text(listen.album_title),
            SqlParam::Text(listen.track_artist),
            SqlParam::Text(listen.album_artist),
            SqlParam::Integer(listen.duration_seconds as i64),
            SqlParam::Integer(listen.track_number as i64),
            SqlParam::Integer(listen.disc_number as i64),
        ],
{
    let mut r: Vec<SqlParam<'a>> = Vec::new();
    r.push(SqlParam::Text(listen.started_at));
    r.push(SqlParam::Integer(listen.queue_id.0 as i64));
    r.push(SqlParam::Integer(listen.track_id.0 as i64));
    r.push(SqlParam::Integer(listen.album_id.0 as i64));
    r.push(SqlParam::Integer(listen.album_artist_id.0 as i64));
    r.push(SqlParam::Text(listen.track_title));
    r.push(SqlParam::Text(listen.album_title));
    r.push(SqlParam::Text(listen.track_artist));
    r.push(SqlParam::Text(listen.album_artist));
    r.push(SqlParam::Integer(listen.duration_seconds as i64));
    r.push(SqlParam::Integer(listen.track_number as i64));
    r.push(SqlParam::Integer(listen.disc_number as i64));
    r
}

/// The parameters of the statement that sets the completed time of a listen:
/// the completed time, then the listen's row id, queue id and track id, which
/// the statement checks as a sanity check.
pub fn update_listen_completed_params<'a>(
    listen_id: ListenId,
    completed_time: &'a str,
    queue_id: QueueId,
    track_id: TrackId,
) -> (r: Vec<SqlParam<'a>>)
    ensures
        r@ == seq![
            SqlParam::Text(completed_time),
            SqlParam::Integer(listen_id.spec_row_id()),
            SqlParam::Integer(queue_id.0 as i64),
            SqlParam::Integer(track_id.0 as i64),
        ],
{
    let mut r: Vec<SqlParam<'a>> = Vec::new();
    r.push(SqlParam::Text(completed_time));
    r.push(SqlParam::Integer(listen_id.0));
    r.push(SqlParam::Integer(queue_id.0 as i64));
    r.push(SqlParam::Integer(track_id.0 as i64));
    r
}

/// The 21 parameters of the `insert into file_metadata` statement, in the
/// order of its columns. Absent tags and an absent sample count are `Null`.
pub fn insert_file_metadata_params<'a>(file: &FileMetadataInsert<'a>) -> (r: Vec<SqlParam<'a>>)
    ensures
        r@ == seq![
            SqlParam::Text(file.filename),
            SqlParam::Integer(file.mtime.0),
            SqlParam::Text(file.imported_at),
            SqlParam::Integer(file.streaminfo_channels as i64),
            SqlParam::Integer(file.streaminfo_bits_per_sample as i64),
            match file.streaminfo_num_samples {
                Some(n) => SqlParam::Integer(n as i64),
                None => SqlParam::Null,
            },
            SqlParam::Integer(file.streaminfo_sample_rate as i64),
            spec_opt_text(file.tag_album),
            spec_opt_text(file.tag_albumartist),
            spec_opt_text(file.tag_albumartistsort),
            spec_opt_text(file.tag_artist),
            spec_opt_text(file.tag_musicbrainz_albumartistid),
            spec_opt_text(file.tag_musicbrainz_albumid),
            spec_opt_text(file.tag_musicbrainz_trackid),
            spec_opt_text(file.tag_discnumber),
            spec_opt_text(file.tag_tracknumber),
            spec_opt_text(file.tag_originaldate),
            spec_opt_text(file.tag_date),
            spec_opt_text(file.tag_title),
            spec_opt_text(file.tag_bs17704_track_loudness),
            spec_opt_text(file.tag_bs17704_album_loudness),
        ],
{
    let num_samples = match file.streaminfo_num_samples {
        Some(n) => SqlParam::Integer(n as i64),
        None => SqlParam::Null,
    };
    let r: Vec<SqlParam<'a>> = vec![
        SqlParam::Text(file.filename),
        SqlParam::Integer(file.mtime.0),
        SqlParam::Text(file.imported_at),
        SqlParam::Integer(file.streaminfo_channels as i64),
        SqlParam::Integer(file.streaminfo_bits_per_sample as i64),
        num_samples,
        SqlParam::Integer(file.streaminfo_sample_rate as i64),
        opt_text(file.tag_album),
        opt_text(file.tag_albumartist),
        opt_text(file.tag_albumartistsort),
        opt_text(file.tag_artist),
        opt_text(file.tag_musicbrainz_albumartistid),
        opt_text(file.tag_musicbrainz_albumid),
        opt_text(file.tag_musicbrainz_trackid),
        opt_text(file.tag_discnumber),
        opt_text(file.tag_tracknumber),
        opt_text(file.tag_originaldate),
        opt_text(file.tag_date),
        opt_text(file.tag_title),
        opt_text(file.tag_bs17704_track_loudness),
        opt_text(file.tag_bs17704_album_loudness),
    ];
    r
}

/// The parameter of the statement that deletes a `file_metadata` row: its id.
pub fn delete_file_metadata_params(id: FileMetaId) -> (r: Vec<SqlParam<'static>>)
    ensures
        r@ == seq![SqlParam::Integer(id.0)],
{
    let mut r: Vec<SqlParam<'static>> = Vec::new();
    r.push(SqlParam::Integer(id.0));
    r
}

/// What a row of the `select id, filename, mtime from file_metadata` query is
/// read into: `None` unless the row is exactly an integer, a text and an
/// integer.
pub open spec fn spec_decode_filename_mtime_row(row: Seq<SqlValue>) -> Option<(FileMetaId, String, Mtime)> {
    if row.len() == 3 {
        match (row[0], row[1], row[2]) {
            (SqlValue::Integer(id), SqlValue::Text(path), SqlValue::Integer(mtime)) => Some(
                (FileMetaId(id), path, Mtime(mtime)),
            ),
            _ => None,
        }
    } else {
        None
    }
}

/// Reads a row of the `select id, filename, mtime` query; `None` for a row
/// of another shape.
pub fn decode_filename_mtime_row(row: &[SqlValue]) -> (r: Option<(FileMetaId, String, Mtime)>)
    ensures
        r == spec_decode_filename_mtime_row(row@),
{
    if row.len() != 3 {
        return None;
    }
    let id = match &row[0] {
        SqlValue::Integer(id) => *id,
        _ => return None,
    };
    let path = match &row[1] {
        SqlValue::Text(path) => path.clone(),
        _ => return None,
    };
    let mtime = match &row[2] {
        SqlValue::Integer(mtime) => *mtime,
        _ => return None,
    };
    Some((FileMetaId(id), path, Mtime(mtime)))
}

/// Every row of an integer, a text and an integer is read, whatever the text
/// holds, into the id, the filename and the mtime; a row of any other shape is
/// refused.
pub proof fn lemma_decode_filename_mtime_row(row: Seq<SqlValue>)
    ensures
        forall|id: i64, path: String, mtime: i64|
            row == seq![SqlValue::Integer(id), SqlValue::Text(path), SqlValue::Integer(mtime)]
                ==> spec_decode_filename_mtime_row(row) == Some((FileMetaId(id), path, Mtime(mtime))),
        spec_decode_filename_mtime_row(row) is Some ==> row.len() == 3 && row[0] is Integer
            && row[1] is Text && row[2] is Integer,
        spec_decode_filename_mtime_row(row) matches Some((id, path, mtime)) ==> row == seq![
            SqlValue::Integer(id.0),
            SqlValue::Text(path),
            SqlValue::Integer(mtime.0),
        ],
{
    if spec_decode_filename_mtime_row(row) is Some {
        assert(row =~= seq![row[0], row[1], row[2]]);
    }
}

/// Container for a row when iterating `file_metadata`.
#[derive(Debug)]
pub struct FileMetadata {
    pub filename: String,
    pub streaminfo_channels: u32,
    pub streaminfo_bits_per_sample: u32,
    pub streaminfo_num_samples: Option<u64>,
    pub streaminfo_sample_rate: u32,
    pub tag_album: Option<String>,
    pub tag_albumartist: Option<String>,
    pub tag_albumartistsort: Option<String>,
    pub tag_artist: Option<String>,
    pub tag_musicbrainz_albumartistid: Option<String>,
    pub tag_musicbrainz_albumid: Option<String>,
    pub tag_discnumber: Option<String>,
    pub tag_tracknumber: Option<String>,
    pub tag_originaldate: Option<String>,
    pub tag_date: Option<String>,
    pub tag_title: Option<String>,
    pub tag_bs17704_track_loudness: Option<String>,
    pub tag_bs17704_album_loudness: Option<String>,
}

/// The columns of a `file_metadata` row as the database returns them, in
/// the order of the query that selects them.
#[derive(Debug)]
pub struct FileMetadataColumns {
    pub filename: String,
    pub streaminfo_channels: i64,
    pub streaminfo_bits_per_sample: i64,
    pub streaminfo_num_samples: Option<i64>,
    pub streaminfo_sample_rate: i64,
    pub tag_album: Option<String>,
    pub tag_albumartist: Option<String>,
    pub tag_albumartistsort: Option<String>,
    pub tag_artist: Option<String>,
    pub tag_musicbrainz_albumartistid: Option<String>,
    pub tag_musicbrainz_albumid: Option<String>,
    pub tag_discnumber: Option<String>,
    pub tag_tracknumber: Option<String>,
    pub tag_originaldate: Option<String>,
    pub tag_date: Option<String>,
    pub tag_title: Option<String>,
    pub tag_bs17704_track_loudness: Option<String>,
    pub tag_bs17704_album_loudness: Option<String>,
}

impl FileMetadata {
    /// The metadata in a row: the stream properties keep the low bits of the
    /// stored integers (`as u32`, `as u64`); the strings are kept as they are.
    pub fn from_columns(c: FileMetadataColumns) -> (r: FileMetadata)
        ensures
            r.filename == c.filename,
            r.streaminfo_channels == c.streaminfo_channels as u32,
            r.streaminfo_bits_per_sample == c.streaminfo_bits_per_sample as u32,
            r.streaminfo_num_samples == (match c.streaminfo_num_samples {
                Some(n) => Some(n as u64),
                None => None,
            }),
            r.streaminfo_sample_rate == c.streaminfo_sample_rate as u32,
            r.tag_album == c.tag_album,
            r.tag_albumartist == c.tag_albumartist,
            r.tag_albumartistsort == c.tag_albumartistsort,
            r.tag_artist == c.tag_artist,
            r.tag_musicbrainz_albumartistid == c.tag_musicbrainz_albumartistid,
            r.tag_musicbrainz_albumid == c.tag_musicbrainz_albumid,
            r.tag_discnumber == c.tag_discnumber,
            r.tag_tracknumber == c.tag_tracknumber,
            r.tag_originaldate == c.tag_originaldate,
            r.tag_date == c.tag_date,
            r.tag_title == c.tag_title,
            r.tag_bs17704_track_loudness == c.tag_bs17704_track_loudness,
            r.tag_bs17704_album_loudness == c.tag_bs17704_album_loudness,
    {
        FileMetadata {
            filename: c.filename,
            streaminfo_channels: c.streaminfo_channels as u32,
            streaminfo_bits_per_sample: c.streaminfo_bits_per_sample as u32,
            streaminfo_num_samples: match c.streaminfo_num_samples {
                Some(n) => Some(n as u64),
                None => None,
            },
            streaminfo_sample_rate: c.streaminfo_sample_rate as u32,
            tag_album: c.tag_album,
            tag_albumartist: c.tag_albumartist,
            tag_albumartistsort: c.tag_albumartistsort,
            tag_artist: c.tag_artist,
            tag_musicbrainz_albumartistid: c.tag_musicbrainz_albumartistid,
            tag_musicbrainz_albumid: c.tag_musicbrainz_albumid,
            tag_discnumber: c.tag_discnumber,
            tag_tracknumber: c.tag_tracknumber,
            tag_originaldate: c.tag_originaldate,
            tag_date: c.tag_date,
            tag_title: c.tag_title,
            tag_bs17704_track_loudness: c.tag_bs17704_track_loudness,
            tag_bs17704_album_loudness: c.tag_bs17704_album_loudness,
        }
    }
}

} // verus!
