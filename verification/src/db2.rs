//! The queries of the `database.sql` query set: their SQL, the rows they are
//! expected to return, the parameters they are given, and the cache that
//! keeps each query's prepared statement for reuse within a connection.

use vstd::prelude::*;
use crate::sql::SqlParam;

verus! {

pub const ITER_FILE_METADATA_SQL: &'static str = "
SELECT
  filename,
  mtime,
  streaminfo_channels,
  streaminfo_bits_per_sample,
  streaminfo_num_samples,
  streaminfo_sample_rate,
  tag_album,
  tag_albumartist,
  tag_albumartistsort,
  tag_artist,
  tag_musicbrainz_albumartistid,
  tag_musicbrainz_albumid,
  tag_discnumber,
  tag_tracknumber,
  tag_originaldate,
  tag_date,
  tag_title,
  tag_bs17704_track_loudness,
  tag_bs17704_album_loudness
FROM
  file_metadata
ORDER BY
  filename ASC;
    ";

pub const INSERT_ALBUM_LOUDNESS_SQL: &'static str = "
INSERT INTO album_loudness (album_id, bs17704_loudness_lufs)
VALUES (:album_id, :loudness)
ON CONFLICT (album_id) DO UPDATE SET bs17704_loudness_lufs = :loudness;
    ";

pub const INSERT_TRACK_LOUDNESS_SQL: &'static str = "
INSERT INTO track_loudness (track_id, bs17704_loudness_lufs)
VALUES (:track_id, :loudness)
ON CONFLICT (track_id) DO UPDATE SET bs17704_loudness_lufs = :loudness;
    ";

pub const INSERT_TRACK_WAVEFORM_SQL: &'static str = "
INSERT INTO waveforms (track_id, data)
VALUES (:track_id, :data)
ON CONFLICT (track_id) DO UPDATE SET data = :data;
    ";

pub const INSERT_LISTEN_STARTED_SQL: &'static str = "
insert into
  listens
  ( started_at
  , queue_id
  , track_id
  , album_id
  , album_artist_id
  , track_title
  , track_artist
  , album_title
  , album_artist
  , duration_seconds
  , track_number
  , disc_number
  , source
  )
values
  ( :started_at
  , :queue_id
  , :track_id
  , :album_id
  , :album_artist_id
  , :track_title
  , :track_artist
  , :album_title
  , :album_artist
  , :duration_seconds
  , :track_number
  , :disc_number
  , 'musium'
  )
returning
  id;
    ";

pub const UPDATE_LISTEN_COMPLETED_SQL: &'static str = "
update listens
  set completed_at = :completed_at
where
  id = :listen_id
  and queue_id = :queue_id
  and track_id = :track_id;
    ";

/// The queries of the set.
#[derive(Copy, Clone, Debug, PartialEq, Eq)]
pub enum Query {
    IterFileMetadata,
    InsertAlbumLoudness,
    InsertTrackLoudness,
    InsertTrackWaveform,
    InsertListenStarted,
    UpdateListenCompleted,
}

/// The number of queries in the set.
pub const NUM_QUERIES: usize = 6;

/// The position of a query in the set.
pub open spec fn spec_query_index(q: Query) -> int {
    match q {
        Query::IterFileMetadata => 0,
        Query::InsertAlbumLoudness => 1,
        Query::InsertTrackLoudness => 2,
        Query::InsertTrackWaveform => 3,
        Query::InsertListenStarted => 4,
        Query::UpdateListenCompleted => 5,
    }
}

/// The number of rows a query returns: any number for the file metadata
/// iteration, one row (the new id) for the listen insertion, none for the
/// others.
pub open spec fn spec_expected_rows(q: Query) -> Option<usize> {
    match q {
        Query::IterFileMetadata => None,
        Query::InsertListenStarted => Some(1),
        _ => Some(0),
    }
}

impl Query {
    pub fn index(&self) -> (r: usize)
        ensures
            r == spec_query_index(*self),
            r < NUM_QUERIES,
    {
        match self {
            Query::IterFileMetadata => 0,
            Query::InsertAlbumLoudness => 1,
            Query::InsertTrackLoudness => 2,
            Query::InsertTrackWaveform => 3,
            Query::InsertListenStarted => 4,
            Query::UpdateListenCompleted => 5,
        }
    }

    /// How many rows the query returns; see `spec_expected_rows`.
    pub fn expected_rows(&self) -> (r: Option<usize>)
        ensures
            r == spec_expected_rows(*self),
    {
        match self {
            Query::IterFileMetadata => None,
            Query::InsertListenStarted => Some(1),
            _ => Some(0),
        }
    }

    /// The SQL text of the query.
    pub fn sql(&self) -> (r: &'static str)
        ensures
            r == spec_query_sql(*self),
    {
        match self {
            Query::IterFileMetadata => ITER_FILE_METADATA_SQL,
            Query::InsertAlbumLoudness => INSERT_ALBUM_LOUDNESS_SQL,
            Query::InsertTrackLoudness => INSERT_TRACK_LOUDNESS_SQL,
            Query::InsertTrackWaveform => INSERT_TRACK_WAVEFORM_SQL,
            Query::InsertListenStarted => INSERT_LISTEN_STARTED_SQL,
            Query::UpdateListenCompleted => UPDATE_LISTEN_COMPLETED_SQL,
        }
    }
}

/// The SQL text of each query.
pub open spec fn spec_query_sql(q: Query) -> &'static str {
    match q {
        Query::IterFileMetadata => ITER_FILE_METADATA_SQL,
        Query::InsertAlbumLoudness => INSERT_ALBUM_LOUDNESS_SQL,
        Query::InsertTrackLoudness => INSERT_TRACK_LOUDNESS_SQL,
        Query::InsertTrackWaveform => INSERT_TRACK_WAVEFORM_SQL,
        Query::InsertListenStarted => INSERT_LISTEN_STARTED_SQL,
        Query::UpdateListenCompleted => UPDATE_LISTEN_COMPLETED_SQL,
    }
}

/// The prepared statement of each query that has been prepared so far, at
/// most one per query.
pub struct StatementCache<S> {
    slots: [Option<S>; 6],
}

impl<S> StatementCache<S> {
    /// The statements held, by query.
    pub closed spec fn view(&self) -> Map<Query, S> {
        Map::new(
            |q: Query| self.slots@[spec_query_index(q)] is Some,
            |q: Query| self.slots@[spec_query_index(q)]->Some_0,
        )
    }

    /// A cache that holds no statement yet.
    pub fn new() -> (r: Self)
        ensures
            r@ == Map::<Query, S>::empty(),
    {
        let r = StatementCache { slots: [None, None, None, None, None, None] };
        assert(r@ =~= Map::<Query, S>::empty());
        r
    }

    /// Whether the statement of `q` has been prepared.
    pub fn contains(&self, q: Query) -> (r: bool)
        ensures
            r == self@.contains_key(q),
    {
        self.slots[q.index()].is_some()
    }

    /// Keeps `statement` as the prepared statement of `q`.
    pub fn insert(&mut self, q: Query, statement: S)
        ensures
            final(self)@ == old(self)@.insert(q, statement),
    {
        let i = q.index();
        self.slots[i] = Some(statement);
        proof {
            assert forall|q2: Query| spec_query_index(q2) == spec_query_index(q) implies q2 == q by {}
        }
        assert(self@ =~= old(self)@.insert(q, statement));
    }

    /// The prepared statement of `q`, to run it; the cache keeps it.
    pub fn get_mut(&mut self, q: Query) -> (r: &mut S)
        requires
            old(self)@.contains_key(q),
        ensures
            *r == old(self)@[q],
            final(self)@ == old(self)@.insert(q, *final(r)),
    {
        let i = q.index();
        match &mut self.slots[i] {
            Some(s) => s,
            None => vstd::pervasive::unreached(),
        }
    }
}

#[derive(Debug)]
pub struct FileMetadata {
    pub filename: String,
    pub mtime: i64,
    pub streaminfo_channels: i64,
    pub streaminfo_bits_per_sample: i64,
    pub streaminfo_num_samples: Option<i64>,
    pub streaminfo_sample_rate: i64,
    pub tag_album: Option<String>,
    pub tag_albumartist: Option<String>,
    pub tag_albumartistsort: Option<String>,
    pub tag_artist: Option<String>,
    pub tag_musicbrainz_albumartistid: Option<String>,
    pub tag_musicbrainz_albumid: Option<String>,
    pub tag_discnumber: Option<String>,
    pub tag_tracknumber: Option<String>,
    pub tag_originaldate: Option<String>,
    pub tag_date: Option<String>,
    pub tag_title: Option<String>,
    pub tag_bs17704_track_loudness: Option<String>,
    pub tag_bs17704_album_loudness: Option<String>,
}

#[derive(Debug)]
pub struct Listen<'a> {
    pub started_at: &'a str,
    pub queue_id: i64,
    pub track_id: i64,
    pub album_id: i64,
    pub album_artist_id: i64,
    pub track_title: &'a str,
    pub track_artist: &'a str,
    pub album_title: &'a str,
    pub album_artist: &'a str,
    pub duration_seconds: i64,
    pub track_number: i64,
    pub disc_number: i64,
}

/// The parameters of `insert_listen_started`, in the order of its named
/// parameters: `started_at`, `queue_id`, `track_id`, `album_id`,
/// `album_artist_id`, `track_title`, `track_artist`, `album_title`,
/// `album_artist`, `duration_seconds`, `track_number`, `disc_number`.
pub fn insert_listen_started_params<'a>(listen: &Listen<'a>) -> (r: Vec<SqlParam<'a>>)
    ensures
        r@ == seq![
            SqlParam::Text(listen.started_at),
            SqlParam::Integer(listen.queue_id),
            SqlParam::Integer(listen.track_id),
            SqlParam::Integer(listen.album_id),
            SqlParam::Integer(listen.album_artist_id),
            SqlParam::Text(listen.track_title),
            SqlParam::Text(listen.track_artist),
            SqlParam::Text(listen.album_title),
            SqlParam::Text(listen.album_artist),
            SqlParam::Integer(listen.duration_seconds),
            SqlParam::Integer(listen.track_number),
            SqlParam::Integer(listen.disc_number),
        ],
{
    vec![
        SqlParam::Text(listen.started_at),
        SqlParam::Integer(listen.queue_id),
        SqlParam::Integer(listen.track_id),
        SqlParam::Integer(listen.album_id),
        SqlParam::Integer(listen.album_artist_id),
        SqlParam::Text(listen.track_title),
        SqlParam::Text(listen.track_artist),
        SqlParam::Text(listen.album_title),
        SqlParam::Text(listen.album_artist),
        SqlParam::Integer(listen.duration_seconds),
        SqlParam::Integer(listen.track_number),
        SqlParam::Integer(listen.disc_number),
    ]
}

/// The parameters of `update_listen_completed`: `completed_at`, then the
/// listen id, queue id and track id that select the row.
pub fn update_listen_completed_params<'a>(
    listen_id: i64,
    queue_id: i64,
    track_id: i64,
    completed_at: &'a str,
) -> (r: Vec<SqlParam<'a>>)
    ensures
        r@ == seq![
            SqlParam::Text(completed_at),
            SqlParam::Integer(listen_id),
            SqlParam::Integer(queue_id),
            SqlParam::Integer(track_id),
        ],
{
    vec![
        SqlParam::Text(completed_at),
        SqlParam::Integer(listen_id),
        SqlParam::Integer(queue_id),
        SqlParam::Integer(track_id),
    ]
}

/// The parameters of `insert_track_waveform`: the track id, then the data.
pub fn insert_track_waveform_params<'a>(track_id: i64, data: &'a [u8]) -> (r: Vec<SqlParam<'a>>)
    ensures
        r@ == seq![SqlParam::Integer(track_id), SqlParam::Blob(data)],
{
    vec![SqlParam::Integer(track_id), SqlParam::Blob(data)]
}

/// Each query's SQL is its own statement: the file metadata query selects,
/// the loudness and waveform queries insert into their own tables, and the
/// listen queries insert into and update `listens`.
pub proof fn lemma_query_sql_statements()
    ensures
        spec_query_sql(Query::IterFileMetadata)@.subrange(1, 7) == "SELECT"@,
        spec_query_sql(Query::InsertAlbumLoudness)@.subrange(1, 27) == "INSERT INTO album_loudness"@,
        spec_query_sql(Query::InsertTrackLoudness)@.subrange(1, 27) == "INSERT INTO track_loudness"@,
        spec_query_sql(Query::InsertTrackWaveform)@.subrange(1, 22) == "INSERT INTO waveforms"@,
        spec_query_sql(Query::InsertListenStarted)@.subrange(1, 22) == "insert into\n  listens"@,
        spec_query_sql(Query::UpdateListenCompleted)@.subrange(1, 15) == "update listens"@,
        forall|q: Query| #[trigger] spec_query_sql(q)@.len() >= 27,
{
    reveal_strlit("
SELECT
  filename,
  mtime,
  streaminfo_channels,
  streaminfo_bits_per_sample,
  streaminfo_num_samples,
  streaminfo_sample_rate,
  tag_album,
  tag_albumartist,
  tag_albumartistsort,
  tag_artist,
  tag_musicbrainz_albumartistid,
  tag_musicbrainz_albumid,
  tag_discnumber,
  tag_tracknumber,
  tag_originaldate,
  tag_date,
  tag_title,
  tag_bs17704_track_loudness,
  tag_bs17704_album_loudness
FROM
  file_metadata
ORDER BY
  filename ASC;
    ");
    reveal_strlit("SELECT");
    assert(spec_query_sql(Query::IterFileMetadata)@.subrange(1, 7) =~= "SELECT"@);
    reveal_strlit("
INSERT INTO album_loudness (album_id, bs17704_loudness_lufs)
VALUES (:album_id, :loudness)
ON CONFLICT (album_id) DO UPDATE SET bs17704_loudness_lufs = :loudness;
    ");
    reveal_strlit("INSERT INTO album_loudness");
    assert(spec_query_sql(Query::InsertAlbumLoudness)@.subrange(1, 27) =~= "INSERT INTO album_loudness"@);
    reveal_strlit("
INSERT INTO track_loudness (track_id, bs17704_loudness_lufs)
VALUES (:track_id, :loudness)
ON CONFLICT (track_id) DO UPDATE SET bs17704_loudness_lufs = :loudness;
    ");
    reveal_strlit("INSERT INTO track_loudness");
    assert(spec_query_sql(Query::InsertTrackLoudness)@.subrange(1, 27) =~= "INSERT INTO track_loudness"@);
    reveal_strlit("
INSERT INTO waveforms (track_id, data)
VALUES (:track_id, :data)
ON CONFLICT (track_id) DO UPDATE SET data = :data;
    ");
    reveal_strlit("INSERT INTO waveforms");
    assert(spec_query_sql(Query::InsertTrackWaveform)@.subrange(1, 22) =~= "INSERT INTO waveforms"@);
    reveal_strlit("
insert into
  listens
  ( started_at
  , queue_id
  , track_id
  , album_id
  , album_artist_id
  , track_title
  , track_artist
  , album_title
  , album_artist
  , duration_seconds
  , track_number
  , disc_number
  , source
  )
values
  ( :started_at
  , :queue_id
  , :track_id
  , :album_id
  , :album_artist_id
  , :track_title
  , :track_artist
  , :album_title
  , :album_artist
  , :duration_seconds
  , :track_number
  , :disc_number
  , 'musium'
  )
returning
  id;
    ");
    reveal_strlit("insert into\n  listens");
    assert(spec_query_sql(Query::InsertListenStarted)@.subrange(1, 22) =~= "insert into\n  listens"@);
    reveal_strlit("
update listens
  set completed_at = :completed_at
where
  id = :listen_id
  and queue_id = :queue_id
  and track_id = :track_id;
    ");
    reveal_strlit("update listens");
    assert(spec_query_sql(Query::UpdateListenCompleted)@.subrange(1, 15) =~= "update listens"@);
}

/// The characters of a query's SQL that tell it from the others: the first
/// letter of its statement, and for the insertions, the first letter of
/// the table.
proof fn lemma_query_sql_marks(q: Query)
    ensures
        spec_query_sql(q)@.len() >= 15,
        spec_query_sql(q)@[1] == match q {
            Query::IterFileMetadata => 'S',
            Query::InsertListenStarted => 'i',
            Query::UpdateListenCompleted => 'u',
            _ => 'I',
        },
        spec_query_sql(q)@[1] == 'I' ==> spec_query_sql(q)@[13] == match q {
            Query::InsertAlbumLoudness => 'a',
            Query::InsertTrackLoudness => 't',
            _ => 'w',
        },
{
    lemma_query_sql_statements();
    let t = spec_query_sql(q)@;
    match q {
        Query::IterFileMetadata => {
            reveal_strlit("SELECT");
            assert(t.subrange(1, 7)[0] == t[1]);
        },
        Query::InsertAlbumLoudness => {
            reveal_strlit("INSERT INTO album_loudness");
            assert(t.subrange(1, 27)[0] == t[1]);
            assert(t.subrange(1, 27)[12] == t[13]);
        },
        Query::InsertTrackLoudness => {
            reveal_strlit("INSERT INTO track_loudness");
            assert(t.subrange(1, 27)[0] == t[1]);
            assert(t.subrange(1, 27)[12] == t[13]);
        },
        Query::InsertTrackWaveform => {
            reveal_strlit("INSERT INTO waveforms");
            assert(t.subrange(1, 22)[0] == t[1]);
            assert(t.subrange(1, 22)[12] == t[13]);
        },
        Query::InsertListenStarted => {
            reveal_strlit("insert into\n  listens");
            assert(t.subrange(1, 22)[0] == t[1]);
        },
        Query::UpdateListenCompleted => {
            reveal_strlit("update listens");
            assert(t.subrange(1, 15)[0] == t[1]);
        },
    }
}

/// The six queries have six different SQL texts, so the statement cache keeps
/// a different statement for each.
pub proof fn lemma_query_sql_distinct(q1: Query, q2: Query)
    requires
        q1 != q2,
    ensures
        spec_query_sql(q1)@ != spec_query_sql(q2)@,
{
    lemma_query_sql_marks(q1);
    lemma_query_sql_marks(q2);
}

} // verus!
