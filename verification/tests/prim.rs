use std::mem;
use musium::prim::{
    get_track_id, Album, AlbumArtistsRef, AlbumId, Artist, ArtistId, Date, FileId, FilenameRef,
    Hertz, Instant, Lufs, StringRef, Track, TrackId,
};

#[test]
fn struct_sizes_are_as_expected() {
    assert_eq!(mem::size_of::<Track>(), 40);
    assert_eq!(mem::size_of::<Album>(), 32);
    assert_eq!(mem::size_of::<Artist>(), 8);
    assert_eq!(mem::size_of::<(TrackId, Track)>(), 48);

    assert_eq!(mem::align_of::<Track>(), 8);
    assert_eq!(mem::align_of::<Album>(), 8);
    assert_eq!(mem::align_of::<Artist>(), 4);
}

#[test]
fn track_id_takes_album_bits_disc_and_track() {
    let album = AlbumId(0x0123_4567_89ab_cdef);
    assert_eq!(get_track_id(album, 1, 2), TrackId(0x0123_4567_89ab_c102));
    assert_eq!(get_track_id(album, 0, 0), TrackId(0x0123_4567_89ab_c000));
    // Only the low four bits of the disc number are kept.
    assert_eq!(get_track_id(album, 0x13, 0xff), TrackId(0x0123_4567_89ab_c3ff));
    assert_eq!(get_track_id(AlbumId(u64::MAX), 15, 255), TrackId(u64::MAX));
}

#[test]
fn tracks_of_an_album_are_distinct_and_adjacent() {
    let album = AlbumId(0xdead_beef_0000_0abc);
    let mut ids = Vec::new();
    for disc in 0..16u8 {
        for track in 0..=255u8 {
            let id = get_track_id(album, disc, track).0;
            assert!(id >= 0xdead_beef_0000_0000 && id <= 0xdead_beef_0000_0fff);
            ids.push(id);
        }
    }
    ids.sort();
    ids.dedup();
    assert_eq!(ids.len(), 16 * 256);
}

#[test]
fn parse_ids_from_hex() {
    assert_eq!(TrackId::parse("ff"), Some(TrackId(255)));
    assert_eq!(TrackId::parse("FF"), Some(TrackId(255)));
    assert_eq!(TrackId::parse("+10"), Some(TrackId(16)));
    assert_eq!(AlbumId::parse("ffffffffffffffff"), Some(AlbumId(u64::MAX)));
    assert_eq!(AlbumId::parse("0000000000000000000001"), Some(AlbumId(1)));
    assert_eq!(ArtistId::parse("10000000000000000"), None);
    assert_eq!(ArtistId::parse(""), None);
    assert_eq!(ArtistId::parse("+"), None);
    assert_eq!(ArtistId::parse("-1"), None);
    assert_eq!(ArtistId::parse("0x1"), None);
    assert_eq!(ArtistId::parse("g"), None);
    assert_eq!(ArtistId::parse(" 1"), None);
    assert_eq!(ArtistId::parse("1é"), None);
}

#[test]
fn parse_agrees_with_from_str_radix() {
    let inputs = [
        "", "+", "-", "0", "+0", "-0", "00", "abcdef", "ABCDEF", "aBcDeF", "123456789",
        "fffffffffffffffe", "ffffffffffffffff", "10000000000000000", "1ffffffffffffffff",
        "++1", "+-1", "1+", "1 ", "1_0", "g", "G", "z", "é", "1é", "٣", "ffffffffffffffff0",
        "0000000000000000000000000000000000000000000000ff",
    ];
    for s in inputs.iter() {
        assert_eq!(TrackId::parse(s).map(|t| t.0), u64::from_str_radix(s, 16).ok(), "{:?}", s);
    }
}

#[test]
fn id_text_is_sixteen_hex_digits() {
    assert_eq!(TrackId(255).to_string(), "00000000000000ff");
    assert_eq!(AlbumId(0).to_string(), "0000000000000000");
    assert_eq!(ArtistId(u64::MAX).to_string(), "ffffffffffffffff");
    for x in [0u64, 1, 15, 16, 0xabc, 0x0123_4567_89ab_cdef, u64::MAX - 1, u64::MAX] {
        assert_eq!(TrackId(x).to_string(), format!("{:016x}", x));
        assert_eq!(TrackId::parse(&TrackId(x).to_string()), Some(TrackId(x)));
        assert_eq!(AlbumId::parse(&AlbumId(x).to_string()), Some(AlbumId(x)));
        assert_eq!(ArtistId::parse(&ArtistId(x).to_string()), Some(ArtistId(x)));
    }
}

#[test]
fn lufs_values() {
    assert_eq!(Lufs::new(-732).get(), -732);
    assert_eq!(Lufs::default().get(), -900);
    assert_eq!(Lufs::default().to_string(), "-9.00 LUFS");
    assert_eq!(Lufs::new(-732).to_string(), "-7.32 LUFS");
    assert_eq!(Lufs::new(-5).to_string(), "-0.05 LUFS");
    assert_eq!(Lufs::new(1).to_string(), "0.01 LUFS");
    assert_eq!(Lufs::new(i16::MIN).to_string(), "-327.68 LUFS");
    assert_eq!(Lufs::new(i16::MAX).to_string(), "327.67 LUFS");
    assert!(Lufs::new(-800) < Lufs::new(-700));
}

#[test]
fn lufs_text_agrees_with_float_formatting() {
    for v in i16::MIN..=i16::MAX {
        if v == 0 {
            continue;
        }
        let expected = format!("{:.2} LUFS", (v as f32) * 0.01);
        assert_eq!(Lufs::new(v).to_string(), expected);
    }
}

#[test]
fn option_lufs_is_small() {
    assert_eq!(mem::size_of::<Lufs>(), 2);
    assert_eq!(mem::size_of::<Option<Lufs>>(), 2);
}

#[test]
fn hertz_from_str() {
    assert_eq!(Hertz::from_str("44100 Hz"), Ok(Hertz(44100)));
    assert_eq!(Hertz::from_str("+48000 Hz"), Ok(Hertz(48000)));
    assert_eq!(Hertz::from_str("4294967295 Hz"), Ok(Hertz(u32::MAX)));
    assert_eq!(
        Hertz::from_str("44100"),
        Err("Expected integer frequency value of the form '999 Hz', but the Hz suffix is missing.")
    );
    assert_eq!(
        Hertz::from_str("44100 hz"),
        Err("Expected integer frequency value of the form '999 Hz', but the Hz suffix is missing.")
    );
    assert_eq!(
        Hertz::from_str("4294967296 Hz"),
        Err("Expected integer frequency value of the form '999 Hz', but the number is invalid.")
    );
    assert_eq!(
        Hertz::from_str(" Hz"),
        Err("Expected integer frequency value of the form '999 Hz', but the number is invalid.")
    );
    assert_eq!(
        Hertz::from_str("ff Hz"),
        Err("Expected integer frequency value of the form '999 Hz', but the number is invalid.")
    );
    assert_eq!(
        Hertz::from_str("44100  Hz"),
        Err("Expected integer frequency value of the form '999 Hz', but the number is invalid.")
    );
}

#[test]
fn hertz_text_round_trip() {
    for x in [0u32, 1, 9, 10, 44100, 48000, 96000, u32::MAX] {
        let text = Hertz(x).to_string();
        assert_eq!(text, format!("{} Hz", x));
        assert_eq!(Hertz::from_str(&text), Ok(Hertz(x)));
    }
}

#[test]
fn date_text() {
    assert_eq!(Date::new(2021, 3, 4).to_string(), "2021-03-04");
    assert_eq!(Date::new(2021, 3, 0).to_string(), "2021-03");
    assert_eq!(Date::new(2021, 0, 5).to_string(), "2021");
    assert_eq!(Date::new(999, 1, 2).to_string(), "0999-01-02");
    assert_eq!(Date::new(0, 12, 31).to_string(), "0000-12-31");
    assert_eq!(Date { year: 12345, month: 1, day: 1 }.to_string(), "12345-01-01");
    let d = Date::new(1999, 12, 31);
    assert_eq!(d, Date { year: 1999, month: 12, day: 31 });
}

#[test]
fn instant_from_and_to_iso8601() {
    assert_eq!(
        Instant::from_iso8601("1970-01-01T00:00:00Z"),
        Some(Instant { posix_seconds_utc: 0 })
    );
    assert_eq!(
        Instant::from_iso8601("2021-03-04T05:06:07+01:00"),
        Some(Instant { posix_seconds_utc: 1614830767 })
    );
    assert_eq!(Instant::from_iso8601("2021-03-04"), None);
    assert_eq!(Instant::from_iso8601("yesterday"), None);

    assert_eq!(Instant { posix_seconds_utc: 0 }.format_iso8601(), "1970-01-01T00:00:00Z");
    assert_eq!(
        Instant { posix_seconds_utc: 1614830767 }.format_iso8601(),
        "2021-03-04T04:06:07Z"
    );
    let i = Instant { posix_seconds_utc: 1_600_000_000 };
    assert_eq!(Instant::from_iso8601(&i.format_iso8601()), Some(i));
}

#[test]
fn plain_records() {
    let track = Track {
        album_id: AlbumId(1),
        file_id: FileId(2),
        title: StringRef(3),
        artist: StringRef(4),
        filename: FilenameRef(5),
        duration_seconds: 300,
        disc_number: 1,
        track_number: 7,
        loudness: Some(Lufs::new(-812)),
    };
    assert_eq!(track.clone(), track);
    let album = Album {
        artist_ids: AlbumArtistsRef { begin: 0, end: 1 },
        artist: StringRef(0),
        title: StringRef(1),
        original_release_date: Date::new(2000, 1, 1),
        loudness: None,
        first_seen: Instant { posix_seconds_utc: 0 },
    };
    assert_eq!(album.clone(), album);
    let artist = Artist { name: StringRef(0), name_for_sort: StringRef(1) };
    assert_eq!(artist.clone(), artist);
}

#[test]
fn hertz_parses_through_from_str_trait() {
    let h: Result<Hertz, &'static str> = "96000 Hz".parse();
    assert_eq!(h, Ok(Hertz(96000)));
    let bad: Result<Hertz, &'static str> = "96000".parse();
    assert!(bad.is_err());
}

#[test]
fn full_date_text_sorts_like_the_date() {
    let dates = [
        Date::new(0, 1, 1),
        Date::new(999, 12, 31),
        Date::new(1999, 2, 3),
        Date::new(1999, 2, 13),
        Date::new(1999, 11, 3),
        Date::new(2000, 1, 1),
        Date::new(2021, 3, 4),
        Date::new(9999, 12, 31),
    ];
    for a in dates.iter() {
        for b in dates.iter() {
            assert_eq!(a.cmp(b), a.to_string().cmp(&b.to_string()), "{:?} {:?}", a, b);
        }
    }
}
