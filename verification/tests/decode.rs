use subsonic_client::deserialize::{
    decode, Album, Artist, Artists, Bookmark, Channel, ChatMessage, Directory, Entrires, GenericList,
    Genre, Index, IndexChoice, Indexes, JukeboxPlaylist, Media, MusicFolder, PlayQueue, Playlist,
    Radio, SearchResult, ServerError, Share, SubsonicInfo, SubsonicResp, User, VideoInfo,
    VideoProperties,
};
use subsonic_client::error::DecodeError;

fn song(id: u64, title: &str) -> Media {
    Media { id, is_dir: false, parent: 1, title: title.to_string(), ..Media::default() }
}

fn wrap(payload: &str) -> String {
    format!(
        "<?xml version=\"1.0\" encoding=\"UTF-8\"?>\n<subsonic-response xmlns=\"http://subsonic.org/restapi\" status=\"ok\" version=\"1.16.1\">\n{}\n</subsonic-response>",
        payload
    )
}

fn payload_of(payload: &str) -> Result<Option<SubsonicInfo>, DecodeError> {
    decode(&wrap(payload)).map(|r| r.resp)
}

fn some(s: &str) -> Option<String> {
    Some(s.to_string())
}

const SONGS: &str = "<song id=\"7\" parent=\"1\" isDir=\"false\" title=\"One\"/><song id=\"8\" parent=\"1\" isDir=\"false\" title=\"Two\"/>";

#[test]
fn license_document_decodes_to_license() {
    let doc = "<subsonic-response status=\"ok\" version=\"1.16.1\"><license valid=\"true\" email=\"a@b.com\" licenseExpires=\"2099-01-01\"/></subsonic-response>";
    let resp = decode(doc).unwrap();
    assert_eq!(
        resp,
        SubsonicResp {
            status: "ok".to_string(),
            version: "1.16.1".to_string(),
            resp: Some(SubsonicInfo::License {
                valid: true,
                email: "a@b.com".to_string(),
                license_expires: "2099-01-01".to_string(),
            }),
        }
    );
}

#[test]
fn starred2_decodes_to_mixed_list_of_songs() {
    let doc = wrap(&format!("  <starred2>\n    {}\n  </starred2>", SONGS));
    let resp = decode(&doc).unwrap();
    assert_eq!(
        resp.resp,
        Some(SubsonicInfo::SearchOrStarList(GenericList {
            items: Some(vec![SubsonicInfo::Song(song(7, "One")), SubsonicInfo::Song(song(8, "Two"))]),
        }))
    );
}

#[test]
fn mixed_list_decodes_each_item_by_its_own_name() {
    let got = payload_of(
        "<searchResult3><artist id=\"1\" name=\"ABBA\"/><album id=\"2\" name=\"Arrival\" songCount=\"10\"/><song id=\"7\" parent=\"1\" isDir=\"false\" title=\"One\"/><starred><song id=\"8\" parent=\"1\" isDir=\"false\" title=\"Two\"/></starred><starred2/></searchResult3>",
    )
    .unwrap();
    assert_eq!(
        got,
        Some(SubsonicInfo::SearchOrStarList(GenericList {
            items: Some(vec![
                SubsonicInfo::Artist(Artist { id: 1, name: "ABBA".to_string(), ..Artist::default() }),
                SubsonicInfo::Album(Album {
                    id: 2,
                    title: "Arrival".to_string(),
                    song_count: Some(10),
                    ..Album::default()
                }),
                SubsonicInfo::Song(song(7, "One")),
                SubsonicInfo::SearchOrStarList(GenericList {
                    items: Some(vec![SubsonicInfo::Song(song(8, "Two"))]),
                }),
                SubsonicInfo::SearchOrStarList(GenericList { items: None }),
            ]),
        }))
    );
    assert_eq!(
        payload_of("<starred><song id=\"7\" parent=\"1\" isDir=\"false\" title=\"One\"/><mystery/></starred>"),
        Err(DecodeError::UnknownVariant)
    );
    assert_eq!(
        payload_of("<starred><mystery/><song id=\"7\"/></starred>"),
        Err(DecodeError::UnknownVariant)
    );
    assert_eq!(
        payload_of("<starred><song id=\"7\"/><mystery/></starred>"),
        Err(DecodeError::MissingField)
    );
}

#[test]
fn aliases_of_media_list_decode_alike() {
    let expected = Some(SubsonicInfo::MediaList(GenericList {
        items: Some(vec![song(7, "One"), song(8, "Two")]),
    }));
    for name in [
        "mediaList",
        "newestPodcasts",
        "nowPlaying",
        "randomSongs",
        "similarSongs",
        "similarSongs2",
        "songsByGenre",
        "topSongs",
        "videos",
    ] {
        let got = payload_of(&format!("<{} a=\"b\">{}</{}>", name, SONGS, name)).unwrap();
        assert_eq!(got, expected);
    }
}

#[test]
fn aliases_of_the_other_kinds_decode_alike() {
    let albums = "<album id=\"2\" name=\"Arrival\"/>";
    let expected = Some(SubsonicInfo::AlbumList(GenericList {
        items: Some(vec![Album { id: 2, title: "Arrival".to_string(), ..Album::default() }]),
    }));
    for name in ["albumList", "albumList2"] {
        assert_eq!(payload_of(&format!("<{}>{}</{}>", name, albums, name)).unwrap(), expected);
    }
    let expected = Some(SubsonicInfo::SearchOrStarList(GenericList {
        items: Some(vec![SubsonicInfo::Song(song(7, "One")), SubsonicInfo::Song(song(8, "Two"))]),
    }));
    for name in ["searchOrStarList", "searchResult2", "searchResult3", "starred", "starred2"] {
        assert_eq!(payload_of(&format!("<{}>{}</{}>", name, SONGS, name)).unwrap(), expected);
    }
    let info = "<biography>Bio</biography><musicBrainzId>mb</musicBrainzId><similarArtist id=\"3\" name=\"X\"/>";
    let expected = Some(SubsonicInfo::PublicInfo {
        biography: some("Bio"),
        notes: None,
        music_brainz_id: some("mb"),
        last_fm_url: None,
        small_image_url: None,
        medium_image_url: None,
        large_image_url: None,
        similar_artists: Some(vec![Artist { id: 3, name: "X".to_string(), ..Artist::default() }]),
    });
    for name in ["publicInfo", "albumInfo", "artistInfo", "artistInfo2"] {
        assert_eq!(payload_of(&format!("<{}>{}</{}>", name, info, name)).unwrap(), expected);
    }
}

#[test]
fn a_name_in_the_wrong_case_is_unknown() {
    assert_eq!(payload_of("<NowPlaying/>"), Err(DecodeError::UnknownVariant));
    assert_eq!(payload_of("<nowplaying/>"), Err(DecodeError::UnknownVariant));
    assert_eq!(payload_of("<albumList3/>"), Err(DecodeError::UnknownVariant));
}

#[test]
fn server_error_is_told_from_a_payload() {
    let doc = "<subsonic-response status=\"failed\" version=\"1.16.1\"><error code=\"70\" message=\"data not found\"/></subsonic-response>";
    let resp = decode(doc).unwrap();
    assert_eq!(resp.status, "failed");
    assert_eq!(
        resp.resp,
        Some(SubsonicInfo::Error { code: 70, message: "data not found".to_string() })
    );
    assert_eq!(
        resp.into_result(),
        Err(ServerError { code: 70, message: "data not found".to_string() })
    );
}

#[test]
fn into_result_hands_out_any_other_payload() {
    let resp = decode(&wrap("<scanStatus scanning=\"true\" count=\"12\"/>")).unwrap();
    assert_eq!(resp.server_version(), Some(subsonic_client::version::Version::new(1, 16, 1)));
    assert_eq!(
        resp.into_result(),
        Ok(Some(SubsonicInfo::ScanStatus { scanning: true, count: Some(12) }))
    );
    let empty = decode("<subsonic-response status=\"ok\" version=\"1.16.1\"/>").unwrap();
    assert_eq!(empty.resp, None);
    assert_eq!(empty.into_result(), Ok(None));
}

#[test]
fn album_without_songs_has_no_song_list() {
    let expected = Some(SubsonicInfo::Album(Album {
        id: 11,
        title: "Back In Black".to_string(),
        ..Album::default()
    }));
    assert_eq!(payload_of("<album id=\"11\" name=\"Back In Black\"/>").unwrap(), expected);
    assert_eq!(payload_of("<album id=\"11\" name=\"Back In Black\"></album>").unwrap(), expected);
    assert_eq!(payload_of("<album id=\"11\" name=\"Back In Black\">  \n </album>").unwrap(), expected);
}

#[test]
fn lists_without_items_are_absent() {
    assert_eq!(
        payload_of("<musicFolders/>").unwrap(),
        Some(SubsonicInfo::MusicFolders(GenericList { items: None }))
    );
    assert_eq!(
        payload_of("<nowPlaying></nowPlaying>").unwrap(),
        Some(SubsonicInfo::MediaList(GenericList { items: None }))
    );
    assert_eq!(
        payload_of("<starred/>").unwrap(),
        Some(SubsonicInfo::SearchOrStarList(GenericList { items: None }))
    );
    assert_eq!(
        payload_of("<artists ignoredArticles=\"The\"/>").unwrap(),
        Some(SubsonicInfo::Artists(Artists { ignored_articles: some("The"), indexes: None }))
    );
    assert_eq!(
        payload_of("<playlist id=\"1\" name=\"n\" owner=\"o\" public=\"false\" songCount=\"0\"/>").unwrap(),
        Some(SubsonicInfo::Playlist(Playlist {
            id: 1,
            name: "n".to_string(),
            owner: "o".to_string(),
            public: false,
            song_count: 0,
            ..Playlist::default()
        }))
    );
    assert_eq!(
        payload_of("<artistInfo/>").unwrap(),
        Some(SubsonicInfo::PublicInfo {
            biography: None,
            notes: None,
            music_brainz_id: None,
            last_fm_url: None,
            small_image_url: None,
            medium_image_url: None,
            large_image_url: None,
            similar_artists: None,
        })
    );
}

#[test]
fn unknown_payload_name_is_an_error() {
    let doc = "<subsonic-response status=\"ok\" version=\"1.16.1\"><mystery/></subsonic-response>";
    assert_eq!(decode(doc), Err(DecodeError::UnknownVariant));
}

#[test]
fn what_is_not_a_document_is_malformed() {
    assert_eq!(decode(""), Err(DecodeError::Malformed));
    assert_eq!(decode("plain text"), Err(DecodeError::Malformed));
    assert_eq!(decode("<a><b></a>"), Err(DecodeError::Malformed));
    assert_eq!(decode("<subsonic-response status=\"ok\" version=\"1.16.1\">"), Err(DecodeError::Malformed));
    assert_eq!(decode("<a status=\"ok\" status=\"ok\" version=\"1\"/>"), Err(DecodeError::Malformed));
    assert_eq!(
        decode("<subsonic-response status=\"ok\" version=\"1.16.1\"><scanStatus scanning=\"true\"/><scanStatus scanning=\"true\"/></subsonic-response>"),
        Err(DecodeError::Malformed)
    );
}

#[test]
fn a_required_field_that_is_absent_is_an_error() {
    assert_eq!(decode("<subsonic-response version=\"1.16.1\"/>"), Err(DecodeError::MissingField));
    assert_eq!(decode("<subsonic-response status=\"ok\"/>"), Err(DecodeError::MissingField));
    assert_eq!(payload_of("<license valid=\"true\" email=\"a@b.com\"/>"), Err(DecodeError::MissingField));
    assert_eq!(payload_of("<error message=\"m\"/>"), Err(DecodeError::MissingField));
    assert_eq!(payload_of("<song id=\"7\" parent=\"1\" title=\"One\"/>"), Err(DecodeError::MissingField));
    assert_eq!(payload_of("<lyrics artist=\"a\" title=\"t\"/>"), Err(DecodeError::MissingField));
    assert_eq!(payload_of("<genres><genre songCount=\"1\" albumCount=\"1\"/></genres>"), Err(DecodeError::MissingField));
    assert_eq!(
        payload_of("<album id=\"1\" name=\"a\"><song id=\"7\"/></album>"),
        Err(DecodeError::MissingField)
    );
    assert_eq!(
        payload_of("<user username=\"u\" adminRole=\"true\"/>"),
        Err(DecodeError::MissingField)
    );
}

#[test]
fn a_value_of_the_wrong_type_is_an_error() {
    assert_eq!(
        payload_of("<license valid=\"yes\" email=\"a@b.com\" licenseExpires=\"x\"/>"),
        Err(DecodeError::InvalidValue)
    );
    assert_eq!(payload_of("<error code=\"seventy\" message=\"m\"/>"), Err(DecodeError::InvalidValue));
    assert_eq!(payload_of("<error code=\"4294967296\" message=\"m\"/>"), Err(DecodeError::InvalidValue));
    assert_eq!(payload_of("<error code=\"-1\" message=\"m\"/>"), Err(DecodeError::InvalidValue));
    assert_eq!(
        payload_of("<song id=\"7\" parent=\"1\" isDir=\"false\" title=\"One\" year=\"MCMXC\"/>"),
        Err(DecodeError::InvalidValue)
    );
    assert_eq!(
        payload_of("<song id=\"7\" parent=\"1\" isDir=\"TRUE\" title=\"One\"/>"),
        Err(DecodeError::InvalidValue)
    );
    assert_eq!(payload_of("<scanStatus scanning=\"true\" count=\"\"/>"), Err(DecodeError::InvalidValue));
    // The first field at fault, in the order of the fields, decides.
    assert_eq!(payload_of("<error code=\"x\"/>"), Err(DecodeError::InvalidValue));
    assert_eq!(payload_of("<license valid=\"yes\"/>"), Err(DecodeError::InvalidValue));
    assert_eq!(payload_of("<license email=\"a\" licenseExpires=\"maybe\"/>"), Err(DecodeError::MissingField));
}

#[test]
fn truth_values_are_words_or_digits() {
    for (text, value) in [("true", true), ("1", true), ("false", false), ("0", false)] {
        assert_eq!(
            payload_of(&format!("<scanStatus scanning=\"{}\"/>", text)).unwrap(),
            Some(SubsonicInfo::ScanStatus { scanning: value, count: None })
        );
    }
}

#[test]
fn media_binds_every_attribute() {
    let got = payload_of(
        "<song id=\"7\" parent=\"1\" isDir=\"false\" title=\"One\" album=\"Al\" albumId=\"2\" artist=\"Ar\" artistId=\"3\" bitRate=\"128\" channelId=\"4\" description=\"D\" contentType=\"audio/mpeg\" coverArt=\"c\" created=\"2004-11-08T23:36:11\" duration=\"146\" genre=\"Rock\" isVideo=\"false\" minutesAgo=\"5\" path=\"p/q.mp3\" playerId=\"6\" playerName=\"pn\" publishDate=\"pd\" size=\"8421341\" status=\"completed\" streamId=\"9\" suffix=\"mp3\" transcodedContentType=\"audio/ogg\" transcodedSuffix=\"ogg\" type=\"music\" username=\"joe\" year=\"1990\" unknown=\"ignored\"/>",
    )
    .unwrap();
    assert_eq!(
        got,
        Some(SubsonicInfo::Song(Media {
            id: 7,
            is_dir: false,
            parent: 1,
            title: "One".to_string(),
            album: some("Al"),
            album_id: Some(2),
            artist: some("Ar"),
            artist_id: Some(3),
            bit_rate: Some(128),
            channel_id: Some(4),
            description: some("D"),
            content_type: some("audio/mpeg"),
            cover_art: some("c"),
            created: some("2004-11-08T23:36:11"),
            duration: Some(146),
            genre: some("Rock"),
            is_video: Some(false),
            minutes_ago: Some(5),
            path: some("p/q.mp3"),
            player_id: Some(6),
            player_name: some("pn"),
            publish_date: some("pd"),
            size: Some(8421341),
            status: some("completed"),
            stream_id: Some(9),
            suffix: some("mp3"),
            transcoded_content_type: some("audio/ogg"),
            transcoded_suffix: some("ogg"),
            media_type: some("music"),
            username: some("joe"),
            year: Some(1990),
        }))
    );
}

#[test]
fn title_goes_by_two_names() {
    let by_name = payload_of("<song id=\"7\" parent=\"1\" isDir=\"true\" name=\"N\"/>").unwrap();
    assert_eq!(
        by_name,
        Some(SubsonicInfo::Song(Media {
            id: 7,
            is_dir: true,
            parent: 1,
            title: "N".to_string(),
            ..Media::default()
        }))
    );
    let both = payload_of("<album id=\"7\" name=\"N\" title=\"T\"/>").unwrap();
    assert_eq!(
        both,
        Some(SubsonicInfo::Album(Album { id: 7, title: "T".to_string(), ..Album::default() }))
    );
}

#[test]
fn children_of_a_struct_are_items_whatever_their_name() {
    let got = payload_of(
        "<directory id=\"1\" parent=\"0\" name=\"D\" starred=\"2013-11-02T12:30:00\"><child id=\"7\" parent=\"1\" isDir=\"false\" title=\"One\"/><other id=\"8\" parent=\"1\" isDir=\"false\" title=\"Two\"/></directory>",
    )
    .unwrap();
    assert_eq!(
        got,
        Some(SubsonicInfo::Directory(Directory {
            id: 1,
            parent: 0,
            name: "D".to_string(),
            starred: some("2013-11-02T12:30:00"),
            children: Some(vec![song(7, "One"), song(8, "Two")]),
        }))
    );
}

#[test]
fn indexes_mix_shortcuts_headings_and_children() {
    let got = payload_of(
        "<indexes lastModified=\"237462836472342\" ignoredArticles=\"The El La\"><shortcut id=\"11\" name=\"Audio books\"/><index name=\"A\"><artist id=\"1\" name=\"ABBA\"/><artist id=\"2\" name=\"Alanis\" albumCount=\"3\" coverArt=\"ar-2\" starred=\"2013\"/></index><index name=\"B\"/><child id=\"7\" parent=\"1\" isDir=\"false\" title=\"One\"/></indexes>",
    )
    .unwrap();
    assert_eq!(
        got,
        Some(SubsonicInfo::Indexes(Indexes {
            last_modified: 237462836472342,
            ignored_articles: some("The El La"),
            list: Some(vec![
                IndexChoice::Shortcut { id: 11, name: "Audio books".to_string() },
                IndexChoice::Index(Index {
                    name: "A".to_string(),
                    artists: Some(vec![
                        Artist { id: 1, name: "ABBA".to_string(), ..Artist::default() },
                        Artist {
                            id: 2,
                            name: "Alanis".to_string(),
                            album_count: Some(3),
                            cover_art: some("ar-2"),
                            starred: some("2013"),
                        },
                    ]),
                }),
                IndexChoice::Index(Index { name: "B".to_string(), artists: None }),
                IndexChoice::Child(song(7, "One")),
            ]),
        }))
    );
    assert_eq!(
        payload_of("<indexes lastModified=\"1\"><folder id=\"1\"/></indexes>"),
        Err(DecodeError::UnknownVariant)
    );
}

#[test]
fn playlist_lists_users_and_entries() {
    let got = payload_of(
        "<playlist id=\"15\" name=\"kokos\" comment=\"c\" owner=\"admin\" public=\"true\" songCount=\"2\" created=\"2012\" coverArt=\"pl-15\"><allowedUser>sindre</allowedUser><allowedUser/><entry id=\"7\" parent=\"1\" isDir=\"false\" title=\"One\"/></playlist>",
    )
    .unwrap();
    assert_eq!(
        got,
        Some(SubsonicInfo::Playlist(Playlist {
            id: 15,
            name: "kokos".to_string(),
            owner: "admin".to_string(),
            public: true,
            song_count: 2,
            comment: some("c"),
            cover_art: some("pl-15"),
            created: some("2012"),
            entries: Some(vec![
                Entrires::AllowedUser("sindre".to_string()),
                Entrires::AllowedUser(String::new()),
                Entrires::Entry(song(7, "One")),
            ]),
        }))
    );
    assert_eq!(
        payload_of("<playlist id=\"1\" name=\"n\" owner=\"o\" public=\"false\" songCount=\"0\"><song id=\"7\" parent=\"1\" isDir=\"false\" title=\"One\"/></playlist>"),
        Err(DecodeError::UnknownVariant)
    );
}

#[test]
fn text_content_is_bound_where_the_schema_says_so() {
    assert_eq!(
        payload_of("<lyrics artist=\"Muse\" title=\"Hysteria\">It's bugging me\nGrating me</lyrics>").unwrap(),
        Some(SubsonicInfo::Lyrics {
            artist: "Muse".to_string(),
            title: "Hysteria".to_string(),
            lyrics: "It's bugging me\nGrating me".to_string(),
        })
    );
    assert_eq!(
        payload_of("<genres><genre songCount=\"28\" albumCount=\"6\">Electronic</genre><genre songCount=\"6\" albumCount=\"2\">R&amp;B <![CDATA[<live>]]></genre></genres>").unwrap(),
        Some(SubsonicInfo::Genres(GenericList {
            items: Some(vec![
                Genre { song_count: 28, album_count: 6, name: "Electronic".to_string() },
                Genre { song_count: 6, album_count: 2, name: "R&B <live>".to_string() },
            ]),
        }))
    );
}

#[test]
fn user_carries_flags_and_folders() {
    let got = payload_of(
        "<user username=\"sindre\" email=\"s@a.no\" scrobblingEnabled=\"true\" adminRole=\"false\" settingsRole=\"true\" downloadRole=\"true\" uploadRole=\"false\" playlistRole=\"true\" coverArtRole=\"true\" commentRole=\"true\" podcastRole=\"true\" streamRole=\"true\" jukeboxRole=\"true\" shareRole=\"false\"><folder>1</folder><folder>3</folder></user>",
    )
    .unwrap();
    assert_eq!(
        got,
        Some(SubsonicInfo::User(User {
            admin_role: false,
            comment_role: true,
            cover_art_role: true,
            download_role: true,
            jukebox_role: true,
            playlist_role: true,
            podcast_role: true,
            scrobbling_enabled: true,
            settings_role: true,
            share_role: false,
            stream_role: true,
            upload_role: false,
            username: "sindre".to_string(),
            email: some("s@a.no"),
            folders: Some(vec![1, 3]),
        }))
    );
    let bad = "<user username=\"u\" scrobblingEnabled=\"true\" adminRole=\"false\" settingsRole=\"true\" downloadRole=\"true\" uploadRole=\"false\" playlistRole=\"true\" coverArtRole=\"true\" commentRole=\"true\" podcastRole=\"true\" streamRole=\"true\" jukeboxRole=\"true\" shareRole=\"false\"><folder>one</folder></user>";
    assert_eq!(payload_of(bad), Err(DecodeError::InvalidValue));
    assert_eq!(payload_of(&bad.replace("one", "")), Err(DecodeError::MissingField));
}

#[test]
fn jukebox_keeps_the_gain_as_text() {
    assert_eq!(
        payload_of("<jukeboxStatus currentIndex=\"7\" playing=\"true\" gain=\"0.9\" position=\"67\"/>").unwrap(),
        Some(SubsonicInfo::JukeboxStatus {
            current_index: 7,
            playing: true,
            gain: "0.9".to_string(),
            position: 67,
        })
    );
    assert_eq!(
        payload_of("<jukeboxPlaylist currentIndex=\"0\" playing=\"false\" gain=\"0.75\" position=\"0\"><entry id=\"7\" parent=\"1\" isDir=\"false\" title=\"One\"/></jukeboxPlaylist>").unwrap(),
        Some(SubsonicInfo::JukeboxPlaylist(JukeboxPlaylist {
            current_index: 0,
            playing: false,
            gain: "0.75".to_string(),
            position: 0,
            list: Some(vec![song(7, "One")]),
        }))
    );
}

#[test]
fn flat_records_decode() {
    assert_eq!(
        payload_of("<musicFolders><musicFolder id=\"1\" name=\"Music\"/><musicFolder id=\"2\" name=\"Movies\"/></musicFolders>").unwrap(),
        Some(SubsonicInfo::MusicFolders(GenericList {
            items: Some(vec![
                MusicFolder { id: 1, name: "Music".to_string() },
                MusicFolder { id: 2, name: "Movies".to_string() },
            ]),
        }))
    );
    assert_eq!(
        payload_of("<chatMessages><chatMessage username=\"admin\" time=\"1269771845310\" message=\"Hi\"/></chatMessages>").unwrap(),
        Some(SubsonicInfo::ChatMessages(GenericList {
            items: Some(vec![ChatMessage {
                username: "admin".to_string(),
                time: 1269771845310,
                message: "Hi".to_string(),
            }]),
        }))
    );
    assert_eq!(
        payload_of("<internetRadioStations><internetRadioStation id=\"0\" name=\"NRK P1\" streamUrl=\"http://s\" homePageUrl=\"http://h\"/></internetRadioStations>").unwrap(),
        Some(SubsonicInfo::InternetRadioStations(GenericList {
            items: Some(vec![Radio {
                id: 0,
                name: "NRK P1".to_string(),
                stream_url: "http://s".to_string(),
                home_page_url: some("http://h"),
            }]),
        }))
    );
    assert_eq!(
        payload_of("<videoInfo id=\"7228\"><captions id=\"0\" name=\"Planes 2.srt\"/><audioTrack id=\"1\" name=\"English\" languageCode=\"eng\"/><conversion id=\"37\" bitRate=\"1000\"/></videoInfo>").unwrap(),
        Some(SubsonicInfo::VideoInfo(VideoInfo {
            id: 7228,
            properties: Some(vec![
                VideoProperties::Captions { id: 0, name: "Planes 2.srt".to_string() },
                VideoProperties::AudioTrack {
                    id: 1,
                    name: "English".to_string(),
                    language_code: "eng".to_string(),
                },
                VideoProperties::Conversion { id: 37, bit_rate: 1000 },
            ]),
        }))
    );
}

#[test]
fn records_with_entries_decode() {
    assert_eq!(
        payload_of("<bookmarks><bookmark position=\"5000\" username=\"admin\" comment=\"c\" created=\"cr\" changed=\"ch\"><entry id=\"7\" parent=\"1\" isDir=\"false\" title=\"One\"/></bookmark></bookmarks>").unwrap(),
        Some(SubsonicInfo::Bookmarks(GenericList {
            items: Some(vec![Bookmark {
                position: 5000,
                username: "admin".to_string(),
                comment: some("c"),
                created: some("cr"),
                changed: some("ch"),
                entries: Some(vec![song(7, "One")]),
            }]),
        }))
    );
    assert_eq!(
        payload_of("<playQueue current=\"133\" position=\"45000\" username=\"admin\" changed=\"ch\" changedBy=\"android\"><entry id=\"7\" parent=\"1\" isDir=\"false\" title=\"One\"/></playQueue>").unwrap(),
        Some(SubsonicInfo::PlayQueue(PlayQueue {
            current: 133,
            position: 45000,
            username: "admin".to_string(),
            changed: some("ch"),
            changed_by: some("android"),
            entries: Some(vec![song(7, "One")]),
        }))
    );
    assert_eq!(
        payload_of("<shares><share id=\"1\" url=\"http://s\" description=\"d\" username=\"sindre\" created=\"cr\" lastVisited=\"lv\" expires=\"ex\" visitCount=\"5\"><entry id=\"7\" parent=\"1\" isDir=\"false\" title=\"One\"/></share></shares>").unwrap(),
        Some(SubsonicInfo::Shares(GenericList {
            items: Some(vec![Share {
                created: "cr".to_string(),
                id: 1,
                url: "http://s".to_string(),
                username: "sindre".to_string(),
                visit_count: 5,
                description: some("d"),
                last_visited: some("lv"),
                expires: some("ex"),
                entries: Some(vec![song(7, "One")]),
            }]),
        }))
    );
    assert_eq!(
        payload_of("<podcasts><channel id=\"1\" url=\"http://p\" title=\"t\" description=\"d\" coverArt=\"pod-1\" originalImageUrl=\"http://i\" status=\"error\" errorMessage=\"Not found\"><episode id=\"7\" parent=\"1\" isDir=\"false\" title=\"One\"/></channel></podcasts>").unwrap(),
        Some(SubsonicInfo::Podcasts(GenericList {
            items: Some(vec![Channel {
                id: 1,
                status: "error".to_string(),
                url: "http://p".to_string(),
                cover_art: some("pod-1"),
                description: some("d"),
                error_message: some("Not found"),
                original_image_url: some("http://i"),
                title: some("t"),
                episodes: Some(vec![song(7, "One")]),
            }]),
        }))
    );
    assert_eq!(
        payload_of("<searchResult offset=\"0\" totalHits=\"1\" total=\"1\"><match id=\"7\" parent=\"1\" isDir=\"false\" title=\"One\"/></searchResult>").unwrap(),
        Some(SubsonicInfo::SearchResult(SearchResult {
            offset: Some(0),
            total: Some(1),
            results: Some(vec![song(7, "One")]),
        }))
    );
}

#[test]
fn public_info_reads_child_elements() {
    let got = payload_of(
        "<artistInfo2><biography>Black</biography><notes/><musicBrainzId>5182c1d9</musicBrainzId><lastFmUrl>http://l</lastFmUrl><smallImageUrl>http://s</smallImageUrl><mediumImageUrl>http://m</mediumImageUrl><largeImageUrl>http://g</largeImageUrl><similarArtist id=\"22\" name=\"Accept\"/><other id=\"x\"/><similarArtist id=\"101\" name=\"Bruce\"/></artistInfo2>",
    )
    .unwrap();
    assert_eq!(
        got,
        Some(SubsonicInfo::PublicInfo {
            biography: some("Black"),
            notes: some(""),
            music_brainz_id: some("5182c1d9"),
            last_fm_url: some("http://l"),
            small_image_url: some("http://s"),
            medium_image_url: some("http://m"),
            large_image_url: some("http://g"),
            similar_artists: Some(vec![
                Artist { id: 22, name: "Accept".to_string(), ..Artist::default() },
                Artist { id: 101, name: "Bruce".to_string(), ..Artist::default() },
            ]),
        })
    );
}

#[test]
fn deser_tests() {
    let documents = [
        wrap(""),
        wrap("<license valid=\"true\" email=\"foo@bar.com\" licenseExpires=\"2019-09-03T14:46:43\"/>"),
        wrap("<musicFolders><musicFolder id=\"1\" name=\"Music\"/></musicFolders>"),
        wrap("<genres><genre songCount=\"28\" albumCount=\"6\">Electronic</genre></genres>"),
        wrap("<artists ignoredArticles=\"The El La Los Las Le Les\"><index name=\"A\"><artist id=\"5449\" name=\"A-Ha\" coverArt=\"ar-5449\" albumCount=\"4\"/></index></artists>"),
        wrap("<artist id=\"5432\" name=\"AC/DC\" coverArt=\"ar-5432\" albumCount=\"15\"/>"),
        wrap("<album id=\"11053\" name=\"High Voltage\" coverArt=\"al-11053\" songCount=\"8\" created=\"2004-11-27T20:23:32\" duration=\"2414\" artist=\"AC/DC\" artistId=\"5432\"><song id=\"71463\" parent=\"71381\" title=\"The Jack\" album=\"High Voltage\" artist=\"AC/DC\" isDir=\"false\" coverArt=\"71381\" created=\"2004-11-08T23:36:11\" duration=\"352\" bitRate=\"128\" size=\"5624132\" suffix=\"mp3\" contentType=\"audio/mpeg\" isVideo=\"false\" path=\"ACDC/High voltage/ACDC - The Jack.mp3\" albumId=\"11053\" artistId=\"5432\" type=\"music\"/></album>"),
        wrap("<song id=\"48228\" parent=\"48203\" title=\"You Shook Me All Night Long\" album=\"Back In Black\" artist=\"AC/DC\" isDir=\"false\" coverArt=\"48203\" duration=\"210\" bitRate=\"112\" track=\"7\" year=\"1980\" genre=\"Rock\" size=\"2945619\" suffix=\"mp3\" contentType=\"audio/mpeg\" isVideo=\"false\" type=\"music\"/>"),
        wrap("<nowPlaying><entry username=\"sindre\" minutesAgo=\"12\" playerId=\"2\" id=\"4\" parent=\"1\" isDir=\"false\" title=\"t\"/></nowPlaying>"),
        wrap("<users><user username=\"u\" scrobblingEnabled=\"true\" adminRole=\"false\" settingsRole=\"true\" downloadRole=\"true\" uploadRole=\"false\" playlistRole=\"true\" coverArtRole=\"true\" commentRole=\"true\" podcastRole=\"true\" streamRole=\"true\" jukeboxRole=\"true\" shareRole=\"false\"/></users>"),
        wrap("<playlists><playlist id=\"15\" name=\"Some random songs\" comment=\"Just something I tossed together\" owner=\"admin\" public=\"false\" songCount=\"6\" duration=\"1391\" created=\"2012-04-17T19:53:44\" coverArt=\"pl-15\"><allowedUser>sindre</allowedUser></playlist></playlists>"),
        wrap("<error code=\"40\" message=\"Wrong username or password\"/>"),
    ];
    for document in documents.iter() {
        println!("deserializing {}...", document);
        println!("---------------------------------------------------------------------");
        println!("{:#?}", decode(document).unwrap());
        println!("---------------------------------------------------------------------\n");
    }
}
