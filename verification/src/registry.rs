//! The operation registry: for every operation its logical name, the version
//! that introduced it, and its parameters in order, each with the version that
//! introduced it and whether a call must supply it.

use crate::version::Version;
use vstd::prelude::*;

verus! {

/// One parameter of an operation.
#[derive(Debug, PartialEq, Eq)]
pub struct Parameter {
    /// The logical name, in snake case.
    pub name: &'static str,
    /// The first version whose servers take the parameter.
    pub since: Version,
    /// Whether the operation cannot do without it.
    pub required: bool,
}

/// What the registry holds for one operation.
#[derive(Debug, PartialEq, Eq)]
pub struct OperationInfo {
    /// The logical name, in snake case.
    pub name: &'static str,
    /// The first version whose servers offer the operation.
    pub since: Version,
    /// The parameters, in the order in which a call passes them.
    pub parameters: Vec<Parameter>,
}

/// A parameter, as contracts see it.
pub ghost struct ParameterView {
    pub name: Seq<char>,
    pub since: Version,
    pub required: bool,
}

/// A registry entry, as contracts see it.
pub ghost struct OperationInfoView {
    pub name: Seq<char>,
    pub since: Version,
    pub parameters: Seq<ParameterView>,
}

impl DeepView for Parameter {
    type V = ParameterView;

    open spec fn deep_view(&self) -> ParameterView {
        ParameterView { name: self.name@, since: self.since, required: self.required }
    }
}

impl DeepView for OperationInfo {
    type V = OperationInfoView;

    open spec fn deep_view(&self) -> OperationInfoView {
        OperationInfoView {
            name: self.name@,
            since: self.since,
            parameters: self.parameters.deep_view(),
        }
    }
}

/// An operation without parameters.
pub open spec fn operation(
    name: Seq<char>,
    major: u32,
    minor: u32,
    patch: u32,
) -> OperationInfoView {
    OperationInfoView { name, since: Version { major, minor, patch }, parameters: Seq::empty() }
}

impl OperationInfoView {
    /// The same operation with one more parameter at the end.
    pub open spec fn with(
        self,
        name: Seq<char>,
        since: Version,
        required: bool,
    ) -> OperationInfoView {
        OperationInfoView {
            name: self.name,
            since: self.since,
            parameters: self.parameters.push(ParameterView { name, since, required }),
        }
    }

    /// The same operation with one more parameter that every call must supply.
    pub open spec fn required(
        self,
        name: Seq<char>,
        major: u32,
        minor: u32,
        patch: u32,
    ) -> OperationInfoView {
        self.with(name, Version { major, minor, patch }, true)
    }

    /// The same operation with one more parameter that a call may leave out.
    pub open spec fn optional(
        self,
        name: Seq<char>,
        major: u32,
        minor: u32,
        patch: u32,
    ) -> OperationInfoView {
        self.with(name, Version { major, minor, patch }, false)
    }
}

impl OperationInfo {
    /// An operation without parameters.
    pub fn new(name: &'static str, major: u32, minor: u32, patch: u32) -> (r: OperationInfo)
        ensures
            r.deep_view() == operation(name@, major, minor, patch),
    {
        let since = Version { major, minor, patch };
        let r = OperationInfo { name, since, parameters: Vec::new() };
        assert(r.parameters.deep_view() =~= Seq::<ParameterView>::empty());
        r
    }

    /// Adds a parameter that every call must supply.
    pub fn required(self, name: &'static str, major: u32, minor: u32, patch: u32) -> (r:
        OperationInfo)
        ensures
            r.deep_view() == self.deep_view().required(name@, major, minor, patch),
    {
        let mut parameters = self.parameters;
        let parameter = Parameter { name, since: Version { major, minor, patch }, required: true };
        parameters.push(parameter);
        assert(parameters.deep_view() =~= self.parameters.deep_view().push(parameter.deep_view()));
        OperationInfo { name: self.name, since: self.since, parameters }
    }

    /// Adds a parameter that a call may leave out.
    pub fn optional(self, name: &'static str, major: u32, minor: u32, patch: u32) -> (r:
        OperationInfo)
        ensures
            r.deep_view() == self.deep_view().optional(name@, major, minor, patch),
    {
        let mut parameters = self.parameters;
        let parameter = Parameter { name, since: Version { major, minor, patch }, required: false };
        parameters.push(parameter);
        assert(parameters.deep_view() =~= self.parameters.deep_view().push(parameter.deep_view()));
        OperationInfo { name: self.name, since: self.since, parameters }
    }
}

/// The operations that the client can ask a server for.
#[derive(Clone, Copy, Debug, PartialEq, Eq, Structural)]
pub enum Operation {
    Ping,
    GetLicense,
    GetMusicFolders,
    GetIndexes,
    GetMusicDirectory,
    GetGenres,
    GetArtists,
    GetArtist,
    GetAlbum,
    GetSong,
    GetVideos,
    GetVideoInfo,
    GetArtistInfo,
    GetArtistInfo2,
    GetAlbumInfo,
    GetAlbumInfo2,
    GetSimilarSongs,
    GetSimilarSongs2,
    GetTopSongs,
    GetRandomSongs,
    GetSongsByGenre,
    GetNowPlaying,
    GetStarred,
    GetStarred2,
    Search,
    Search2,
    Search3,
    GetPlaylists,
    GetPlaylist,
    DeletePlaylist,
    GetCaptions,
    SetRating,
    Scrobble,
    GetShares,
    CreateShare,
    UpdateShare,
    DeleteShare,
    GetPodcasts,
    GetNewestPodcasts,
    RefreshPodcasts,
    CreatePodcastChannel,
    DeletePodcastChannel,
    DeletePodcastEpisode,
    DownloadPodcastEpisode,
    GetInternetRadioStations,
    CreateInternetRadioStation,
    UpdateInternetRadioStation,
    DeleteInternetRadioStation,
    GetChatMessages,
    AddChatMessage,
    GetUser,
    GetUsers,
    DeleteUser,
    ChangePassword,
    GetBookmarks,
    CreateBookmark,
}

/// The registry itself: the single source of what each operation and each of
/// its parameters needs of a server.
pub open spec fn registry(op: Operation) -> OperationInfoView {
    match op {
        Operation::Ping => operation("ping"@, 1, 0, 0),
        Operation::GetLicense => operation("get_license"@, 1, 0, 0),
        Operation::GetMusicFolders => operation("get_music_folders"@, 1, 0, 0),
        Operation::GetIndexes => {
            operation("get_indexes"@, 1, 0, 0)
                .optional("music_folder_id"@, 1, 0, 0)
                .optional("if_modified_since"@, 1, 0, 0)
        },
        Operation::GetMusicDirectory => {
            operation("get_music_directory"@, 1, 0, 0)
                .required("id"@, 1, 0, 0)
        },
        Operation::GetGenres => operation("get_genres"@, 1, 9, 0),
        Operation::GetArtists => {
            operation("get_artists"@, 1, 8, 0)
                .optional("music_folder_id"@, 1, 8, 0)
        },
        Operation::GetArtist => {
            operation("get_artist"@, 1, 8, 0)
                .required("id"@, 1, 8, 0)
        },
        Operation::GetAlbum => {
            operation("get_album"@, 1, 8, 0)
                .required("id"@, 1, 8, 0)
        },
        Operation::GetSong => {
            operation("get_song"@, 1, 8, 0)
                .required("id"@, 1, 8, 0)
        },
        Operation::GetVideos => operation("get_videos"@, 1, 8, 0),
        Operation::GetVideoInfo => {
            operation("get_video_info"@, 1, 14, 0)
                .required("id"@, 1, 14, 0)
        },
        Operation::GetArtistInfo => {
            operation("get_artist_info"@, 1, 11, 0)
                .required("id"@, 1, 11, 0)
                .optional("count"@, 1, 11, 0)
                .optional("include_not_present"@, 1, 11, 0)
        },
        Operation::GetArtistInfo2 => {
            operation("get_artist_info2"@, 1, 11, 0)
                .required("id"@, 1, 11, 0)
                .optional("count"@, 1, 11, 0)
                .optional("include_not_present"@, 1, 11, 0)
        },
        Operation::GetAlbumInfo => {
            operation("get_album_info"@, 1, 14, 0)
                .required("id"@, 1, 14, 0)
        },
        Operation::GetAlbumInfo2 => {
            operation("get_album_info2"@, 1, 14, 0)
                .required("id"@, 1, 14, 0)
        },
        Operation::GetSimilarSongs => {
            operation("get_similar_songs"@, 1, 11, 0)
                .required("id"@, 1, 11, 0)
                .optional("count"@, 1, 11, 0)
        },
        Operation::GetSimilarSongs2 => {
            operation("get_similar_songs2"@, 1, 11, 0)
                .required("id"@, 1, 11, 0)
                .optional("count"@, 1, 11, 0)
        },
        Operation::GetTopSongs => {
            operation("get_top_songs"@, 1, 13, 0)
                .required("artist"@, 1, 13, 0)
                .optional("count"@, 1, 13, 0)
        },
        Operation::GetRandomSongs => {
            operation("get_random_songs"@, 1, 2, 0)
                .optional("size"@, 1, 2, 0)
                .optional("genre"@, 1, 2, 0)
                .optional("from_year"@, 1, 2, 0)
                .optional("to_year"@, 1, 2, 0)
                .optional("music_folder_id"@, 1, 2, 0)
        },
        Operation::GetSongsByGenre => {
            operation("get_songs_by_genre"@, 1, 9, 0)
                .required("genre"@, 1, 9, 0)
                .optional("count"@, 1, 9, 0)
                .optional("offset"@, 1, 9, 0)
                .optional("music_folder_id"@, 1, 12, 0)
        },
        Operation::GetNowPlaying => operation("get_now_playing"@, 1, 0, 0),
        Operation::GetStarred => {
            operation("get_starred"@, 1, 8, 0)
                .optional("music_folder_id"@, 1, 12, 0)
        },
        Operation::GetStarred2 => {
            operation("get_starred2"@, 1, 8, 0)
                .optional("music_folder_id"@, 1, 12, 0)
        },
        Operation::Search => {
            operation("search"@, 1, 0, 0)
                .optional("artist"@, 1, 0, 0)
                .optional("album"@, 1, 0, 0)
                .optional("title"@, 1, 0, 0)
                .optional("any"@, 1, 0, 0)
                .optional("count"@, 1, 0, 0)
                .optional("offset"@, 1, 0, 0)
                .optional("newer_than"@, 1, 0, 0)
        },
        Operation::Search2 => {
            operation("search2"@, 1, 4, 0)
                .required("query"@, 1, 4, 0)
                .optional("artist_count"@, 1, 4, 0)
                .optional("artist_offset"@, 1, 4, 0)
                .optional("album_count"@, 1, 4, 0)
                .optional("album_offset"@, 1, 4, 0)
                .optional("song_count"@, 1, 4, 0)
                .optional("song_offset"@, 1, 4, 0)
                .optional("music_folder_id"@, 1, 12, 0)
        },
        Operation::Search3 => {
            operation("search3"@, 1, 4, 0)
                .required("query"@, 1, 4, 0)
                .optional("artist_count"@, 1, 4, 0)
                .optional("artist_offset"@, 1, 4, 0)
                .optional("album_count"@, 1, 4, 0)
                .optional("album_offset"@, 1, 4, 0)
                .optional("song_count"@, 1, 4, 0)
                .optional("song_offset"@, 1, 4, 0)
                .optional("music_folder_id"@, 1, 12, 0)
        },
        Operation::GetPlaylists => {
            operation("get_playlists"@, 1, 0, 0)
                .optional("username"@, 1, 8, 0)
        },
        Operation::GetPlaylist => {
            operation("get_playlist"@, 1, 0, 0)
                .required("id"@, 1, 0, 0)
        },
        Operation::DeletePlaylist => {
            operation("delete_playlist"@, 1, 2, 0)
                .required("id"@, 1, 2, 0)
        },
        Operation::GetCaptions => {
            operation("get_captions"@, 1, 14, 0)
                .required("id"@, 1, 14, 0)
                .optional("format"@, 1, 14, 0)
        },
        Operation::SetRating => {
            operation("set_rating"@, 1, 6, 0)
                .required("id"@, 1, 6, 0)
                .required("rating"@, 1, 6, 0)
        },
        Operation::Scrobble => {
            operation("scrobble"@, 1, 5, 0)
                .required("id"@, 1, 5, 0)
                .optional("time"@, 1, 8, 0)
                .optional("submission"@, 1, 5, 0)
        },
        Operation::GetShares => operation("get_shares"@, 1, 6, 0),
        Operation::CreateShare => {
            operation("create_share"@, 1, 6, 0)
                .required("id"@, 1, 6, 0)
                .optional("description"@, 1, 6, 0)
                .optional("expires"@, 1, 6, 0)
        },
        Operation::UpdateShare => {
            operation("update_share"@, 1, 6, 0)
                .required("id"@, 1, 6, 0)
                .optional("description"@, 1, 6, 0)
                .optional("expires"@, 1, 6, 0)
        },
        Operation::DeleteShare => {
            operation("delete_share"@, 1, 6, 0)
                .required("id"@, 1, 6, 0)
        },
        Operation::GetPodcasts => {
            operation("get_podcasts"@, 1, 6, 0)
                .optional("include_episodes"@, 1, 9, 0)
                .optional("id"@, 1, 9, 0)
        },
        Operation::GetNewestPodcasts => {
            operation("get_newest_podcasts"@, 1, 13, 0)
                .optional("count"@, 1, 13, 0)
        },
        Operation::RefreshPodcasts => operation("refresh_podcasts"@, 1, 9, 0),
        Operation::CreatePodcastChannel => {
            operation("create_podcast_channel"@, 1, 9, 0)
                .required("url"@, 1, 9, 0)
        },
        Operation::DeletePodcastChannel => {
            operation("delete_podcast_channel"@, 1, 9, 0)
                .required("id"@, 1, 9, 0)
        },
        Operation::DeletePodcastEpisode => {
            operation("delete_podcast_episode"@, 1, 9, 0)
                .required("id"@, 1, 9, 0)
        },
        Operation::DownloadPodcastEpisode => {
            operation("download_podcast_episode"@, 1, 9, 0)
                .required("id"@, 1, 9, 0)
        },
        Operation::GetInternetRadioStations => operation("get_internet_radio_stations"@, 1, 9, 0),
        Operation::CreateInternetRadioStation => {
            operation("create_internet_radio_station"@, 1, 16, 0)
                .required("stream_url"@, 1, 16, 0)
                .required("name"@, 1, 16, 0)
                .optional("homepage_url"@, 1, 16, 0)
        },
        Operation::UpdateInternetRadioStation => {
            operation("update_internet_radio_station"@, 1, 16, 0)
                .required("id"@, 1, 16, 0)
                .required("stream_url"@, 1, 16, 0)
                .required("name"@, 1, 16, 0)
                .optional("homepage_url"@, 1, 16, 0)
        },
        Operation::DeleteInternetRadioStation => {
            operation("delete_internet_radio_station"@, 1, 16, 0)
                .required("id"@, 1, 16, 0)
        },
        Operation::GetChatMessages => {
            operation("get_chat_messages"@, 1, 2, 0)
                .required("since"@, 1, 2, 0)
        },
        Operation::AddChatMessage => {
            operation("add_chat_message"@, 1, 2, 0)
                .required("message"@, 1, 2, 0)
        },
        Operation::GetUser => {
            operation("get_user"@, 1, 3, 0)
                .required("username"@, 1, 3, 0)
        },
        Operation::GetUsers => operation("get_users"@, 1, 8, 0),
        Operation::DeleteUser => {
            operation("delete_user"@, 1, 3, 0)
                .required("username"@, 1, 3, 0)
        },
        Operation::ChangePassword => {
            operation("change_password"@, 1, 1, 0)
                .required("username"@, 1, 1, 0)
                .required("password"@, 1, 1, 0)
        },
        Operation::GetBookmarks => operation("get_bookmarks"@, 1, 9, 0),
        Operation::CreateBookmark => {
            operation("create_bookmark"@, 1, 9, 0)
                .required("id"@, 1, 9, 0)
                .required("position"@, 1, 9, 0)
                .optional("comment"@, 1, 9, 0)
        },
    }
}

impl Operation {
    /// Looks the operation up in the registry.
    pub fn info(self) -> (r: OperationInfo)
        ensures
            r.deep_view() == registry(self),
    {
        match self {
            Operation::Ping => OperationInfo::new("ping", 1, 0, 0),
            Operation::GetLicense => OperationInfo::new("get_license", 1, 0, 0),
            Operation::GetMusicFolders => OperationInfo::new("get_music_folders", 1, 0, 0),
            Operation::GetIndexes => {
                OperationInfo::new("get_indexes", 1, 0, 0)
                    .optional("music_folder_id", 1, 0, 0)
                    .optional("if_modified_since", 1, 0, 0)
            },
            Operation::GetMusicDirectory => {
                OperationInfo::new("get_music_directory", 1, 0, 0)
                    .required("id", 1, 0, 0)
            },
            Operation::GetGenres => OperationInfo::new("get_genres", 1, 9, 0),
            Operation::GetArtists => {
                OperationInfo::new("get_artists", 1, 8, 0)
                    .optional("music_folder_id", 1, 8, 0)
            },
            Operation::GetArtist => {
                OperationInfo::new("get_artist", 1, 8, 0)
                    .required("id", 1, 8, 0)
            },
            Operation::GetAlbum => {
                OperationInfo::new("get_album", 1, 8, 0)
                    .required("id", 1, 8, 0)
            },
            Operation::GetSong => {
                OperationInfo::new("get_song", 1, 8, 0)
                    .required("id", 1, 8, 0)
            },
            Operation::GetVideos => OperationInfo::new("get_videos", 1, 8, 0),
            Operation::GetVideoInfo => {
                OperationInfo::new("get_video_info", 1, 14, 0)
                    .required("id", 1, 14, 0)
            },
            Operation::GetArtistInfo => {
                OperationInfo::new("get_artist_info", 1, 11, 0)
                    .required("id", 1, 11, 0)
                    .optional("count", 1, 11, 0)
                    .optional("include_not_present", 1, 11, 0)
            },
            Operation::GetArtistInfo2 => {
                OperationInfo::new("get_artist_info2", 1, 11, 0)
                    .required("id", 1, 11, 0)
                    .optional("count", 1, 11, 0)
                    .optional("include_not_present", 1, 11, 0)
            },
            Operation::GetAlbumInfo => {
                OperationInfo::new("get_album_info", 1, 14, 0)
                    .required("id", 1, 14, 0)
            },
            Operation::GetAlbumInfo2 => {
                OperationInfo::new("get_album_info2", 1, 14, 0)
                    .required("id", 1, 14, 0)
            },
            Operation::GetSimilarSongs => {
                OperationInfo::new("get_similar_songs", 1, 11, 0)
                    .required("id", 1, 11, 0)
                    .optional("count", 1, 11, 0)
            },
            Operation::GetSimilarSongs2 => {
                OperationInfo::new("get_similar_songs2", 1, 11, 0)
                    .required("id", 1, 11, 0)
                    .optional("count", 1, 11, 0)
            },
            Operation::GetTopSongs => {
                OperationInfo::new("get_top_songs", 1, 13, 0)
                    .required("artist", 1, 13, 0)
                    .optional("count", 1, 13, 0)
            },
            Operation::GetRandomSongs => {
                OperationInfo::new("get_random_songs", 1, 2, 0)
                    .optional("size", 1, 2, 0)
                    .optional("genre", 1, 2, 0)
                    .optional("from_year", 1, 2, 0)
                    .optional("to_year", 1, 2, 0)
                    .optional("music_folder_id", 1, 2, 0)
            },
            Operation::GetSongsByGenre => {
                OperationInfo::new("get_songs_by_genre", 1, 9, 0)
                    .required("genre", 1, 9, 0)
                    .optional("count", 1, 9, 0)
                    .optional("offset", 1, 9, 0)
                    .optional("music_folder_id", 1, 12, 0)
            },
            Operation::GetNowPlaying => OperationInfo::new("get_now_playing", 1, 0, 0),
            Operation::GetStarred => {
                OperationInfo::new("get_starred", 1, 8, 0)
                    .optional("music_folder_id", 1, 12, 0)
            },
            Operation::GetStarred2 => {
                OperationInfo::new("get_starred2", 1, 8, 0)
                    .optional("music_folder_id", 1, 12, 0)
            },
            Operation::Search => {
                OperationInfo::new("search", 1, 0, 0)
                    .optional("artist", 1, 0, 0)
                    .optional("album", 1, 0, 0)
                    .optional("title", 1, 0, 0)
                    .optional("any", 1, 0, 0)
                    .optional("count", 1, 0, 0)
                    .optional("offset", 1, 0, 0)
                    .optional("newer_than", 1, 0, 0)
            },
            Operation::Search2 => {
                OperationInfo::new("search2", 1, 4, 0)
                    .required("query", 1, 4, 0)
                    .optional("artist_count", 1, 4, 0)
                    .optional("artist_offset", 1, 4, 0)
                    .optional("album_count", 1, 4, 0)
                    .optional("album_offset", 1, 4, 0)
                    .optional("song_count", 1, 4, 0)
                    .optional("song_offset", 1, 4, 0)
                    .optional("music_folder_id", 1, 12, 0)
            },
            Operation::Search3 => {
                OperationInfo::new("search3", 1, 4, 0)
                    .required("query", 1, 4, 0)
                    .optional("artist_count", 1, 4, 0)
                    .optional("artist_offset", 1, 4, 0)
                    .optional("album_count", 1, 4, 0)
                    .optional("album_offset", 1, 4, 0)
                    .optional("song_count", 1, 4, 0)
                    .optional("song_offset", 1, 4, 0)
                    .optional("music_folder_id", 1, 12, 0)
            },
            Operation::GetPlaylists => {
                OperationInfo::new("get_playlists", 1, 0, 0)
                    .optional("username", 1, 8, 0)
            },
            Operation::GetPlaylist => {
                OperationInfo::new("get_playlist", 1, 0, 0)
                    .required("id", 1, 0, 0)
            },
            Operation::DeletePlaylist => {
                OperationInfo::new("delete_playlist", 1, 2, 0)
                    .required("id", 1, 2, 0)
            },
            Operation::GetCaptions => {
                OperationInfo::new("get_captions", 1, 14, 0)
                    .required("id", 1, 14, 0)
                    .optional("format", 1, 14, 0)
            },
            Operation::SetRating => {
                OperationInfo::new("set_rating", 1, 6, 0)
                    .required("id", 1, 6, 0)
                    .required("rating", 1, 6, 0)
            },
            Operation::Scrobble => {
                OperationInfo::new("scrobble", 1, 5, 0)
                    .required("id", 1, 5, 0)
                    .optional("time", 1, 8, 0)
                    .optional("submission", 1, 5, 0)
            },
            Operation::GetShares => OperationInfo::new("get_shares", 1, 6, 0),
            Operation::CreateShare => {
                OperationInfo::new("create_share", 1, 6, 0)
                    .required("id", 1, 6, 0)
                    .optional("description", 1, 6, 0)
                    .optional("expires", 1, 6, 0)
            },
            Operation::UpdateShare => {
                OperationInfo::new("update_share", 1, 6, 0)
                    .required("id", 1, 6, 0)
                    .optional("description", 1, 6, 0)
                    .optional("expires", 1, 6, 0)
            },
            Operation::DeleteShare => {
                OperationInfo::new("delete_share", 1, 6, 0)
                    .required("id", 1, 6, 0)
            },
            Operation::GetPodcasts => {
                OperationInfo::new("get_podcasts", 1, 6, 0)
                    .optional("include_episodes", 1, 9, 0)
                    .optional("id", 1, 9, 0)
            },
            Operation::GetNewestPodcasts => {
                OperationInfo::new("get_newest_podcasts", 1, 13, 0)
                    .optional("count", 1, 13, 0)
            },
            Operation::RefreshPodcasts => OperationInfo::new("refresh_podcasts", 1, 9, 0),
            Operation::CreatePodcastChannel => {
                OperationInfo::new("create_podcast_channel", 1, 9, 0)
                    .required("url", 1, 9, 0)
            },
            Operation::DeletePodcastChannel => {
                OperationInfo::new("delete_podcast_channel", 1, 9, 0)
                    .required("id", 1, 9, 0)
            },
            Operation::DeletePodcastEpisode => {
                OperationInfo::new("delete_podcast_episode", 1, 9, 0)
                    .required("id", 1, 9, 0)
            },
            Operation::DownloadPodcastEpisode => {
                OperationInfo::new("download_podcast_episode", 1, 9, 0)
                    .required("id", 1, 9, 0)
            },
            Operation::GetInternetRadioStations => {
                OperationInfo::new("get_internet_radio_stations", 1, 9, 0)
            },
            Operation::CreateInternetRadioStation => {
                OperationInfo::new("create_internet_radio_station", 1, 16, 0)
                    .required("stream_url", 1, 16, 0)
                    .required("name", 1, 16, 0)
                    .optional("homepage_url", 1, 16, 0)
            },
            Operation::UpdateInternetRadioStation => {
                OperationInfo::new("update_internet_radio_station", 1, 16, 0)
                    .required("id", 1, 16, 0)
                    .required("stream_url", 1, 16, 0)
                    .required("name", 1, 16, 0)
                    .optional("homepage_url", 1, 16, 0)
            },
            Operation::DeleteInternetRadioStation => {
                OperationInfo::new("delete_internet_radio_station", 1, 16, 0)
                    .required("id", 1, 16, 0)
            },
            Operation::GetChatMessages => {
                OperationInfo::new("get_chat_messages", 1, 2, 0)
                    .required("since", 1, 2, 0)
            },
            Operation::AddChatMessage => {
                OperationInfo::new("add_chat_message", 1, 2, 0)
                    .required("message", 1, 2, 0)
            },
            Operation::GetUser => {
                OperationInfo::new("get_user", 1, 3, 0)
                    .required("username", 1, 3, 0)
            },
            Operation::GetUsers => OperationInfo::new("get_users", 1, 8, 0),
            Operation::DeleteUser => {
                OperationInfo::new("delete_user", 1, 3, 0)
                    .required("username", 1, 3, 0)
            },
            Operation::ChangePassword => {
                OperationInfo::new("change_password", 1, 1, 0)
                    .required("username", 1, 1, 0)
                    .required("password", 1, 1, 0)
            },
            Operation::GetBookmarks => OperationInfo::new("get_bookmarks", 1, 9, 0),
            Operation::CreateBookmark => {
                OperationInfo::new("create_bookmark", 1, 9, 0)
                    .required("id", 1, 9, 0)
                    .required("position", 1, 9, 0)
                    .optional("comment", 1, 9, 0)
            },
        }
    }
}

} // verus!
