//! The payload of a response: its kinds, the alias table that selects one, and
//! the decoder of a payload element.

use crate::deserialize::browse::{
    Artists, ArtistsView, Indexes, IndexesView, SearchResult, SearchResultView,
};
use crate::deserialize::media::{
    Album, AlbumView, Artist, ArtistView, Directory, DirectoryView, Genre, GenreView, Media,
    MediaView, MusicFolder, MusicFolderView,
};
use crate::deserialize::playlist::{
    Bookmark, BookmarkView, JukeboxPlaylist, JukeboxPlaylistView, PlayQueue, PlayQueueView,
    Playlist, PlaylistView,
};
use crate::deserialize::social::{
    Channel, ChannelView, ChatMessage, ChatMessageView, Radio, RadioView, Share, ShareView, User,
    UserView, VideoInfo, VideoInfoView,
};
use crate::error::DecodeError;
use crate::fields::{
    bool_attr, bool_field, child_text, content_text, decode_list, first_text, lemma_absent_list,
    ok_view, opt_child_text, opt_u32_attr, opt_u32_field, optional_list, required, text_attr,
    text_field, u32_attr, u32_field, u64_attr, u64_field, FromElement,
};
use crate::text::text_eq;
use crate::xml::{lemma_children_view, AttributeView, Element, ElementView, NodeView};
use crate::xml::Node;
use vstd::prelude::*;

verus! {

/// The logical kinds of payload, one per server concept.
#[derive(Clone, Copy, Debug, PartialEq, Eq, Structural)]
pub enum VariantTag {
    MediaList,
    Album,
    AlbumList,
    Artist,
    Artists,
    Bookmarks,
    ChatMessages,
    Directory,
    Genres,
    Indexes,
    InternetRadioStations,
    JukeboxPlaylist,
    MusicFolders,
    Playlist,
    Playlists,
    PlayQueue,
    Podcasts,
    SearchResult,
    SearchOrStarList,
    Shares,
    Song,
    User,
    Users,
    VideoInfo,
    Error,
    JukeboxStatus,
    License,
    Lyrics,
    PublicInfo,
    ScanStatus,
}

/// The alias table: the logical kind that a payload element's name selects.
/// A kind goes by its own name in camel case, and by the historical names
/// under which servers have sent it.
pub open spec fn alias_tag(name: Seq<char>) -> Option<VariantTag> {
    if name == "mediaList"@
        || name == "newestPodcasts"@
        || name == "nowPlaying"@
        || name == "randomSongs"@
        || name == "similarSongs"@
        || name == "similarSongs2"@
        || name == "songsByGenre"@
        || name == "topSongs"@
        || name == "videos"@ {
        Some(VariantTag::MediaList)
    } else if name == "album"@ {
        Some(VariantTag::Album)
    } else if name == "albumList"@ || name == "albumList2"@ {
        Some(VariantTag::AlbumList)
    } else if name == "artist"@ {
        Some(VariantTag::Artist)
    } else if name == "artists"@ {
        Some(VariantTag::Artists)
    } else if name == "bookmarks"@ {
        Some(VariantTag::Bookmarks)
    } else if name == "chatMessages"@ {
        Some(VariantTag::ChatMessages)
    } else if name == "directory"@ {
        Some(VariantTag::Directory)
    } else if name == "genres"@ {
        Some(VariantTag::Genres)
    } else if name == "indexes"@ {
        Some(VariantTag::Indexes)
    } else if name == "internetRadioStations"@ {
        Some(VariantTag::InternetRadioStations)
    } else if name == "jukeboxPlaylist"@ {
        Some(VariantTag::JukeboxPlaylist)
    } else if name == "musicFolders"@ {
        Some(VariantTag::MusicFolders)
    } else if name == "playlist"@ {
        Some(VariantTag::Playlist)
    } else if name == "playlists"@ {
        Some(VariantTag::Playlists)
    } else if name == "playQueue"@ {
        Some(VariantTag::PlayQueue)
    } else if name == "podcasts"@ {
        Some(VariantTag::Podcasts)
    } else if name == "searchResult"@ {
        Some(VariantTag::SearchResult)
    } else if name == "searchOrStarList"@
        || name == "searchResult2"@
        || name == "searchResult3"@
        || name == "starred"@
        || name == "starred2"@ {
        Some(VariantTag::SearchOrStarList)
    } else if name == "shares"@ {
        Some(VariantTag::Shares)
    } else if name == "song"@ {
        Some(VariantTag::Song)
    } else if name == "user"@ {
        Some(VariantTag::User)
    } else if name == "users"@ {
        Some(VariantTag::Users)
    } else if name == "videoInfo"@ {
        Some(VariantTag::VideoInfo)
    } else if name == "error"@ {
        Some(VariantTag::Error)
    } else if name == "jukeboxStatus"@ {
        Some(VariantTag::JukeboxStatus)
    } else if name == "license"@ {
        Some(VariantTag::License)
    } else if name == "lyrics"@ {
        Some(VariantTag::Lyrics)
    } else if name == "publicInfo"@
        || name == "albumInfo"@
        || name == "artistInfo2"@
        || name == "artistInfo"@ {
        Some(VariantTag::PublicInfo)
    } else if name == "scanStatus"@ {
        Some(VariantTag::ScanStatus)
    } else {
        None
    }
}

/// Resolves a payload element's name through the alias table.
pub fn resolve_alias(name: &str) -> (r: Option<VariantTag>)
    ensures
        r == alias_tag(name@),
{
    if text_eq(name, "mediaList")
        || text_eq(name, "newestPodcasts")
        || text_eq(name, "nowPlaying")
        || text_eq(name, "randomSongs")
        || text_eq(name, "similarSongs")
        || text_eq(name, "similarSongs2")
        || text_eq(name, "songsByGenre")
        || text_eq(name, "topSongs")
        || text_eq(name, "videos") {
        Some(VariantTag::MediaList)
    } else if text_eq(name, "album") {
        Some(VariantTag::Album)
    } else if text_eq(name, "albumList") || text_eq(name, "albumList2") {
        Some(VariantTag::AlbumList)
    } else if text_eq(name, "artist") {
        Some(VariantTag::Artist)
    } else if text_eq(name, "artists") {
        Some(VariantTag::Artists)
    } else if text_eq(name, "bookmarks") {
        Some(VariantTag::Bookmarks)
    } else if text_eq(name, "chatMessages") {
        Some(VariantTag::ChatMessages)
    } else if text_eq(name, "directory") {
        Some(VariantTag::Directory)
    } else if text_eq(name, "genres") {
        Some(VariantTag::Genres)
    } else if text_eq(name, "indexes") {
        Some(VariantTag::Indexes)
    } else if text_eq(name, "internetRadioStations") {
        Some(VariantTag::InternetRadioStations)
    } else if text_eq(name, "jukeboxPlaylist") {
        Some(VariantTag::JukeboxPlaylist)
    } else if text_eq(name, "musicFolders") {
        Some(VariantTag::MusicFolders)
    } else if text_eq(name, "playlist") {
        Some(VariantTag::Playlist)
    } else if text_eq(name, "playlists") {
        Some(VariantTag::Playlists)
    } else if text_eq(name, "playQueue") {
        Some(VariantTag::PlayQueue)
    } else if text_eq(name, "podcasts") {
        Some(VariantTag::Podcasts)
    } else if text_eq(name, "searchResult") {
        Some(VariantTag::SearchResult)
    } else if text_eq(name, "searchOrStarList")
        || text_eq(name, "searchResult2")
        || text_eq(name, "searchResult3")
        || text_eq(name, "starred")
        || text_eq(name, "starred2") {
        Some(VariantTag::SearchOrStarList)
    } else if text_eq(name, "shares") {
        Some(VariantTag::Shares)
    } else if text_eq(name, "song") {
        Some(VariantTag::Song)
    } else if text_eq(name, "user") {
        Some(VariantTag::User)
    } else if text_eq(name, "users") {
        Some(VariantTag::Users)
    } else if text_eq(name, "videoInfo") {
        Some(VariantTag::VideoInfo)
    } else if text_eq(name, "error") {
        Some(VariantTag::Error)
    } else if text_eq(name, "jukeboxStatus") {
        Some(VariantTag::JukeboxStatus)
    } else if text_eq(name, "license") {
        Some(VariantTag::License)
    } else if text_eq(name, "lyrics") {
        Some(VariantTag::Lyrics)
    } else if text_eq(name, "publicInfo")
        || text_eq(name, "albumInfo")
        || text_eq(name, "artistInfo2")
        || text_eq(name, "artistInfo") {
        Some(VariantTag::PublicInfo)
    } else if text_eq(name, "scanStatus") {
        Some(VariantTag::ScanStatus)
    } else {
        None
    }
}

/// A payload that is nothing but a list of items.
#[derive(Debug, Default, PartialEq)]
pub struct GenericList<T> {
    pub items: Option<Vec<T>>,
}

/// `GenericList`, as contracts see it.
pub ghost struct GenericListView<V> {
    pub items: Option<Seq<V>>,
}

impl<T: DeepView> DeepView for GenericList<T> {
    type V = GenericListView<T::V>;

    open spec fn deep_view(&self) -> GenericListView<T::V> {
        GenericListView { items: self.items.deep_view() }
    }
}

impl<T: FromElement> GenericList<T> {
    /// Every child element is an item; the list is absent where there is none.
    pub open spec fn spec_decode(attrs: Seq<AttributeView>, children: Seq<NodeView>) -> Result<
        GenericListView<T::V>,
        DecodeError,
    > {
        match optional_list::<T>(children, None) {
            Ok(items) => Ok(GenericListView { items }),
            Err(x) => Err(x),
        }
    }

    /// Decodes an element, whatever it is called.
    pub fn decode(e: &Element) -> (r: Result<GenericList<T>, DecodeError>)
        ensures
            ok_view(r) == Self::spec_decode(e.deep_view().attributes, e.deep_view().children),
    {
        proof {
            lemma_children_view(e);
        }
        let items = decode_list::<T>(&e.children, None)?;
        Ok(GenericList { items })
    }
}

/// The payload of a response: exactly one of the kinds below.
#[derive(Debug, PartialEq)]
pub enum SubsonicInfo {
    /// A list of media files.
    MediaList(GenericList<Media>),
    /// One album.
    Album(Album),
    /// A list of albums.
    AlbumList(GenericList<Album>),
    /// One artist.
    Artist(Artist),
    /// All artists, by heading.
    Artists(Artists),
    /// The bookmarks of a user.
    Bookmarks(GenericList<Bookmark>),
    /// Chat messages.
    ChatMessages(GenericList<ChatMessage>),
    /// The content of a directory.
    Directory(Directory),
    /// All genres.
    Genres(GenericList<Genre>),
    /// The artist index.
    Indexes(Indexes),
    /// The internet radio stations.
    InternetRadioStations(GenericList<Radio>),
    /// The jukebox and its playlist.
    JukeboxPlaylist(JukeboxPlaylist),
    /// The top-level music folders.
    MusicFolders(GenericList<MusicFolder>),
    /// One playlist.
    Playlist(Playlist),
    /// The playlists of a user.
    Playlists(GenericList<Playlist>),
    /// A saved play queue.
    PlayQueue(PlayQueue),
    /// Podcast channels.
    Podcasts(GenericList<Channel>),
    /// The matches of a search.
    SearchResult(SearchResult),
    /// A list of results of mixed kinds, each decoded by its own element name.
    SearchOrStarList(GenericList<SubsonicInfo>),
    /// Public shares.
    Shares(GenericList<Share>),
    /// One song.
    Song(Media),
    /// One user.
    User(User),
    /// All users.
    Users(GenericList<User>),
    /// Details of a video.
    VideoInfo(VideoInfo),
    /// The server's own report that the operation failed.
    Error {
        code: u32,
        message: String,
    },
    /// The state of the jukebox. The gain is kept as the decimal text that the
    /// server sent.
    JukeboxStatus {
        current_index: u64,
        playing: bool,
        gain: String,
        position: u64,
    },
    /// The server's license.
    License {
        valid: bool,
        email: String,
        license_expires: String,
    },
    /// The lyrics of a song: the text that the element holds.
    Lyrics {
        artist: String,
        title: String,
        lyrics: String,
    },
    /// What is publicly known of an artist or an album, each piece the text of
    /// a child element of its own.
    PublicInfo {
        biography: Option<String>,
        notes: Option<String>,
        music_brainz_id: Option<String>,
        last_fm_url: Option<String>,
        small_image_url: Option<String>,
        medium_image_url: Option<String>,
        large_image_url: Option<String>,
        similar_artists: Option<Vec<Artist>>,
    },
    /// How far a scan of the media library has come.
    ScanStatus {
        scanning: bool,
        count: Option<u32>,
    },
}

/// `SubsonicInfo`, as contracts see it.
pub ghost enum SubsonicInfoView {
    MediaList(GenericListView<MediaView>),
    Album(AlbumView),
    AlbumList(GenericListView<AlbumView>),
    Artist(ArtistView),
    Artists(ArtistsView),
    Bookmarks(GenericListView<BookmarkView>),
    ChatMessages(GenericListView<ChatMessageView>),
    Directory(DirectoryView),
    Genres(GenericListView<GenreView>),
    Indexes(IndexesView),
    InternetRadioStations(GenericListView<RadioView>),
    JukeboxPlaylist(JukeboxPlaylistView),
    MusicFolders(GenericListView<MusicFolderView>),
    Playlist(PlaylistView),
    Playlists(GenericListView<PlaylistView>),
    PlayQueue(PlayQueueView),
    Podcasts(GenericListView<ChannelView>),
    SearchResult(SearchResultView),
    SearchOrStarList(GenericListView<SubsonicInfoView>),
    Shares(GenericListView<ShareView>),
    Song(MediaView),
    User(UserView),
    Users(GenericListView<UserView>),
    VideoInfo(VideoInfoView),
    Error {
        code: u32,
        message: Seq<char>,
    },
    JukeboxStatus {
        current_index: u64,
        playing: bool,
        gain: Seq<char>,
        position: u64,
    },
    License {
        valid: bool,
        email: Seq<char>,
        license_expires: Seq<char>,
    },
    Lyrics {
        artist: Seq<char>,
        title: Seq<char>,
        lyrics: Seq<char>,
    },
    PublicInfo {
        biography: Option<Seq<char>>,
        notes: Option<Seq<char>>,
        music_brainz_id: Option<Seq<char>>,
        last_fm_url: Option<Seq<char>>,
        small_image_url: Option<Seq<char>>,
        medium_image_url: Option<Seq<char>>,
        large_image_url: Option<Seq<char>>,
        similar_artists: Option<Seq<ArtistView>>,
    },
    ScanStatus {
        scanning: bool,
        count: Option<u32>,
    },
}

impl DeepView for SubsonicInfo {
    type V = SubsonicInfoView;

    open spec fn deep_view(&self) -> SubsonicInfoView
        decreases self,
    {
        match self {
            SubsonicInfo::MediaList(v) => SubsonicInfoView::MediaList(v.deep_view()),
            SubsonicInfo::Album(v) => SubsonicInfoView::Album(v.deep_view()),
            SubsonicInfo::AlbumList(v) => SubsonicInfoView::AlbumList(v.deep_view()),
            SubsonicInfo::Artist(v) => SubsonicInfoView::Artist(v.deep_view()),
            SubsonicInfo::Artists(v) => SubsonicInfoView::Artists(v.deep_view()),
            SubsonicInfo::Bookmarks(v) => SubsonicInfoView::Bookmarks(v.deep_view()),
            SubsonicInfo::ChatMessages(v) => SubsonicInfoView::ChatMessages(v.deep_view()),
            SubsonicInfo::Directory(v) => SubsonicInfoView::Directory(v.deep_view()),
            SubsonicInfo::Genres(v) => SubsonicInfoView::Genres(v.deep_view()),
            SubsonicInfo::Indexes(v) => SubsonicInfoView::Indexes(v.deep_view()),
            SubsonicInfo::InternetRadioStations(v) => SubsonicInfoView::InternetRadioStations(
                v.deep_view(),
            ),
            SubsonicInfo::JukeboxPlaylist(v) => SubsonicInfoView::JukeboxPlaylist(v.deep_view()),
            SubsonicInfo::MusicFolders(v) => SubsonicInfoView::MusicFolders(v.deep_view()),
            SubsonicInfo::Playlist(v) => SubsonicInfoView::Playlist(v.deep_view()),
            SubsonicInfo::Playlists(v) => SubsonicInfoView::Playlists(v.deep_view()),
            SubsonicInfo::PlayQueue(v) => SubsonicInfoView::PlayQueue(v.deep_view()),
            SubsonicInfo::Podcasts(v) => SubsonicInfoView::Podcasts(v.deep_view()),
            SubsonicInfo::SearchResult(v) => SubsonicInfoView::SearchResult(v.deep_view()),
            SubsonicInfo::SearchOrStarList(list) => SubsonicInfoView::SearchOrStarList(
                GenericListView {
                    items: match list.items {
                        Some(items) => Some(mixed_view(items@)),
                        None => None,
                    },
                },
            ),
            SubsonicInfo::Shares(v) => SubsonicInfoView::Shares(v.deep_view()),
            SubsonicInfo::Song(v) => SubsonicInfoView::Song(v.deep_view()),
            SubsonicInfo::User(v) => SubsonicInfoView::User(v.deep_view()),
            SubsonicInfo::Users(v) => SubsonicInfoView::Users(v.deep_view()),
            SubsonicInfo::VideoInfo(v) => SubsonicInfoView::VideoInfo(v.deep_view()),
            SubsonicInfo::Error { code, message } => SubsonicInfoView::Error {
                code: *code,
                message: message.deep_view(),
            },
            SubsonicInfo::JukeboxStatus {
                current_index,
                playing,
                gain,
                position,
            } => SubsonicInfoView::JukeboxStatus {
                current_index: *current_index,
                playing: *playing,
                gain: gain.deep_view(),
                position: *position,
            },
            SubsonicInfo::License { valid, email, license_expires } => SubsonicInfoView::License {
                valid: *valid,
                email: email.deep_view(),
                license_expires: license_expires.deep_view(),
            },
            SubsonicInfo::Lyrics { artist, title, lyrics } => SubsonicInfoView::Lyrics {
                artist: artist.deep_view(),
                title: title.deep_view(),
                lyrics: lyrics.deep_view(),
            },
            SubsonicInfo::PublicInfo {
                biography,
                notes,
                music_brainz_id,
                last_fm_url,
                small_image_url,
                medium_image_url,
                large_image_url,
                similar_artists,
            } => SubsonicInfoView::PublicInfo {
                biography: biography.deep_view(),
                notes: notes.deep_view(),
                music_brainz_id: music_brainz_id.deep_view(),
                last_fm_url: last_fm_url.deep_view(),
                small_image_url: small_image_url.deep_view(),
                medium_image_url: medium_image_url.deep_view(),
                large_image_url: large_image_url.deep_view(),
                similar_artists: similar_artists.deep_view(),
            },
            SubsonicInfo::ScanStatus { scanning, count } => SubsonicInfoView::ScanStatus {
                scanning: *scanning,
                count: *count,
            },
        }
    }
}

/// The views of a list of payloads, item by item.
pub open spec fn mixed_view(items: Seq<SubsonicInfo>) -> Seq<SubsonicInfoView>
    decreases items,
{
    Seq::new(
        items.len(),
        |i: int|
            if 0 <= i < items.len() {
                items[i].deep_view()
            } else {
                SubsonicInfoView::ScanStatus { scanning: false, count: None }
            },
    )
}

/// What the attributes and children of a payload of kind `Error` decode to. The
/// fields are bound in the order in which the kind lists them, and the first
/// that cannot be bound gives the error.
#[verifier::opaque]
pub open spec fn spec_error(attrs: Seq<AttributeView>, children: Seq<NodeView>) -> Result<
    SubsonicInfoView,
    DecodeError,
> {
    let code = u32_field(attrs, "code"@);
    let message = text_field(attrs, "message"@);
    if code is Err {
        Err(code->Err_0)
    } else if message is Err {
        Err(message->Err_0)
    } else {
        Ok(
            SubsonicInfoView::Error {
                code: code->Ok_0,
                message: message->Ok_0,
            },
        )
    }
}

/// Decodes a payload of kind `Error`.
pub fn decode_error(e: &Element) -> (r: Result<SubsonicInfo, DecodeError>)
    ensures
        ok_view(r) == spec_error(e.deep_view().attributes, e.deep_view().children),
{
    proof {
        reveal(spec_error);
        lemma_children_view(e);
    }
    let a = &e.attributes;
    let code = u32_attr(a, "code")?;
    let message = text_attr(a, "message")?;
    Ok(SubsonicInfo::Error { code, message })
}

/// What the attributes and children of a payload of kind `JukeboxStatus` decode to. The
/// fields are bound in the order in which the kind lists them, and the first
/// that cannot be bound gives the error.
#[verifier::opaque]
pub open spec fn spec_jukebox_status(attrs: Seq<AttributeView>, children: Seq<NodeView>) -> Result<
    SubsonicInfoView,
    DecodeError,
> {
    let current_index = u64_field(attrs, "currentIndex"@);
    let playing = bool_field(attrs, "playing"@);
    let gain = text_field(attrs, "gain"@);
    let position = u64_field(attrs, "position"@);
    if current_index is Err {
        Err(current_index->Err_0)
    } else if playing is Err {
        Err(playing->Err_0)
    } else if gain is Err {
        Err(gain->Err_0)
    } else if position is Err {
        Err(position->Err_0)
    } else {
        Ok(
            SubsonicInfoView::JukeboxStatus {
                current_index: current_index->Ok_0,
                playing: playing->Ok_0,
                gain: gain->Ok_0,
                position: position->Ok_0,
            },
        )
    }
}

/// Decodes a payload of kind `JukeboxStatus`.
pub fn decode_jukebox_status(e: &Element) -> (r: Result<SubsonicInfo, DecodeError>)
    ensures
        ok_view(r) == spec_jukebox_status(e.deep_view().attributes, e.deep_view().children),
{
    proof {
        reveal(spec_jukebox_status);
        lemma_children_view(e);
    }
    let a = &e.attributes;
    let current_index = u64_attr(a, "currentIndex")?;
    let playing = bool_attr(a, "playing")?;
    let gain = text_attr(a, "gain")?;
    let position = u64_attr(a, "position")?;
    Ok(SubsonicInfo::JukeboxStatus { current_index, playing, gain, position })
}

/// What the attributes and children of a payload of kind `License` decode to. The
/// fields are bound in the order in which the kind lists them, and the first
/// that cannot be bound gives the error.
#[verifier::opaque]
pub open spec fn spec_license(attrs: Seq<AttributeView>, children: Seq<NodeView>) -> Result<
    SubsonicInfoView,
    DecodeError,
> {
    let valid = bool_field(attrs, "valid"@);
    let email = text_field(attrs, "email"@);
    let license_expires = text_field(attrs, "licenseExpires"@);
    if valid is Err {
        Err(valid->Err_0)
    } else if email is Err {
        Err(email->Err_0)
    } else if license_expires is Err {
        Err(license_expires->Err_0)
    } else {
        Ok(
            SubsonicInfoView::License {
                valid: valid->Ok_0,
                email: email->Ok_0,
                license_expires: license_expires->Ok_0,
            },
        )
    }
}

/// Decodes a payload of kind `License`.
pub fn decode_license(e: &Element) -> (r: Result<SubsonicInfo, DecodeError>)
    ensures
        ok_view(r) == spec_license(e.deep_view().attributes, e.deep_view().children),
{
    proof {
        reveal(spec_license);
        lemma_children_view(e);
    }
    let a = &e.attributes;
    let valid = bool_attr(a, "valid")?;
    let email = text_attr(a, "email")?;
    let license_expires = text_attr(a, "licenseExpires")?;
    Ok(SubsonicInfo::License { valid, email, license_expires })
}

/// What the attributes and children of a payload of kind `Lyrics` decode to. The
/// fields are bound in the order in which the kind lists them, and the first
/// that cannot be bound gives the error.
#[verifier::opaque]
pub open spec fn spec_lyrics(attrs: Seq<AttributeView>, children: Seq<NodeView>) -> Result<
    SubsonicInfoView,
    DecodeError,
> {
    let artist = text_field(attrs, "artist"@);
    let title = text_field(attrs, "title"@);
    let lyrics = required(first_text(children));
    if artist is Err {
        Err(artist->Err_0)
    } else if title is Err {
        Err(title->Err_0)
    } else if lyrics is Err {
        Err(lyrics->Err_0)
    } else {
        Ok(
            SubsonicInfoView::Lyrics {
                artist: artist->Ok_0,
                title: title->Ok_0,
                lyrics: lyrics->Ok_0,
            },
        )
    }
}

/// Decodes a payload of kind `Lyrics`.
pub fn decode_lyrics(e: &Element) -> (r: Result<SubsonicInfo, DecodeError>)
    ensures
        ok_view(r) == spec_lyrics(e.deep_view().attributes, e.deep_view().children),
{
    proof {
        reveal(spec_lyrics);
        lemma_children_view(e);
    }
    let a = &e.attributes;
    let c = &e.children;
    let artist = text_attr(a, "artist")?;
    let title = text_attr(a, "title")?;
    let lyrics = content_text(c)?;
    Ok(SubsonicInfo::Lyrics { artist, title, lyrics })
}

/// What the attributes and children of a payload of kind `PublicInfo` decode to. The
/// fields are bound in the order in which the kind lists them, and the first
/// that cannot be bound gives the error.
#[verifier::opaque]
pub open spec fn spec_public_info(attrs: Seq<AttributeView>, children: Seq<NodeView>) -> Result<
    SubsonicInfoView,
    DecodeError,
> {
    let similar_artists = optional_list::<Artist>(children, Some("similarArtist"@));
    if similar_artists is Err {
        Err(similar_artists->Err_0)
    } else {
        Ok(
            SubsonicInfoView::PublicInfo {
                biography: child_text(children, "biography"@),
                notes: child_text(children, "notes"@),
                music_brainz_id: child_text(children, "musicBrainzId"@),
                last_fm_url: child_text(children, "lastFmUrl"@),
                small_image_url: child_text(children, "smallImageUrl"@),
                medium_image_url: child_text(children, "mediumImageUrl"@),
                large_image_url: child_text(children, "largeImageUrl"@),
                similar_artists: similar_artists->Ok_0,
            },
        )
    }
}

/// Decodes a payload of kind `PublicInfo`.
pub fn decode_public_info(e: &Element) -> (r: Result<SubsonicInfo, DecodeError>)
    ensures
        ok_view(r) == spec_public_info(e.deep_view().attributes, e.deep_view().children),
{
    proof {
        reveal(spec_public_info);
        lemma_children_view(e);
    }
    let c = &e.children;
    let biography = opt_child_text(c, "biography");
    let notes = opt_child_text(c, "notes");
    let music_brainz_id = opt_child_text(c, "musicBrainzId");
    let last_fm_url = opt_child_text(c, "lastFmUrl");
    let small_image_url = opt_child_text(c, "smallImageUrl");
    let medium_image_url = opt_child_text(c, "mediumImageUrl");
    let large_image_url = opt_child_text(c, "largeImageUrl");
    let similar_artists = decode_list::<Artist>(c, Some("similarArtist"))?;
    Ok(
        SubsonicInfo::PublicInfo {
            biography,
            notes,
            music_brainz_id,
            last_fm_url,
            small_image_url,
            medium_image_url,
            large_image_url,
            similar_artists,
        },
    )
}

/// What the attributes and children of a payload of kind `ScanStatus` decode to. The
/// fields are bound in the order in which the kind lists them, and the first
/// that cannot be bound gives the error.
#[verifier::opaque]
pub open spec fn spec_scan_status(attrs: Seq<AttributeView>, children: Seq<NodeView>) -> Result<
    SubsonicInfoView,
    DecodeError,
> {
    let scanning = bool_field(attrs, "scanning"@);
    let count = opt_u32_field(attrs, "count"@);
    if scanning is Err {
        Err(scanning->Err_0)
    } else if count is Err {
        Err(count->Err_0)
    } else {
        Ok(
            SubsonicInfoView::ScanStatus {
                scanning: scanning->Ok_0,
                count: count->Ok_0,
            },
        )
    }
}

/// Decodes a payload of kind `ScanStatus`.
pub fn decode_scan_status(e: &Element) -> (r: Result<SubsonicInfo, DecodeError>)
    ensures
        ok_view(r) == spec_scan_status(e.deep_view().attributes, e.deep_view().children),
{
    proof {
        reveal(spec_scan_status);
        lemma_children_view(e);
    }
    let a = &e.attributes;
    let scanning = bool_attr(a, "scanning")?;
    let count = opt_u32_attr(a, "count")?;
    Ok(SubsonicInfo::ScanStatus { scanning, count })
}

/// The payloads that the children from position `i` on decode to, each by its
/// own element name, appended to `acc`. Text between them is passed over.
pub open spec fn info_list(children: Seq<NodeView>, i: nat, acc: Seq<SubsonicInfoView>) -> Result<
    Seq<SubsonicInfoView>,
    DecodeError,
>
    decreases children, children.len() - i,
{
    if i >= children.len() {
        Ok(acc)
    } else {
        match children[i as int] {
            NodeView::Element(e) => match info_of(e) {
                Ok(v) => info_list(children, i + 1, acc.push(v)),
                Err(x) => Err(x),
            },
            NodeView::Text(_) => info_list(children, i + 1, acc),
        }
    }
}

/// What a payload of kind `tag` with these attributes and children decodes
/// to. The element's name plays no part beyond selecting the kind.
pub open spec fn tagged_info(
    tag: VariantTag,
    attrs: Seq<AttributeView>,
    children: Seq<NodeView>,
) -> Result<SubsonicInfoView, DecodeError>
    decreases children, children.len() + 1,
{
    match tag {
        VariantTag::MediaList => match GenericList::<Media>::spec_decode(attrs, children) {
            Ok(v) => Ok(SubsonicInfoView::MediaList(v)),
            Err(x) => Err(x),
        },
        VariantTag::Album => match Album::spec_decode(attrs, children) {
            Ok(v) => Ok(SubsonicInfoView::Album(v)),
            Err(x) => Err(x),
        },
        VariantTag::AlbumList => match GenericList::<Album>::spec_decode(attrs, children) {
            Ok(v) => Ok(SubsonicInfoView::AlbumList(v)),
            Err(x) => Err(x),
        },
        VariantTag::Artist => match Artist::spec_decode(attrs, children) {
            Ok(v) => Ok(SubsonicInfoView::Artist(v)),
            Err(x) => Err(x),
        },
        VariantTag::Artists => match Artists::spec_decode(attrs, children) {
            Ok(v) => Ok(SubsonicInfoView::Artists(v)),
            Err(x) => Err(x),
        },
        VariantTag::Bookmarks => match GenericList::<Bookmark>::spec_decode(attrs, children) {
            Ok(v) => Ok(SubsonicInfoView::Bookmarks(v)),
            Err(x) => Err(x),
        },
        VariantTag::ChatMessages => match GenericList::<ChatMessage>::spec_decode(attrs, children) {
            Ok(v) => Ok(SubsonicInfoView::ChatMessages(v)),
            Err(x) => Err(x),
        },
        VariantTag::Directory => match Directory::spec_decode(attrs, children) {
            Ok(v) => Ok(SubsonicInfoView::Directory(v)),
            Err(x) => Err(x),
        },
        VariantTag::Genres => match GenericList::<Genre>::spec_decode(attrs, children) {
            Ok(v) => Ok(SubsonicInfoView::Genres(v)),
            Err(x) => Err(x),
        },
        VariantTag::Indexes => match Indexes::spec_decode(attrs, children) {
            Ok(v) => Ok(SubsonicInfoView::Indexes(v)),
            Err(x) => Err(x),
        },
        VariantTag::InternetRadioStations => match GenericList::<Radio>::spec_decode(
            attrs,
            children,
        ) {
            Ok(v) => Ok(SubsonicInfoView::InternetRadioStations(v)),
            Err(x) => Err(x),
        },
        VariantTag::JukeboxPlaylist => match JukeboxPlaylist::spec_decode(attrs, children) {
            Ok(v) => Ok(SubsonicInfoView::JukeboxPlaylist(v)),
            Err(x) => Err(x),
        },
        VariantTag::MusicFolders => match GenericList::<MusicFolder>::spec_decode(attrs, children) {
            Ok(v) => Ok(SubsonicInfoView::MusicFolders(v)),
            Err(x) => Err(x),
        },
        VariantTag::Playlist => match Playlist::spec_decode(attrs, children) {
            Ok(v) => Ok(SubsonicInfoView::Playlist(v)),
            Err(x) => Err(x),
        },
        VariantTag::Playlists => match GenericList::<Playlist>::spec_decode(attrs, children) {
            Ok(v) => Ok(SubsonicInfoView::Playlists(v)),
            Err(x) => Err(x),
        },
        VariantTag::PlayQueue => match PlayQueue::spec_decode(attrs, children) {
            Ok(v) => Ok(SubsonicInfoView::PlayQueue(v)),
            Err(x) => Err(x),
        },
        VariantTag::Podcasts => match GenericList::<Channel>::spec_decode(attrs, children) {
            Ok(v) => Ok(SubsonicInfoView::Podcasts(v)),
            Err(x) => Err(x),
        },
        VariantTag::SearchResult => match SearchResult::spec_decode(attrs, children) {
            Ok(v) => Ok(SubsonicInfoView::SearchResult(v)),
            Err(x) => Err(x),
        },
        VariantTag::SearchOrStarList => match info_list(children, 0, Seq::empty()) {
            Ok(items) => Ok(
                SubsonicInfoView::SearchOrStarList(
                    GenericListView { items: if items.len() == 0 {
                        None
                    } else {
                        Some(items)
                    } },
                ),
            ),
            Err(x) => Err(x),
        },
        VariantTag::Shares => match GenericList::<Share>::spec_decode(attrs, children) {
            Ok(v) => Ok(SubsonicInfoView::Shares(v)),
            Err(x) => Err(x),
        },
        VariantTag::Song => match Media::spec_decode(attrs, children) {
            Ok(v) => Ok(SubsonicInfoView::Song(v)),
            Err(x) => Err(x),
        },
        VariantTag::User => match User::spec_decode(attrs, children) {
            Ok(v) => Ok(SubsonicInfoView::User(v)),
            Err(x) => Err(x),
        },
        VariantTag::Users => match GenericList::<User>::spec_decode(attrs, children) {
            Ok(v) => Ok(SubsonicInfoView::Users(v)),
            Err(x) => Err(x),
        },
        VariantTag::VideoInfo => match VideoInfo::spec_decode(attrs, children) {
            Ok(v) => Ok(SubsonicInfoView::VideoInfo(v)),
            Err(x) => Err(x),
        },
        VariantTag::Error => spec_error(attrs, children),
        VariantTag::JukeboxStatus => spec_jukebox_status(attrs, children),
        VariantTag::License => spec_license(attrs, children),
        VariantTag::Lyrics => spec_lyrics(attrs, children),
        VariantTag::PublicInfo => spec_public_info(attrs, children),
        VariantTag::ScanStatus => spec_scan_status(attrs, children),
    }
}

/// What a payload element decodes to: its name selects the kind through the
/// alias table, and a name that the table does not hold is an error.
pub open spec fn info_of(e: ElementView) -> Result<SubsonicInfoView, DecodeError>
    decreases e, 0nat,
{
    match alias_tag(e.name) {
        Some(tag) => tagged_info(tag, e.attributes, e.children),
        None => Err(DecodeError::UnknownVariant),
    }
}

/// Decodes every child element as a payload of its own.
pub fn decode_info_list(children: &Vec<Node>) -> (r: Result<Option<Vec<SubsonicInfo>>, DecodeError>)
    ensures
        match r {
            Ok(Some(items)) => items.len() > 0 && info_list(children.deep_view(), 0, Seq::empty())
                == Ok::<Seq<SubsonicInfoView>, DecodeError>(items.deep_view()),
            Ok(None) => info_list(children.deep_view(), 0, Seq::empty()) == Ok::<
                Seq<SubsonicInfoView>,
                DecodeError,
            >(Seq::empty()),
            Err(x) => info_list(children.deep_view(), 0, Seq::empty()) == Err::<
                Seq<SubsonicInfoView>,
                DecodeError,
            >(x),
        },
    decreases children.deep_view(), children.len(),
{
    let ghost cv = children.deep_view();
    let mut out: Vec<SubsonicInfo> = Vec::new();
    let mut i: usize = 0;
    assert(out.deep_view() =~= Seq::<SubsonicInfoView>::empty());
    while i < children.len()
        invariant
            i <= children.len(),
            cv == children.deep_view(),
            info_list(cv, 0, Seq::empty()) == info_list(cv, i as nat, out.deep_view()),
        decreases children.len() - i,
    {
        let ghost before = out.deep_view();
        assert(cv[i as int] == children@[i as int].deep_view());
        match &children[i] {
            Node::Element(e) => {
                match decode_info(e) {
                    Ok(v) => {
                        out.push(v);
                        assert(out.deep_view() =~= before.push(v.deep_view()));
                    },
                    Err(x) => {
                        return Err(x);
                    },
                }
            },
            Node::Text(_) => {},
        }
        i += 1;
    }
    if out.len() == 0 {
        assert(out.deep_view() =~= Seq::<SubsonicInfoView>::empty());
        Ok(None)
    } else {
        Ok(Some(out))
    }
}

/// Decodes a payload element of a known kind.
pub fn decode_tagged(tag: VariantTag, e: &Element) -> (r: Result<SubsonicInfo, DecodeError>)
    ensures
        ok_view(r) == tagged_info(tag, e.deep_view().attributes, e.deep_view().children),
    decreases e.deep_view().children, e.deep_view().children.len() + 1,
{
    proof {
        lemma_children_view(e);
    }
    match tag {
        VariantTag::MediaList => Ok(SubsonicInfo::MediaList(GenericList::<Media>::decode(e)?)),
        VariantTag::Album => Ok(SubsonicInfo::Album(Album::decode(e)?)),
        VariantTag::AlbumList => Ok(SubsonicInfo::AlbumList(GenericList::<Album>::decode(e)?)),
        VariantTag::Artist => Ok(SubsonicInfo::Artist(Artist::decode(e)?)),
        VariantTag::Artists => Ok(SubsonicInfo::Artists(Artists::decode(e)?)),
        VariantTag::Bookmarks => Ok(SubsonicInfo::Bookmarks(GenericList::<Bookmark>::decode(e)?)),
        VariantTag::ChatMessages => Ok(
            SubsonicInfo::ChatMessages(GenericList::<ChatMessage>::decode(e)?),
        ),
        VariantTag::Directory => Ok(SubsonicInfo::Directory(Directory::decode(e)?)),
        VariantTag::Genres => Ok(SubsonicInfo::Genres(GenericList::<Genre>::decode(e)?)),
        VariantTag::Indexes => Ok(SubsonicInfo::Indexes(Indexes::decode(e)?)),
        VariantTag::InternetRadioStations => Ok(
            SubsonicInfo::InternetRadioStations(GenericList::<Radio>::decode(e)?),
        ),
        VariantTag::JukeboxPlaylist => Ok(
            SubsonicInfo::JukeboxPlaylist(JukeboxPlaylist::decode(e)?),
        ),
        VariantTag::MusicFolders => Ok(
            SubsonicInfo::MusicFolders(GenericList::<MusicFolder>::decode(e)?),
        ),
        VariantTag::Playlist => Ok(SubsonicInfo::Playlist(Playlist::decode(e)?)),
        VariantTag::Playlists => Ok(SubsonicInfo::Playlists(GenericList::<Playlist>::decode(e)?)),
        VariantTag::PlayQueue => Ok(SubsonicInfo::PlayQueue(PlayQueue::decode(e)?)),
        VariantTag::Podcasts => Ok(SubsonicInfo::Podcasts(GenericList::<Channel>::decode(e)?)),
        VariantTag::SearchResult => Ok(SubsonicInfo::SearchResult(SearchResult::decode(e)?)),
        VariantTag::SearchOrStarList => {
            let items = decode_info_list(&e.children)?;
            let info = SubsonicInfo::SearchOrStarList(GenericList { items });
            proof {
                lemma_mixed_list_view(info);
            }
            Ok(info)
        },
        VariantTag::Shares => Ok(SubsonicInfo::Shares(GenericList::<Share>::decode(e)?)),
        VariantTag::Song => Ok(SubsonicInfo::Song(Media::decode(e)?)),
        VariantTag::User => Ok(SubsonicInfo::User(User::decode(e)?)),
        VariantTag::Users => Ok(SubsonicInfo::Users(GenericList::<User>::decode(e)?)),
        VariantTag::VideoInfo => Ok(SubsonicInfo::VideoInfo(VideoInfo::decode(e)?)),
        VariantTag::Error => decode_error(e),
        VariantTag::JukeboxStatus => decode_jukebox_status(e),
        VariantTag::License => decode_license(e),
        VariantTag::Lyrics => decode_lyrics(e),
        VariantTag::PublicInfo => decode_public_info(e),
        VariantTag::ScanStatus => decode_scan_status(e),
    }
}

/// Decodes a payload element: resolves its name, then decodes it as the kind
/// that the name selects.
pub fn decode_info(e: &Element) -> (r: Result<SubsonicInfo, DecodeError>)
    ensures
        ok_view(r) == info_of(e.deep_view()),
    decreases e.deep_view(), 0nat,
{
    match resolve_alias(e.name.as_str()) {
        Some(tag) => decode_tagged(tag, e),
        None => Err(DecodeError::UnknownVariant),
    }
}

/// The view of a list of mixed results is the list of its items' views.
pub proof fn lemma_mixed_list_view(info: SubsonicInfo)
    requires
        info is SearchOrStarList,
    ensures
        info.deep_view() == SubsonicInfoView::SearchOrStarList(
            GenericListView { items: info->SearchOrStarList_0.items.deep_view() },
        ),
{
    let list = info->SearchOrStarList_0;
    if list.items is Some {
        let items = list.items->0;
        assert(mixed_view(items@) =~= items.deep_view());
    }
}

/// Payload elements with the same attributes and children, under names that
/// select the same kind, decode to the same result.
pub proof fn lemma_aliases_decode_alike(a: ElementView, b: ElementView)
    requires
        alias_tag(a.name) == alias_tag(b.name),
        a.attributes == b.attributes,
        a.children == b.children,
    ensures
        info_of(a) == info_of(b),
{
}

/// A payload that is a list decodes without nested content, to a list that
/// is absent.
pub proof fn lemma_list_without_items<T: FromElement>(attrs: Seq<AttributeView>)
    ensures
        GenericList::<T>::spec_decode(attrs, Seq::empty()) == Ok::<
            GenericListView<T::V>,
            DecodeError,
        >(GenericListView { items: None }),
{
    lemma_absent_list::<T>(None);
}
} // verus!
