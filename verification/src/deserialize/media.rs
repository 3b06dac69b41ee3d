//! Media files and the catalogue they are filed in.

use crate::error::DecodeError;
use crate::fields::{
    bool_attr, bool_field, content_text, decode_list, find_attr, find_attr_or, first_text,
    lemma_absent_list, ok_view, opt_bool_attr, opt_bool_field, opt_text_attr, opt_u32_attr,
    opt_u32_field, opt_u64_attr, opt_u64_field, optional_list, required, text_attr, text_attr_or,
    text_field, u32_attr, u32_field, u64_attr, u64_field, FromElement,
};
use crate::xml::{lemma_children_view, AttributeView, Element, ElementView, NodeView};
use vstd::prelude::*;

verus! {

/// A song, a video, a podcast episode or a directory entry.
#[derive(Debug, Default, PartialEq)]
pub struct Media {
    pub id: u64,
    pub is_dir: bool,
    pub parent: u64,
    pub title: String,
    pub album: Option<String>,
    pub album_id: Option<u64>,
    pub artist: Option<String>,
    pub artist_id: Option<u64>,
    pub bit_rate: Option<u32>,
    pub channel_id: Option<u32>,
    pub description: Option<String>,
    pub content_type: Option<String>,
    pub cover_art: Option<String>,
    pub created: Option<String>,
    pub duration: Option<u32>,
    pub genre: Option<String>,
    pub is_video: Option<bool>,
    pub minutes_ago: Option<u32>,
    pub path: Option<String>,
    pub player_id: Option<u32>,
    pub player_name: Option<String>,
    pub publish_date: Option<String>,
    pub size: Option<u32>,
    pub status: Option<String>,
    pub stream_id: Option<u32>,
    pub suffix: Option<String>,
    pub transcoded_content_type: Option<String>,
    pub transcoded_suffix: Option<String>,
    pub media_type: Option<String>,
    pub username: Option<String>,
    pub year: Option<u32>,
}

/// `Media`, as contracts see it.
pub ghost struct MediaView {
    pub id: u64,
    pub is_dir: bool,
    pub parent: u64,
    pub title: Seq<char>,
    pub album: Option<Seq<char>>,
    pub album_id: Option<u64>,
    pub artist: Option<Seq<char>>,
    pub artist_id: Option<u64>,
    pub bit_rate: Option<u32>,
    pub channel_id: Option<u32>,
    pub description: Option<Seq<char>>,
    pub content_type: Option<Seq<char>>,
    pub cover_art: Option<Seq<char>>,
    pub created: Option<Seq<char>>,
    pub duration: Option<u32>,
    pub genre: Option<Seq<char>>,
    pub is_video: Option<bool>,
    pub minutes_ago: Option<u32>,
    pub path: Option<Seq<char>>,
    pub player_id: Option<u32>,
    pub player_name: Option<Seq<char>>,
    pub publish_date: Option<Seq<char>>,
    pub size: Option<u32>,
    pub status: Option<Seq<char>>,
    pub stream_id: Option<u32>,
    pub suffix: Option<Seq<char>>,
    pub transcoded_content_type: Option<Seq<char>>,
    pub transcoded_suffix: Option<Seq<char>>,
    pub media_type: Option<Seq<char>>,
    pub username: Option<Seq<char>>,
    pub year: Option<u32>,
}

impl DeepView for Media {
    type V = MediaView;

    open spec fn deep_view(&self) -> MediaView {
        MediaView {
            id: self.id,
            is_dir: self.is_dir,
            parent: self.parent,
            title: self.title.deep_view(),
            album: self.album.deep_view(),
            album_id: self.album_id,
            artist: self.artist.deep_view(),
            artist_id: self.artist_id,
            bit_rate: self.bit_rate,
            channel_id: self.channel_id,
            description: self.description.deep_view(),
            content_type: self.content_type.deep_view(),
            cover_art: self.cover_art.deep_view(),
            created: self.created.deep_view(),
            duration: self.duration,
            genre: self.genre.deep_view(),
            is_video: self.is_video,
            minutes_ago: self.minutes_ago,
            path: self.path.deep_view(),
            player_id: self.player_id,
            player_name: self.player_name.deep_view(),
            publish_date: self.publish_date.deep_view(),
            size: self.size,
            status: self.status.deep_view(),
            stream_id: self.stream_id,
            suffix: self.suffix.deep_view(),
            transcoded_content_type: self.transcoded_content_type.deep_view(),
            transcoded_suffix: self.transcoded_suffix.deep_view(),
            media_type: self.media_type.deep_view(),
            username: self.username.deep_view(),
            year: self.year,
        }
    }
}

impl Media {
    /// What an element with these attributes and children decodes to,
    /// whatever the element is called. The fields are bound in the order in
    /// which the type lists them, and the first that cannot be bound gives the
    /// error.
    #[verifier::opaque]
    pub open spec fn spec_decode(attrs: Seq<AttributeView>, children: Seq<NodeView>) -> Result<
        MediaView,
        DecodeError,
    > {
        let id = u64_field(attrs, "id"@);
        let is_dir = bool_field(attrs, "isDir"@);
        let parent = u64_field(attrs, "parent"@);
        let title = required(find_attr_or(attrs, "title"@, "name"@));
        let album_id = opt_u64_field(attrs, "albumId"@);
        let artist_id = opt_u64_field(attrs, "artistId"@);
        let bit_rate = opt_u32_field(attrs, "bitRate"@);
        let channel_id = opt_u32_field(attrs, "channelId"@);
        let duration = opt_u32_field(attrs, "duration"@);
        let is_video = opt_bool_field(attrs, "isVideo"@);
        let minutes_ago = opt_u32_field(attrs, "minutesAgo"@);
        let player_id = opt_u32_field(attrs, "playerId"@);
        let size = opt_u32_field(attrs, "size"@);
        let stream_id = opt_u32_field(attrs, "streamId"@);
        let year = opt_u32_field(attrs, "year"@);
        if id is Err {
            Err(id->Err_0)
        } else if is_dir is Err {
            Err(is_dir->Err_0)
        } else if parent is Err {
            Err(parent->Err_0)
        } else if title is Err {
            Err(title->Err_0)
        } else if album_id is Err {
            Err(album_id->Err_0)
        } else if artist_id is Err {
            Err(artist_id->Err_0)
        } else if bit_rate is Err {
            Err(bit_rate->Err_0)
        } else if channel_id is Err {
            Err(channel_id->Err_0)
        } else if duration is Err {
            Err(duration->Err_0)
        } else if is_video is Err {
            Err(is_video->Err_0)
        } else if minutes_ago is Err {
            Err(minutes_ago->Err_0)
        } else if player_id is Err {
            Err(player_id->Err_0)
        } else if size is Err {
            Err(size->Err_0)
        } else if stream_id is Err {
            Err(stream_id->Err_0)
        } else if year is Err {
            Err(year->Err_0)
        } else {
            Ok(
                MediaView {
                    id: id->Ok_0,
                    is_dir: is_dir->Ok_0,
                    parent: parent->Ok_0,
                    title: title->Ok_0,
                    album: find_attr(attrs, "album"@),
                    album_id: album_id->Ok_0,
                    artist: find_attr(attrs, "artist"@),
                    artist_id: artist_id->Ok_0,
                    bit_rate: bit_rate->Ok_0,
                    channel_id: channel_id->Ok_0,
                    description: find_attr(attrs, "description"@),
                    content_type: find_attr(attrs, "contentType"@),
                    cover_art: find_attr(attrs, "coverArt"@),
                    created: find_attr(attrs, "created"@),
                    duration: duration->Ok_0,
                    genre: find_attr(attrs, "genre"@),
                    is_video: is_video->Ok_0,
                    minutes_ago: minutes_ago->Ok_0,
                    path: find_attr(attrs, "path"@),
                    player_id: player_id->Ok_0,
                    player_name: find_attr(attrs, "playerName"@),
                    publish_date: find_attr(attrs, "publishDate"@),
                    size: size->Ok_0,
                    status: find_attr(attrs, "status"@),
                    stream_id: stream_id->Ok_0,
                    suffix: find_attr(attrs, "suffix"@),
                    transcoded_content_type: find_attr(attrs, "transcodedContentType"@),
                    transcoded_suffix: find_attr(attrs, "transcodedSuffix"@),
                    media_type: find_attr(attrs, "type"@),
                    username: find_attr(attrs, "username"@),
                    year: year->Ok_0,
                },
            )
        }
    }

    /// Decodes an element, whatever it is called.
    pub fn decode(e: &Element) -> (r: Result<Media, DecodeError>)
        ensures
            ok_view(r) == Self::spec_decode(e.deep_view().attributes, e.deep_view().children),
    {
        proof {
            reveal(Media::spec_decode);
            lemma_children_view(e);
        }
        let a = &e.attributes;
        let id = u64_attr(a, "id")?;
        let is_dir = bool_attr(a, "isDir")?;
        let parent = u64_attr(a, "parent")?;
        let title = text_attr_or(a, "title", "name")?;
        let album = opt_text_attr(a, "album");
        let album_id = opt_u64_attr(a, "albumId")?;
        let artist = opt_text_attr(a, "artist");
        let artist_id = opt_u64_attr(a, "artistId")?;
        let bit_rate = opt_u32_attr(a, "bitRate")?;
        let channel_id = opt_u32_attr(a, "channelId")?;
        let description = opt_text_attr(a, "description");
        let content_type = opt_text_attr(a, "contentType");
        let cover_art = opt_text_attr(a, "coverArt");
        let created = opt_text_attr(a, "created");
        let duration = opt_u32_attr(a, "duration")?;
        let genre = opt_text_attr(a, "genre");
        let is_video = opt_bool_attr(a, "isVideo")?;
        let minutes_ago = opt_u32_attr(a, "minutesAgo")?;
        let path = opt_text_attr(a, "path");
        let player_id = opt_u32_attr(a, "playerId")?;
        let player_name = opt_text_attr(a, "playerName");
        let publish_date = opt_text_attr(a, "publishDate");
        let size = opt_u32_attr(a, "size")?;
        let status = opt_text_attr(a, "status");
        let stream_id = opt_u32_attr(a, "streamId")?;
        let suffix = opt_text_attr(a, "suffix");
        let transcoded_content_type = opt_text_attr(a, "transcodedContentType");
        let transcoded_suffix = opt_text_attr(a, "transcodedSuffix");
        let media_type = opt_text_attr(a, "type");
        let username = opt_text_attr(a, "username");
        let year = opt_u32_attr(a, "year")?;
        Ok(
            Media {
                id,
                is_dir,
                parent,
                title,
                album,
                album_id,
                artist,
                artist_id,
                bit_rate,
                channel_id,
                description,
                content_type,
                cover_art,
                created,
                duration,
                genre,
                is_video,
                minutes_ago,
                path,
                player_id,
                player_name,
                publish_date,
                size,
                status,
                stream_id,
                suffix,
                transcoded_content_type,
                transcoded_suffix,
                media_type,
                username,
                year,
            },
        )
    }
}

impl FromElement for Media {
    open spec fn spec_from_element(e: ElementView) -> Result<MediaView, DecodeError> {
        Media::spec_decode(e.attributes, e.children)
    }

    fn from_element(e: &Element) -> (r: Result<Media, DecodeError>) {
        Media::decode(e)
    }
}

/// An artist.
#[derive(Debug, Default, PartialEq)]
pub struct Artist {
    pub id: u64,
    pub name: String,
    pub album_count: Option<u32>,
    pub cover_art: Option<String>,
    pub starred: Option<String>,
}

/// `Artist`, as contracts see it.
pub ghost struct ArtistView {
    pub id: u64,
    pub name: Seq<char>,
    pub album_count: Option<u32>,
    pub cover_art: Option<Seq<char>>,
    pub starred: Option<Seq<char>>,
}

impl DeepView for Artist {
    type V = ArtistView;

    open spec fn deep_view(&self) -> ArtistView {
        ArtistView {
            id: self.id,
            name: self.name.deep_view(),
            album_count: self.album_count,
            cover_art: self.cover_art.deep_view(),
            starred: self.starred.deep_view(),
        }
    }
}

impl Artist {
    /// What an element with these attributes and children decodes to,
    /// whatever the element is called. The fields are bound in the order in
    /// which the type lists them, and the first that cannot be bound gives the
    /// error.
    #[verifier::opaque]
    pub open spec fn spec_decode(attrs: Seq<AttributeView>, children: Seq<NodeView>) -> Result<
        ArtistView,
        DecodeError,
    > {
        let id = u64_field(attrs, "id"@);
        let name = text_field(attrs, "name"@);
        let album_count = opt_u32_field(attrs, "albumCount"@);
        if id is Err {
            Err(id->Err_0)
        } else if name is Err {
            Err(name->Err_0)
        } else if album_count is Err {
            Err(album_count->Err_0)
        } else {
            Ok(
                ArtistView {
                    id: id->Ok_0,
                    name: name->Ok_0,
                    album_count: album_count->Ok_0,
                    cover_art: find_attr(attrs, "coverArt"@),
                    starred: find_attr(attrs, "starred"@),
                },
            )
        }
    }

    /// Decodes an element, whatever it is called.
    pub fn decode(e: &Element) -> (r: Result<Artist, DecodeError>)
        ensures
            ok_view(r) == Self::spec_decode(e.deep_view().attributes, e.deep_view().children),
    {
        proof {
            reveal(Artist::spec_decode);
            lemma_children_view(e);
        }
        let a = &e.attributes;
        let id = u64_attr(a, "id")?;
        let name = text_attr(a, "name")?;
        let album_count = opt_u32_attr(a, "albumCount")?;
        let cover_art = opt_text_attr(a, "coverArt");
        let starred = opt_text_attr(a, "starred");
        Ok(Artist { id, name, album_count, cover_art, starred })
    }
}

impl FromElement for Artist {
    open spec fn spec_from_element(e: ElementView) -> Result<ArtistView, DecodeError> {
        Artist::spec_decode(e.attributes, e.children)
    }

    fn from_element(e: &Element) -> (r: Result<Artist, DecodeError>) {
        Artist::decode(e)
    }
}

/// An album, with its songs where the server sent them.
#[derive(Debug, Default, PartialEq)]
pub struct Album {
    pub id: u64,
    pub title: String,
    pub artist: Option<String>,
    pub artist_id: Option<u64>,
    pub average_rating: Option<String>,
    pub cover_art: Option<String>,
    pub created: Option<String>,
    pub duration: Option<u64>,
    pub parent: Option<u64>,
    pub song_count: Option<u32>,
    pub user_rating: Option<String>,
    pub songs: Option<Vec<Media>>,
}

/// `Album`, as contracts see it.
pub ghost struct AlbumView {
    pub id: u64,
    pub title: Seq<char>,
    pub artist: Option<Seq<char>>,
    pub artist_id: Option<u64>,
    pub average_rating: Option<Seq<char>>,
    pub cover_art: Option<Seq<char>>,
    pub created: Option<Seq<char>>,
    pub duration: Option<u64>,
    pub parent: Option<u64>,
    pub song_count: Option<u32>,
    pub user_rating: Option<Seq<char>>,
    pub songs: Option<Seq<MediaView>>,
}

impl DeepView for Album {
    type V = AlbumView;

    open spec fn deep_view(&self) -> AlbumView {
        AlbumView {
            id: self.id,
            title: self.title.deep_view(),
            artist: self.artist.deep_view(),
            artist_id: self.artist_id,
            average_rating: self.average_rating.deep_view(),
            cover_art: self.cover_art.deep_view(),
            created: self.created.deep_view(),
            duration: self.duration,
            parent: self.parent,
            song_count: self.song_count,
            user_rating: self.user_rating.deep_view(),
            songs: self.songs.deep_view(),
        }
    }
}

impl Album {
    /// What an element with these attributes and children decodes to,
    /// whatever the element is called. The fields are bound in the order in
    /// which the type lists them, and the first that cannot be bound gives the
    /// error.
    #[verifier::opaque]
    pub open spec fn spec_decode(attrs: Seq<AttributeView>, children: Seq<NodeView>) -> Result<
        AlbumView,
        DecodeError,
    > {
        let id = u64_field(attrs, "id"@);
        let title = required(find_attr_or(attrs, "title"@, "name"@));
        let artist_id = opt_u64_field(attrs, "artistId"@);
        let duration = opt_u64_field(attrs, "duration"@);
        let parent = opt_u64_field(attrs, "parent"@);
        let song_count = opt_u32_field(attrs, "songCount"@);
        let songs = optional_list::<Media>(children, None);
        if id is Err {
            Err(id->Err_0)
        } else if title is Err {
            Err(title->Err_0)
        } else if artist_id is Err {
            Err(artist_id->Err_0)
        } else if duration is Err {
            Err(duration->Err_0)
        } else if parent is Err {
            Err(parent->Err_0)
        } else if song_count is Err {
            Err(song_count->Err_0)
        } else if songs is Err {
            Err(songs->Err_0)
        } else {
            Ok(
                AlbumView {
                    id: id->Ok_0,
                    title: title->Ok_0,
                    artist: find_attr(attrs, "artist"@),
                    artist_id: artist_id->Ok_0,
                    average_rating: find_attr(attrs, "averageRating"@),
                    cover_art: find_attr(attrs, "coverArt"@),
                    created: find_attr(attrs, "created"@),
                    duration: duration->Ok_0,
                    parent: parent->Ok_0,
                    song_count: song_count->Ok_0,
                    user_rating: find_attr(attrs, "userRating"@),
                    songs: songs->Ok_0,
                },
            )
        }
    }

    /// Decodes an element, whatever it is called.
    pub fn decode(e: &Element) -> (r: Result<Album, DecodeError>)
        ensures
            ok_view(r) == Self::spec_decode(e.deep_view().attributes, e.deep_view().children),
    {
        proof {
            reveal(Album::spec_decode);
            lemma_children_view(e);
        }
        let a = &e.attributes;
        let c = &e.children;
        let id = u64_attr(a, "id")?;
        let title = text_attr_or(a, "title", "name")?;
        let artist = opt_text_attr(a, "artist");
        let artist_id = opt_u64_attr(a, "artistId")?;
        let average_rating = opt_text_attr(a, "averageRating");
        let cover_art = opt_text_attr(a, "coverArt");
        let created = opt_text_attr(a, "created");
        let duration = opt_u64_attr(a, "duration")?;
        let parent = opt_u64_attr(a, "parent")?;
        let song_count = opt_u32_attr(a, "songCount")?;
        let user_rating = opt_text_attr(a, "userRating");
        let songs = decode_list::<Media>(c, None)?;
        Ok(
            Album {
                id,
                title,
                artist,
                artist_id,
                average_rating,
                cover_art,
                created,
                duration,
                parent,
                song_count,
                user_rating,
                songs,
            },
        )
    }
}

impl FromElement for Album {
    open spec fn spec_from_element(e: ElementView) -> Result<AlbumView, DecodeError> {
        Album::spec_decode(e.attributes, e.children)
    }

    fn from_element(e: &Element) -> (r: Result<Album, DecodeError>) {
        Album::decode(e)
    }
}

/// A genre: its name is the text that the element holds.
#[derive(Debug, Default, PartialEq)]
pub struct Genre {
    pub song_count: u32,
    pub album_count: u32,
    pub name: String,
}

/// `Genre`, as contracts see it.
pub ghost struct GenreView {
    pub song_count: u32,
    pub album_count: u32,
    pub name: Seq<char>,
}

impl DeepView for Genre {
    type V = GenreView;

    open spec fn deep_view(&self) -> GenreView {
        GenreView {
            song_count: self.song_count,
            album_count: self.album_count,
            name: self.name.deep_view(),
        }
    }
}

impl Genre {
    /// What an element with these attributes and children decodes to,
    /// whatever the element is called. The fields are bound in the order in
    /// which the type lists them, and the first that cannot be bound gives the
    /// error.
    #[verifier::opaque]
    pub open spec fn spec_decode(attrs: Seq<AttributeView>, children: Seq<NodeView>) -> Result<
        GenreView,
        DecodeError,
    > {
        let song_count = u32_field(attrs, "songCount"@);
        let album_count = u32_field(attrs, "albumCount"@);
        let name = required(first_text(children));
        if song_count is Err {
            Err(song_count->Err_0)
        } else if album_count is Err {
            Err(album_count->Err_0)
        } else if name is Err {
            Err(name->Err_0)
        } else {
            Ok(
                GenreView {
                    song_count: song_count->Ok_0,
                    album_count: album_count->Ok_0,
                    name: name->Ok_0,
                },
            )
        }
    }

    /// Decodes an element, whatever it is called.
    pub fn decode(e: &Element) -> (r: Result<Genre, DecodeError>)
        ensures
            ok_view(r) == Self::spec_decode(e.deep_view().attributes, e.deep_view().children),
    {
        proof {
            reveal(Genre::spec_decode);
            lemma_children_view(e);
        }
        let a = &e.attributes;
        let c = &e.children;
        let song_count = u32_attr(a, "songCount")?;
        let album_count = u32_attr(a, "albumCount")?;
        let name = content_text(c)?;
        Ok(Genre { song_count, album_count, name })
    }
}

impl FromElement for Genre {
    open spec fn spec_from_element(e: ElementView) -> Result<GenreView, DecodeError> {
        Genre::spec_decode(e.attributes, e.children)
    }

    fn from_element(e: &Element) -> (r: Result<Genre, DecodeError>) {
        Genre::decode(e)
    }
}

/// A top-level music folder.
#[derive(Debug, Default, PartialEq)]
pub struct MusicFolder {
    pub id: u64,
    pub name: String,
}

/// `MusicFolder`, as contracts see it.
pub ghost struct MusicFolderView {
    pub id: u64,
    pub name: Seq<char>,
}

impl DeepView for MusicFolder {
    type V = MusicFolderView;

    open spec fn deep_view(&self) -> MusicFolderView {
        MusicFolderView {
            id: self.id,
            name: self.name.deep_view(),
        }
    }
}

impl MusicFolder {
    /// What an element with these attributes and children decodes to,
    /// whatever the element is called. The fields are bound in the order in
    /// which the type lists them, and the first that cannot be bound gives the
    /// error.
    #[verifier::opaque]
    pub open spec fn spec_decode(attrs: Seq<AttributeView>, children: Seq<NodeView>) -> Result<
        MusicFolderView,
        DecodeError,
    > {
        let id = u64_field(attrs, "id"@);
        let name = text_field(attrs, "name"@);
        if id is Err {
            Err(id->Err_0)
        } else if name is Err {
            Err(name->Err_0)
        } else {
            Ok(
                MusicFolderView {
                    id: id->Ok_0,
                    name: name->Ok_0,
                },
            )
        }
    }

    /// Decodes an element, whatever it is called.
    pub fn decode(e: &Element) -> (r: Result<MusicFolder, DecodeError>)
        ensures
            ok_view(r) == Self::spec_decode(e.deep_view().attributes, e.deep_view().children),
    {
        proof {
            reveal(MusicFolder::spec_decode);
            lemma_children_view(e);
        }
        let a = &e.attributes;
        let id = u64_attr(a, "id")?;
        let name = text_attr(a, "name")?;
        Ok(MusicFolder { id, name })
    }
}

impl FromElement for MusicFolder {
    open spec fn spec_from_element(e: ElementView) -> Result<MusicFolderView, DecodeError> {
        MusicFolder::spec_decode(e.attributes, e.children)
    }

    fn from_element(e: &Element) -> (r: Result<MusicFolder, DecodeError>) {
        MusicFolder::decode(e)
    }
}

/// A directory and the entries in it.
#[derive(Debug, Default, PartialEq)]
pub struct Directory {
    pub id: u64,
    pub parent: u64,
    pub name: String,
    pub starred: Option<String>,
    pub children: Option<Vec<Media>>,
}

/// `Directory`, as contracts see it.
pub ghost struct DirectoryView {
    pub id: u64,
    pub parent: u64,
    pub name: Seq<char>,
    pub starred: Option<Seq<char>>,
    pub children: Option<Seq<MediaView>>,
}

impl DeepView for Directory {
    type V = DirectoryView;

    open spec fn deep_view(&self) -> DirectoryView {
        DirectoryView {
            id: self.id,
            parent: self.parent,
            name: self.name.deep_view(),
            starred: self.starred.deep_view(),
            children: self.children.deep_view(),
        }
    }
}

impl Directory {
    /// What an element with these attributes and children decodes to,
    /// whatever the element is called. The fields are bound in the order in
    /// which the type lists them, and the first that cannot be bound gives the
    /// error.
    #[verifier::opaque]
    pub open spec fn spec_decode(attrs: Seq<AttributeView>, children: Seq<NodeView>) -> Result<
        DirectoryView,
        DecodeError,
    > {
        let id = u64_field(attrs, "id"@);
        let parent = u64_field(attrs, "parent"@);
        let name = text_field(attrs, "name"@);
        let children = optional_list::<Media>(children, None);
        if id is Err {
            Err(id->Err_0)
        } else if parent is Err {
            Err(parent->Err_0)
        } else if name is Err {
            Err(name->Err_0)
        } else if children is Err {
            Err(children->Err_0)
        } else {
            Ok(
                DirectoryView {
                    id: id->Ok_0,
                    parent: parent->Ok_0,
                    name: name->Ok_0,
                    starred: find_attr(attrs, "starred"@),
                    children: children->Ok_0,
                },
            )
        }
    }

    /// Decodes an element, whatever it is called.
    pub fn decode(e: &Element) -> (r: Result<Directory, DecodeError>)
        ensures
            ok_view(r) == Self::spec_decode(e.deep_view().attributes, e.deep_view().children),
    {
        proof {
            reveal(Directory::spec_decode);
            lemma_children_view(e);
        }
        let a = &e.attributes;
        let c = &e.children;
        let id = u64_attr(a, "id")?;
        let parent = u64_attr(a, "parent")?;
        let name = text_attr(a, "name")?;
        let starred = opt_text_attr(a, "starred");
        let children = decode_list::<Media>(c, None)?;
        Ok(Directory { id, parent, name, starred, children })
    }
}

impl FromElement for Directory {
    open spec fn spec_from_element(e: ElementView) -> Result<DirectoryView, DecodeError> {
        Directory::spec_decode(e.attributes, e.children)
    }

    fn from_element(e: &Element) -> (r: Result<Directory, DecodeError>) {
        Directory::decode(e)
    }
}

/// An album without nested content is no decode failure: whatever decodes
/// with songs decodes without them, to the same album with no song list.
pub proof fn lemma_album_without_songs(attrs: Seq<AttributeView>, children: Seq<NodeView>)
    requires
        Album::spec_decode(attrs, children) is Ok,
    ensures
        Album::spec_decode(attrs, Seq::empty()) == Ok::<AlbumView, DecodeError>(
            AlbumView { songs: None, ..Album::spec_decode(attrs, children)->Ok_0 },
        ),
{
    reveal(Album::spec_decode);
    lemma_absent_list::<Media>(None);
}
} // verus!
