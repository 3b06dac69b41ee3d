//! Playlists, play queues, bookmarks and the jukebox.

use crate::deserialize::media::{Media, MediaView};
use crate::error::DecodeError;
use crate::fields::{
    bool_attr, bool_field, content_or_empty, decode_list, find_attr, ok_view, opt_text_attr,
    optional_list, text_attr, text_field, text_or_empty, u32_attr, u32_field, u64_attr, u64_field,
    FromElement,
};
use crate::text::text_eq;
use crate::xml::{lemma_children_view, AttributeView, Element, ElementView, NodeView};
use vstd::prelude::*;

verus! {

/// What a playlist lists: the users it is shared with, and its media.
#[derive(Debug, PartialEq)]
pub enum Entrires {
    /// A user who may see the playlist: the text of an `allowedUser` element.
    AllowedUser(String),
    /// A media file: an `entry` element.
    Entry(Media),
}

/// `Entrires`, as contracts see it.
pub ghost enum EntriresView {
    AllowedUser(Seq<char>),
    Entry(MediaView),
}

impl DeepView for Entrires {
    type V = EntriresView;

    open spec fn deep_view(&self) -> EntriresView {
        match self {
            Entrires::AllowedUser(v) => EntriresView::AllowedUser(v.deep_view()),
            Entrires::Entry(v) => EntriresView::Entry(v.deep_view()),
        }
    }
}

impl FromElement for Entrires {
    open spec fn spec_from_element(e: ElementView) -> Result<EntriresView, DecodeError> {
        let attrs = e.attributes;
        let children = e.children;
        if e.name == "allowedUser"@ {
            Ok(EntriresView::AllowedUser(text_or_empty(children)))
        } else if e.name == "entry"@ {
            match Media::spec_decode(attrs, children) {
                Ok(v) => Ok(EntriresView::Entry(v)),
                Err(x) => Err(x),
            }
        } else {
            Err(DecodeError::UnknownVariant)
        }
    }

    fn from_element(e: &Element) -> (r: Result<Entrires, DecodeError>) {
        proof {
            lemma_children_view(e);
        }
        let a = &e.attributes;
        let c = &e.children;
        if text_eq(e.name.as_str(), "allowedUser") {
            Ok(Entrires::AllowedUser(content_or_empty(c)))
        } else if text_eq(e.name.as_str(), "entry") {
            Ok(Entrires::Entry(Media::decode(e)?))
        } else {
            Err(DecodeError::UnknownVariant)
        }
    }
}

/// A playlist, with its entries where the server sent them.
#[derive(Debug, Default, PartialEq)]
pub struct Playlist {
    pub id: u64,
    pub name: String,
    pub owner: String,
    pub public: bool,
    pub song_count: u32,
    pub comment: Option<String>,
    pub cover_art: Option<String>,
    pub created: Option<String>,
    pub entries: Option<Vec<Entrires>>,
}

/// `Playlist`, as contracts see it.
pub ghost struct PlaylistView {
    pub id: u64,
    pub name: Seq<char>,
    pub owner: Seq<char>,
    pub public: bool,
    pub song_count: u32,
    pub comment: Option<Seq<char>>,
    pub cover_art: Option<Seq<char>>,
    pub created: Option<Seq<char>>,
    pub entries: Option<Seq<EntriresView>>,
}

impl DeepView for Playlist {
    type V = PlaylistView;

    open spec fn deep_view(&self) -> PlaylistView {
        PlaylistView {
            id: self.id,
            name: self.name.deep_view(),
            owner: self.owner.deep_view(),
            public: self.public,
            song_count: self.song_count,
            comment: self.comment.deep_view(),
            cover_art: self.cover_art.deep_view(),
            created: self.created.deep_view(),
            entries: self.entries.deep_view(),
        }
    }
}

impl Playlist {
    /// What an element with these attributes and children decodes to,
    /// whatever the element is called. The fields are bound in the order in
    /// which the type lists them, and the first that cannot be bound gives the
    /// error.
    #[verifier::opaque]
    pub open spec fn spec_decode(attrs: Seq<AttributeView>, children: Seq<NodeView>) -> Result<
        PlaylistView,
        DecodeError,
    > {
        let id = u64_field(attrs, "id"@);
        let name = text_field(attrs, "name"@);
        let owner = text_field(attrs, "owner"@);
        let public = bool_field(attrs, "public"@);
        let song_count = u32_field(attrs, "songCount"@);
        let entries = optional_list::<Entrires>(children, None);
        if id is Err {
            Err(id->Err_0)
        } else if name is Err {
            Err(name->Err_0)
        } else if owner is Err {
            Err(owner->Err_0)
        } else if public is Err {
            Err(public->Err_0)
        } else if song_count is Err {
            Err(song_count->Err_0)
        } else if entries is Err {
            Err(entries->Err_0)
        } else {
            Ok(
                PlaylistView {
                    id: id->Ok_0,
                    name: name->Ok_0,
                    owner: owner->Ok_0,
                    public: public->Ok_0,
                    song_count: song_count->Ok_0,
                    comment: find_attr(attrs, "comment"@),
                    cover_art: find_attr(attrs, "coverArt"@),
                    created: find_attr(attrs, "created"@),
                    entries: entries->Ok_0,
                },
            )
        }
    }

    /// Decodes an element, whatever it is called.
    pub fn decode(e: &Element) -> (r: Result<Playlist, DecodeError>)
        ensures
            ok_view(r) == Self::spec_decode(e.deep_view().attributes, e.deep_view().children),
    {
        proof {
            reveal(Playlist::spec_decode);
            lemma_children_view(e);
        }
        let a = &e.attributes;
        let c = &e.children;
        let id = u64_attr(a, "id")?;
        let name = text_attr(a, "name")?;
        let owner = text_attr(a, "owner")?;
        let public = bool_attr(a, "public")?;
        let song_count = u32_attr(a, "songCount")?;
        let comment = opt_text_attr(a, "comment");
        let cover_art = opt_text_attr(a, "coverArt");
        let created = opt_text_attr(a, "created");
        let entries = decode_list::<Entrires>(c, None)?;
        Ok(Playlist { id, name, owner, public, song_count, comment, cover_art, created, entries })
    }
}

impl FromElement for Playlist {
    open spec fn spec_from_element(e: ElementView) -> Result<PlaylistView, DecodeError> {
        Playlist::spec_decode(e.attributes, e.children)
    }

    fn from_element(e: &Element) -> (r: Result<Playlist, DecodeError>) {
        Playlist::decode(e)
    }
}

/// The saved play queue of a user.
#[derive(Debug, Default, PartialEq)]
pub struct PlayQueue {
    pub current: u64,
    pub position: u64,
    pub username: String,
    pub changed: Option<String>,
    pub changed_by: Option<String>,
    pub entries: Option<Vec<Media>>,
}

/// `PlayQueue`, as contracts see it.
pub ghost struct PlayQueueView {
    pub current: u64,
    pub position: u64,
    pub username: Seq<char>,
    pub changed: Option<Seq<char>>,
    pub changed_by: Option<Seq<char>>,
    pub entries: Option<Seq<MediaView>>,
}

impl DeepView for PlayQueue {
    type V = PlayQueueView;

    open spec fn deep_view(&self) -> PlayQueueView {
        PlayQueueView {
            current: self.current,
            position: self.position,
            username: self.username.deep_view(),
            changed: self.changed.deep_view(),
            changed_by: self.changed_by.deep_view(),
            entries: self.entries.deep_view(),
        }
    }
}

impl PlayQueue {
    /// What an element with these attributes and children decodes to,
    /// whatever the element is called. The fields are bound in the order in
    /// which the type lists them, and the first that cannot be bound gives the
    /// error.
    #[verifier::opaque]
    pub open spec fn spec_decode(attrs: Seq<AttributeView>, children: Seq<NodeView>) -> Result<
        PlayQueueView,
        DecodeError,
    > {
        let current = u64_field(attrs, "current"@);
        let position = u64_field(attrs, "position"@);
        let username = text_field(attrs, "username"@);
        let entries = optional_list::<Media>(children, None);
        if current is Err {
            Err(current->Err_0)
        } else if position is Err {
            Err(position->Err_0)
        } else if username is Err {
            Err(username->Err_0)
        } else if entries is Err {
            Err(entries->Err_0)
        } else {
            Ok(
                PlayQueueView {
                    current: current->Ok_0,
                    position: position->Ok_0,
                    username: username->Ok_0,
                    changed: find_attr(attrs, "changed"@),
                    changed_by: find_attr(attrs, "changedBy"@),
                    entries: entries->Ok_0,
                },
            )
        }
    }

    /// Decodes an element, whatever it is called.
    pub fn decode(e: &Element) -> (r: Result<PlayQueue, DecodeError>)
        ensures
            ok_view(r) == Self::spec_decode(e.deep_view().attributes, e.deep_view().children),
    {
        proof {
            reveal(PlayQueue::spec_decode);
            lemma_children_view(e);
        }
        let a = &e.attributes;
        let c = &e.children;
        let current = u64_attr(a, "current")?;
        let position = u64_attr(a, "position")?;
        let username = text_attr(a, "username")?;
        let changed = opt_text_attr(a, "changed");
        let changed_by = opt_text_attr(a, "changedBy");
        let entries = decode_list::<Media>(c, None)?;
        Ok(PlayQueue { current, position, username, changed, changed_by, entries })
    }
}

impl FromElement for PlayQueue {
    open spec fn spec_from_element(e: ElementView) -> Result<PlayQueueView, DecodeError> {
        PlayQueue::spec_decode(e.attributes, e.children)
    }

    fn from_element(e: &Element) -> (r: Result<PlayQueue, DecodeError>) {
        PlayQueue::decode(e)
    }
}

/// A position saved in a media file.
#[derive(Debug, Default, PartialEq)]
pub struct Bookmark {
    pub position: u64,
    pub username: String,
    pub comment: Option<String>,
    pub created: Option<String>,
    pub changed: Option<String>,
    pub entries: Option<Vec<Media>>,
}

/// `Bookmark`, as contracts see it.
pub ghost struct BookmarkView {
    pub position: u64,
    pub username: Seq<char>,
    pub comment: Option<Seq<char>>,
    pub created: Option<Seq<char>>,
    pub changed: Option<Seq<char>>,
    pub entries: Option<Seq<MediaView>>,
}

impl DeepView for Bookmark {
    type V = BookmarkView;

    open spec fn deep_view(&self) -> BookmarkView {
        BookmarkView {
            position: self.position,
            username: self.username.deep_view(),
            comment: self.comment.deep_view(),
            created: self.created.deep_view(),
            changed: self.changed.deep_view(),
            entries: self.entries.deep_view(),
        }
    }
}

impl Bookmark {
    /// What an element with these attributes and children decodes to,
    /// whatever the element is called. The fields are bound in the order in
    /// which the type lists them, and the first that cannot be bound gives the
    /// error.
    #[verifier::opaque]
    pub open spec fn spec_decode(attrs: Seq<AttributeView>, children: Seq<NodeView>) -> Result<
        BookmarkView,
        DecodeError,
    > {
        let position = u64_field(attrs, "position"@);
        let username = text_field(attrs, "username"@);
        let entries = optional_list::<Media>(children, None);
        if position is Err {
            Err(position->Err_0)
        } else if username is Err {
            Err(username->Err_0)
        } else if entries is Err {
            Err(entries->Err_0)
        } else {
            Ok(
                BookmarkView {
                    position: position->Ok_0,
                    username: username->Ok_0,
                    comment: find_attr(attrs, "comment"@),
                    created: find_attr(attrs, "created"@),
                    changed: find_attr(attrs, "changed"@),
                    entries: entries->Ok_0,
                },
            )
        }
    }

    /// Decodes an element, whatever it is called.
    pub fn decode(e: &Element) -> (r: Result<Bookmark, DecodeError>)
        ensures
            ok_view(r) == Self::spec_decode(e.deep_view().attributes, e.deep_view().children),
    {
        proof {
            reveal(Bookmark::spec_decode);
            lemma_children_view(e);
        }
        let a = &e.attributes;
        let c = &e.children;
        let position = u64_attr(a, "position")?;
        let username = text_attr(a, "username")?;
        let comment = opt_text_attr(a, "comment");
        let created = opt_text_attr(a, "created");
        let changed = opt_text_attr(a, "changed");
        let entries = decode_list::<Media>(c, None)?;
        Ok(Bookmark { position, username, comment, created, changed, entries })
    }
}

impl FromElement for Bookmark {
    open spec fn spec_from_element(e: ElementView) -> Result<BookmarkView, DecodeError> {
        Bookmark::spec_decode(e.attributes, e.children)
    }

    fn from_element(e: &Element) -> (r: Result<Bookmark, DecodeError>) {
        Bookmark::decode(e)
    }
}

/// The state of the jukebox and what it is set to play. The gain is kept as the
/// decimal text that the server sent.
#[derive(Debug, Default, PartialEq)]
pub struct JukeboxPlaylist {
    pub current_index: u64,
    pub playing: bool,
    pub gain: String,
    pub position: u64,
    pub list: Option<Vec<Media>>,
}

/// `JukeboxPlaylist`, as contracts see it.
pub ghost struct JukeboxPlaylistView {
    pub current_index: u64,
    pub playing: bool,
    pub gain: Seq<char>,
    pub position: u64,
    pub list: Option<Seq<MediaView>>,
}

impl DeepView for JukeboxPlaylist {
    type V = JukeboxPlaylistView;

    open spec fn deep_view(&self) -> JukeboxPlaylistView {
        JukeboxPlaylistView {
            current_index: self.current_index,
            playing: self.playing,
            gain: self.gain.deep_view(),
            position: self.position,
            list: self.list.deep_view(),
        }
    }
}

impl JukeboxPlaylist {
    /// What an element with these attributes and children decodes to,
    /// whatever the element is called. The fields are bound in the order in
    /// which the type lists them, and the first that cannot be bound gives the
    /// error.
    #[verifier::opaque]
    pub open spec fn spec_decode(attrs: Seq<AttributeView>, children: Seq<NodeView>) -> Result<
        JukeboxPlaylistView,
        DecodeError,
    > {
        let current_index = u64_field(attrs, "currentIndex"@);
        let playing = bool_field(attrs, "playing"@);
        let gain = text_field(attrs, "gain"@);
        let position = u64_field(attrs, "position"@);
        let list = optional_list::<Media>(children, None);
        if current_index is Err {
            Err(current_index->Err_0)
        } else if playing is Err {
            Err(playing->Err_0)
        } else if gain is Err {
            Err(gain->Err_0)
        } else if position is Err {
            Err(position->Err_0)
        } else if list is Err {
            Err(list->Err_0)
        } else {
            Ok(
                JukeboxPlaylistView {
                    current_index: current_index->Ok_0,
                    playing: playing->Ok_0,
                    gain: gain->Ok_0,
                    position: position->Ok_0,
                    list: list->Ok_0,
                },
            )
        }
    }

    /// Decodes an element, whatever it is called.
    pub fn decode(e: &Element) -> (r: Result<JukeboxPlaylist, DecodeError>)
        ensures
            ok_view(r) == Self::spec_decode(e.deep_view().attributes, e.deep_view().children),
    {
        proof {
            reveal(JukeboxPlaylist::spec_decode);
            lemma_children_view(e);
        }
        let a = &e.attributes;
        let c = &e.children;
        let current_index = u64_attr(a, "currentIndex")?;
        let playing = bool_attr(a, "playing")?;
        let gain = text_attr(a, "gain")?;
        let position = u64_attr(a, "position")?;
        let list = decode_list::<Media>(c, None)?;
        Ok(JukeboxPlaylist { current_index, playing, gain, position, list })
    }
}

impl FromElement for JukeboxPlaylist {
    open spec fn spec_from_element(e: ElementView) -> Result<JukeboxPlaylistView, DecodeError> {
        JukeboxPlaylist::spec_decode(e.attributes, e.children)
    }

    fn from_element(e: &Element) -> (r: Result<JukeboxPlaylist, DecodeError>) {
        JukeboxPlaylist::decode(e)
    }
}
} // verus!
