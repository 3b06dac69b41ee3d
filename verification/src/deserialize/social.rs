//! Users and what they share: chat, shares, radio stations, podcasts, videos.

use crate::deserialize::media::{Media, MediaView};
use crate::error::DecodeError;
use crate::fields::{
    bool_attr, bool_field, decode_list, find_attr, ok_view, opt_text_attr, optional_list,
    text_attr, text_field, u32_attr, u32_field, u64_attr, u64_field, FromElement,
};
use crate::text::text_eq;
use crate::xml::{lemma_children_view, AttributeView, Element, ElementView, NodeView};
use vstd::prelude::*;

verus! {

/// A chat message.
#[derive(Debug, Default, PartialEq)]
pub struct ChatMessage {
    pub username: String,
    pub time: u64,
    pub message: String,
}

/// `ChatMessage`, as contracts see it.
pub ghost struct ChatMessageView {
    pub username: Seq<char>,
    pub time: u64,
    pub message: Seq<char>,
}

impl DeepView for ChatMessage {
    type V = ChatMessageView;

    open spec fn deep_view(&self) -> ChatMessageView {
        ChatMessageView {
            username: self.username.deep_view(),
            time: self.time,
            message: self.message.deep_view(),
        }
    }
}

impl ChatMessage {
    /// What an element with these attributes and children decodes to,
    /// whatever the element is called. The fields are bound in the order in
    /// which the type lists them, and the first that cannot be bound gives the
    /// error.
    #[verifier::opaque]
    pub open spec fn spec_decode(attrs: Seq<AttributeView>, children: Seq<NodeView>) -> Result<
        ChatMessageView,
        DecodeError,
    > {
        let username = text_field(attrs, "username"@);
        let time = u64_field(attrs, "time"@);
        let message = text_field(attrs, "message"@);
        if username is Err {
            Err(username->Err_0)
        } else if time is Err {
            Err(time->Err_0)
        } else if message is Err {
            Err(message->Err_0)
        } else {
            Ok(
                ChatMessageView {
                    username: username->Ok_0,
                    time: time->Ok_0,
                    message: message->Ok_0,
                },
            )
        }
    }

    /// Decodes an element, whatever it is called.
    pub fn decode(e: &Element) -> (r: Result<ChatMessage, DecodeError>)
        ensures
            ok_view(r) == Self::spec_decode(e.deep_view().attributes, e.deep_view().children),
    {
        proof {
            reveal(ChatMessage::spec_decode);
            lemma_children_view(e);
        }
        let a = &e.attributes;
        let username = text_attr(a, "username")?;
        let time = u64_attr(a, "time")?;
        let message = text_attr(a, "message")?;
        Ok(ChatMessage { username, time, message })
    }
}

impl FromElement for ChatMessage {
    open spec fn spec_from_element(e: ElementView) -> Result<ChatMessageView, DecodeError> {
        ChatMessage::spec_decode(e.attributes, e.children)
    }

    fn from_element(e: &Element) -> (r: Result<ChatMessage, DecodeError>) {
        ChatMessage::decode(e)
    }
}

/// A public share of media files.
#[derive(Debug, Default, PartialEq)]
pub struct Share {
    pub created: String,
    pub id: u64,
    pub url: String,
    pub username: String,
    pub visit_count: u32,
    pub description: Option<String>,
    pub last_visited: Option<String>,
    pub expires: Option<String>,
    pub entries: Option<Vec<Media>>,
}

/// `Share`, as contracts see it.
pub ghost struct ShareView {
    pub created: Seq<char>,
    pub id: u64,
    pub url: Seq<char>,
    pub username: Seq<char>,
    pub visit_count: u32,
    pub description: Option<Seq<char>>,
    pub last_visited: Option<Seq<char>>,
    pub expires: Option<Seq<char>>,
    pub entries: Option<Seq<MediaView>>,
}

impl DeepView for Share {
    type V = ShareView;

    open spec fn deep_view(&self) -> ShareView {
        ShareView {
            created: self.created.deep_view(),
            id: self.id,
            url: self.url.deep_view(),
            username: self.username.deep_view(),
            visit_count: self.visit_count,
            description: self.description.deep_view(),
            last_visited: self.last_visited.deep_view(),
            expires: self.expires.deep_view(),
            entries: self.entries.deep_view(),
        }
    }
}

impl Share {
    /// What an element with these attributes and children decodes to,
    /// whatever the element is called. The fields are bound in the order in
    /// which the type lists them, and the first that cannot be bound gives the
    /// error.
    #[verifier::opaque]
    pub open spec fn spec_decode(attrs: Seq<AttributeView>, children: Seq<NodeView>) -> Result<
        ShareView,
        DecodeError,
    > {
        let created = text_field(attrs, "created"@);
        let id = u64_field(attrs, "id"@);
        let url = text_field(attrs, "url"@);
        let username = text_field(attrs, "username"@);
        let visit_count = u32_field(attrs, "visitCount"@);
        let entries = optional_list::<Media>(children, None);
        if created is Err {
            Err(created->Err_0)
        } else if id is Err {
            Err(id->Err_0)
        } else if url is Err {
            Err(url->Err_0)
        } else if username is Err {
            Err(username->Err_0)
        } else if visit_count is Err {
            Err(visit_count->Err_0)
        } else if entries is Err {
            Err(entries->Err_0)
        } else {
            Ok(
                ShareView {
                    created: created->Ok_0,
                    id: id->Ok_0,
                    url: url->Ok_0,
                    username: username->Ok_0,
                    visit_count: visit_count->Ok_0,
                    description: find_attr(attrs, "description"@),
                    last_visited: find_attr(attrs, "lastVisited"@),
                    expires: find_attr(attrs, "expires"@),
                    entries: entries->Ok_0,
                },
            )
        }
    }

    /// Decodes an element, whatever it is called.
    pub fn decode(e: &Element) -> (r: Result<Share, DecodeError>)
        ensures
            ok_view(r) == Self::spec_decode(e.deep_view().attributes, e.deep_view().children),
    {
        proof {
            reveal(Share::spec_decode);
            lemma_children_view(e);
        }
        let a = &e.attributes;
        let c = &e.children;
        let created = text_attr(a, "created")?;
        let id = u64_attr(a, "id")?;
        let url = text_attr(a, "url")?;
        let username = text_attr(a, "username")?;
        let visit_count = u32_attr(a, "visitCount")?;
        let description = opt_text_attr(a, "description");
        let last_visited = opt_text_attr(a, "lastVisited");
        let expires = opt_text_attr(a, "expires");
        let entries = decode_list::<Media>(c, None)?;
        Ok(
            Share {
                created,
                id,
                url,
                username,
                visit_count,
                description,
                last_visited,
                expires,
                entries,
            },
        )
    }
}

impl FromElement for Share {
    open spec fn spec_from_element(e: ElementView) -> Result<ShareView, DecodeError> {
        Share::spec_decode(e.attributes, e.children)
    }

    fn from_element(e: &Element) -> (r: Result<Share, DecodeError>) {
        Share::decode(e)
    }
}

/// A user: what the user may do, and the folders the user is restricted to.
#[derive(Debug, Default, PartialEq)]
pub struct User {
    pub admin_role: bool,
    pub comment_role: bool,
    pub cover_art_role: bool,
    pub download_role: bool,
    pub jukebox_role: bool,
    pub playlist_role: bool,
    pub podcast_role: bool,
    pub scrobbling_enabled: bool,
    pub settings_role: bool,
    pub share_role: bool,
    pub stream_role: bool,
    pub upload_role: bool,
    pub username: String,
    pub email: Option<String>,
    pub folders: Option<Vec<u32>>,
}

/// `User`, as contracts see it.
pub ghost struct UserView {
    pub admin_role: bool,
    pub comment_role: bool,
    pub cover_art_role: bool,
    pub download_role: bool,
    pub jukebox_role: bool,
    pub playlist_role: bool,
    pub podcast_role: bool,
    pub scrobbling_enabled: bool,
    pub settings_role: bool,
    pub share_role: bool,
    pub stream_role: bool,
    pub upload_role: bool,
    pub username: Seq<char>,
    pub email: Option<Seq<char>>,
    pub folders: Option<Seq<u32>>,
}

impl DeepView for User {
    type V = UserView;

    open spec fn deep_view(&self) -> UserView {
        UserView {
            admin_role: self.admin_role,
            comment_role: self.comment_role,
            cover_art_role: self.cover_art_role,
            download_role: self.download_role,
            jukebox_role: self.jukebox_role,
            playlist_role: self.playlist_role,
            podcast_role: self.podcast_role,
            scrobbling_enabled: self.scrobbling_enabled,
            settings_role: self.settings_role,
            share_role: self.share_role,
            stream_role: self.stream_role,
            upload_role: self.upload_role,
            username: self.username.deep_view(),
            email: self.email.deep_view(),
            folders: self.folders.deep_view(),
        }
    }
}

impl User {
    /// What an element with these attributes and children decodes to,
    /// whatever the element is called. The fields are bound in the order in
    /// which the type lists them, and the first that cannot be bound gives the
    /// error.
    #[verifier::opaque]
    pub open spec fn spec_decode(attrs: Seq<AttributeView>, children: Seq<NodeView>) -> Result<
        UserView,
        DecodeError,
    > {
        let admin_role = bool_field(attrs, "adminRole"@);
        let comment_role = bool_field(attrs, "commentRole"@);
        let cover_art_role = bool_field(attrs, "coverArtRole"@);
        let download_role = bool_field(attrs, "downloadRole"@);
        let jukebox_role = bool_field(attrs, "jukeboxRole"@);
        let playlist_role = bool_field(attrs, "playlistRole"@);
        let podcast_role = bool_field(attrs, "podcastRole"@);
        let scrobbling_enabled = bool_field(attrs, "scrobblingEnabled"@);
        let settings_role = bool_field(attrs, "settingsRole"@);
        let share_role = bool_field(attrs, "shareRole"@);
        let stream_role = bool_field(attrs, "streamRole"@);
        let upload_role = bool_field(attrs, "uploadRole"@);
        let username = text_field(attrs, "username"@);
        let folders = optional_list::<u32>(children, None);
        if admin_role is Err {
            Err(admin_role->Err_0)
        } else if comment_role is Err {
            Err(comment_role->Err_0)
        } else if cover_art_role is Err {
            Err(cover_art_role->Err_0)
        } else if download_role is Err {
            Err(download_role->Err_0)
        } else if jukebox_role is Err {
            Err(jukebox_role->Err_0)
        } else if playlist_role is Err {
            Err(playlist_role->Err_0)
        } else if podcast_role is Err {
            Err(podcast_role->Err_0)
        } else if scrobbling_enabled is Err {
            Err(scrobbling_enabled->Err_0)
        } else if settings_role is Err {
            Err(settings_role->Err_0)
        } else if share_role is Err {
            Err(share_role->Err_0)
        } else if stream_role is Err {
            Err(stream_role->Err_0)
        } else if upload_role is Err {
            Err(upload_role->Err_0)
        } else if username is Err {
            Err(username->Err_0)
        } else if folders is Err {
            Err(folders->Err_0)
        } else {
            Ok(
                UserView {
                    admin_role: admin_role->Ok_0,
                    comment_role: comment_role->Ok_0,
                    cover_art_role: cover_art_role->Ok_0,
                    download_role: download_role->Ok_0,
                    jukebox_role: jukebox_role->Ok_0,
                    playlist_role: playlist_role->Ok_0,
                    podcast_role: podcast_role->Ok_0,
                    scrobbling_enabled: scrobbling_enabled->Ok_0,
                    settings_role: settings_role->Ok_0,
                    share_role: share_role->Ok_0,
                    stream_role: stream_role->Ok_0,
                    upload_role: upload_role->Ok_0,
                    username: username->Ok_0,
                    email: find_attr(attrs, "email"@),
                    folders: folders->Ok_0,
                },
            )
        }
    }

    /// Decodes an element, whatever it is called.
    pub fn decode(e: &Element) -> (r: Result<User, DecodeError>)
        ensures
            ok_view(r) == Self::spec_decode(e.deep_view().attributes, e.deep_view().children),
    {
        proof {
            reveal(User::spec_decode);
            lemma_children_view(e);
        }
        let a = &e.attributes;
        let c = &e.children;
        let admin_role = bool_attr(a, "adminRole")?;
        let comment_role = bool_attr(a, "commentRole")?;
        let cover_art_role = bool_attr(a, "coverArtRole")?;
        let download_role = bool_attr(a, "downloadRole")?;
        let jukebox_role = bool_attr(a, "jukeboxRole")?;
        let playlist_role = bool_attr(a, "playlistRole")?;
        let podcast_role = bool_attr(a, "podcastRole")?;
        let scrobbling_enabled = bool_attr(a, "scrobblingEnabled")?;
        let settings_role = bool_attr(a, "settingsRole")?;
        let share_role = bool_attr(a, "shareRole")?;
        let stream_role = bool_attr(a, "streamRole")?;
        let upload_role = bool_attr(a, "uploadRole")?;
        let username = text_attr(a, "username")?;
        let email = opt_text_attr(a, "email");
        let folders = decode_list::<u32>(c, None)?;
        Ok(
            User {
                admin_role,
                comment_role,
                cover_art_role,
                download_role,
                jukebox_role,
                playlist_role,
                podcast_role,
                scrobbling_enabled,
                settings_role,
                share_role,
                stream_role,
                upload_role,
                username,
                email,
                folders,
            },
        )
    }
}

impl FromElement for User {
    open spec fn spec_from_element(e: ElementView) -> Result<UserView, DecodeError> {
        User::spec_decode(e.attributes, e.children)
    }

    fn from_element(e: &Element) -> (r: Result<User, DecodeError>) {
        User::decode(e)
    }
}

/// An internet radio station.
#[derive(Debug, Default, PartialEq)]
pub struct Radio {
    pub id: u64,
    pub name: String,
    pub stream_url: String,
    pub home_page_url: Option<String>,
}

/// `Radio`, as contracts see it.
pub ghost struct RadioView {
    pub id: u64,
    pub name: Seq<char>,
    pub stream_url: Seq<char>,
    pub home_page_url: Option<Seq<char>>,
}

impl DeepView for Radio {
    type V = RadioView;

    open spec fn deep_view(&self) -> RadioView {
        RadioView {
            id: self.id,
            name: self.name.deep_view(),
            stream_url: self.stream_url.deep_view(),
            home_page_url: self.home_page_url.deep_view(),
        }
    }
}

impl Radio {
    /// What an element with these attributes and children decodes to,
    /// whatever the element is called. The fields are bound in the order in
    /// which the type lists them, and the first that cannot be bound gives the
    /// error.
    #[verifier::opaque]
    pub open spec fn spec_decode(attrs: Seq<AttributeView>, children: Seq<NodeView>) -> Result<
        RadioView,
        DecodeError,
    > {
        let id = u64_field(attrs, "id"@);
        let name = text_field(attrs, "name"@);
        let stream_url = text_field(attrs, "streamUrl"@);
        if id is Err {
            Err(id->Err_0)
        } else if name is Err {
            Err(name->Err_0)
        } else if stream_url is Err {
            Err(stream_url->Err_0)
        } else {
            Ok(
                RadioView {
                    id: id->Ok_0,
                    name: name->Ok_0,
                    stream_url: stream_url->Ok_0,
                    home_page_url: find_attr(attrs, "homePageUrl"@),
                },
            )
        }
    }

    /// Decodes an element, whatever it is called.
    pub fn decode(e: &Element) -> (r: Result<Radio, DecodeError>)
        ensures
            ok_view(r) == Self::spec_decode(e.deep_view().attributes, e.deep_view().children),
    {
        proof {
            reveal(Radio::spec_decode);
            lemma_children_view(e);
        }
        let a = &e.attributes;
        let id = u64_attr(a, "id")?;
        let name = text_attr(a, "name")?;
        let stream_url = text_attr(a, "streamUrl")?;
        let home_page_url = opt_text_attr(a, "homePageUrl");
        Ok(Radio { id, name, stream_url, home_page_url })
    }
}

impl FromElement for Radio {
    open spec fn spec_from_element(e: ElementView) -> Result<RadioView, DecodeError> {
        Radio::spec_decode(e.attributes, e.children)
    }

    fn from_element(e: &Element) -> (r: Result<Radio, DecodeError>) {
        Radio::decode(e)
    }
}

/// A podcast channel, with its episodes where the server sent them.
#[derive(Debug, Default, PartialEq)]
pub struct Channel {
    pub id: u64,
    pub status: String,
    pub url: String,
    pub cover_art: Option<String>,
    pub description: Option<String>,
    pub error_message: Option<String>,
    pub original_image_url: Option<String>,
    pub title: Option<String>,
    pub episodes: Option<Vec<Media>>,
}

/// `Channel`, as contracts see it.
pub ghost struct ChannelView {
    pub id: u64,
    pub status: Seq<char>,
    pub url: Seq<char>,
    pub cover_art: Option<Seq<char>>,
    pub description: Option<Seq<char>>,
    pub error_message: Option<Seq<char>>,
    pub original_image_url: Option<Seq<char>>,
    pub title: Option<Seq<char>>,
    pub episodes: Option<Seq<MediaView>>,
}

impl DeepView for Channel {
    type V = ChannelView;

    open spec fn deep_view(&self) -> ChannelView {
        ChannelView {
            id: self.id,
            status: self.status.deep_view(),
            url: self.url.deep_view(),
            cover_art: self.cover_art.deep_view(),
            description: self.description.deep_view(),
            error_message: self.error_message.deep_view(),
            original_image_url: self.original_image_url.deep_view(),
            title: self.title.deep_view(),
            episodes: self.episodes.deep_view(),
        }
    }
}

impl Channel {
    /// What an element with these attributes and children decodes to,
    /// whatever the element is called. The fields are bound in the order in
    /// which the type lists them, and the first that cannot be bound gives the
    /// error.
    #[verifier::opaque]
    pub open spec fn spec_decode(attrs: Seq<AttributeView>, children: Seq<NodeView>) -> Result<
        ChannelView,
        DecodeError,
    > {
        let id = u64_field(attrs, "id"@);
        let status = text_field(attrs, "status"@);
        let url = text_field(attrs, "url"@);
        let episodes = optional_list::<Media>(children, None);
        if id is Err {
            Err(id->Err_0)
        } else if status is Err {
            Err(status->Err_0)
        } else if url is Err {
            Err(url->Err_0)
        } else if episodes is Err {
            Err(episodes->Err_0)
        } else {
            Ok(
                ChannelView {
                    id: id->Ok_0,
                    status: status->Ok_0,
                    url: url->Ok_0,
                    cover_art: find_attr(attrs, "coverArt"@),
                    description: find_attr(attrs, "description"@),
                    error_message: find_attr(attrs, "errorMessage"@),
                    original_image_url: find_attr(attrs, "originalImageUrl"@),
                    title: find_attr(attrs, "title"@),
                    episodes: episodes->Ok_0,
                },
            )
        }
    }

    /// Decodes an element, whatever it is called.
    pub fn decode(e: &Element) -> (r: Result<Channel, DecodeError>)
        ensures
            ok_view(r) == Self::spec_decode(e.deep_view().attributes, e.deep_view().children),
    {
        proof {
            reveal(Channel::spec_decode);
            lemma_children_view(e);
        }
        let a = &e.attributes;
        let c = &e.children;
        let id = u64_attr(a, "id")?;
        let status = text_attr(a, "status")?;
        let url = text_attr(a, "url")?;
        let cover_art = opt_text_attr(a, "coverArt");
        let description = opt_text_attr(a, "description");
        let error_message = opt_text_attr(a, "errorMessage");
        let original_image_url = opt_text_attr(a, "originalImageUrl");
        let title = opt_text_attr(a, "title");
        let episodes = decode_list::<Media>(c, None)?;
        Ok(
            Channel {
                id,
                status,
                url,
                cover_art,
                description,
                error_message,
                original_image_url,
                title,
                episodes,
            },
        )
    }
}

impl FromElement for Channel {
    open spec fn spec_from_element(e: ElementView) -> Result<ChannelView, DecodeError> {
        Channel::spec_decode(e.attributes, e.children)
    }

    fn from_element(e: &Element) -> (r: Result<Channel, DecodeError>) {
        Channel::decode(e)
    }
}

/// One property of a video.
#[derive(Debug, PartialEq)]
pub enum VideoProperties {
    /// An `audioTrack` element.
    AudioTrack {
        id: u64,
        name: String,
        language_code: String,
    },
    /// A `captions` element.
    Captions {
        id: u64,
        name: String,
    },
    /// A `conversion` element.
    Conversion {
        id: u64,
        bit_rate: u32,
    },
}

/// `VideoProperties`, as contracts see it.
pub ghost enum VideoPropertiesView {
    AudioTrack {
        id: u64,
        name: Seq<char>,
        language_code: Seq<char>,
    },
    Captions {
        id: u64,
        name: Seq<char>,
    },
    Conversion {
        id: u64,
        bit_rate: u32,
    },
}

impl DeepView for VideoProperties {
    type V = VideoPropertiesView;

    open spec fn deep_view(&self) -> VideoPropertiesView {
        match self {
            VideoProperties::AudioTrack {
                id,
                name,
                language_code,
            } => VideoPropertiesView::AudioTrack {
                id: *id,
                name: name.deep_view(),
                language_code: language_code.deep_view(),
            },
            VideoProperties::Captions { id, name } => VideoPropertiesView::Captions {
                id: *id,
                name: name.deep_view(),
            },
            VideoProperties::Conversion { id, bit_rate } => VideoPropertiesView::Conversion {
                id: *id,
                bit_rate: *bit_rate,
            },
        }
    }
}

impl FromElement for VideoProperties {
    open spec fn spec_from_element(e: ElementView) -> Result<VideoPropertiesView, DecodeError> {
        let attrs = e.attributes;
        let children = e.children;
        if e.name == "audioTrack"@ {
            let id = u64_field(attrs, "id"@);
            let name = text_field(attrs, "name"@);
            let language_code = text_field(attrs, "languageCode"@);
            if id is Err {
                Err(id->Err_0)
            } else if name is Err {
                Err(name->Err_0)
            } else if language_code is Err {
                Err(language_code->Err_0)
            } else {
                Ok(
                    VideoPropertiesView::AudioTrack {
                        id: id->Ok_0,
                        name: name->Ok_0,
                        language_code: language_code->Ok_0,
                    },
                )
            }
        } else if e.name == "captions"@ {
            let id = u64_field(attrs, "id"@);
            let name = text_field(attrs, "name"@);
            if id is Err {
                Err(id->Err_0)
            } else if name is Err {
                Err(name->Err_0)
            } else {
                Ok(
                    VideoPropertiesView::Captions {
                        id: id->Ok_0,
                        name: name->Ok_0,
                    },
                )
            }
        } else if e.name == "conversion"@ {
            let id = u64_field(attrs, "id"@);
            let bit_rate = u32_field(attrs, "bitRate"@);
            if id is Err {
                Err(id->Err_0)
            } else if bit_rate is Err {
                Err(bit_rate->Err_0)
            } else {
                Ok(
                    VideoPropertiesView::Conversion {
                        id: id->Ok_0,
                        bit_rate: bit_rate->Ok_0,
                    },
                )
            }
        } else {
            Err(DecodeError::UnknownVariant)
        }
    }

    fn from_element(e: &Element) -> (r: Result<VideoProperties, DecodeError>) {
        proof {
            lemma_children_view(e);
        }
        let a = &e.attributes;
        let c = &e.children;
        if text_eq(e.name.as_str(), "audioTrack") {
            let id = u64_attr(a, "id")?;
            let name = text_attr(a, "name")?;
            let language_code = text_attr(a, "languageCode")?;
            Ok(VideoProperties::AudioTrack { id, name, language_code })
        } else if text_eq(e.name.as_str(), "captions") {
            let id = u64_attr(a, "id")?;
            let name = text_attr(a, "name")?;
            Ok(VideoProperties::Captions { id, name })
        } else if text_eq(e.name.as_str(), "conversion") {
            let id = u64_attr(a, "id")?;
            let bit_rate = u32_attr(a, "bitRate")?;
            Ok(VideoProperties::Conversion { id, bit_rate })
        } else {
            Err(DecodeError::UnknownVariant)
        }
    }
}

/// What is known of a video: its audio tracks, captions and conversions.
#[derive(Debug, Default, PartialEq)]
pub struct VideoInfo {
    pub id: u64,
    pub properties: Option<Vec<VideoProperties>>,
}

/// `VideoInfo`, as contracts see it.
pub ghost struct VideoInfoView {
    pub id: u64,
    pub properties: Option<Seq<VideoPropertiesView>>,
}

impl DeepView for VideoInfo {
    type V = VideoInfoView;

    open spec fn deep_view(&self) -> VideoInfoView {
        VideoInfoView {
            id: self.id,
            properties: self.properties.deep_view(),
        }
    }
}

impl VideoInfo {
    /// What an element with these attributes and children decodes to,
    /// whatever the element is called. The fields are bound in the order in
    /// which the type lists them, and the first that cannot be bound gives the
    /// error.
    #[verifier::opaque]
    pub open spec fn spec_decode(attrs: Seq<AttributeView>, children: Seq<NodeView>) -> Result<
        VideoInfoView,
        DecodeError,
    > {
        let id = u64_field(attrs, "id"@);
        let properties = optional_list::<VideoProperties>(children, None);
        if id is Err {
            Err(id->Err_0)
        } else if properties is Err {
            Err(properties->Err_0)
        } else {
            Ok(
                VideoInfoView {
                    id: id->Ok_0,
                    properties: properties->Ok_0,
                },
            )
        }
    }

    /// Decodes an element, whatever it is called.
    pub fn decode(e: &Element) -> (r: Result<VideoInfo, DecodeError>)
        ensures
            ok_view(r) == Self::spec_decode(e.deep_view().attributes, e.deep_view().children),
    {
        proof {
            reveal(VideoInfo::spec_decode);
            lemma_children_view(e);
        }
        let a = &e.attributes;
        let c = &e.children;
        let id = u64_attr(a, "id")?;
        let properties = decode_list::<VideoProperties>(c, None)?;
        Ok(VideoInfo { id, properties })
    }
}

impl FromElement for VideoInfo {
    open spec fn spec_from_element(e: ElementView) -> Result<VideoInfoView, DecodeError> {
        VideoInfo::spec_decode(e.attributes, e.children)
    }

    fn from_element(e: &Element) -> (r: Result<VideoInfo, DecodeError>) {
        VideoInfo::decode(e)
    }
}
} // verus!
