//! The typed results that a response document decodes to.

pub mod browse;
pub mod envelope;
pub mod info;
pub mod media;
pub mod playlist;
pub mod social;

pub use envelope::{decode, decode_envelope, decode_tokens, ServerError, SubsonicResp};
pub use info::{GenericList, SubsonicInfo, VariantTag};
pub use browse::{Artists, Index, IndexChoice, Indexes, SearchResult};
pub use media::{Album, Artist, Directory, Genre, Media, MusicFolder};
pub use playlist::{Bookmark, Entrires, JukeboxPlaylist, PlayQueue, Playlist};
pub use social::{Channel, ChatMessage, Radio, Share, User, VideoInfo, VideoProperties};
