//! Indexes of artists and the results of a search.

use crate::deserialize::media::{Artist, ArtistView, Media, MediaView};
use crate::error::DecodeError;
use crate::fields::{
    decode_list, find_attr, ok_view, opt_text_attr, opt_u32_attr, opt_u32_field, optional_list,
    text_attr, text_field, u64_attr, u64_field, FromElement,
};
use crate::text::text_eq;
use crate::xml::{lemma_children_view, AttributeView, Element, ElementView, NodeView};
use vstd::prelude::*;

verus! {

/// The artists filed under one heading.
#[derive(Debug, Default, PartialEq)]
pub struct Index {
    pub name: String,
    pub artists: Option<Vec<Artist>>,
}

/// `Index`, as contracts see it.
pub ghost struct IndexView {
    pub name: Seq<char>,
    pub artists: Option<Seq<ArtistView>>,
}

impl DeepView for Index {
    type V = IndexView;

    open spec fn deep_view(&self) -> IndexView {
        IndexView {
            name: self.name.deep_view(),
            artists: self.artists.deep_view(),
        }
    }
}

impl Index {
    /// What an element with these attributes and children decodes to,
    /// whatever the element is called. The fields are bound in the order in
    /// which the type lists them, and the first that cannot be bound gives the
    /// error.
    #[verifier::opaque]
    pub open spec fn spec_decode(attrs: Seq<AttributeView>, children: Seq<NodeView>) -> Result<
        IndexView,
        DecodeError,
    > {
        let name = text_field(attrs, "name"@);
        let artists = optional_list::<Artist>(children, None);
        if name is Err {
            Err(name->Err_0)
        } else if artists is Err {
            Err(artists->Err_0)
        } else {
            Ok(
                IndexView {
                    name: name->Ok_0,
                    artists: artists->Ok_0,
                },
            )
        }
    }

    /// Decodes an element, whatever it is called.
    pub fn decode(e: &Element) -> (r: Result<Index, DecodeError>)
        ensures
            ok_view(r) == Self::spec_decode(e.deep_view().attributes, e.deep_view().children),
    {
        proof {
            reveal(Index::spec_decode);
            lemma_children_view(e);
        }
        let a = &e.attributes;
        let c = &e.children;
        let name = text_attr(a, "name")?;
        let artists = decode_list::<Artist>(c, None)?;
        Ok(Index { name, artists })
    }
}

impl FromElement for Index {
    open spec fn spec_from_element(e: ElementView) -> Result<IndexView, DecodeError> {
        Index::spec_decode(e.attributes, e.children)
    }

    fn from_element(e: &Element) -> (r: Result<Index, DecodeError>) {
        Index::decode(e)
    }
}

/// All artists, grouped by heading.
#[derive(Debug, Default, PartialEq)]
pub struct Artists {
    pub ignored_articles: Option<String>,
    pub indexes: Option<Vec<Index>>,
}

/// `Artists`, as contracts see it.
pub ghost struct ArtistsView {
    pub ignored_articles: Option<Seq<char>>,
    pub indexes: Option<Seq<IndexView>>,
}

impl DeepView for Artists {
    type V = ArtistsView;

    open spec fn deep_view(&self) -> ArtistsView {
        ArtistsView {
            ignored_articles: self.ignored_articles.deep_view(),
            indexes: self.indexes.deep_view(),
        }
    }
}

impl Artists {
    /// What an element with these attributes and children decodes to,
    /// whatever the element is called. The fields are bound in the order in
    /// which the type lists them, and the first that cannot be bound gives the
    /// error.
    #[verifier::opaque]
    pub open spec fn spec_decode(attrs: Seq<AttributeView>, children: Seq<NodeView>) -> Result<
        ArtistsView,
        DecodeError,
    > {
        let indexes = optional_list::<Index>(children, None);
        if indexes is Err {
            Err(indexes->Err_0)
        } else {
            Ok(
                ArtistsView {
                    ignored_articles: find_attr(attrs, "ignoredArticles"@),
                    indexes: indexes->Ok_0,
                },
            )
        }
    }

    /// Decodes an element, whatever it is called.
    pub fn decode(e: &Element) -> (r: Result<Artists, DecodeError>)
        ensures
            ok_view(r) == Self::spec_decode(e.deep_view().attributes, e.deep_view().children),
    {
        proof {
            reveal(Artists::spec_decode);
            lemma_children_view(e);
        }
        let a = &e.attributes;
        let c = &e.children;
        let ignored_articles = opt_text_attr(a, "ignoredArticles");
        let indexes = decode_list::<Index>(c, None)?;
        Ok(Artists { ignored_articles, indexes })
    }
}

impl FromElement for Artists {
    open spec fn spec_from_element(e: ElementView) -> Result<ArtistsView, DecodeError> {
        Artists::spec_decode(e.attributes, e.children)
    }

    fn from_element(e: &Element) -> (r: Result<Artists, DecodeError>) {
        Artists::decode(e)
    }
}

/// One item of the flat index list.
#[derive(Debug, PartialEq)]
pub enum IndexChoice {
    /// A `shortcut` element.
    Shortcut {
        id: u64,
        name: String,
    },
    /// An `index` element: a heading with its artists.
    Index(Index),
    /// A `child` element: a media file at the top level.
    Child(Media),
}

/// `IndexChoice`, as contracts see it.
pub ghost enum IndexChoiceView {
    Shortcut {
        id: u64,
        name: Seq<char>,
    },
    Index(IndexView),
    Child(MediaView),
}

impl DeepView for IndexChoice {
    type V = IndexChoiceView;

    open spec fn deep_view(&self) -> IndexChoiceView {
        match self {
            IndexChoice::Shortcut { id, name } => IndexChoiceView::Shortcut {
                id: *id,
                name: name.deep_view(),
            },
            IndexChoice::Index(v) => IndexChoiceView::Index(v.deep_view()),
            IndexChoice::Child(v) => IndexChoiceView::Child(v.deep_view()),
        }
    }
}

impl FromElement for IndexChoice {
    open spec fn spec_from_element(e: ElementView) -> Result<IndexChoiceView, DecodeError> {
        let attrs = e.attributes;
        let children = e.children;
        if e.name == "shortcut"@ {
            let id = u64_field(attrs, "id"@);
            let name = text_field(attrs, "name"@);
            if id is Err {
                Err(id->Err_0)
            } else if name is Err {
                Err(name->Err_0)
            } else {
                Ok(
                    IndexChoiceView::Shortcut {
                        id: id->Ok_0,
                        name: name->Ok_0,
                    },
                )
            }
        } else if e.name == "index"@ {
            match Index::spec_decode(attrs, children) {
                Ok(v) => Ok(IndexChoiceView::Index(v)),
                Err(x) => Err(x),
            }
        } else if e.name == "child"@ {
            match Media::spec_decode(attrs, children) {
                Ok(v) => Ok(IndexChoiceView::Child(v)),
                Err(x) => Err(x),
            }
        } else {
            Err(DecodeError::UnknownVariant)
        }
    }

    fn from_element(e: &Element) -> (r: Result<IndexChoice, DecodeError>) {
        proof {
            lemma_children_view(e);
        }
        let a = &e.attributes;
        let c = &e.children;
        if text_eq(e.name.as_str(), "shortcut") {
            let id = u64_attr(a, "id")?;
            let name = text_attr(a, "name")?;
            Ok(IndexChoice::Shortcut { id, name })
        } else if text_eq(e.name.as_str(), "index") {
            Ok(IndexChoice::Index(Index::decode(e)?))
        } else if text_eq(e.name.as_str(), "child") {
            Ok(IndexChoice::Child(Media::decode(e)?))
        } else {
            Err(DecodeError::UnknownVariant)
        }
    }
}

/// A flat list that mixes shortcuts, headings and direct children.
#[derive(Debug, Default, PartialEq)]
pub struct Indexes {
    pub last_modified: u64,
    pub ignored_articles: Option<String>,
    pub list: Option<Vec<IndexChoice>>,
}

/// `Indexes`, as contracts see it.
pub ghost struct IndexesView {
    pub last_modified: u64,
    pub ignored_articles: Option<Seq<char>>,
    pub list: Option<Seq<IndexChoiceView>>,
}

impl DeepView for Indexes {
    type V = IndexesView;

    open spec fn deep_view(&self) -> IndexesView {
        IndexesView {
            last_modified: self.last_modified,
            ignored_articles: self.ignored_articles.deep_view(),
            list: self.list.deep_view(),
        }
    }
}

impl Indexes {
    /// What an element with these attributes and children decodes to,
    /// whatever the element is called. The fields are bound in the order in
    /// which the type lists them, and the first that cannot be bound gives the
    /// error.
    #[verifier::opaque]
    pub open spec fn spec_decode(attrs: Seq<AttributeView>, children: Seq<NodeView>) -> Result<
        IndexesView,
        DecodeError,
    > {
        let last_modified = u64_field(attrs, "lastModified"@);
        let list = optional_list::<IndexChoice>(children, None);
        if last_modified is Err {
            Err(last_modified->Err_0)
        } else if list is Err {
            Err(list->Err_0)
        } else {
            Ok(
                IndexesView {
                    last_modified: last_modified->Ok_0,
                    ignored_articles: find_attr(attrs, "ignoredArticles"@),
                    list: list->Ok_0,
                },
            )
        }
    }

    /// Decodes an element, whatever it is called.
    pub fn decode(e: &Element) -> (r: Result<Indexes, DecodeError>)
        ensures
            ok_view(r) == Self::spec_decode(e.deep_view().attributes, e.deep_view().children),
    {
        proof {
            reveal(Indexes::spec_decode);
            lemma_children_view(e);
        }
        let a = &e.attributes;
        let c = &e.children;
        let last_modified = u64_attr(a, "lastModified")?;
        let ignored_articles = opt_text_attr(a, "ignoredArticles");
        let list = decode_list::<IndexChoice>(c, None)?;
        Ok(Indexes { last_modified, ignored_articles, list })
    }
}

impl FromElement for Indexes {
    open spec fn spec_from_element(e: ElementView) -> Result<IndexesView, DecodeError> {
        Indexes::spec_decode(e.attributes, e.children)
    }

    fn from_element(e: &Element) -> (r: Result<Indexes, DecodeError>) {
        Indexes::decode(e)
    }
}

/// The matches of a search, with paging information.
#[derive(Debug, Default, PartialEq)]
pub struct SearchResult {
    pub offset: Option<u32>,
    pub total: Option<u32>,
    pub results: Option<Vec<Media>>,
}

/// `SearchResult`, as contracts see it.
pub ghost struct SearchResultView {
    pub offset: Option<u32>,
    pub total: Option<u32>,
    pub results: Option<Seq<MediaView>>,
}

impl DeepView for SearchResult {
    type V = SearchResultView;

    open spec fn deep_view(&self) -> SearchResultView {
        SearchResultView {
            offset: self.offset,
            total: self.total,
            results: self.results.deep_view(),
        }
    }
}

impl SearchResult {
    /// What an element with these attributes and children decodes to,
    /// whatever the element is called. The fields are bound in the order in
    /// which the type lists them, and the first that cannot be bound gives the
    /// error.
    #[verifier::opaque]
    pub open spec fn spec_decode(attrs: Seq<AttributeView>, children: Seq<NodeView>) -> Result<
        SearchResultView,
        DecodeError,
    > {
        let offset = opt_u32_field(attrs, "offset"@);
        let total = opt_u32_field(attrs, "total"@);
        let results = optional_list::<Media>(children, None);
        if offset is Err {
            Err(offset->Err_0)
        } else if total is Err {
            Err(total->Err_0)
        } else if results is Err {
            Err(results->Err_0)
        } else {
            Ok(
                SearchResultView {
                    offset: offset->Ok_0,
                    total: total->Ok_0,
                    results: results->Ok_0,
                },
            )
        }
    }

    /// Decodes an element, whatever it is called.
    pub fn decode(e: &Element) -> (r: Result<SearchResult, DecodeError>)
        ensures
            ok_view(r) == Self::spec_decode(e.deep_view().attributes, e.deep_view().children),
    {
        proof {
            reveal(SearchResult::spec_decode);
            lemma_children_view(e);
        }
        let a = &e.attributes;
        let c = &e.children;
        let offset = opt_u32_attr(a, "offset")?;
        let total = opt_u32_attr(a, "total")?;
        let results = decode_list::<Media>(c, None)?;
        Ok(SearchResult { offset, total, results })
    }
}

impl FromElement for SearchResult {
    open spec fn spec_from_element(e: ElementView) -> Result<SearchResultView, DecodeError> {
        SearchResult::spec_decode(e.attributes, e.children)
    }

    fn from_element(e: &Element) -> (r: Result<SearchResult, DecodeError>) {
        SearchResult::decode(e)
    }
}
} // verus!
