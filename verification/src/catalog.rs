//! The catalog's data model: category tree nodes and article records.

use vstd::prelude::*;
use crate::lang::LangMap;

verus! {

/// How a catalog node behaves under traversal. `Category` nodes contribute a
/// display name; `Article` nodes trigger a fetch; `Other` nodes contribute
/// nothing themselves. Children are recursed into regardless of kind.
#[derive(Clone, Copy, Debug, PartialEq, Eq, Structural)]
pub enum NodeKind {
    Category,
    Article,
    Other,
}

/// One node of the category tree.
pub struct CategoryNode {
    pub id: i64,
    pub parent_id: Option<i64>,
    pub position: i64,
    pub kind: NodeKind,
    /// Lifecycle status tag from the source, passed through opaquely.
    pub status: String,
    pub titles: LangMap,
    pub children: Vec<CategoryNode>,
    /// Opaque flag from the source, passed through unchanged.
    pub modified: bool,
}

impl CategoryNode {
    /// Well-formed: a `Category` node carries a primary-language title (it is
    /// consumed when the node's name is collected), and all children are
    /// well-formed in turn.
    pub open spec fn wf(self) -> bool
        decreases self,
    {
        &&& (self.kind is Category ==> self.titles.has_primary())
        &&& forest_wf(self.children@)
    }
}

/// Well-formedness of a whole forest of sibling nodes: every node of the
/// forest, first to last, is well-formed.
pub open spec fn forest_wf(nodes: Seq<CategoryNode>) -> bool
    decreases nodes,
{
    nodes.len() == 0 || (nodes[0].wf() && forest_wf(nodes.drop_first()))
}

/// One attachment entry of an article, passed through opaquely.
#[derive(Clone, Debug)]
pub struct Attachment {
    pub id: i64,
    pub kind_tag: String,
    pub position: i64,
    pub source_url: String,
    pub thumbnail_url: String,
    pub modified: bool,
    pub status: String,
}

/// An article's attachments. Across payload versions the source keys this
/// mapping either by language or by a free-text type tag; both shapes are
/// accepted and kept apart here.
#[derive(Clone, Debug)]
pub enum Attachments {
    ByLang(Vec<(crate::lang::Lang, Vec<Attachment>)>),
    ByType(Vec<(String, Vec<Attachment>)>),
}

/// One fetched article document's payload.
#[derive(Clone, Debug)]
pub struct ArticleRecord {
    pub id: i64,
    pub category_id: i64,
    pub category_titles: LangMap,
    pub status: String,
    pub titles: LangMap,
    pub subtitles: LangMap,
    pub image_url: Option<String>,
    pub attachments: Attachments,
    pub contents: LangMap,
}

impl ArticleRecord {
    /// Well-formed: every language-keyed mapping carries the primary-language
    /// entry that downstream consumers read.
    pub open spec fn wf(self) -> bool {
        &&& self.category_titles.has_primary()
        &&& self.titles.has_primary()
        &&& self.subtitles.has_primary()
        &&& self.contents.has_primary()
    }
}

} // verus!
