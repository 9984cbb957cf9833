//! Schema validation of decoded documents.
//!
//! Parsing the wire JSON into shaped records is a collaborator's job; this
//! module owns the catalog's own decode-time contract: classifying a node's
//! free-text kind tag, and checking that every language-keyed mapping carries
//! the primary-language entry downstream consumers read. A violation is a
//! [`CrawlError::Decode`] failure naming the missing entry, never a silent
//! skip.

use vstd::prelude::*;
use crate::catalog::ArticleRecord;
use crate::catalog::CategoryNode;
use crate::catalog::NodeKind;
use crate::catalog::forest_wf;
use crate::error::CrawlError;
use crate::error::MissingField;
use crate::lang::Lang;
use crate::lang::LangMap;
use crate::lang::lang_map_eqv;

verus! {

/// An undecoded category tree node, exactly as the wire gives it: the kind is
/// still a free-text tag and no mapping has been checked yet.
pub struct RawCategoryNode {
    pub id: i64,
    pub parent_id: Option<i64>,
    pub position: i64,
    pub kind_tag: String,
    pub status: String,
    pub titles: LangMap,
    pub children: Vec<RawCategoryNode>,
    pub modified: bool,
}

/// How a kind tag classifies: the two known tags name the two traversal
/// behaviours, any other tag is passed through as `Other`.
pub open spec fn kind_of_tag(tag: Seq<char>) -> NodeKind {
    if tag == "ARTICLE"@ {
        NodeKind::Article
    } else if tag == "CATEGORY"@ {
        NodeKind::Category
    } else {
        NodeKind::Other
    }
}

/// Classifies a node's kind tag.
pub fn tag_kind(tag: &String) -> (k: NodeKind)
    ensures
        k == kind_of_tag(tag@),
{
    let article = String::from_str("ARTICLE");
    let category = String::from_str("CATEGORY");
    if *tag == article {
        NodeKind::Article
    } else if *tag == category {
        NodeKind::Category
    } else {
        NodeKind::Other
    }
}

/// A raw node meets the decode contract when every node of the tree whose
/// tag classifies as `Category` carries a primary-language title.
pub open spec fn raw_node_ok(r: RawCategoryNode) -> bool
    decreases r,
{
    &&& (kind_of_tag(r.kind_tag@) is Category ==> r.titles.has_primary())
    &&& raw_forest_ok(r.children@)
}

/// The decode contract over a forest of raw sibling nodes.
pub open spec fn raw_forest_ok(rs: Seq<RawCategoryNode>) -> bool
    decreases rs,
{
    rs.len() == 0 || (raw_node_ok(rs[0]) && raw_forest_ok(rs.drop_first()))
}

/// `n` is the decoded form of `r`: every field carried over unchanged, the
/// kind tag classified, and the children decoded in order.
pub open spec fn node_decodes_to(r: RawCategoryNode, n: CategoryNode) -> bool
    decreases r,
{
    &&& n.id == r.id
    &&& n.parent_id == r.parent_id
    &&& n.position == r.position
    &&& n.kind == kind_of_tag(r.kind_tag@)
    &&& n.status@ == r.status@
    &&& lang_map_eqv(n.titles, r.titles)
    &&& forest_decodes_to(r.children@, n.children@)
    &&& n.modified == r.modified
}

/// `ns` is the decoded form of `rs`, node for node, in order.
pub open spec fn forest_decodes_to(rs: Seq<RawCategoryNode>, ns: Seq<CategoryNode>) -> bool
    decreases rs,
{
    &&& ns.len() == rs.len()
    &&& (rs.len() == 0 || (node_decodes_to(rs[0], ns[0]) && forest_decodes_to(
        rs.drop_first(),
        ns.drop_first(),
    )))
}

/// The decoded form of a forest that meets the decode contract is a
/// well-formed forest.
pub proof fn lemma_decoded_forest_wf(rs: Seq<RawCategoryNode>, ns: Seq<CategoryNode>)
    requires
        raw_forest_ok(rs),
        forest_decodes_to(rs, ns),
    ensures
        forest_wf(ns),
    decreases rs,
{
    if rs.len() > 0 {
        assert(raw_node_ok(rs[0]) && raw_forest_ok(rs.drop_first()));
        assert(node_decodes_to(rs[0], ns[0]) && forest_decodes_to(rs.drop_first(), ns.drop_first()));
        assert(raw_forest_ok(rs[0].children@));
        assert(forest_decodes_to(rs[0].children@, ns[0].children@));
        lemma_decoded_forest_wf(rs[0].children@, ns[0].children@);
        lemma_decoded_forest_wf(rs.drop_first(), ns.drop_first());
        if ns[0].kind is Category {
            assert(kind_of_tag(rs[0].kind_tag@) is Category);
            assert(rs[0].titles.has_primary());
            assert(ns[0].titles.spec_get(crate::lang::primary_lang()) == rs[0].titles.spec_get(
                crate::lang::primary_lang(),
            ));
        }
        assert(ns[0].wf());
    }
}

/// Decodes one raw node: classifies its tag, checks the decode contract, and
/// decodes the children in order. Fails with the missing-key decode failure
/// exactly when some `Category`-tagged node of the tree has no
/// primary-language title.
pub fn decode_node(r: &RawCategoryNode) -> (res: Result<CategoryNode, CrawlError>)
    ensures
        match res {
            Ok(n) => raw_node_ok(*r) && node_decodes_to(*r, n),
            Err(e) => !raw_node_ok(*r) && e == CrawlError::Decode(MissingField::CategoryTitle),
        },
    decreases *r, 0nat,
{
    let kind = tag_kind(&r.kind_tag);
    if kind == NodeKind::Category {
        if r.titles.get(Lang::Kr).is_none() {
            return Err(CrawlError::Decode(MissingField::CategoryTitle));
        }
    }
    let mut children: Vec<CategoryNode> = Vec::new();
    proof {
        assert(r.children@.skip(0) =~= r.children@);
        assert(forest_decodes_to(Seq::<RawCategoryNode>::empty(), Seq::<CategoryNode>::empty()));
    }
    match decode_children(&r.children, 0, &mut children) {
        Ok(()) => {},
        Err(e) => {
            return Err(e);
        },
    }
    proof {
        assert(children@.skip(0) =~= children@);
        assert(forest_decodes_to(r.children@, children@));
        assert(raw_node_ok(*r));
    }
    Ok(
        CategoryNode {
            id: r.id,
            parent_id: r.parent_id,
            position: r.position,
            kind,
            status: r.status.clone(),
            titles: r.titles.duplicate(),
            children,
            modified: r.modified,
        },
    )
}

/// Decodes the siblings of `raw` from index `from` on, appending the decoded
/// nodes to `out` in order.
fn decode_children(raw: &Vec<RawCategoryNode>, from: usize, out: &mut Vec<CategoryNode>) -> (res:
    Result<(), CrawlError>)
    requires
        from <= raw@.len(),
    ensures
        match res {
            Ok(_) => {
                &&& raw_forest_ok(raw@.skip(from as int))
                &&& final(out)@.len() == old(out)@.len() + raw@.len() - from
                &&& final(out)@.take(old(out)@.len() as int) == old(out)@
                &&& forest_decodes_to(
                    raw@.skip(from as int),
                    final(out)@.skip(old(out)@.len() as int),
                )
            },
            Err(e) => !raw_forest_ok(raw@.skip(from as int)) && e == CrawlError::Decode(
                MissingField::CategoryTitle,
            ),
        },
    decreases raw@, raw@.len() - from + 1,
{
    if from == raw.len() {
        proof {
            assert(raw@.skip(from as int) =~= Seq::<RawCategoryNode>::empty());
            assert(out@.take(out@.len() as int) =~= out@);
            assert(out@.skip(out@.len() as int) =~= Seq::<CategoryNode>::empty());
        }
        return Ok(());
    }
    let ghost rest = raw@.skip(from as int);
    let ghost out0 = out@;
    assert(rest[0] == raw@[from as int]);
    let node = match decode_node(&raw[from]) {
        Ok(n) => n,
        Err(e) => {
            return Err(e);
        },
    };
    out.push(node);
    proof {
        assert(rest.drop_first() =~= raw@.skip(from + 1));
    }
    match decode_children(raw, from + 1, out) {
        Ok(()) => {},
        Err(e) => {
            return Err(e);
        },
    }
    proof {
        let mid = out0.push(node);
        assert(out@.take(mid.len() as int) == mid);
        assert(out@.take(out0.len() as int) =~= out0);
        let suffix = out@.skip(out0.len() as int);
        assert(suffix[0] == out@[out0.len() as int]);
        assert(out@[out0.len() as int] == mid[out0.len() as int]);
        assert(suffix[0] == node);
        assert(suffix.drop_first() =~= out@.skip(out0.len() as int + 1));
        assert(suffix.len() == rest.len());
        assert(forest_decodes_to(rest, suffix));
    }
    Ok(())
}

/// Decodes a whole raw forest. On success the result is the decoded,
/// well-formed forest, node for node in input order; the missing-key decode
/// failure comes exactly when the raw forest breaks the decode contract.
pub fn decode_forest(raw: &Vec<RawCategoryNode>) -> (res: Result<Vec<CategoryNode>, CrawlError>)
    ensures
        match res {
            Ok(ns) => {
                &&& raw_forest_ok(raw@)
                &&& forest_decodes_to(raw@, ns@)
                &&& forest_wf(ns@)
            },
            Err(e) => !raw_forest_ok(raw@) && e == CrawlError::Decode(MissingField::CategoryTitle),
        },
{
    let mut out: Vec<CategoryNode> = Vec::new();
    proof {
        assert(raw@.skip(0) =~= raw@);
    }
    match decode_children(raw, 0, &mut out) {
        Ok(()) => {
            proof {
                assert(out@.skip(0) =~= out@);
                lemma_decoded_forest_wf(raw@, out@);
            }
            Ok(out)
        },
        Err(e) => Err(e),
    }
}

/// The first primary-language entry an article record is missing, in the
/// order the mappings are consumed downstream; `None` when the record is
/// well-formed.
pub open spec fn article_defect(a: ArticleRecord) -> Option<MissingField> {
    if !a.category_titles.has_primary() {
        Some(MissingField::ArticleCategoryTitle)
    } else if !a.titles.has_primary() {
        Some(MissingField::ArticleTitle)
    } else if !a.subtitles.has_primary() {
        Some(MissingField::ArticleSubtitle)
    } else if !a.contents.has_primary() {
        Some(MissingField::ArticleContent)
    } else {
        None
    }
}

/// Checks an article record's decode contract: succeeds exactly on
/// well-formed records, and names the first missing primary-language entry
/// otherwise.
pub fn validate_article(a: &ArticleRecord) -> (res: Result<(), CrawlError>)
    ensures
        match res {
            Ok(_) => a.wf() && article_defect(*a) is None,
            Err(e) => !a.wf() && e == CrawlError::Decode(article_defect(*a)->0),
        },
{
    if a.category_titles.get(Lang::Kr).is_none() {
        return Err(CrawlError::Decode(MissingField::ArticleCategoryTitle));
    }
    if a.titles.get(Lang::Kr).is_none() {
        return Err(CrawlError::Decode(MissingField::ArticleTitle));
    }
    if a.subtitles.get(Lang::Kr).is_none() {
        return Err(CrawlError::Decode(MissingField::ArticleSubtitle));
    }
    if a.contents.get(Lang::Kr).is_none() {
        return Err(CrawlError::Decode(MissingField::ArticleContent));
    }
    Ok(())
}

/// The first decode defect over a sequence of article records, in order;
/// `None` when every record is well-formed.
pub open spec fn first_defect(s: Seq<ArticleRecord>) -> Option<MissingField>
    decreases s.len(),
{
    if s.len() == 0 {
        None
    } else if article_defect(s[0]) is Some {
        article_defect(s[0])
    } else {
        first_defect(s.drop_first())
    }
}

/// Checks every record of a batch in order, failing fast on the first decode
/// defect: succeeds exactly when all records are well-formed.
pub fn validate_articles(arts: &Vec<ArticleRecord>) -> (res: Result<(), CrawlError>)
    ensures
        match res {
            Ok(_) => first_defect(arts@) is None && (forall|i: int|
                0 <= i < arts@.len() ==> (#[trigger] arts@[i]).wf()),
            Err(e) => first_defect(arts@) is Some && e == CrawlError::Decode(
                first_defect(arts@)->0,
            ),
        },
{
    proof {
        assert(arts@.skip(0) =~= arts@);
    }
    validate_articles_from(arts, 0)
}

/// Checks the records of `arts` from index `from` on, in order.
fn validate_articles_from(arts: &Vec<ArticleRecord>, from: usize) -> (res: Result<(), CrawlError>)
    requires
        from <= arts@.len(),
    ensures
        match res {
            Ok(_) => first_defect(arts@.skip(from as int)) is None && (forall|i: int|
                from <= i < arts@.len() ==> (#[trigger] arts@[i]).wf()),
            Err(e) => first_defect(arts@.skip(from as int)) is Some && e == CrawlError::Decode(
                first_defect(arts@.skip(from as int))->0,
            ),
        },
    decreases arts@.len() - from,
{
    if from == arts.len() {
        proof {
            assert(arts@.skip(from as int) =~= Seq::<ArticleRecord>::empty());
        }
        return Ok(());
    }
    let ghost rest = arts@.skip(from as int);
    assert(rest[0] == arts@[from as int]);
    match validate_article(&arts[from]) {
        Ok(()) => {},
        Err(e) => {
            return Err(e);
        },
    }
    proof {
        assert(arts@[from as int].wf());
        assert(rest.drop_first() =~= arts@.skip(from + 1));
    }
    validate_articles_from(arts, from + 1)
}

} // verus!
