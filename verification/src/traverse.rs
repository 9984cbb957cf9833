//! The traversal engine: a depth-first, sibling-order-preserving walk of the
//! category tree.
//!
//! The walk itself is pure: it produces the ordered list of category display
//! names and the ordered fetch plan (one article identifier per article node,
//! in visit order). Fetching the planned articles is the caller's business;
//! [`LiveSession`] keeps the bookkeeping of one live run and says exactly how
//! the delivered records accumulate.

use vstd::prelude::*;
use crate::catalog::CategoryNode;
use crate::catalog::NodeKind;
use crate::catalog::ArticleRecord;
use crate::catalog::forest_wf;

verus! {

/// The character sequences of a vector of strings, in order.
pub open spec fn views_of(ss: Seq<String>) -> Seq<Seq<char>> {
    ss.map_values(|s: String| s@)
}

/// The category display names a depth-first walk of `nodes` collects: each
/// `Category` node contributes its primary-language title before its
/// children, children come before later siblings.
pub open spec fn forest_names(nodes: Seq<CategoryNode>) -> Seq<Seq<char>>
    decreases nodes,
{
    if nodes.len() == 0 {
        Seq::empty()
    } else {
        let own: Seq<Seq<char>> = if nodes[0].kind is Category {
            seq![nodes[0].titles.primary()]
        } else {
            Seq::empty()
        };
        own + forest_names(nodes[0].children@) + forest_names(nodes.drop_first())
    }
}

/// The article identifiers a depth-first walk of `nodes` plans to fetch, in
/// visit order: each `Article` node contributes its own identifier before
/// its children, children come before later siblings.
pub open spec fn forest_article_ids(nodes: Seq<CategoryNode>) -> Seq<i64>
    decreases nodes,
{
    if nodes.len() == 0 {
        Seq::empty()
    } else {
        let own: Seq<i64> = if nodes[0].kind is Article {
            seq![nodes[0].id]
        } else {
            Seq::empty()
        };
        own + forest_article_ids(nodes[0].children@) + forest_article_ids(nodes.drop_first())
    }
}

/// How many `Category` nodes a depth-first walk of `nodes` reaches.
pub open spec fn forest_category_count(nodes: Seq<CategoryNode>) -> nat
    decreases nodes,
{
    if nodes.len() == 0 {
        0
    } else {
        (if nodes[0].kind is Category { 1nat } else { 0nat })
            + forest_category_count(nodes[0].children@)
            + forest_category_count(nodes.drop_first())
    }
}

/// How many `Article` nodes a depth-first walk of `nodes` reaches.
pub open spec fn forest_article_count(nodes: Seq<CategoryNode>) -> nat
    decreases nodes,
{
    if nodes.len() == 0 {
        0
    } else {
        (if nodes[0].kind is Article { 1nat } else { 0nat })
            + forest_article_count(nodes[0].children@)
            + forest_article_count(nodes.drop_first())
    }
}

/// The collected category names are exactly one per reachable `Category`
/// node: the walk neither drops nor repeats a category.
pub proof fn lemma_category_name_count(nodes: Seq<CategoryNode>)
    ensures
        forest_names(nodes).len() == forest_category_count(nodes),
    decreases nodes,
{
    if nodes.len() > 0 {
        lemma_category_name_count(nodes[0].children@);
        lemma_category_name_count(nodes.drop_first());
    }
}

/// The fetch plan holds exactly one fetch per reachable `Article` node: a
/// live run that performs one fetch per planned identifier makes exactly as
/// many fetch attempts as there are article nodes.
pub proof fn lemma_fetch_count(nodes: Seq<CategoryNode>)
    ensures
        forest_article_ids(nodes).len() == forest_article_count(nodes),
    decreases nodes,
{
    if nodes.len() > 0 {
        lemma_fetch_count(nodes[0].children@);
        lemma_fetch_count(nodes.drop_first());
    }
}

/// Walks `nodes` starting at sibling index `from`, appending the collected
/// category names and planned article identifiers to the two accumulators.
fn walk_from(nodes: &Vec<CategoryNode>, from: usize, names: &mut Vec<String>, ids: &mut Vec<i64>)
    requires
        forest_wf(nodes@.skip(from as int)),
        from <= nodes@.len(),
    ensures
        views_of(final(names)@) == views_of(old(names)@) + forest_names(nodes@.skip(from as int)),
        final(ids)@ == old(ids)@ + forest_article_ids(nodes@.skip(from as int)),
    decreases nodes@, nodes@.len() - from,
{
    if from == nodes.len() {
        assert(nodes@.skip(from as int) =~= Seq::<CategoryNode>::empty());
        assert(views_of(names@) =~= views_of(names@) + forest_names(nodes@.skip(from as int)));
        assert(ids@ =~= ids@ + forest_article_ids(nodes@.skip(from as int)));
        return ;
    }
    let ghost rest = nodes@.skip(from as int);
    assert(rest[0] == nodes@[from as int]);
    let node = &nodes[from];
    proof {
        assert(rest[0].wf() && forest_wf(rest.drop_first()));
        assert(node.children@ == rest[0].children@);
        assert(forest_wf(node.children@));
    }
    let ghost names0 = names@;
    let ghost ids0 = ids@;
    match node.kind {
        NodeKind::Category => {
            let title = node.titles.get_primary();
            names.push(title);
            assert(views_of(names@) =~= views_of(names0).push(title@));
        },
        NodeKind::Article => {
            ids.push(node.id);
        },
        NodeKind::Other => {},
    }
    let ghost names1 = names@;
    let ghost ids1 = ids@;
    if node.children.len() > 0 {
        proof {
            assert(node.children@.skip(0) =~= node.children@);
        }
        walk_from(&node.children, 0, names, ids);
    } else {
        assert(views_of(names@) =~= views_of(names1) + forest_names(node.children@));
        assert(ids@ =~= ids1 + forest_article_ids(node.children@));
    }
    proof {
        assert(rest.drop_first() =~= nodes@.skip(from + 1));
    }
    walk_from(nodes, from + 1, names, ids);
    proof {
        assert(views_of(names@) =~= views_of(names0) + forest_names(rest));
        assert(ids@ =~= ids0 + forest_article_ids(rest));
    }
}

/// The ordered outputs of one traversal: the category display names and the
/// fetch plan, each in depth-first visit order.
pub struct TraversalPlan {
    pub category_names: Vec<String>,
    pub article_ids: Vec<i64>,
}

/// Walks the whole forest depth-first, preserving sibling order, and returns
/// the ordered category names and the ordered article fetch plan.
pub fn traverse(nodes: &Vec<CategoryNode>) -> (p: TraversalPlan)
    requires
        forest_wf(nodes@),
    ensures
        views_of(p.category_names@) == forest_names(nodes@),
        p.article_ids@ == forest_article_ids(nodes@),
{
    let mut names: Vec<String> = Vec::new();
    let mut ids: Vec<i64> = Vec::new();
    proof {
        assert(views_of(names@) =~= Seq::<Seq<char>>::empty());
        assert(nodes@.skip(0) =~= nodes@);
    }
    walk_from(nodes, 0, &mut names, &mut ids);
    proof {
        assert(views_of(names@) =~= forest_names(nodes@));
    }
    TraversalPlan { category_names: names, article_ids: ids }
}

/// The bookkeeping of one live traversal run.
///
/// A live run walks the tree once to fix the fetch plan, then fetches the
/// planned articles strictly in plan order, one at a time; the caller waits
/// the configured minimum interval after each network fetch before the next
/// one begins. Delivered records accumulate in plan order, so the finished
/// run's articles stand in depth-first visit order.
pub struct LiveSession {
    pub category_names: Vec<String>,
    pub planned_ids: Vec<i64>,
    pub fetched: usize,
    pub articles: Vec<ArticleRecord>,
}

impl LiveSession {
    /// A session is well-formed while it has delivered exactly one article
    /// per already-fetched plan entry.
    pub open spec fn wf(self) -> bool {
        &&& self.fetched <= self.planned_ids@.len()
        &&& self.articles@.len() == self.fetched
    }

    /// Starts a live run: fixes the plan by one traversal of `nodes`; no
    /// article has been fetched yet.
    pub fn begin(nodes: &Vec<CategoryNode>) -> (s: LiveSession)
        requires
            forest_wf(nodes@),
        ensures
            s.wf(),
            views_of(s.category_names@) == forest_names(nodes@),
            s.planned_ids@ == forest_article_ids(nodes@),
            s.fetched == 0,
            s.articles@ == Seq::<ArticleRecord>::empty(),
    {
        let plan = traverse(nodes);
        let s = LiveSession {
            category_names: plan.category_names,
            planned_ids: plan.article_ids,
            fetched: 0,
            articles: Vec::new(),
        };
        assert(s.articles@ =~= Seq::<ArticleRecord>::empty());
        s
    }

    /// The identifier the run must fetch next, or `None` when every planned
    /// article has been delivered.
    pub fn next_fetch(&self) -> (r: Option<i64>)
        requires
            self.wf(),
        ensures
            r == (if self.fetched < self.planned_ids@.len() {
                Some(self.planned_ids@[self.fetched as int])
            } else {
                None::<i64>
            }),
    {
        if self.fetched < self.planned_ids.len() {
            Some(self.planned_ids[self.fetched])
        } else {
            None
        }
    }

    /// Records the article fetched for the current plan entry: it is appended
    /// to the accumulated records, and the run advances to the next entry.
    pub fn deliver(&mut self, article: ArticleRecord)
        requires
            old(self).wf(),
            old(self).fetched < old(self).planned_ids@.len(),
        ensures
            final(self).wf(),
            final(self).articles@ == old(self).articles@.push(article),
            final(self).fetched == old(self).fetched + 1,
            final(self).category_names == old(self).category_names,
            final(self).planned_ids == old(self).planned_ids,
    {
        self.articles.push(article);
        let n = self.planned_ids.len();
        assert(self.fetched < n);
        self.fetched = self.fetched + 1;
    }

    /// Whether every planned article has been delivered.
    pub fn is_complete(&self) -> (r: bool)
        requires
            self.wf(),
        ensures
            r == (self.fetched == self.planned_ids@.len()),
    {
        self.fetched == self.planned_ids.len()
    }
}

/// The progress line logged after one article fetch: the owning category's
/// primary-language title and the article's primary-language title,
/// separated by a dash.
pub fn progress_line(a: &ArticleRecord) -> (r: String)
    requires
        a.wf(),
    ensures
        r@ == a.category_titles.primary() + " - "@ + a.titles.primary(),
{
    let mut s = a.category_titles.get_primary();
    s.append(" - ");
    s.append(a.titles.get_primary().as_str());
    s
}

/// A live run over `nodes` that delivered every planned fetch holds exactly
/// one article record per reachable `Article` node: one fetch attempt was
/// made for each, no more and no fewer.
pub proof fn lemma_complete_session_article_count(s: LiveSession, nodes: Seq<CategoryNode>)
    requires
        s.wf(),
        s.planned_ids@ == forest_article_ids(nodes),
        s.fetched == s.planned_ids@.len(),
    ensures
        s.articles@.len() == forest_article_count(nodes),
{
    lemma_fetch_count(nodes);
}

/// The outputs of a replay run: category names come from the same depth-first
/// walk live mode uses, while the records are exactly the cached articles in
/// the order they were enumerated — replay mode collects articles from the
/// cache without consulting the tree.
pub fn replay_outputs(nodes: &Vec<CategoryNode>, cached: Vec<ArticleRecord>) -> (r: (
    Vec<String>,
    Vec<ArticleRecord>,
))
    requires
        forest_wf(nodes@),
    ensures
        views_of(r.0@) == forest_names(nodes@),
        r.1@ == cached@,
{
    let plan = traverse(nodes);
    (plan.category_names, cached)
}

} // verus!


