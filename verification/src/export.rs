//! The export formatter: the terminal consumer of a traversal's output.
//!
//! It filters both lists by the category-name exclusion set and serializes
//! two artifacts: the surviving category names joined by newlines, and the
//! surviving articles' blocks — a bracketed title header line, then the
//! primary-language body — joined by newlines. Writing the artifacts to disk
//! is the caller's business.

use vstd::prelude::*;
use crate::catalog::ArticleRecord;
use crate::traverse::views_of;

verus! {

/// The names that survive the exclusion filter, in input order.
pub open spec fn filtered_names(names: Seq<Seq<char>>, excluded: Seq<Seq<char>>) -> Seq<
    Seq<char>,
> {
    names.filter(|n: Seq<char>| !excluded.contains(n))
}

/// The articles that survive the exclusion filter — those whose
/// owning-category primary-language title is not excluded — in input order.
pub open spec fn kept_articles(arts: Seq<ArticleRecord>, excluded: Seq<Seq<char>>) -> Seq<
    ArticleRecord,
> {
    arts.filter(|a: ArticleRecord| !excluded.contains(a.category_titles.primary()))
}

/// One surviving article's export block: the bracketed primary-language
/// title header, a backslash and line break, the primary-language body, and
/// the blank-line tail.
pub open spec fn article_block(a: ArticleRecord) -> Seq<char> {
    "```["@ + a.titles.primary() + "]```\\\n"@ + a.contents.primary() + "\n\n\n\n"@
}

/// The export blocks of a sequence of articles, in order.
pub open spec fn blocks_of(arts: Seq<ArticleRecord>) -> Seq<Seq<char>> {
    arts.map_values(|a: ArticleRecord| article_block(a))
}

/// `parts` joined by a newline between each adjacent pair.
pub open spec fn joined(parts: Seq<Seq<char>>) -> Seq<char>
    decreases parts.len(),
{
    if parts.len() == 0 {
        Seq::empty()
    } else if parts.len() == 1 {
        parts[0]
    } else {
        joined(parts.drop_last()) + "\n"@ + parts.last()
    }
}

/// The category-name artifact of one export.
pub open spec fn category_text(names: Seq<Seq<char>>, excluded: Seq<Seq<char>>) -> Seq<char> {
    joined(filtered_names(names, excluded))
}

/// The article artifact of one export.
pub open spec fn article_text(arts: Seq<ArticleRecord>, excluded: Seq<Seq<char>>) -> Seq<char> {
    joined(blocks_of(kept_articles(arts, excluded)))
}

/// Appending one element to the filtered sequence: it survives exactly when
/// the predicate holds of it, and the prior survivors are untouched.
proof fn lemma_filter_push<A>(s: Seq<A>, x: A, pred: spec_fn(A) -> bool)
    ensures
        s.push(x).filter(pred) == (if pred(x) {
            s.filter(pred).push(x)
        } else {
            s.filter(pred)
        }),
{
    reveal(Seq::filter);
    assert(s.push(x).drop_last() =~= s);
    assert(s.push(x).last() == x);
}

/// Whether `name` is one of the excluded names.
fn contains_name(excluded: &Vec<String>, name: &String) -> (b: bool)
    ensures
        b == views_of(excluded@).contains(name@),
{
    let n = excluded.len();
    for i in 0..n
        invariant
            n == excluded@.len(),
            forall|j: int| 0 <= j < i ==> views_of(excluded@)[j] != name@,
    {
        if excluded[i] == *name {
            assert(views_of(excluded@)[i as int] == name@);
            return true;
        }
    }
    false
}

/// Joins `parts` with a newline between each adjacent pair.
fn join_lines(parts: &Vec<String>) -> (r: String)
    ensures
        r@ == joined(views_of(parts@)),
{
    let mut r = String::new();
    let n = parts.len();
    for i in 0..n
        invariant
            n == parts@.len(),
            r@ == joined(views_of(parts@.take(i as int))),
    {
        if i > 0 {
            r.append("\n");
        }
        r.append(parts[i].as_str());
        proof {
            let prev = views_of(parts@.take(i as int));
            let cur = views_of(parts@.take(i + 1));
            assert(cur.drop_last() =~= prev);
            assert(cur.last() == parts@[i as int]@);
            if i == 0 {
                assert(cur.len() == 1);
                assert(r@ == cur[0]);
            }
        }
    }
    proof {
        assert(parts@.take(n as int) =~= parts@);
    }
    r
}

/// Builds one article's export block.
fn render_block(a: &ArticleRecord) -> (r: String)
    requires
        a.wf(),
    ensures
        r@ == article_block(*a),
{
    let mut s = String::from_str("```[");
    s.append(a.titles.get_primary().as_str());
    s.append("]```\\\n");
    s.append(a.contents.get_primary().as_str());
    s.append("\n\n\n\n");
    s
}

/// Formats one export: filters both lists by the excluded category names and
/// serializes the two artifacts. The outputs are functions of the inputs
/// alone.
pub fn format_export(
    articles: &Vec<ArticleRecord>,
    category_names: &Vec<String>,
    excluded: &Vec<String>,
) -> (r: (String, String))
    requires
        forall|i: int| 0 <= i < articles@.len() ==> (#[trigger] articles@[i]).wf(),
    ensures
        r.0@ == category_text(views_of(category_names@), views_of(excluded@)),
        r.1@ == article_text(articles@, views_of(excluded@)),
{
    let ghost ex = views_of(excluded@);

    let mut surviving_names: Vec<String> = Vec::new();
    let n = category_names.len();
    proof {
        assert(views_of(category_names@.take(0)) =~= Seq::<Seq<char>>::empty());
        assert(views_of(surviving_names@) =~= Seq::<Seq<char>>::empty());
        reveal(Seq::filter);
    }
    for i in 0..n
        invariant
            n == category_names@.len(),
            ex == views_of(excluded@),
            views_of(surviving_names@) == filtered_names(
                views_of(category_names@.take(i as int)),
                ex,
            ),
    {
        let keep = !contains_name(excluded, &category_names[i]);
        let ghost prev = views_of(category_names@.take(i as int));
        let ghost before = views_of(surviving_names@);
        if keep {
            surviving_names.push(category_names[i].clone());
            proof {
                assert(views_of(surviving_names@) =~= before.push(category_names@[i as int]@));
            }
        }
        proof {
            let cur = views_of(category_names@.take(i + 1));
            assert(cur =~= prev.push(category_names@[i as int]@));
            lemma_filter_push(prev, category_names@[i as int]@, |m: Seq<char>| !ex.contains(m));
        }
    }
    proof {
        assert(views_of(category_names@.take(n as int)) =~= views_of(category_names@));
    }
    let cat_out = join_lines(&surviving_names);

    let mut blocks: Vec<String> = Vec::new();
    let m = articles.len();
    proof {
        assert(articles@.take(0) =~= Seq::<ArticleRecord>::empty());
        assert(views_of(blocks@) =~= Seq::<Seq<char>>::empty());
        assert(blocks_of(kept_articles(articles@.take(0), ex)) =~= Seq::<Seq<char>>::empty());
    }
    for i in 0..m
        invariant
            m == articles@.len(),
            ex == views_of(excluded@),
            forall|k: int| 0 <= k < articles@.len() ==> (#[trigger] articles@[k]).wf(),
            views_of(blocks@) == blocks_of(kept_articles(articles@.take(i as int), ex)),
    {
        let title = articles[i].category_titles.get_primary();
        let keep = !contains_name(excluded, &title);
        let ghost prev = articles@.take(i as int);
        let ghost before = views_of(blocks@);
        if keep {
            let block = render_block(&articles[i]);
            blocks.push(block);
            proof {
                assert(views_of(blocks@) =~= before.push(article_block(articles@[i as int])));
            }
        }
        proof {
            let cur = articles@.take(i + 1);
            assert(cur =~= prev.push(articles@[i as int]));
            lemma_filter_push(
                prev,
                articles@[i as int],
                |a: ArticleRecord| !ex.contains(a.category_titles.primary()),
            );
            assert(blocks_of(kept_articles(cur, ex)) =~= (if !ex.contains(
                articles@[i as int].category_titles.primary(),
            ) {
                blocks_of(kept_articles(prev, ex)).push(article_block(articles@[i as int]))
            } else {
                blocks_of(kept_articles(prev, ex))
            }));
        }
    }
    proof {
        assert(articles@.take(m as int) =~= articles@);
    }
    let art_out = join_lines(&blocks);

    (cat_out, art_out)
}

/// Idempotence of the formatter: both artifacts are functions of the inputs
/// alone, so two runs of [`format_export`] on the same articles, names and
/// exclusions yield byte-identical artifacts.
pub proof fn lemma_export_idempotent(
    arts: Seq<ArticleRecord>,
    names: Seq<Seq<char>>,
    excluded: Seq<Seq<char>>,
    r1: (Seq<char>, Seq<char>),
    r2: (Seq<char>, Seq<char>),
)
    requires
        r1.0 == category_text(names, excluded),
        r1.1 == article_text(arts, excluded),
        r2.0 == category_text(names, excluded),
        r2.1 == article_text(arts, excluded),
    ensures
        r1 == r2,
{
}

} // verus!
