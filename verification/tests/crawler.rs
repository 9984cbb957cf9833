use catalog_crawler::cache::{CachePath, CacheStore};
use catalog_crawler::catalog::{ArticleRecord, Attachments, CategoryNode, NodeKind};
use catalog_crawler::decode::{decode_forest, tag_kind, validate_article, validate_articles};
use catalog_crawler::decode::RawCategoryNode;
use catalog_crawler::error::{CrawlError, MissingField};
use catalog_crawler::export::format_export;
use catalog_crawler::lang::{Lang, LangMap};
use catalog_crawler::selector::{default_mode, mode_of_flag, Mode};
use catalog_crawler::traverse::{replay_outputs, traverse, LiveSession};

fn titles_kr(text: &str) -> LangMap {
    let mut m = LangMap::new();
    m.set(Lang::Kr, text.to_string());
    m
}

fn category(id: i64, title: &str, children: Vec<CategoryNode>) -> CategoryNode {
    CategoryNode {
        id,
        parent_id: None,
        position: 0,
        kind: NodeKind::Category,
        status: "OPEN".to_string(),
        titles: titles_kr(title),
        children,
        modified: false,
    }
}

fn article_node(id: i64, children: Vec<CategoryNode>) -> CategoryNode {
    CategoryNode {
        id,
        parent_id: None,
        position: 0,
        kind: NodeKind::Article,
        status: "OPEN".to_string(),
        titles: LangMap::new(),
        children,
        modified: false,
    }
}

fn article(id: i64, cat: &str, title: &str, body: &str) -> ArticleRecord {
    ArticleRecord {
        id,
        category_id: 1,
        category_titles: titles_kr(cat),
        status: "OPEN".to_string(),
        titles: titles_kr(title),
        subtitles: titles_kr(""),
        image_url: None,
        attachments: Attachments::ByLang(Vec::new()),
        contents: titles_kr(body),
    }
}

fn raw_node(id: i64, tag: &str, kr_title: Option<&str>, children: Vec<RawCategoryNode>) -> RawCategoryNode {
    let mut titles = LangMap::new();
    if let Some(t) = kr_title {
        titles.set(Lang::Kr, t.to_string());
    }
    RawCategoryNode {
        id,
        parent_id: Some(7),
        position: 3,
        kind_tag: tag.to_string(),
        status: "OPEN".to_string(),
        titles,
        children,
        modified: true,
    }
}

#[test]
fn traversal_collects_names_and_plan_in_preorder() {
    let tree = vec![
        category(1, "A", vec![article_node(10, vec![]), category(2, "B", vec![])]),
        article_node(20, vec![category(3, "C", vec![])]),
    ];
    let plan = traverse(&tree);
    let names: Vec<&str> = plan.category_names.iter().map(|s| s.as_str()).collect();
    assert_eq!(names, vec!["A", "B", "C"]);
    assert_eq!(plan.article_ids, vec![10, 20]);
}

#[test]
fn traversal_recurses_into_children_of_article_nodes() {
    let tree = vec![article_node(5, vec![article_node(6, vec![])])];
    let plan = traverse(&tree);
    assert_eq!(plan.article_ids, vec![5, 6]);
    assert!(plan.category_names.is_empty());
}

#[test]
fn traversal_name_count_matches_category_count() {
    let tree = vec![
        category(1, "A", vec![category(2, "B", vec![article_node(9, vec![])])]),
        category(3, "C", vec![]),
    ];
    let plan = traverse(&tree);
    assert_eq!(plan.category_names.len(), 3);
    assert_eq!(plan.article_ids.len(), 1);
}

#[test]
fn kind_tags_classify() {
    assert_eq!(tag_kind(&"ARTICLE".to_string()), NodeKind::Article);
    assert_eq!(tag_kind(&"CATEGORY".to_string()), NodeKind::Category);
    assert_eq!(tag_kind(&"BANNER".to_string()), NodeKind::Other);
}

#[test]
fn decode_carries_fields_over() {
    let raw = vec![raw_node(4, "CATEGORY", Some("D"), vec![raw_node(8, "ARTICLE", None, vec![])])];
    let forest = decode_forest(&raw).expect("well-formed input decodes");
    assert_eq!(forest.len(), 1);
    assert_eq!(forest[0].id, 4);
    assert_eq!(forest[0].parent_id, Some(7));
    assert_eq!(forest[0].position, 3);
    assert_eq!(forest[0].kind, NodeKind::Category);
    assert_eq!(forest[0].status, "OPEN");
    assert!(forest[0].modified);
    assert_eq!(forest[0].titles.get(Lang::Kr), Some("D".to_string()));
    assert_eq!(forest[0].children.len(), 1);
    assert_eq!(forest[0].children[0].kind, NodeKind::Article);
}

#[test]
fn decode_rejects_category_without_primary_title() {
    let raw = vec![raw_node(1, "CATEGORY", Some("ok"), vec![raw_node(2, "CATEGORY", None, vec![])])];
    assert_eq!(
        decode_forest(&raw).err(),
        Some(CrawlError::Decode(MissingField::CategoryTitle))
    );
}

#[test]
fn decode_accepts_article_without_primary_title() {
    let raw = vec![raw_node(1, "ARTICLE", None, vec![])];
    assert!(decode_forest(&raw).is_ok());
}

#[test]
fn validate_rejects_missing_primary_entries() {
    let mut a = article(1, "cat", "title", "body");
    a.titles = LangMap::new();
    assert_eq!(
        validate_article(&a).err(),
        Some(CrawlError::Decode(MissingField::ArticleTitle))
    );

    let mut b = article(2, "cat", "title", "body");
    b.category_titles = LangMap::new();
    assert_eq!(
        validate_article(&b).err(),
        Some(CrawlError::Decode(MissingField::ArticleCategoryTitle))
    );

    let mut c = article(3, "cat", "title", "body");
    c.subtitles = LangMap::new();
    assert_eq!(
        validate_article(&c).err(),
        Some(CrawlError::Decode(MissingField::ArticleSubtitle))
    );

    let mut d = article(4, "cat", "title", "body");
    d.contents = LangMap::new();
    assert_eq!(
        validate_article(&d).err(),
        Some(CrawlError::Decode(MissingField::ArticleContent))
    );

    assert!(validate_article(&article(5, "cat", "title", "body")).is_ok());
}

#[test]
fn validate_batch_fails_fast_on_first_defect() {
    let mut bad = article(2, "cat", "title", "body");
    bad.contents = LangMap::new();
    let batch = vec![article(1, "cat", "t", "b"), bad, article(3, "cat", "t", "b")];
    assert_eq!(
        validate_articles(&batch).err(),
        Some(CrawlError::Decode(MissingField::ArticleContent))
    );
    let good = vec![article(1, "cat", "t", "b"), article(3, "cat", "t", "b")];
    assert!(validate_articles(&good).is_ok());
}

#[test]
fn cache_round_trips_bytes_by_identifier() {
    let mut store = CacheStore::new();
    store.write(CachePath::Article(11), b"first".to_vec());
    store.write(CachePath::CategoryRoot, b"root".to_vec());
    assert_eq!(store.read(CachePath::Article(11)).unwrap(), b"first".to_vec());
    assert_eq!(store.read(CachePath::CategoryRoot).unwrap(), b"root".to_vec());
}

#[test]
fn cache_rewrite_replaces_prior_content() {
    let mut store = CacheStore::new();
    store.write(CachePath::Article(11), b"first".to_vec());
    store.write(CachePath::Article(11), b"second".to_vec());
    assert_eq!(store.read(CachePath::Article(11)).unwrap(), b"second".to_vec());
}

#[test]
fn cache_read_of_missing_entry_is_cache_read_failure() {
    let store = CacheStore::new();
    assert_eq!(store.read(CachePath::Article(404)).err(), Some(CrawlError::CacheRead));
}

#[test]
fn export_filters_excluded_category_names() {
    let names = vec!["A".to_string(), "B".to_string()];
    let excluded = vec!["A".to_string()];
    let (category_text, article_text) = format_export(&Vec::new(), &names, &excluded);
    assert_eq!(category_text, "B");
    assert_eq!(article_text, "");
}

#[test]
fn export_renders_exact_blocks() {
    let articles = vec![article(1, "cat", "T", "B"), article(2, "cat", "U", "C")];
    let (_, article_text) = format_export(&articles, &Vec::new(), &Vec::new());
    assert_eq!(
        article_text,
        "```[T]```\\\nB\n\n\n\n\n```[U]```\\\nC\n\n\n\n"
    );
}

#[test]
fn export_drops_articles_of_excluded_categories() {
    let articles = vec![article(1, "keep", "T", "B"), article(2, "drop", "U", "C")];
    let excluded = vec!["drop".to_string()];
    let (_, article_text) = format_export(&articles, &Vec::new(), &excluded);
    assert_eq!(article_text, "```[T]```\\\nB\n\n\n\n");
}

#[test]
fn export_joins_names_with_newlines_in_order() {
    let names = vec!["A".to_string(), "B".to_string(), "C".to_string()];
    let (category_text, _) = format_export(&Vec::new(), &names, &Vec::new());
    assert_eq!(category_text, "A\nB\nC");
}

#[test]
fn export_twice_yields_identical_artifacts() {
    let articles = vec![article(1, "cat", "T", "B")];
    let names = vec!["cat".to_string(), "other".to_string()];
    let excluded = vec!["other".to_string()];
    let first = format_export(&articles, &names, &excluded);
    let second = format_export(&articles, &names, &excluded);
    assert_eq!(first, second);
}

#[test]
fn live_session_fetches_planned_articles_in_order() {
    let tree = vec![
        category(1, "A", vec![article_node(10, vec![])]),
        article_node(20, vec![]),
    ];
    let mut session = LiveSession::begin(&tree);
    let mut fetched: Vec<i64> = Vec::new();
    while let Some(id) = session.next_fetch() {
        fetched.push(id);
        session.deliver(article(id, "A", "t", "b"));
    }
    assert!(session.is_complete());
    assert_eq!(fetched, vec![10, 20]);
    let delivered: Vec<i64> = session.articles.iter().map(|a| a.id).collect();
    assert_eq!(delivered, vec![10, 20]);
    let names: Vec<&str> = session.category_names.iter().map(|s| s.as_str()).collect();
    assert_eq!(names, vec!["A"]);
}

#[test]
fn replay_produces_same_records_as_live_from_same_documents() {
    let tree = vec![category(1, "A", vec![article_node(10, vec![]), article_node(20, vec![])])];
    let documents = vec![article(10, "A", "t1", "b1"), article(20, "A", "t2", "b2")];

    let mut session = LiveSession::begin(&tree);
    for doc in documents.iter() {
        assert!(session.next_fetch().is_some());
        session.deliver(article(doc.id, "A", "t", "b"));
    }
    assert!(session.is_complete());

    let (replay_names, replay_articles) = replay_outputs(&tree, documents);
    let live_ids: Vec<i64> = session.articles.iter().map(|a| a.id).collect();
    let replay_ids: Vec<i64> = replay_articles.iter().map(|a| a.id).collect();
    assert_eq!(live_ids, replay_ids);
    assert_eq!(session.category_names, replay_names);
}

#[test]
fn mode_selection_defaults_to_replay() {
    assert_eq!(default_mode(), Mode::Replay);
    assert_eq!(mode_of_flag(true), Mode::Replay);
    assert_eq!(mode_of_flag(false), Mode::Live);
}

#[test]
fn lang_map_stores_one_entry_per_language() {
    let mut m = LangMap::new();
    assert_eq!(m.get(Lang::Kr), None);
    m.set(Lang::Kr, "kr".to_string());
    m.set(Lang::En, "en".to_string());
    m.set(Lang::Kr, "kr2".to_string());
    assert_eq!(m.get(Lang::Kr), Some("kr2".to_string()));
    assert_eq!(m.get(Lang::En), Some("en".to_string()));
    assert_eq!(m.get(Lang::Cn), None);
    assert_eq!(m.get_primary(), "kr2".to_string());
    let copy = m.duplicate();
    assert_eq!(copy.get(Lang::Kr), Some("kr2".to_string()));
}

#[test]
fn progress_line_names_category_and_title() {
    let a = article(1, "News", "Launch", "body");
    assert_eq!(catalog_crawler::traverse::progress_line(&a), "News - Launch");
}
