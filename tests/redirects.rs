use onwards_api::handler::{
    respond, respond_root, Reply, BODY_LIMIT, CACHE_POLICY, NOT_FOUND, PERMANENT_REDIRECT,
};
use onwards_api::table::{forwards_to, same_key, shortlinks, RedirectTable, Shortlink, TableError, ROOT_KEY};

fn example_table() -> RedirectTable {
    RedirectTable::new(
        vec![
            Shortlink { key: "about", target: "https://example.org/about" },
            Shortlink { key: "docs", target: "https://example.org/docs" },
        ],
        "about",
    )
    .expect("example table is well formed")
}

fn location(r: &Reply) -> Option<&'static str> {
    r.location
}

#[test]
fn root() {
    let t = RedirectTable::standard();
    let implicit_root = respond_root(&t);
    assert_eq!(implicit_root.status, PERMANENT_REDIRECT);
    let explicit_root = respond(&t, "root");
    assert_eq!(explicit_root.status, PERMANENT_REDIRECT);
    assert_eq!(location(&implicit_root).unwrap(), location(&explicit_root).unwrap());
}

#[test]
fn invalid_short() {
    let t = RedirectTable::standard();
    let r = respond(&t, "not-about");
    assert_eq!(r.status, NOT_FOUND);
}

#[test]
fn valid_short() {
    let t = RedirectTable::standard();
    let r = respond(&t, "about");
    assert_eq!(r.status, PERMANENT_REDIRECT);
    assert_eq!(r.location.unwrap(), "https://github.com/jonhoo/onwards");
}

#[test]
fn every_listed_key_redirects_to_its_target() {
    let t = RedirectTable::standard();
    for link in shortlinks() {
        let r = respond(&t, link.key);
        assert_eq!(r.status, PERMANENT_REDIRECT);
        assert_eq!(r.location, Some(link.target));
        assert_eq!(r.cache_control, Some(CACHE_POLICY));
        assert_eq!(forwards_to(link.key), Some(link.target));
    }
}

#[test]
fn unknown_keys_are_not_found() {
    let t = RedirectTable::standard();
    for key in ["", "Root", "ROOT", "roo", "roots", " root", "root/", "about/x", "insta.rs"] {
        let r = respond(&t, key);
        assert_eq!(r.status, NOT_FOUND);
        assert_eq!(r.location, None);
        assert_eq!(r.cache_control, None);
        assert_eq!(forwards_to(key), None);
    }
}

#[test]
fn root_path_matches_root_key() {
    let t = RedirectTable::standard();
    let a = respond_root(&t);
    let b = respond(&t, ROOT_KEY);
    assert_eq!(a.status, b.status);
    assert_eq!(a.location, b.location);
    assert_eq!(a.location, Some("https://rust-for-rustaceans.com"));
    assert_eq!(t.root_target(), "https://rust-for-rustaceans.com");
}

#[test]
fn repeated_lookups_agree() {
    let t = RedirectTable::standard();
    for key in ["youtube", "try", "missing"] {
        assert_eq!(t.lookup(key), t.lookup(key));
        assert_eq!(forwards_to(key), forwards_to(key));
    }
    assert_eq!(t.lookup("try"), Some("https://github.com/rust-lang/rust/issues/84277"));
    assert_eq!(t.lookup("try-blocks"), Some("https://github.com/rust-lang/rust/issues/31436"));
}

#[test]
fn scenario_root_key_about() {
    let t = example_table();
    let root = respond_root(&t);
    assert_eq!(root.status, 308);
    assert_eq!(root.location, Some("https://example.org/about"));
    let about = respond(&t, "about");
    assert_eq!(about.status, 308);
    assert_eq!(about.location, Some("https://example.org/about"));
}

#[test]
fn scenario_docs_and_unknown() {
    let t = example_table();
    let docs = respond(&t, "docs");
    assert_eq!(docs.status, 308);
    assert_eq!(docs.location, Some("https://example.org/docs"));
    let missing = respond(&t, "not-a-real-key");
    assert_eq!(missing.status, 404);
    assert_eq!(missing.location, None);
}

#[test]
fn empty_table_is_refused() {
    assert!(matches!(RedirectTable::new(vec![], "root"), Err(TableError::MissingRoot)));
}

#[test]
fn table_without_root_is_refused() {
    let r = RedirectTable::new(
        vec![Shortlink { key: "docs", target: "https://example.org/docs" }],
        "about",
    );
    assert!(matches!(r, Err(TableError::MissingRoot)));
}

#[test]
fn duplicate_keys_are_refused() {
    let r = RedirectTable::new(
        vec![
            Shortlink { key: "about", target: "https://example.org/a" },
            Shortlink { key: "about", target: "https://example.org/b" },
        ],
        "about",
    );
    assert!(matches!(r, Err(TableError::DuplicateKey)));
    let no_root_either = RedirectTable::new(
        vec![
            Shortlink { key: "x", target: "https://example.org/a" },
            Shortlink { key: "x", target: "https://example.org/b" },
        ],
        "about",
    );
    assert!(matches!(no_root_either, Err(TableError::DuplicateKey)));
}

#[test]
fn keys_match_case_sensitively() {
    let t = RedirectTable::new(
        vec![
            Shortlink { key: "Docs", target: "https://example.org/upper" },
            Shortlink { key: "docs", target: "https://example.org/lower" },
        ],
        "docs",
    )
    .expect("distinct keys");
    assert_eq!(t.lookup("Docs"), Some("https://example.org/upper"));
    assert_eq!(t.lookup("docs"), Some("https://example.org/lower"));
    assert_eq!(t.lookup("DOCS"), None);
    assert_eq!(t.lookup("dócs"), None);
}

#[test]
fn built_in_list_is_well_formed() {
    let links = shortlinks();
    assert_eq!(links.len(), 15);
    assert!(RedirectTable::new(links, ROOT_KEY).is_ok());
    assert_eq!(BODY_LIMIT, 1024);
}

#[test]
fn key_comparison_is_exact() {
    assert!(same_key("about", "about"));
    assert!(!same_key("about", "About"));
    assert!(!same_key("about", "abou"));
    assert!(!same_key("é", "e"));
    assert!(same_key("", ""));
}
