use mllt::errors::BuildError;
use mllt::paths::{
    has_template_extension, join_under, output_rel_path, parent_prefix, path_to_template_name,
    replace_separators, strip_base, strip_template_suffix,
};

#[test]
fn identifier_includes_root_name() {
    let id = path_to_template_name("content/blog/post.hbs", "content", '/').unwrap();
    assert_eq!(id, "content/blog/post");
}

#[test]
fn identifier_relative_to_root_parent() {
    let id = path_to_template_name("./content/index.hbs", "./content", '/').unwrap();
    assert_eq!(id, "content/index");
}

#[test]
fn identifier_merges_roots_flat() {
    let theme = path_to_template_name("site/theme/page.hbs", "site/theme", '/').unwrap();
    let content = path_to_template_name("site/content/index.hbs", "site/content", '/').unwrap();
    assert_eq!(theme, "theme/page");
    assert_eq!(content, "content/index");
}

#[test]
fn identifier_normalizes_separators() {
    let id = path_to_template_name("content\\blog\\post.hbs", "content", '\\').unwrap();
    assert_eq!(id, "content/blog/post");
    assert!(!id.contains('\\'));
}

#[test]
fn identifier_rejects_foreign_path() {
    let res = path_to_template_name("elsewhere/post.hbs", "site/content", '/');
    match res {
        Err(BuildError::InvalidPath(p)) => assert_eq!(p, "elsewhere/post.hbs"),
        _ => panic!("a path outside the root must be rejected"),
    }
}

#[test]
fn extension_stripped_only_at_end() {
    assert_eq!(strip_template_suffix("a.hbs"), "a");
    assert_eq!(strip_template_suffix("a.hbs/b.hbs"), "a.hbs/b");
    assert_eq!(strip_template_suffix("plain"), "plain");
    assert_eq!(strip_template_suffix(""), "");
}

#[test]
fn inner_marker_survives_in_identifier() {
    let id = path_to_template_name("c/x.hbs.hbs", "c", '/').unwrap();
    assert_eq!(id, "c/x.hbs");
}

#[test]
fn separators_replaced() {
    assert_eq!(replace_separators("a\\b\\c", '\\'), "a/b/c");
    assert_eq!(replace_separators("a/b", '\\'), "a/b");
}

#[test]
fn parent_prefix_drops_last_component() {
    assert_eq!(parent_prefix("./content", '/'), ".");
    assert_eq!(parent_prefix("content", '/'), "");
    assert_eq!(parent_prefix("a/b/c", '/'), "a/b");
}

#[test]
fn strip_base_component_wise() {
    assert_eq!(strip_base("a/b/c", "a", '/'), Some("b/c".to_string()));
    assert_eq!(strip_base("a/b", "a/b", '/'), Some("".to_string()));
    assert_eq!(strip_base("ab/c", "a", '/'), None);
    assert_eq!(strip_base("x", "", '/'), Some("x".to_string()));
}

#[test]
fn template_extension_recognized() {
    assert!(has_template_extension("index.hbs", '/'));
    assert!(has_template_extension("blog/post.hbs", '/'));
    assert!(!has_template_extension(".hbs", '/'));
    assert!(!has_template_extension("blog/.hbs", '/'));
    assert!(!has_template_extension("index.html", '/'));
}

#[test]
fn output_path_swaps_extension() {
    assert_eq!(output_rel_path("index.hbs", '/'), Some("index.html".to_string()));
    assert_eq!(output_rel_path("blog/post.hbs", '/'), Some("blog/post.html".to_string()));
    assert_eq!(output_rel_path("style.css", '/'), None);
}

#[test]
fn join_adds_one_separator() {
    assert_eq!(join_under("out", "index.html", '/'), "out/index.html");
    assert_eq!(join_under("out/", "index.html", '/'), "out/index.html");
    assert_eq!(join_under("", "index.html", '/'), "index.html");
}
