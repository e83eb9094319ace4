use mllt::config::{Cli, Command, Config, Site as SiteOptions};
use mllt::errors::BuildError;
use mllt::site::Site;

fn theme_entry_site<'reg, 'rc>(
    h: &handlebars::Helper<'rc>,
    r: &'reg handlebars::Handlebars<'reg>,
    ctx: &'rc handlebars::Context,
    rc: &mut handlebars::RenderContext<'reg, 'rc>,
    out: &mut dyn handlebars::Output,
) -> handlebars::HelperResult {
    let text = mllt::helper::theme_helper(h, r, ctx, rc)?;
    out.write(text.as_str()).map_err(handlebars::RenderError::from)
}

fn make_site_engine(strict: bool) -> handlebars::Handlebars<'static> {
    let mut engine = handlebars::Handlebars::new();
    engine.set_strict_mode(strict);
    engine.register_helper("theme", Box::new(theme_entry_site));
    engine
}

fn test_config(theme: Option<&str>) -> Config {
    Config {
        site: SiteOptions {
            baseurl: "example.com".to_string(),
            out_dir: "out".to_string(),
            content: "content".to_string(),
            theme: theme.map(|t| t.to_string()),
            assets: None,
            strict: false,
        },
        params: Vec::new(),
    }
}

fn world_context() -> serde_json::Value {
    let mut m = serde_json::Map::new();
    m.insert(
        "name".to_string(),
        serde_json::Value::String("World".to_string()),
    );
    serde_json::Value::Object(m)
}

fn pair(a: &str, b: &str) -> (String, String) {
    (a.to_string(), b.to_string())
}

#[test]
fn hello_world_build() {
    let config = test_config(None);
    let mut site = Site::new(&config, world_context(), make_site_engine(false), '/');
    let theme_files: Vec<(String, String)> = Vec::new();
    let content_files = vec![pair("content/index.hbs", "Hello {{name}}")];
    let (theme_count, content_count) = site.reload_templates(&theme_files, &content_files).unwrap();
    assert_eq!(theme_count, 0);
    assert_eq!(content_count, 1);

    let page = site.render_one("content/index.hbs").unwrap().unwrap();
    assert_eq!(page.0, "out/index.html");
    assert_eq!(page.1, "Hello World");
}

#[test]
fn theme_and_content_share_namespace() {
    let config = test_config(Some("theme"));
    let mut site = Site::new(&config, world_context(), make_site_engine(false), '/');
    let theme_files = vec![pair("theme/layout.hbs", "T[{{content}}]")];
    let content_files = vec![pair(
        "content/index.hbs",
        "{{#theme \"theme/layout\"}}Hello {{name}}{{/theme}}",
    )];
    site.reload_templates(&theme_files, &content_files).unwrap();

    let page = site.render_one("content/index.hbs").unwrap().unwrap();
    assert_eq!(page.0, "out/index.html");
    assert_eq!(page.1, "T[Hello World]");
}

#[test]
fn pages_transclude_each_other() {
    let config = test_config(None);
    let mut site = Site::new(&config, world_context(), make_site_engine(false), '/');
    let theme_files: Vec<(String, String)> = Vec::new();
    let content_files = vec![
        pair("content/wrap.hbs", "W({{content}})"),
        pair("content/index.hbs", "{{#theme \"content/wrap\"}}in{{/theme}}"),
    ];
    site.reload_templates(&theme_files, &content_files).unwrap();
    let page = site.render_one("content/index.hbs").unwrap().unwrap();
    assert_eq!(page.1, "W(in)");
}

#[test]
fn non_template_files_yield_nothing() {
    let config = test_config(None);
    let mut site = Site::new(&config, world_context(), make_site_engine(false), '/');
    let theme_files: Vec<(String, String)> = Vec::new();
    let content_files = vec![pair("content/index.hbs", "Hello {{name}}")];
    site.reload_templates(&theme_files, &content_files).unwrap();
    assert!(site.render_one("content/notes.txt").unwrap().is_none());
    assert!(site.render_one("content/.hbs").unwrap().is_none());
}

#[test]
fn nested_page_mirrors_tree() {
    let config = test_config(None);
    let mut site = Site::new(&config, world_context(), make_site_engine(false), '/');
    let theme_files: Vec<(String, String)> = Vec::new();
    let content_files = vec![pair("content/blog/post.hbs", "P")];
    site.reload_templates(&theme_files, &content_files).unwrap();
    let page = site.render_one("content/blog/post.hbs").unwrap().unwrap();
    assert_eq!(page.0, "out/blog/post.html");
    assert_eq!(page.1, "P");
}

#[test]
fn reload_clears_previous_registry() {
    let config = test_config(None);
    let mut site = Site::new(&config, world_context(), make_site_engine(false), '/');
    let theme_files: Vec<(String, String)> = Vec::new();
    let first = vec![pair("content/index.hbs", "one")];
    site.reload_templates(&theme_files, &first).unwrap();
    let second = vec![pair("content/other.hbs", "two")];
    site.reload_templates(&theme_files, &second).unwrap();
    match site.render_page("content/index") {
        Err(BuildError::TemplateNotFound(id)) => assert_eq!(id, "content/index"),
        _ => panic!("a reload must drop what the previous pass registered"),
    }
    assert_eq!(site.render_page("content/other").unwrap(), "two");
}

#[test]
fn compile_failure_aborts_reload() {
    let config = test_config(None);
    let mut site = Site::new(&config, world_context(), make_site_engine(false), '/');
    let theme_files: Vec<(String, String)> = Vec::new();
    let content_files = vec![pair("content/bad.hbs", "{{#if}}{{/each}}")];
    match site.reload_templates(&theme_files, &content_files) {
        Err(BuildError::Compile(id, _)) => assert_eq!(id, "content/bad"),
        _ => panic!("a malformed source must abort the registration pass"),
    }
}

#[test]
fn config_defaults_and_overrides() {
    let config = <Config as Default>::default();
    assert_eq!(config.site.baseurl, "example.com");
    assert_eq!(config.site.out_dir, "./output");
    assert_eq!(config.site.content, "./content");
    assert_eq!(config.site.theme.as_deref(), Some("./theme"));
    assert_eq!(config.site.assets.as_deref(), Some("./assets"));
    assert!(!config.site.strict);
    let keys: Vec<&str> = config.params.iter().map(|(k, _)| k.as_str()).collect();
    assert_eq!(keys, vec!["title", "desc", "some_nonstring_value", "links", "made_with"]);
    assert_eq!(config.params[2].1, serde_json::Value::from(42u64));
    match &config.params[3].1 {
        serde_json::Value::Array(links) => assert_eq!(links.len(), 3),
        _ => panic!("the sample links must form an array"),
    }

    let cli = Cli {
        verbose: 0,
        quiet: false,
        command: Command::Build {
            strict: Some(true),
            output: Some("public".to_string()),
            content: None,
            theme: Some("skin".to_string()),
            assets: None,
            config: "mllt.toml".to_string(),
        },
    };
    let merged = config.merge_with(&cli);
    assert!(merged.site.strict);
    assert_eq!(merged.site.out_dir, "public");
    assert_eq!(merged.site.content, "./content");
    assert_eq!(merged.site.theme.as_deref(), Some("skin"));
    assert_eq!(merged.site.assets.as_deref(), Some("./assets"));
}

#[test]
fn serve_overrides_only_strict() {
    let config = <Config as Default>::default();
    let cli = Cli {
        verbose: 0,
        quiet: false,
        command: Command::Serve {
            port: 1313,
            strict: Some(true),
            content: Some("elsewhere".to_string()),
            theme: None,
            assets: None,
            config: "mllt.toml".to_string(),
        },
    };
    let merged = config.merge_with(&cli);
    assert!(merged.site.strict);
    assert_eq!(merged.site.content, "./content");
}

#[test]
fn default_helpers_hold() {
    assert_eq!(mllt::config::default_outdir(), "./html");
    assert!(!mllt::config::default_false());
}

#[test]
fn page_outside_content_root_rejected() {
    let config = test_config(None);
    let mut site = Site::new(&config, world_context(), make_site_engine(false), '/');
    let theme_files: Vec<(String, String)> = Vec::new();
    let content_files = vec![pair("content/index.hbs", "Hello {{name}}")];
    site.reload_templates(&theme_files, &content_files).unwrap();
    match site.render_one("elsewhere/index.hbs") {
        Err(BuildError::InvalidPath(p)) => assert_eq!(p, "elsewhere/index.hbs"),
        _ => panic!("a page outside the content root must be rejected"),
    }
}

#[test]
fn failed_reload_keeps_earlier_registrations() {
    let config = test_config(None);
    let mut site = Site::new(&config, world_context(), make_site_engine(false), '/');
    let theme_files: Vec<(String, String)> = Vec::new();
    let content_files = vec![
        pair("content/good.hbs", "ok"),
        pair("content/bad.hbs", "{{#if}}{{/each}}"),
        pair("content/later.hbs", "x"),
    ];
    match site.reload_templates(&theme_files, &content_files) {
        Err(BuildError::Compile(id, _)) => assert_eq!(id, "content/bad"),
        _ => panic!("the malformed source must abort the pass"),
    }
    assert_eq!(site.render_page("content/good").unwrap(), "ok");
    match site.render_page("content/later") {
        Err(BuildError::TemplateNotFound(id)) => assert_eq!(id, "content/later"),
        _ => panic!("nothing after the failure may be registered"),
    }
}

#[test]
fn site_strict_mode_comes_from_config() {
    let mut config = test_config(None);
    config.site.strict = true;
    let mut site = Site::new(&config, world_context(), make_site_engine(false), '/');
    let theme_files: Vec<(String, String)> = Vec::new();
    let content_files = vec![pair("content/index.hbs", "Hello {{nonexistent}}")];
    site.reload_templates(&theme_files, &content_files).unwrap();
    match site.render_page("content/index") {
        Err(BuildError::UnknownField(id, _)) => assert_eq!(id, "content/index"),
        _ => panic!("a strict site must reject the unknown field"),
    }
}
