use mllt::errors::BuildError;
use mllt::helper::{helper_plan, theme_helper, HelperPlan, LayoutArg};
use mllt::registry::Registry;

fn theme_entry<'reg, 'rc>(
    h: &handlebars::Helper<'rc>,
    r: &'reg handlebars::Handlebars<'reg>,
    ctx: &'rc handlebars::Context,
    rc: &mut handlebars::RenderContext<'reg, 'rc>,
    out: &mut dyn handlebars::Output,
) -> handlebars::HelperResult {
    let text = theme_helper(h, r, ctx, rc)?;
    out.write(text.as_str()).map_err(handlebars::RenderError::from)
}

fn make_engine(strict: bool) -> handlebars::Handlebars<'static> {
    let mut engine = handlebars::Handlebars::new();
    engine.set_strict_mode(strict);
    engine.register_helper("theme", Box::new(theme_entry));
    engine
}

fn context_with_name() -> serde_json::Value {
    let mut m = serde_json::Map::new();
    m.insert(
        "name".to_string(),
        serde_json::Value::String("World".to_string()),
    );
    serde_json::Value::Object(m)
}

#[test]
fn register_then_render_round_trip() {
    let mut reg = Registry::from_engine(make_engine(false));
    reg.clear();
    reg.register("greet", "Hi {{name}}").unwrap();
    let ctx = context_with_name();
    let through_registry = reg.render("greet", &ctx).unwrap();

    let direct = handlebars::Handlebars::new()
        .render_template("Hi {{name}}", &ctx)
        .unwrap();
    assert_eq!(through_registry, direct);
    assert_eq!(through_registry, "Hi World");
}

#[test]
fn strict_mode_rejects_unknown_field() {
    let mut strict_reg = Registry::from_engine(make_engine(true));
    strict_reg.clear();
    strict_reg.register("page", "Hello {{nonexistent}}").unwrap();
    let ctx = context_with_name();
    match strict_reg.render("page", &ctx) {
        Err(BuildError::UnknownField(id, _)) => assert_eq!(id, "page"),
        other => panic!("strict render must fail with the field kind, got {:?}", other.is_ok()),
    }
}

#[test]
fn lax_mode_substitutes_empty() {
    let mut reg = Registry::from_engine(make_engine(false));
    reg.clear();
    reg.register("page", "Hello {{nonexistent}}!").unwrap();
    let ctx = context_with_name();
    assert_eq!(reg.render("page", &ctx).unwrap(), "Hello !");
}

#[test]
fn unregistered_identifier_is_hard_error() {
    let reg = Registry::from_engine(make_engine(false));
    let ctx = context_with_name();
    match reg.render("nowhere", &ctx) {
        Err(BuildError::TemplateNotFound(id)) => assert_eq!(id, "nowhere"),
        _ => panic!("rendering an unregistered identifier must fail"),
    }
}

#[test]
fn transclusion_wraps_content() {
    let mut reg = Registry::from_engine(make_engine(false));
    reg.clear();
    reg.register("layout", "L[{{content}}]").unwrap();
    reg.register("page", "{{#theme \"layout\"}}A {{name}}{{/theme}}")
        .unwrap();
    let ctx = context_with_name();
    assert_eq!(reg.render("page", &ctx).unwrap(), "L[A World]");

    let direct = handlebars::Handlebars::new()
        .render_template("L[A World]", &ctx)
        .unwrap();
    assert_eq!(reg.render("page", &ctx).unwrap(), direct);
}

#[test]
fn nested_transclusion_rebinds_content() {
    let mut reg = Registry::from_engine(make_engine(false));
    reg.clear();
    reg.register("base", "B<{{content}}>E").unwrap();
    reg.register("layout", "{{#theme \"base\"}}L({{content}}){{/theme}}")
        .unwrap();
    reg.register("page", "{{#theme \"layout\"}}A {{name}}{{/theme}}")
        .unwrap();
    let ctx = context_with_name();
    assert_eq!(reg.render("page", &ctx).unwrap(), "B<L(A World)>E");
}

#[test]
fn transcluded_content_not_escaped() {
    let mut reg = Registry::from_engine(make_engine(false));
    reg.clear();
    reg.register("layout", "{{content}}").unwrap();
    reg.register("page", "{{#theme \"layout\"}}<b>raw</b>{{/theme}}")
        .unwrap();
    let ctx = context_with_name();
    assert_eq!(reg.render("page", &ctx).unwrap(), "<b>raw</b>");
}

#[test]
fn missing_layout_names_identifier() {
    let mut reg = Registry::from_engine(make_engine(false));
    reg.clear();
    reg.register("page", "{{#theme \"missing\"}}X{{/theme}}")
        .unwrap();
    let ctx = context_with_name();
    match reg.render("page", &ctx) {
        Err(BuildError::TemplateNotFound(id)) => assert_eq!(id, "missing"),
        _ => panic!("a missing layout must fail naming it"),
    }
}

#[test]
fn helper_without_block_is_rejected() {
    let mut reg = Registry::from_engine(make_engine(false));
    reg.clear();
    reg.register("layout", "L[{{content}}]").unwrap();
    reg.register("page", "{{theme \"layout\"}}").unwrap();
    let ctx = context_with_name();
    assert!(reg.render("page", &ctx).is_err());
}

#[test]
fn helper_argument_must_be_text() {
    let mut reg = Registry::from_engine(make_engine(false));
    reg.clear();
    reg.register("page", "{{#theme 42}}X{{/theme}}").unwrap();
    let ctx = context_with_name();
    assert!(reg.render("page", &ctx).is_err());
}

#[test]
fn registration_is_last_write_wins() {
    let mut reg = Registry::from_engine(make_engine(false));
    reg.clear();
    reg.register("page", "first").unwrap();
    reg.register("page", "second").unwrap();
    let ctx = context_with_name();
    assert_eq!(reg.render("page", &ctx).unwrap(), "second");
}

#[test]
fn compile_error_stores_nothing() {
    let mut reg = Registry::from_engine(make_engine(false));
    reg.clear();
    match reg.register("broken", "{{#if}}{{/each}}") {
        Err(BuildError::Compile(id, _)) => assert_eq!(id, "broken"),
        _ => panic!("a malformed template must fail to compile"),
    }
    assert!(!reg.has_template("broken"));
}

#[test]
fn clear_empties_registry() {
    let mut reg = Registry::from_engine(make_engine(false));
    reg.clear();
    reg.register("page", "text").unwrap();
    assert!(reg.has_template("page"));
    reg.clear();
    assert!(!reg.has_template("page"));
}

#[test]
fn helper_plan_protocol() {
    assert!(matches!(
        helper_plan(false, LayoutArg::Name("x".to_string()), true),
        HelperPlan::RequireBlock
    ));
    assert!(matches!(helper_plan(true, LayoutArg::Missing, false), HelperPlan::RequireName));
    assert!(matches!(helper_plan(true, LayoutArg::NotText, false), HelperPlan::RequireText));
    match helper_plan(true, LayoutArg::Name("layout".to_string()), false) {
        HelperPlan::Missing(name) => assert_eq!(name, "layout"),
        _ => panic!("an unregistered layout must be reported missing"),
    }
    match helper_plan(true, LayoutArg::Name("layout".to_string()), true) {
        HelperPlan::Wrap(name) => assert_eq!(name, "layout"),
        _ => panic!("a registered layout must be wrapped"),
    }
}
