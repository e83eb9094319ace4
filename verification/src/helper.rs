//! The layout-transclusion helper: a block construct that renders its
//! enclosed content, then re-renders a named layout template with that
//! content bound to a scoped `content` variable.
//!
//! The protocol itself — which invocations are rejected, which layout is
//! chosen, and that the scoped binding and the escape toggle are torn down
//! before control returns — is verified; the template engine's primitives
//! are relied upon through the trusted functions below.
use vstd::prelude::*;

use crate::registry::engine_templates;
use handlebars::Renderable;

verus! {

#[verifier::external_type_specification]
#[verifier::external_body]
pub struct ExHelper<'rc>(handlebars::Helper<'rc>);

#[verifier::external_type_specification]
#[verifier::external_body]
pub struct ExContext(handlebars::Context);

#[verifier::external_type_specification]
#[verifier::external_body]
pub struct ExRenderContext<'reg, 'rc>(handlebars::RenderContext<'reg, 'rc>);

/// The stack of block scopes a render context holds, innermost last; for
/// each scope, the text bound to its `content` variable, if it has one.
pub uninterp spec fn rc_blocks(rc: handlebars::RenderContext<'static, 'static>) -> Seq<
    Option<Seq<char>>,
>;

/// Whether escaping is currently suppressed in a render context.
pub uninterp spec fn rc_escape_off(rc: handlebars::RenderContext<'static, 'static>) -> bool;

/// Whether a helper invocation is in block form.
pub uninterp spec fn helper_in_block_form(h: handlebars::Helper<'static>) -> bool;

/// The first positional argument of a helper invocation: nothing where none
/// was given; `Some(None)` where one was given but is no string; the string
/// it evaluates to otherwise.
pub uninterp spec fn helper_first_arg(h: handlebars::Helper<'static>) -> Option<
    Option<Seq<char>>,
>;

/// The kinds of engine error the layout helper produces or passes on.
pub enum RenderErrKind {
    /// The helper was not invoked as a block construct.
    BlockRequired,
    /// A required positional argument is missing.
    ParamMissing,
    /// An argument has the wrong type.
    BadArgument,
    /// A named template is not registered.
    NotFound,
    /// A context reference did not resolve under strict mode.
    MissingField,
    /// Anything else the engine reports.
    Other,
}

/// Which of the kinds an engine error is.
pub uninterp spec fn render_error_kind(e: handlebars::RenderError) -> RenderErrKind;

/// The identifier an engine error names, where its kind carries one.
pub uninterp spec fn render_error_name(e: handlebars::RenderError) -> Seq<char>;

/// The single positional argument of a helper invocation, as the layout
/// helper reads it.
pub enum LayoutArg {
    /// No argument was given.
    Missing,
    /// An argument was given but did not evaluate to a string.
    NotText,
    /// The argument evaluated to this string: the layout's identifier.
    Name(String),
}

/// What the layout helper decides to do for one invocation.
pub enum HelperPlan {
    /// Fail: the helper was not invoked as a block construct.
    RequireBlock,
    /// Fail: no layout identifier was given.
    RequireName,
    /// Fail: the layout identifier did not evaluate to a string.
    RequireText,
    /// Fail: no template is registered under the named identifier.
    Missing(String),
    /// Render the enclosed block, then wrap it into the named layout.
    Wrap(String),
}

/// The layout helper's decision rule: every invocation must be a block
/// construct whose first argument evaluates to the identifier of a
/// registered template; anything else is rejected, block form checked first,
/// then the argument, then registration.
pub fn helper_plan(is_block: bool, arg: LayoutArg, layout_known: bool) -> (plan: HelperPlan)
    ensures
        (plan is RequireBlock) <==> !is_block,
        (plan is RequireName) <==> (is_block && arg is Missing),
        (plan is RequireText) <==> (is_block && arg is NotText),
        (plan is Missing) <==> (is_block && arg is Name && !layout_known),
        (plan is Wrap) <==> (is_block && arg is Name && layout_known),
        plan is Missing ==> plan->Missing_0@ == arg->Name_0@,
        plan is Wrap ==> plan->Wrap_0@ == arg->Name_0@,
{
    if !is_block {
        HelperPlan::RequireBlock
    } else {
        match arg {
            LayoutArg::Missing => HelperPlan::RequireName,
            LayoutArg::NotText => HelperPlan::RequireText,
            LayoutArg::Name(name) => {
                if layout_known {
                    HelperPlan::Wrap(name)
                } else {
                    HelperPlan::Missing(name)
                }
            },
        }
    }
}

/// Relies on handlebars::Helper::is_block, which reports whether the helper
/// was invoked in block form; that is a fact of the invocation alone.
#[verifier::external_body]
fn helper_is_block<'rc>(h: &handlebars::Helper<'rc>) -> (res: bool)
    ensures
        res == helper_in_block_form(*h),
{
    h.is_block()
}

/// Relies on handlebars::Helper::param and serde_json::Value::as_str to read
/// the helper's first positional argument, already resolved and stored in
/// the invocation.
#[verifier::external_body]
fn helper_layout_arg<'rc>(h: &handlebars::Helper<'rc>) -> (res: LayoutArg)
    ensures
        (res is Missing) <==> helper_first_arg(*h) is None,
        (res is NotText) <==> (helper_first_arg(*h) matches Some(a) && a is None),
        (res is Name) <==> (helper_first_arg(*h) matches Some(a) && a is Some),
        res matches LayoutArg::Name(n) ==> Some(Some(n@)) == helper_first_arg(*h),
{
    match h.param(0) {
        None => LayoutArg::Missing,
        Some(p) => match p.value().as_str() {
            None => LayoutArg::NotText,
            Some(s) => LayoutArg::Name(s.to_owned()),
        },
    }
}

/// Relies on handlebars::Handlebars::get_template, which looks the name up
/// in the engine's template table.
#[verifier::external_body]
pub(crate) fn lookup_template<'reg>(reg: &'reg handlebars::Handlebars<'reg>, name: &str) -> (res: Option<
    &'reg handlebars::Template,
>)
    ensures
        (res is Some) <==> engine_templates(*reg).contains_key(name@),
{
    reg.get_template(name)
}

/// Relies on handlebars::RenderContext::is_disable_escape, which reads the
/// escape toggle.
#[verifier::external_body]
fn escape_off<'reg, 'rc>(rc: &handlebars::RenderContext<'reg, 'rc>) -> (res: bool)
    ensures
        res == rc_escape_off(*rc),
{
    rc.is_disable_escape()
}

/// Relies on handlebars::RenderContext::set_disable_escape, which writes the
/// escape toggle and touches nothing else.
#[verifier::external_body]
fn set_escape_off<'reg, 'rc>(rc: &mut handlebars::RenderContext<'reg, 'rc>, off: bool)
    ensures
        rc_escape_off(*final(rc)) == off,
        rc_blocks(*final(rc)) == rc_blocks(*old(rc)),
{
    rc.set_disable_escape(off);
}

/// Relies on handlebars::BlockContext::set_block_param and
/// handlebars::RenderContext::push_block: a fresh block scope is entered
/// whose `content` variable is bound to the given text.
#[verifier::external_body]
fn push_content_block<'reg, 'rc>(rc: &mut handlebars::RenderContext<'reg, 'rc>, content: String)
    ensures
        rc_blocks(*final(rc)) == rc_blocks(*old(rc)).push(Some(content@)),
        rc_escape_off(*final(rc)) == rc_escape_off(*old(rc)),
{
    let mut bc = handlebars::BlockContext::new();
    bc.set_block_param(
        "content",
        handlebars::BlockParamHolder::Value(handlebars::JsonValue::String(content)),
    );
    rc.push_block(bc);
}

/// Relies on handlebars::RenderContext::pop_block, which drops the innermost
/// block scope and is a no-op on an empty stack.
#[verifier::external_body]
fn pop_block<'reg, 'rc>(rc: &mut handlebars::RenderContext<'reg, 'rc>)
    ensures
        rc_blocks(*old(rc)).len() > 0 ==> rc_blocks(*final(rc)) == rc_blocks(
            *old(rc),
        ).drop_last(),
        rc_blocks(*old(rc)).len() == 0 ==> rc_blocks(*final(rc)) == rc_blocks(*old(rc)),
        rc_escape_off(*final(rc)) == rc_escape_off(*old(rc)),
{
    rc.pop_block();
}

/// Relies on handlebars::Helper::template and Template::render: the helper's
/// enclosed block, if any, is rendered against the current context and scope
/// chain into a string. A successful render enters and leaves block scopes
/// in pairs; the escape toggle it may move on its own, so nothing is claimed
/// of it.
#[verifier::external_body]
fn render_enclosed_block<'reg, 'rc>(
    h: &handlebars::Helper<'rc>,
    reg: &'reg handlebars::Handlebars<'reg>,
    ctx: &'rc handlebars::Context,
    rc: &mut handlebars::RenderContext<'reg, 'rc>,
) -> (res: Result<String, handlebars::RenderError>)
    ensures
        res is Ok ==> rc_blocks(*final(rc)) == rc_blocks(*old(rc)),
{
    let mut out = handlebars::StringOutput::new();
    if let Some(t) = h.template() {
        t.render(reg, ctx, rc, &mut out)?;
    }
    out.into_string().map_err(handlebars::RenderError::from)
}

/// Relies on handlebars::Template::render, as `render_enclosed_block` does,
/// for a template resolved from the registry.
#[verifier::external_body]
fn render_template_into<'reg, 'rc>(
    t: &'rc handlebars::Template,
    reg: &'reg handlebars::Handlebars<'reg>,
    ctx: &'rc handlebars::Context,
    rc: &mut handlebars::RenderContext<'reg, 'rc>,
) -> (res: Result<String, handlebars::RenderError>)
    ensures
        res is Ok ==> rc_blocks(*final(rc)) == rc_blocks(*old(rc)),
{
    let mut out = handlebars::StringOutput::new();
    t.render(reg, ctx, rc, &mut out)?;
    out.into_string().map_err(handlebars::RenderError::from)
}

/// Relies on handlebars::RenderErrorReason::BlockContentRequired.
#[verifier::external_body]
fn block_required_error() -> (res: handlebars::RenderError)
    ensures
        render_error_kind(res) is BlockRequired,
{
    handlebars::RenderErrorReason::BlockContentRequired.into()
}

/// Relies on handlebars::RenderErrorReason::ParamNotFoundForIndex.
#[verifier::external_body]
fn param_missing_error() -> (res: handlebars::RenderError)
    ensures
        render_error_kind(res) is ParamMissing,
{
    handlebars::RenderErrorReason::ParamNotFoundForIndex("template", 0).into()
}

/// Relies on handlebars::RenderErrorReason::InvalidParamType to report a
/// layout identifier that is not a string.
#[verifier::external_body]
fn argument_type_error() -> (res: handlebars::RenderError)
    ensures
        render_error_kind(res) is BadArgument,
{
    handlebars::RenderErrorReason::InvalidParamType("string").into()
}

/// Relies on handlebars::RenderErrorReason::TemplateNotFound, which carries
/// the missing identifier.
#[verifier::external_body]
fn template_not_found_error(name: &str) -> (res: handlebars::RenderError)
    ensures
        render_error_kind(res) is NotFound,
        render_error_name(res) == name@,
{
    handlebars::RenderErrorReason::TemplateNotFound(name.to_owned()).into()
}

/// One invocation of the layout helper. The enclosed block is rendered
/// first, against the current context and scope chain; its text is then
/// bound to a scoped `content` variable, escaping is suppressed, the named
/// layout is rendered, and — whatever any render returns — the escape toggle
/// is restored, and the scope is dropped, before this function returns.
pub fn theme_helper<'reg, 'rc>(
    h: &handlebars::Helper<'rc>,
    reg: &'reg handlebars::Handlebars<'reg>,
    ctx: &'rc handlebars::Context,
    rc: &mut handlebars::RenderContext<'reg, 'rc>,
) -> (res: Result<String, handlebars::RenderError>)
    ensures
        rc_escape_off(*final(rc)) == rc_escape_off(*old(rc)),
        res is Ok ==> rc_blocks(*final(rc)) == rc_blocks(*old(rc)),
        !helper_in_block_form(*h) ==> res is Err && render_error_kind(
            res->Err_0,
        ) is BlockRequired && rc_blocks(*final(rc)) == rc_blocks(*old(rc)),
        helper_in_block_form(*h) && helper_first_arg(*h) is None ==> res is Err
            && render_error_kind(res->Err_0) is ParamMissing && rc_blocks(*final(rc)) == rc_blocks(
            *old(rc),
        ),
        helper_in_block_form(*h) ==> (helper_first_arg(*h) matches Some(a) ==> (a is None ==> res
            is Err && render_error_kind(res->Err_0) is BadArgument && rc_blocks(*final(rc))
            == rc_blocks(*old(rc)))),
        helper_in_block_form(*h) ==> (helper_first_arg(*h) matches Some(a) ==> (a matches Some(n)
            ==> (!engine_templates(*reg).contains_key(n) ==> res is Err))),
        res is Ok ==> helper_in_block_form(*h) && (helper_first_arg(*h) matches Some(a) && a
            matches Some(n) && engine_templates(*reg).contains_key(n)),
{
    let was_off = escape_off(rc);
    let is_block = helper_is_block(h);
    let arg = helper_layout_arg(h);
    let layout_known = match &arg {
        LayoutArg::Name(name) => lookup_template(reg, name.as_str()).is_some(),
        _ => false,
    };
    let plan = helper_plan(is_block, arg, layout_known);
    match plan {
        HelperPlan::RequireBlock => Err(block_required_error()),
        HelperPlan::RequireName => Err(param_missing_error()),
        HelperPlan::RequireText => Err(argument_type_error()),
        HelperPlan::Missing(name) => {
            // The enclosed block renders first, so its own errors take
            // precedence over the missing layout.
            let inner = render_enclosed_block(h, reg, ctx, rc);
            set_escape_off(rc, was_off);
            match inner {
                Err(e) => Err(e),
                Ok(_) => Err(template_not_found_error(name.as_str())),
            }
        },
        HelperPlan::Wrap(name) => {
            let inner = match render_enclosed_block(h, reg, ctx, rc) {
                Ok(inner) => inner,
                Err(e) => {
                    set_escape_off(rc, was_off);
                    return Err(e);
                },
            };
            match lookup_template(reg, name.as_str()) {
                None => {
                    set_escape_off(rc, was_off);
                    Err(template_not_found_error(name.as_str()))
                },
                Some(t) => {
                    let ghost blocks_before = rc_blocks(*rc);
                    push_content_block(rc, inner);
                    set_escape_off(rc, true);
                    let result = render_template_into(t, reg, ctx, rc);
                    set_escape_off(rc, was_off);
                    pop_block(rc);
                    proof {
                        if result is Ok {
                            assert(rc_blocks(*rc) =~= blocks_before);
                        }
                    }
                    result
                },
            }
        },
    }
}

} // verus!
