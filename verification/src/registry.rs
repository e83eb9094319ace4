//! The compiled-template registry: a verified layer over the `handlebars`
//! template engine. The engine's template table is modelled as a map from
//! identifier to the source text it was registered from; registration is
//! last-write-wins within the one shared namespace.
use vstd::prelude::*;

use crate::errors::BuildError;
use crate::helper::{render_error_kind, render_error_name, RenderErrKind};

verus! {

#[verifier::external_type_specification]
#[verifier::external_body]
pub struct ExHandlebars<'reg>(handlebars::Handlebars<'reg>);

#[verifier::external_type_specification]
#[verifier::external_body]
pub struct ExTemplate(handlebars::Template);

#[verifier::external_type_specification]
#[verifier::external_body]
pub struct ExTemplateError(handlebars::TemplateError);

#[verifier::external_type_specification]
#[verifier::external_body]
pub struct ExRenderError(handlebars::RenderError);

#[verifier::external_type_specification]
#[verifier::external_body]
pub struct ExValue(serde_json::Value);

/// The identifiers the engine holds, each mapped to the source text it was
/// registered from. The values are registration history: the engine keeps
/// only the compiled form of each source, so this model is bookkeeping for
/// one run, not something recoverable from the engine's state.
pub uninterp spec fn engine_templates(r: handlebars::Handlebars<'static>) -> Map<
    Seq<char>,
    Seq<char>,
>;

/// Whether the engine renders an unresolved context reference as a hard
/// error rather than an empty substitution.
pub uninterp spec fn engine_strict(r: handlebars::Handlebars<'static>) -> bool;

/// Whether the engine's template compiler accepts this source text.
/// Compilation is a function of the source alone: the options the registry
/// passes beside it are fixed, and the name only labels error reports.
pub uninterp spec fn hbs_compiles(source: Seq<char>) -> bool;

/// The template table of an engine that holds nothing.
pub open spec fn no_templates() -> Map<Seq<char>, Seq<char>> {
    Map::empty()
}

/// Relies on handlebars::Handlebars::register_partial: the source is
/// compiled — which succeeds or fails on the source text alone — and, only
/// on success, stored under the name, overwriting any previous entry;
/// partials and templates share one table. The strict toggle is not touched.
#[verifier::external_body]
fn engine_register(
    r: &mut handlebars::Handlebars<'static>,
    name: &str,
    source: &str,
) -> (res: Result<(), handlebars::TemplateError>)
    ensures
        res is Ok <==> hbs_compiles(source@),
        res is Ok ==> engine_templates(*final(r)) == engine_templates(*old(r)).insert(
            name@,
            source@,
        ),
        res is Err ==> engine_templates(*final(r)) == engine_templates(*old(r)),
        engine_strict(*final(r)) == engine_strict(*old(r)),
{
    r.register_partial(name, source)
}

/// Relies on handlebars::Handlebars::set_strict_mode, which writes the
/// strict toggle and touches no templates.
#[verifier::external_body]
pub(crate) fn engine_set_strict(r: &mut handlebars::Handlebars<'static>, enabled: bool)
    ensures
        engine_strict(*final(r)) == enabled,
        engine_templates(*final(r)) == engine_templates(*old(r)),
{
    r.set_strict_mode(enabled);
}

/// Relies on handlebars::Handlebars::render: a name absent from the table
/// renders as an error, and only a present one can render at all; whether a
/// present one succeeds is the engine's decision (strict mode, helpers).
#[verifier::external_body]
fn engine_render(
    r: &handlebars::Handlebars<'static>,
    name: &str,
    context: &serde_json::Value,
) -> (res: Result<String, handlebars::RenderError>)
    ensures
        res is Ok ==> engine_templates(*r).contains_key(name@),
        !engine_templates(*r).contains_key(name@) ==> res is Err,
{
    r.render(name, context)
}

/// Relies on handlebars::Handlebars::clear_templates, which empties the
/// template table and touches nothing else.
#[verifier::external_body]
fn engine_clear(r: &mut handlebars::Handlebars<'static>)
    ensures
        engine_templates(*final(r)) == no_templates(),
        engine_strict(*final(r)) == engine_strict(*old(r)),
{
    r.clear_templates();
}

/// Relies on handlebars::RenderError::reason, which exposes the stored
/// error; the arms only tell the engine's kinds apart.
#[verifier::external_body]
fn classify_render_error(e: &handlebars::RenderError) -> (kind: RenderErrKind)
    ensures
        kind == render_error_kind(*e),
{
    match e.reason() {
        handlebars::RenderErrorReason::BlockContentRequired => RenderErrKind::BlockRequired,
        handlebars::RenderErrorReason::ParamNotFoundForIndex(_, _) => RenderErrKind::ParamMissing,
        handlebars::RenderErrorReason::InvalidParamType(_) => RenderErrKind::BadArgument,
        handlebars::RenderErrorReason::TemplateNotFound(_) => RenderErrKind::NotFound,
        handlebars::RenderErrorReason::MissingVariable(_) => RenderErrKind::MissingField,
        _ => RenderErrKind::Other,
    }
}

/// Relies on handlebars::RenderError::reason and
/// handlebars::RenderErrorReason::TemplateNotFound, which carries the
/// missing identifier.
#[verifier::external_body]
fn render_error_named(e: &handlebars::RenderError) -> (res: String)
    requires
        render_error_kind(*e) is NotFound,
    ensures
        res@ == render_error_name(*e),
{
    match e.reason() {
        handlebars::RenderErrorReason::TemplateNotFound(name) => name.clone(),
        _ => String::new(),
    }
}

/// Relies on handlebars::TemplateError's Display implementation for a
/// human-readable compile report.
#[verifier::external_body]
fn template_error_text(e: &handlebars::TemplateError) -> String {
    e.to_string()
}

/// Relies on handlebars::RenderError's Display implementation for a
/// human-readable render report.
#[verifier::external_body]
fn render_error_text(e: &handlebars::RenderError) -> String {
    e.to_string()
}

/// The template registry: owns the engine, compiles sources under
/// identifiers, and resolves identifiers back to renderable templates.
pub struct Registry {
    engine: handlebars::Handlebars<'static>,
}

impl Registry {
    /// The identifiers registered so far, each with its source text.
    pub closed spec fn templates(&self) -> Map<Seq<char>, Seq<char>> {
        engine_templates(self.engine)
    }

    /// Whether unresolved context references are hard errors.
    pub closed spec fn strict(&self) -> bool {
        engine_strict(self.engine)
    }

    /// Wraps a prepared engine. The surrounding program builds the engine —
    /// installing the layout helper entry, an engine callback no verified
    /// signature can carry — and everything after that goes through this
    /// registry.
    pub fn from_engine(engine: handlebars::Handlebars<'static>) -> (res: Registry)
        ensures
            res.templates() == engine_templates(engine),
            res.strict() == engine_strict(engine),
    {
        Registry { engine }
    }

    /// Compiles `source` and stores it under `name`; registration succeeds
    /// exactly when the source compiles. An identifier already present is
    /// silently overwritten: last write wins. On a compile error nothing is
    /// stored.
    pub fn register(&mut self, name: &str, source: &str) -> (res: Result<(), BuildError>)
        ensures
            res is Ok <==> hbs_compiles(source@),
            res is Ok ==> final(self).templates() == old(self).templates().insert(name@, source@),
            res is Err ==> final(self).templates() == old(self).templates(),
            res is Err ==> res->Err_0 is Compile && res->Err_0.spec_subject() == name@,
            final(self).strict() == old(self).strict(),
    {
        match engine_register(&mut self.engine, name, source) {
            Ok(()) => Ok(()),
            Err(e) => Err(BuildError::Compile(name.to_owned(), template_error_text(&e))),
        }
    }

    /// Whether a template is registered under `name`.
    pub fn has_template(&self, name: &str) -> (res: bool)
        ensures
            res == self.templates().contains_key(name@),
    {
        crate::helper::lookup_template(&self.engine, name).is_some()
    }

    /// Renders the template registered under `name` against `context`. An
    /// unregistered identifier is always a hard error naming it, whatever
    /// the strict flag. A missing template referenced during the render — a
    /// transcluded layout — also surfaces as `TemplateNotFound`, naming the
    /// missing identifier; an unresolved context reference under strict mode
    /// surfaces as `UnknownField`; any other failure of the engine as
    /// `Render`, both naming the page.
    pub fn render(&self, name: &str, context: &serde_json::Value) -> (res: Result<
        String,
        BuildError,
    >)
        ensures
            !self.templates().contains_key(name@) ==> res is Err
                && res->Err_0 is TemplateNotFound && res->Err_0.spec_subject() == name@,
            res is Err ==> (res->Err_0 is TemplateNotFound || res->Err_0 is UnknownField
                || res->Err_0 is Render),
            res is Err ==> (!(res->Err_0 is TemplateNotFound) ==> self.templates().contains_key(
                name@,
            ) && res->Err_0.spec_subject() == name@),
            res is Ok ==> self.templates().contains_key(name@),
    {
        if !self.has_template(name) {
            return Err(BuildError::TemplateNotFound(name.to_owned()));
        }
        match engine_render(&self.engine, name, context) {
            Ok(text) => Ok(text),
            Err(e) => match classify_render_error(&e) {
                RenderErrKind::MissingField => Err(
                    BuildError::UnknownField(name.to_owned(), render_error_text(&e)),
                ),
                RenderErrKind::NotFound => Err(BuildError::TemplateNotFound(render_error_named(&e))),
                _ => Err(BuildError::Render(name.to_owned(), render_error_text(&e))),
            },
        }
    }

    /// Empties the registry, so one long-lived process can rebuild it.
    pub fn clear(&mut self)
        ensures
            final(self).templates() == no_templates(),
            final(self).strict() == old(self).strict(),
    {
        engine_clear(&mut self.engine);
    }
}

} // verus!
