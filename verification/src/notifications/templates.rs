//! Notification templates, compiled and rendered by handlebars.
use vstd::prelude::*;
use crate::common::AppError;
use crate::notifications::config::TemplateConfig;
use crate::text::join2;

verus! {

#[verifier::external_type_specification]
#[verifier::external_body]
pub struct ExJsonValue(serde_json::Value);

#[verifier::external_type_specification]
#[verifier::external_body]
pub struct ExHandlebars<'reg>(handlebars::Handlebars<'reg>);

/// The text of the error with which handlebars refuses to compile the
/// template `text` registered as `name`; `None` where it compiles.
pub uninterp spec fn template_error(name: Seq<char>, text: Seq<char>) -> Option<Seq<char>>;

/// A template registry.
pub type Registry = handlebars::Handlebars<'static>;

/// The templates a registry holds: each registered name with the source
/// text it was compiled from.
pub uninterp spec fn templates_held(h: Registry) -> Map<Seq<char>, Seq<char>>;

/// `Handlebars::new`: a registry without templates (its `templates` map
/// starts empty).
#[verifier::external_body]
fn new_registry() -> (r: Registry)
    ensures
        (templates_held(r) == Map::<Seq<char>, Seq<char>>::empty()),
{
    handlebars::Handlebars::new()
}

/// `Handlebars::register_template_string`: compiles `text` and registers it
/// as `name`, or gives the compile error's text. Whether and how it fails
/// depends on the name and the text alone (the registry's indentation
/// setting is the default one here), so the outcome is named
/// `template_error` of them. The compiled template is inserted under
/// `name` only once it compiled; on an error the registry is untouched.
#[verifier::external_body]
fn register_template(h: &mut Registry, name: &str, text: &str) -> (r: Result<(), String>)
    ensures
        match r {
            Ok(()) => template_error(name@, text@) is None
                && templates_held(*final(h)) == templates_held(*old(h)).insert(name@, text@),
            Err(e) => template_error(name@, text@) == Some(e@)
                && templates_held(*final(h)) == templates_held(*old(h)),
        },
{
    match h.register_template_string(name, text) {
        Ok(()) => Ok(()),
        Err(e) => Err(e.to_string()),
    }
}

/// What rendering the template registered as `name`, among the registered
/// `templates` (name to source text), with the JSON document `data` gives:
/// the text, or the text of the error (from reading `data` or from
/// rendering).
pub uninterp spec fn hb_rendered(templates: Map<Seq<char>, Seq<char>>, name: Seq<char>, data: Seq<char>) -> Result<Seq<char>, Seq<char>>;

/// `serde_json::from_str::<serde_json::Value>` on `data`, then
/// `Handlebars::render` of the template registered as `name` with that
/// value; each error is given as its text. The registry here keeps its
/// default settings (no dev mode, no helpers or escape function of its
/// own, default indentation), so what comes out depends on the registered
/// templates, the name and the data alone, and is named `hb_rendered` of
/// them. A name the registry does not hold fails: `render` looks the
/// template up and returns `TemplateNotFound` when it is missing.
#[verifier::external_body]
fn render_registered(h: &Registry, name: &str, data: &str) -> (r: Result<String, String>)
    ensures
        match r {
            Ok(t) => hb_rendered(templates_held(*h), name@, data@) == Ok::<Seq<char>, Seq<char>>(t@)
                && templates_held(*h).contains_key(name@),
            Err(e) => hb_rendered(templates_held(*h), name@, data@) == Err::<Seq<char>, Seq<char>>(e@),
        },
{
    match serde_json::from_str::<serde_json::Value>(data) {
        Ok(v) => h.render(name, &v).map_err(|e| e.to_string()),
        Err(e) => Err(e.to_string()),
    }
}

/// The template every engine starts with.
pub open spec fn welcome_template() -> Seq<char> {
    "<h1>Welcome {{name}}!</h1><p>Thank you for joining LinkWithMentor.</p>"@
}

/// The error of a failed registration.
pub open spec fn registration_failed(r: Result<TemplateEngine, AppError>, e: Seq<char>) -> bool {
    r matches Err(AppError::Internal(m)) && m@ == "Template registration error: "@ + e
}

/// The error of a failed rendering.
pub open spec fn rendering_failed(r: Result<String, AppError>, e: Seq<char>) -> bool {
    r matches Err(AppError::Internal(m)) && m@ == "Template rendering error: "@ + e
}

/// Compiled templates and the template settings. The registry is only
/// reached through the engine's own operations.
pub struct TemplateEngine {
    handlebars: Registry,
    pub config: TemplateConfig,
}

/// A rendering's outcome as the engine reports it: the text, or an internal
/// error that carries the renderer's message.
pub fn render_outcome(raw: Result<String, String>) -> (r: Result<String, AppError>)
    ensures
        match raw {
            Ok(s) => r matches Ok(t) && t@ == s@,
            Err(e) => rendering_failed(r, e@),
        },
{
    match raw {
        Ok(s) => Ok(s),
        Err(e) => Err(AppError::Internal(join2("Template rendering error: ", e.as_str()))),
    }
}

impl TemplateEngine {
    /// The templates the engine holds, by name, as source text.
    pub closed spec fn templates(&self) -> Map<Seq<char>, Seq<char>> {
        templates_held(self.handlebars)
    }

    /// An engine with the built-in welcome e-mail template; an internal
    /// error where handlebars refuses it.
    pub fn new(config: TemplateConfig) -> (r: Result<Self, AppError>)
        ensures
            match template_error("welcome_email"@, welcome_template()) {
                None => r matches Ok(engine)
                    && engine.templates() == Map::<Seq<char>, Seq<char>>::empty().insert("welcome_email"@, welcome_template()),
                Some(e) => registration_failed(r, e),
            },
    {
        let mut h = new_registry();
        match register_template(&mut h, "welcome_email", "<h1>Welcome {{name}}!</h1><p>Thank you for joining LinkWithMentor.</p>") {
            Ok(()) => Ok(TemplateEngine { handlebars: h, config }),
            Err(e) => Err(AppError::Internal(join2("Template registration error: ", e.as_str()))),
        }
    }

    /// The template `template_name` rendered with the JSON document `data`
    /// (an object of template values), or an internal error with the
    /// renderer's message; a name the engine holds no template for is
    /// refused.
    pub fn render_template(&self, template_name: &str, data: &str) -> (r: Result<String, AppError>)
        ensures
            match hb_rendered(self.templates(), template_name@, data@) {
                Ok(t) => r matches Ok(s) && s@ == t,
                Err(e) => rendering_failed(r, e),
            },
            !self.templates().contains_key(template_name@) ==> r is Err,
    {
        let raw = render_registered(&self.handlebars, template_name, data);
        render_outcome(raw)
    }
}

} // verus!
