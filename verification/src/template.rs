//! Text templates, rendered by the `minijinja` engine.
//!
//! Only plain templates (see [`crate::plain`]) reach the engine. What a
//! template beyond them asks for, the engine may answer by stopping the
//! program: it reverses a slice of an empty value by reading its first item,
//! and it reads a long run of `not` with one call inside the other.

use crate::plain::{is_plain_template, plain_template};
use vstd::prelude::*;

verus! {

/// The values that a template can refer to, each under its key.
///
/// A key should occur once: which of two entries under one key a template
/// sees is left to the engine.
#[derive(Debug, Clone)]
pub struct Context {
    pub texts: Vec<(String, String)>,
    pub numbers: Vec<(String, i64)>,
    pub lists: Vec<(String, Vec<String>)>,
}

/// What a [`Context`] stands for in contracts.
pub struct ContextView {
    pub texts: Seq<(Seq<char>, Seq<char>)>,
    pub numbers: Seq<(Seq<char>, i64)>,
    pub lists: Seq<(Seq<char>, Seq<Seq<char>>)>,
}

impl ContextView {
    /// What the engine renders the template `source`, called `name`, to with
    /// these values: see [`rendered`].
    pub open spec fn rendered(self, name: Seq<char>, source: Seq<char>) -> Option<Seq<char>> {
        rendered(name, source, self.texts, self.numbers, self.lists)
    }
}

impl View for Context {
    type V = ContextView;

    open spec fn view(&self) -> ContextView {
        ContextView {
            texts: self.texts.deep_view(),
            numbers: self.numbers.deep_view(),
            lists: self.lists.deep_view(),
        }
    }
}

/// Why a template was not rendered.
#[derive(Debug, Clone)]
pub enum RenderError {
    /// The template is not plain, and was not handed to the engine.
    NotPlain,
    /// The engine could not read or could not render the template. Holds the
    /// engine's account of what went wrong.
    Engine(String),
}

/// `minijinja::Error`, the error that the engine reports. It is only handed
/// on: nothing is known here of what it holds.
#[verifier::external_type_specification]
#[verifier::external_body]
pub struct ExEngineError(minijinja::Error);

/// The text that the engine, set up with its defaults, renders the template
/// `source` to when the template is called `name` and refers to the values of
/// the three lists; `None` where the engine reports an error instead.
///
/// The name counts: the engine chooses how it escapes values by the name's
/// extension.
pub uninterp spec fn rendered(
    name: Seq<char>,
    source: Seq<char>,
    texts: Seq<(Seq<char>, Seq<char>)>,
    numbers: Seq<(Seq<char>, i64)>,
    lists: Seq<(Seq<char>, Seq<Seq<char>>)>,
) -> Option<Seq<char>>;

/// Calls `minijinja::Environment::render_named_str` on an environment fresh
/// from `minijinja::Environment::new`. The context is the map that
/// `minijinja::Value::from_pairs` makes of the given keys and values: a text
/// and a number as `Value::from` takes them, a list as `Value::from_object`
/// takes it.
///
/// Trusted: that on a plain template the call returns, and that its outcome
/// is the one that [`rendered`] names, and so depends on nothing but the
/// arguments. Nothing is claimed of what the text holds. A plain template
/// has the engine look names up, put values out, walk over a value and ask a
/// loop for its last round; the engine counts how deep statements nest and
/// reports a template that goes too deep, or that it cannot render for
/// another reason, as an error.
#[verifier::external_body]
fn render_named_str(
    name: &str,
    source: &str,
    texts: &Vec<(String, String)>,
    numbers: &Vec<(String, i64)>,
    lists: &Vec<(String, Vec<String>)>,
) -> (outcome: Result<String, minijinja::Error>)
    requires
        plain_template(source@),
    ensures
        match outcome {
            Ok(text) => rendered(
                name@,
                source@,
                texts.deep_view(),
                numbers.deep_view(),
                lists.deep_view(),
            ) == Some(text@),
            Err(_) => rendered(
                name@,
                source@,
                texts.deep_view(),
                numbers.deep_view(),
                lists.deep_view(),
            ) is None,
        },
{
    let mut pairs: Vec<(&str, minijinja::Value)> = Vec::new();
    for (key, text) in texts {
        pairs.push((key, minijinja::Value::from(text)));
    }
    for (key, number) in numbers {
        pairs.push((key, minijinja::Value::from(*number)));
    }
    for (key, list) in lists {
        pairs.push((key, minijinja::Value::from_object(list.clone())));
    }
    minijinja::Environment::new().render_named_str(name, source, minijinja::Value::from_pairs(pairs))
}

/// Calls `minijinja::Error`'s `Display` through `to_string`.
///
/// Nothing is claimed of the text.
#[verifier::external_body]
fn error_text(error: &minijinja::Error) -> (text: String) {
    error.to_string()
}

/// Renders the template `source`, called `name`, with the values of `context`.
///
/// A template that is not plain is refused. The text of a plain template is
/// the engine's: see [`rendered`].
pub fn render(name: &str, source: &str, context: &Context) -> (outcome: Result<
    String,
    RenderError,
>)
    ensures
        match outcome {
            Ok(text) => plain_template(source@) && context@.rendered(name@, source@) == Some(
                text@,
            ),
            Err(RenderError::NotPlain) => !plain_template(source@),
            Err(RenderError::Engine(_)) => plain_template(source@) && context@.rendered(
                name@,
                source@,
            ) is None,
        },
{
    if !is_plain_template(source) {
        return Err(RenderError::NotPlain);
    }
    match render_named_str(name, source, &context.texts, &context.numbers, &context.lists) {
        Ok(text) => Ok(text),
        Err(error) => Err(RenderError::Engine(error_text(&error))),
    }
}

} // verus!
