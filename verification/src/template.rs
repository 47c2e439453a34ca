//! Message templates, rendered by the `tera` crate.

use vstd::prelude::*;

use crate::text::texts;

verus! {

/// `tera::Error`, which says why a template was refused or did not render.
/// Nothing is known of what it holds.
#[verifier::external_type_specification]
#[verifier::external_body]
pub struct ExTeraError(tera::Error);

/// The named values that a message template may refer to: texts and
/// numbers, each kind in the order in which the values were added.
#[derive(Debug)]
pub struct Parameters {
    text_names: Vec<String>,
    text_values: Vec<String>,
    number_names: Vec<String>,
    number_values: Vec<usize>,
}

/// Named values as plain values. The name at a place belongs to the value at
/// the same place.
pub ghost struct Named {
    /// The names of the texts.
    pub text_names: Seq<Seq<char>>,
    /// The texts.
    pub text_values: Seq<Seq<char>>,
    /// The names of the numbers.
    pub number_names: Seq<Seq<char>>,
    /// The numbers.
    pub number_values: Seq<usize>,
}

impl Named {
    /// No value at all.
    pub open spec fn empty() -> Named {
        Named {
            text_names: Seq::empty(),
            text_values: Seq::empty(),
            number_names: Seq::empty(),
            number_values: Seq::empty(),
        }
    }

    /// These values and the text `value` under the name `name`.
    pub open spec fn text(self, name: Seq<char>, value: Seq<char>) -> Named {
        Named {
            text_names: self.text_names.push(name),
            text_values: self.text_values.push(value),
            ..self
        }
    }

    /// These values and the number `value` under the name `name`.
    pub open spec fn number(self, name: Seq<char>, value: usize) -> Named {
        Named {
            number_names: self.number_names.push(name),
            number_values: self.number_values.push(value),
            ..self
        }
    }
}

impl View for Parameters {
    type V = Named;

    closed spec fn view(&self) -> Named {
        Named {
            text_names: texts(self.text_names@),
            text_values: texts(self.text_values@),
            number_names: texts(self.number_names@),
            number_values: self.number_values@,
        }
    }
}

impl Parameters {
    /// No value at all.
    pub fn new() -> (p: Parameters)
        ensures
            p@ == Named::empty(),
    {
        let p = Parameters {
            text_names: Vec::new(),
            text_values: Vec::new(),
            number_names: Vec::new(),
            number_values: Vec::new(),
        };
        assert(p@.text_names =~= Seq::empty());
        assert(p@.text_values =~= Seq::empty());
        assert(p@.number_names =~= Seq::empty());
        p
    }

    /// Adds the text `value` under the name `key`.
    pub fn insert_text(&mut self, key: String, value: String)
        ensures
            final(self)@ == old(self)@.text(key@, value@),
    {
        self.text_names.push(key);
        self.text_values.push(value);
        assert(self@.text_names =~= old(self)@.text_names.push(key@));
        assert(self@.text_values =~= old(self)@.text_values.push(value@));
    }

    /// Adds the number `value` under the name `key`.
    pub fn insert_number(&mut self, key: String, value: usize)
        ensures
            final(self)@ == old(self)@.number(key@, value),
    {
        self.number_names.push(key);
        self.number_values.push(value);
        assert(self@.number_names =~= old(self)@.number_names.push(key@));
    }
}

/// `rendered` is a text that the template engine gives for `template` when
/// the template may refer to the texts `text_values` under `text_names` and
/// to the numbers `number_values` under `number_names`. A template may ask
/// the engine for the time, a random number or an environment variable, so
/// there may be more than one such text.
pub uninterp spec fn renders(
    template: Seq<char>,
    text_names: Seq<Seq<char>>,
    text_values: Seq<Seq<char>>,
    number_names: Seq<Seq<char>>,
    number_values: Seq<usize>,
    rendered: Seq<char>,
) -> bool;

/// Renders `template` with `tera::Tera::one_off`, without escaping, in a
/// `tera::Context` into which `tera::Context::insert` has put each value of
/// `parameters` under its name, the texts first. What comes back is what the
/// engine gave for this template and these values; nothing is claimed of
/// what the text is, nor of when the engine refuses the template.
#[verifier::external_body]
pub(crate) fn render(template: &str, parameters: &Parameters) -> (r: Result<String, tera::Error>)
    ensures
        r matches Ok(rendered) ==> renders(
            template@,
            parameters@.text_names,
            parameters@.text_values,
            parameters@.number_names,
            parameters@.number_values,
            rendered@,
        ),
{
    let mut context = tera::Context::new();
    for (key, value) in parameters.text_names.iter().zip(parameters.text_values.iter()) {
        context.insert(key.as_str(), value);
    }
    for (key, value) in parameters.number_names.iter().zip(parameters.number_values.iter()) {
        context.insert(key.as_str(), value);
    }
    tera::Tera::one_off(template, &context, false)
}

} // verus!
