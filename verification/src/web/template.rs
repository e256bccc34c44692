//! A reply in the form that the chat platform takes.

use crate::error::Error;
use crate::web::routes_bot_request::{texts, Output, OutputText};
use kakao_rs::prelude::{SimpleImage, SimpleText, Template};
use vstd::prelude::*;

verus! {

/// The `Template` of kakao_rs: the body of a reply, with its outputs.
/// Nothing inside it is read here.
#[verifier::external_type_specification]
#[verifier::external_body]
pub struct ExTemplate(kakao_rs::prelude::Template);

/// The outputs that a template holds, in the order in which they were
/// added to it.
pub uninterp spec fn template_outputs(template: Template) -> Seq<OutputText>;

/// Calls `Template::new` of kakao_rs. The contract claims that the new
/// template holds no output.
#[verifier::external_body]
fn new_template() -> (template: Template)
    ensures
        template_outputs(template) == Seq::<OutputText>::empty(),
{
    Template::new()
}

/// Calls `Template::add_output` of kakao_rs with a simple text made by
/// `SimpleText::new` and `build`. The contract claims that the text is
/// added behind the outputs that the template holds.
#[verifier::external_body]
fn add_simple_text(template: &mut Template, text: &str)
    ensures
        template_outputs(*final(template)) == template_outputs(*old(template)).push(
            OutputText::SimpleText(text@),
        ),
{
    template.add_output(SimpleText::new(text).build());
}

/// Calls `Template::add_output` of kakao_rs with a simple image made by
/// `SimpleImage::new` and `build`. The contract claims that the image is
/// added behind the outputs that the template holds.
#[verifier::external_body]
fn add_simple_image(template: &mut Template, image_url: &str, alt_text: &str)
    ensures
        template_outputs(*final(template)) == template_outputs(*old(template)).push(
            OutputText::SimpleImage { image_url: image_url@, alt_text: alt_text@ },
        ),
{
    template.add_output(SimpleImage::new(image_url, alt_text).build());
}

/// The template that holds `outputs`, in their order.
pub fn to_template(outputs: &Vec<Output>) -> (template: Template)
    ensures
        template_outputs(template) == texts(outputs@),
{
    let mut template = new_template();
    let mut n: usize = 0;
    while n < outputs.len()
        invariant
            n <= outputs@.len(),
            template_outputs(template) == texts(outputs@.subrange(0, n as int)),
        decreases outputs@.len() - n,
    {
        match &outputs[n] {
            Output::SimpleText(text) => add_simple_text(&mut template, text.as_str()),
            Output::SimpleImage { image_url, alt_text } => add_simple_image(
                &mut template,
                image_url.as_str(),
                alt_text.as_str(),
            ),
        }
        assert(texts(outputs@.subrange(0, n + 1)) =~= texts(outputs@.subrange(0, n as int)).push(
            outputs@[n as int]@,
        ));
        n += 1;
    }
    assert(outputs@.subrange(0, n as int) =~= outputs@);
    template
}

/// The template that tells the user of `error`: its one output is the
/// text that the error is shown by.
pub fn error_template(error: &Error) -> (template: Template)
    ensures
        template_outputs(template) == seq![OutputText::SimpleText(error.response())],
{
    let text = error.response_text();
    let mut template = new_template();
    add_simple_text(&mut template, text.as_str());
    assert(template_outputs(template) =~= seq![OutputText::SimpleText(text@)]);
    template
}

} // verus!
