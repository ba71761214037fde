//! The article renderer: converts the markdown body to an HTML
//! fragment, builds the render context — the front-matter fields plus
//! the computed `article` and `url` fields, computed values winning —
//! and applies the template service.

use vstd::prelude::*;

use crate::errors::PipelineError;
use crate::front_matter::{fields_view, FrontMatter};
use crate::json::{
    clone_value, jmap_empty, jmap_entries, json_map_insert, json_map_new, json_object,
    json_object_value, json_string, json_string_value,
};

verus! {

/// The HTML fragment that the markdown conversion service produces
/// for the text `md`.
pub uninterp spec fn html_of(md: Seq<char>) -> Seq<char>;

/// What the template service produces for the template text and the
/// context value: `None` is a template or render failure.
pub uninterp spec fn rendered_of(template: Seq<char>, data: serde_json::Value) -> Option<Seq<char>>;

/// Relies on `pulldown_cmark`'s parser and HTML renderer, as the
/// markdown conversion service: with fixed options the fragment is a
/// function of the markdown text alone.
#[verifier::external_body]
pub(crate) fn markdown_to_html(md: &str) -> (r: String)
    ensures
        r@ == html_of(md@),
{
    let parser = pulldown_cmark::Parser::new_ext(md, pulldown_cmark::Options::empty());
    let mut out = String::new();
    pulldown_cmark::html::push_html(&mut out, parser);
    out
}

/// Relies on `handlebars`' `render_template` on a fresh registry, as
/// the template service: the outcome is a function of the template
/// text and the data value alone.
#[verifier::external_body]
pub(crate) fn apply_template(template: &str, data: &serde_json::Value) -> (r: Option<String>)
    ensures
        r is Some <==> rendered_of(template@, *data) is Some,
        r matches Some(h) ==> Some(h@) == rendered_of(template@, *data),
{
    let registry = handlebars::Handlebars::new();
    registry.render_template(template, data).ok()
}

/// Relies on std's `str::from_utf8`: it succeeds exactly on valid
/// UTF-8 and yields its decoding.
#[verifier::external_body]
pub(crate) fn bytes_to_str(b: &[u8]) -> (r: Option<&str>)
    ensures
        r is Some <==> vstd::utf8::valid_utf8(b@),
        r matches Some(t) ==> t@ == vstd::utf8::decode_utf8(b@),
{
    std::str::from_utf8(b).ok()
}

/// The entry map that inserting the fields in order builds.
pub open spec fn fields_map(fields: Seq<(Seq<char>, serde_json::Value)>) -> Map<
    Seq<char>,
    serde_json::Value,
>
    decreases fields.len(),
{
    if fields.len() == 0 {
        Map::empty()
    } else {
        fields_map(fields.drop_last()).insert(fields.last().0, fields.last().1)
    }
}

/// The entries of an article's render context: the front-matter
/// fields, then the computed `article` and `url` fields, computed
/// values overwriting same-named fields.
pub open spec fn context_entries(
    fields: Seq<(Seq<char>, serde_json::Value)>,
    article: Seq<char>,
    url: Seq<char>,
) -> Map<Seq<char>, serde_json::Value> {
    fields_map(fields).insert("article"@, json_string_value(article)).insert(
        "url"@,
        json_string_value(url),
    )
}

/// An article's render context as one JSON object value.
pub open spec fn context_value(
    fields: Seq<(Seq<char>, serde_json::Value)>,
    article: Seq<char>,
    url: Seq<char>,
) -> serde_json::Value {
    json_object_value(context_entries(fields, article, url))
}

/// Builds the render context object for one article.
fn build_context_value(
    fields: &Vec<(String, serde_json::Value)>,
    article: String,
    url: String,
) -> (r: serde_json::Value)
    ensures
        r == context_value(fields_view(fields@), article@, url@),
{
    let mut m = json_map_new();
    assert(jmap_entries(m) == fields_map(fields_view(fields@).take(0))) by {
        assert(fields_view(fields@).take(0) =~= Seq::<(Seq<char>, serde_json::Value)>::empty());
    }
    let mut i: usize = 0;
    while i < fields.len()
        invariant
            0 <= i <= fields@.len(),
            jmap_entries(m) == fields_map(fields_view(fields@).take(i as int)),
        decreases fields@.len() - i,
    {
        let k = fields[i].0.clone();
        let v = clone_value(&fields[i].1);
        json_map_insert(&mut m, k, v);
        proof {
            let fv = fields_view(fields@);
            assert(fv.take(i + 1 as int).drop_last() =~= fv.take(i as int));
            assert(fv.take(i + 1 as int).last() == fv[i as int]);
        }
        i = i + 1;
    }
    proof {
        assert(fields_view(fields@).take(fields@.len() as int) =~= fields_view(fields@));
    }
    json_map_insert(&mut m, String::from_str("article"), json_string(article));
    json_map_insert(&mut m, String::from_str("url"), json_string(url));
    json_object(m)
}

/// Renders one article: converts the body to an HTML fragment, builds
/// the render context, and applies the template.  Returns the final
/// page together with the context value, or the fatal render error.
pub fn render_article(template: &str, fm: &FrontMatter, body_text: &str, url: &String) -> (r:
    Result<(String, serde_json::Value), PipelineError>)
    ensures
        r matches Ok(p) ==> p.1 == context_value(fm@, html_of(body_text@), url@) && Some(p.0@)
            == rendered_of(template@, p.1),
        r is Err <==> rendered_of(template@, context_value(fm@, html_of(body_text@), url@))
            is None,
        r matches Err(e) ==> e == PipelineError::Render,
{
    let fragment = markdown_to_html(body_text);
    let ctx = build_context_value(&fm.fields, fragment, url.clone());
    match apply_template(template, &ctx) {
        Some(page) => Ok((page, ctx)),
        None => Err(PipelineError::Render),
    }
}

/// The render context always carries `article` and `url`, and the
/// computed values overwrite same-named front-matter fields.
pub proof fn lemma_context_computed_fields_win(
    fields: Seq<(Seq<char>, serde_json::Value)>,
    article: Seq<char>,
    url: Seq<char>,
)
    ensures
        context_entries(fields, article, url).contains_key("article"@),
        context_entries(fields, article, url).contains_key("url"@),
        context_entries(fields, article, url)["article"@] == json_string_value(article),
        context_entries(fields, article, url)["url"@] == json_string_value(url),
{
    reveal_strlit("article");
    reveal_strlit("url");
    assert("article"@.len() == 7);
    assert("url"@.len() == 3);
}

} // verus!
