//! The run's state and per-entry processing: idempotent directory
//! bookkeeping, the article pipeline (front matter, markdown,
//! context, template), the media plan, and the digest.
//!
//! The caller drives the traversal and performs all I/O; each call
//! here returns a plan saying which directory to create and what to
//! write or copy.

use vstd::prelude::*;

use crate::errors::PipelineError;
use crate::front_matter::{extract, extract_result};
use crate::json::{json_array, json_array_value, json_text_of, json_to_string};
use crate::paths::{
    all_plain, check_components, join_prefix, join_with, map_article, mapped_article_components,
    seq_views, spec_classify, str_eq, FileKind,
};
use crate::render::{context_value, html_of, render_article, rendered_of};

verus! {

/// The body bytes of a document after front-matter extraction.
pub open spec fn article_body(content: Seq<u8>) -> Seq<u8> {
    extract_result(content).0
}

/// The front-matter fields of a document.
pub open spec fn article_fields(content: Seq<u8>) -> Seq<(Seq<char>, serde_json::Value)> {
    extract_result(content).1
}

/// The canonical URL of an article with the given input components.
pub open spec fn article_url(parts: Seq<Seq<char>>) -> Seq<char> {
    join_with(mapped_article_components(parts), '/')
}

/// The render-context value of an article: its front-matter fields
/// plus the computed `article` and `url` fields.
pub open spec fn article_context(content: Seq<u8>, parts: Seq<Seq<char>>) -> serde_json::Value {
    context_value(
        article_fields(content),
        html_of(vstd::utf8::decode_utf8(article_body(content))),
        article_url(parts),
    )
}

/// The key under which an entry's output directory is recorded: its
/// parent components joined by `/`.
pub open spec fn parent_key(parts: Seq<Seq<char>>) -> Seq<char> {
    join_with(parts.take(parts.len() - 1), '/')
}

/// Whether a directory still has to be created.
pub open spec fn needs_create(recorded: Seq<Seq<char>>, d: Seq<char>) -> bool {
    !recorded.contains(d)
}

/// The recorded directories after one `ensure_dir` request.
pub open spec fn dir_keys_after(recorded: Seq<Seq<char>>, d: Seq<char>) -> Seq<Seq<char>> {
    if recorded.contains(d) {
        recorded
    } else {
        recorded.push(d)
    }
}

/// `ensure_dir` performs at most one creation per directory: after a
/// request for `d` has been recorded, a second request for `d` never
/// asks to create.
pub proof fn lemma_ensure_dir_idempotent(recorded: Seq<Seq<char>>, d: Seq<char>)
    ensures
        !needs_create(dir_keys_after(recorded, d), d),
{
    if !recorded.contains(d) {
        assert(recorded.push(d)[recorded.len() as int] == d);
    }
}

/// What to do for one article: write `html` at the output path made
/// of `out_components`, creating its parent directory first when
/// `make_dir` says so.
pub struct ArticlePlan {
    pub out_components: Vec<String>,
    pub url: String,
    pub html: String,
    pub make_dir: bool,
}

/// What to do for one media file: nothing when media copying is
/// disabled, else copy it to the mirrored path, creating its parent
/// directory first when `make_dir` says so.
#[derive(Clone, Copy, Debug, PartialEq, Eq, Structural)]
pub enum MediaPlan {
    Skip,
    Copy { make_dir: bool },
}

/// The state of one run: the template text, the options, the
/// directories already recorded as created, and the digest collected
/// so far.
pub struct Pipeline {
    template: String,
    copy_media: bool,
    digest_on: bool,
    made_dirs: Vec<String>,
    digest: Vec<serde_json::Value>,
}

impl Pipeline {
    /// The template text.
    pub closed spec fn template_text(&self) -> Seq<char> {
        self.template@
    }

    /// Whether media files are copied.
    pub closed spec fn media_enabled(&self) -> bool {
        self.copy_media
    }

    /// Whether the digest is collected and written.
    pub closed spec fn digest_enabled(&self) -> bool {
        self.digest_on
    }

    /// The directory keys recorded as created, in creation order.
    pub closed spec fn dir_keys(&self) -> Seq<Seq<char>> {
        seq_views(self.made_dirs@)
    }

    /// The digest entries collected so far, in traversal order.
    pub closed spec fn digest_entries(&self) -> Seq<serde_json::Value> {
        self.digest@
    }

    /// The template and the options of two states agree.
    pub open spec fn same_settings(a: &Pipeline, b: &Pipeline) -> bool {
        a.template_text() == b.template_text() && a.media_enabled() == b.media_enabled()
            && a.digest_enabled() == b.digest_enabled()
    }

    /// A fresh run: nothing recorded, nothing collected.
    pub fn new(template: String, copy_media: bool, digest_on: bool) -> (r: Pipeline)
        ensures
            r.template_text() == template@,
            r.media_enabled() == copy_media,
            r.digest_enabled() == digest_on,
            r.dir_keys() == Seq::<Seq<char>>::empty(),
            r.digest_entries() == Seq::<serde_json::Value>::empty(),
    {
        let r = Pipeline {
            template,
            copy_media,
            digest_on,
            made_dirs: Vec::new(),
            digest: Vec::new(),
        };
        proof {
            assert(r.dir_keys() =~= Seq::<Seq<char>>::empty());
            assert(r.digest_entries() =~= Seq::<serde_json::Value>::empty());
        }
        r
    }

    /// Whether `key` is already recorded.
    fn dir_recorded(&self, key: &String) -> (r: bool)
        ensures
            r == self.dir_keys().contains(key@),
    {
        let mut i: usize = 0;
        while i < self.made_dirs.len()
            invariant
                0 <= i <= self.made_dirs@.len(),
                forall|k: int| 0 <= k < i ==> self.dir_keys()[k] != key@,
            decreases self.made_dirs@.len() - i,
        {
            if str_eq(self.made_dirs[i].as_str(), key.as_str()) {
                assert(self.dir_keys()[i as int] == key@);
                return true;
            }
            i = i + 1;
        }
        proof {
            if self.dir_keys().contains(key@) {
                let k = choose|k: int|
                    0 <= k < self.dir_keys().len() && self.dir_keys()[k] == key@;
                assert(false);
            }
        }
        false
    }

    /// Records `key` and reports whether the underlying directory
    /// still has to be created: true on the first request for a key,
    /// false on every later one.
    pub fn ensure_dir(&mut self, key: String) -> (r: bool)
        ensures
            r == needs_create(old(self).dir_keys(), key@),
            final(self).dir_keys() == dir_keys_after(old(self).dir_keys(), key@),
            final(self).digest_entries() == old(self).digest_entries(),
            Self::same_settings(old(self), final(self)),
    {
        if self.dir_recorded(&key) {
            false
        } else {
            let ghost before = self.dir_keys();
            self.made_dirs.push(key);
            proof {
                assert(self.dir_keys() =~= before.push(self.made_dirs@.last()@));
            }
            true
        }
    }

    /// Processes one article: extracts the front matter, checks the
    /// body is UTF-8, maps the path, renders the page, collects the
    /// digest entry when enabled, and records the output directory.
    /// On any error the state is unchanged and the run must abort.
    pub fn process_article(&mut self, components: &Vec<String>, content: &[u8]) -> (r: Result<
        ArticlePlan,
        PipelineError,
    >)
        requires
            components@.len() > 0,
            spec_classify(seq_views(components@).last()) == Ok::<FileKind, PipelineError>(
                FileKind::Article,
            ),
        ensures
            ({
                let s = seq_views(components@);
                let c = content@;
                let t = old(self).template_text();
                &&& (r is Ok <==> vstd::utf8::valid_utf8(article_body(c)) && all_plain(
                    mapped_article_components(s),
                ) && rendered_of(t, article_context(c, s)) is Some)
                &&& (r == Err::<ArticlePlan, PipelineError>(PipelineError::NotUtf8)
                    <==> !vstd::utf8::valid_utf8(article_body(c)))
                &&& (r == Err::<ArticlePlan, PipelineError>(PipelineError::BadComponent)
                    <==> vstd::utf8::valid_utf8(article_body(c)) && !all_plain(
                    mapped_article_components(s),
                ))
                &&& (r == Err::<ArticlePlan, PipelineError>(PipelineError::Render)
                    <==> vstd::utf8::valid_utf8(article_body(c)) && all_plain(
                    mapped_article_components(s),
                ) && rendered_of(t, article_context(c, s)) is None)
                &&& (r is Err ==> *final(self) == *old(self))
                &&& (r matches Ok(plan) ==> {
                    &&& seq_views(plan.out_components@) == mapped_article_components(s)
                    &&& plan.url@ == article_url(s)
                    &&& Some(plan.html@) == rendered_of(t, article_context(c, s))
                    &&& plan.make_dir == needs_create(old(self).dir_keys(), parent_key(s))
                    &&& final(self).dir_keys() == dir_keys_after(
                        old(self).dir_keys(),
                        parent_key(s),
                    )
                    &&& final(self).digest_entries() == (if old(self).digest_enabled() {
                        old(self).digest_entries().push(article_context(c, s))
                    } else {
                        old(self).digest_entries()
                    })
                    &&& Self::same_settings(old(self), final(self))
                })
            }),
    {
        proof {
            crate::paths::lemma_last_dot_bounds(seq_views(components@).last());
        }
        let (body, fm) = extract(content);
        let text = match crate::render::bytes_to_str(body.as_slice()) {
            Some(t) => t,
            None => {
                return Err(PipelineError::NotUtf8);
            },
        };
        let (out_components, url) = match map_article(components) {
            Ok(p) => p,
            Err(e) => {
                return Err(e);
            },
        };
        let (page, ctx) = match render_article(self.template.as_str(), &fm, text, &url) {
            Ok(p) => p,
            Err(e) => {
                return Err(e);
            },
        };
        if self.digest_on {
            self.digest.push(ctx);
        }
        let key = join_prefix(components, components.len() - 1);
        proof {
            let s = seq_views(components@);
            assert(s.take(components@.len() - 1) =~= s.take(s.len() - 1));
        }
        let make_dir = self.ensure_dir(key);
        Ok(ArticlePlan { out_components, url, html: page, make_dir })
    }

    /// Processes one media file: nothing at all when media copying is
    /// disabled; otherwise checks the components and records the
    /// output directory for the verbatim copy.
    pub fn process_media(&mut self, components: &Vec<String>) -> (r: Result<
        MediaPlan,
        PipelineError,
    >)
        requires
            components@.len() > 0,
        ensures
            ({
                let s = seq_views(components@);
                &&& (!old(self).media_enabled() ==> r == Ok::<MediaPlan, PipelineError>(
                    MediaPlan::Skip,
                ) && *final(self) == *old(self))
                &&& (old(self).media_enabled() ==> {
                    &&& (r is Ok <==> all_plain(s))
                    &&& (r is Err ==> r == Err::<MediaPlan, PipelineError>(
                        PipelineError::BadComponent,
                    ) && *final(self) == *old(self))
                    &&& (r matches Ok(plan) ==> {
                        &&& plan == (MediaPlan::Copy {
                            make_dir: needs_create(old(self).dir_keys(), parent_key(s)),
                        })
                        &&& final(self).dir_keys() == dir_keys_after(
                            old(self).dir_keys(),
                            parent_key(s),
                        )
                        &&& final(self).digest_entries() == old(self).digest_entries()
                        &&& Self::same_settings(old(self), final(self))
                    })
                })
            }),
    {
        if !self.copy_media {
            return Ok(MediaPlan::Skip);
        }
        if !check_components(components) {
            return Err(PipelineError::BadComponent);
        }
        let key = join_prefix(components, components.len() - 1);
        proof {
            let s = seq_views(components@);
            assert(s.take(components@.len() - 1) =~= s.take(s.len() - 1));
        }
        let make_dir = self.ensure_dir(key);
        Ok(MediaPlan::Copy { make_dir })
    }

    /// Ends the run: when the digest is enabled, serializes the
    /// collected entries, in traversal order, as one JSON array to be
    /// written under the output root; `None` when it is disabled, so
    /// no digest file is written.
    pub fn flush_digest(self) -> (r: Option<String>)
        ensures
            r is Some <==> self.digest_enabled(),
            r matches Some(text) ==> text@ == json_text_of(
                json_array_value(self.digest_entries()),
            ),
    {
        if !self.digest_on {
            return None;
        }
        let value = json_array(self.digest);
        Some(json_to_string(&value))
    }
}

} // verus!
