use vstd::prelude::*;
use crate::error::EmailError;
use crate::kv::{lemma_pairs_to_map_domain, lemma_pairs_to_map_last_match, lemma_pairs_to_map_push, pairs_to_map};

verus! {

/// The views of a sequence of strings.
pub open spec fn string_views(s: Seq<String>) -> Seq<Seq<char>> {
    s.map_values(|x: String| x@)
}

/// What the template engine produces for a template text and a key/value
/// payload: the rendered markup, or nothing when the template text does not
/// compile. The result is a function of the two arguments alone.
pub uninterp spec fn rendered_of(
    template: Seq<char>,
    keys: Seq<Seq<char>>,
    vals: Seq<Seq<char>>,
) -> Option<Seq<char>>;

/// Relies on `handlebars::Handlebars::render_template` (with the default
/// registry) to substitute the named fields into the template text. The
/// rendered text depends on the template text and the data alone; a field the
/// template names but the data lacks substitutes the empty string — the
/// engine's default policy, kept here as the single rendering policy — while a
/// template text that does not compile fails, with the engine's diagnostic.
#[verifier::external_body]
fn hb_render(template: &str, keys: &Vec<String>, vals: &Vec<String>) -> (r: Result<String, String>)
    requires
        keys@.len() == vals@.len(),
    ensures
        ({
            let m = rendered_of(template@, string_views(keys@), string_views(vals@));
            match r {
                Ok(html) => m == Some(html@),
                Err(_) => m is None,
            }
        }),
{
    let mut data = serde_json::Map::new();
    for (k, v) in keys.iter().zip(vals.iter()) {
        data.insert(k.clone(), serde_json::Value::String(v.clone()));
    }
    let reg = handlebars::Handlebars::new();
    reg.render_template(template, &serde_json::Value::Object(data)).map_err(|e| e.to_string())
}

/// The named templates a notification can be rendered from, loaded once from
/// the configured template directory by the surrounding application.
pub struct TemplateStore {
    templates: Vec<(String, String)>,
}

impl TemplateStore {
    spec fn template_pairs(self) -> Seq<(Seq<char>, Seq<char>)> {
        self.templates@.map_values(|p: (String, String)| (p.0@, p.1@))
    }

    /// Each template's text, by template name.
    pub closed spec fn templates_map(self) -> Map<Seq<char>, Seq<char>> {
        pairs_to_map(self.template_pairs())
    }

    /// An empty store: every identifier is unresolved.
    pub fn new() -> (r: Self)
        ensures
            r.templates_map() == Map::<Seq<char>, Seq<char>>::empty(),
    {
        let r = TemplateStore { templates: Vec::new() };
        proof {
            assert(r.template_pairs() =~= Seq::empty());
        }
        r
    }

    /// Stores a template's text under its name; a later registration under
    /// the same name replaces the earlier one.
    pub fn insert_template(&mut self, name: String, content: String)
        ensures
            final(self).templates_map() == old(self).templates_map().insert(name@, content@),
    {
        let ghost k = name@;
        let ghost v = content@;
        self.templates.push((name, content));
        proof {
            let oldp = old(self).template_pairs();
            assert(self.template_pairs() =~= oldp.push((k, v)));
            lemma_pairs_to_map_push(oldp, k, v);
        }
    }

    /// The text stored under a template name, when the name resolves.
    pub fn get_template(&self, name: &String) -> (r: Option<&String>)
        ensures
            match r {
                Some(content) => self.templates_map().contains_key(name@)
                    && self.templates_map()[name@] == content@,
                None => !self.templates_map().contains_key(name@),
            },
    {
        let n = self.templates.len();
        let mut i: usize = n;
        while i > 0
            invariant
                i <= n,
                n == self.templates@.len(),
                forall|j: int| i <= j < n ==> self.templates@[j].0@ != name@,
            decreases i,
        {
            i -= 1;
            if self.templates[i].0 == *name {
                proof {
                    let pairs = self.template_pairs();
                    assert(pairs[i as int].0 == name@);
                    assert forall|j: int| i < j < pairs.len() implies pairs[j].0 != pairs[
                        i as int].0 by {
                        assert(self.templates@[j].0@ != name@);
                    }
                    lemma_pairs_to_map_last_match(pairs, i as int);
                }
                return Some(&self.templates[i].1);
            }
        }
        proof {
            lemma_pairs_to_map_domain(self.template_pairs(), name@);
        }
        None
    }
}

/// Renders the named template with the given key/value payload. Fails with
/// `TemplateNotFound`, carrying the name, exactly when the identifier does not
/// resolve to a stored template; fails with `Render`, carrying the engine's
/// diagnostic, exactly when the stored template text does not compile. No side
/// effects beyond a read of the template store: a rendering failure never
/// disturbs any request's state.
pub fn render_html(
    template_name: &String,
    keys: &Vec<String>,
    vals: &Vec<String>,
    templates: &TemplateStore,
) -> (r: Result<String, EmailError>)
    requires
        keys@.len() == vals@.len(),
    ensures
        !templates.templates_map().contains_key(template_name@) ==> (r matches Err(e)
            && e matches EmailError::TemplateNotFound(n) && n@ == template_name@),
        templates.templates_map().contains_key(template_name@) ==> ({
            let m = rendered_of(
                templates.templates_map()[template_name@],
                string_views(keys@),
                string_views(vals@),
            );
            match r {
                Ok(html) => m == Some(html@),
                Err(e) => e is Render && m is None,
            }
        }),
{
    let content = match templates.get_template(template_name) {
        Some(content) => content,
        None => {
            return Err(EmailError::TemplateNotFound(template_name.clone()));
        },
    };
    match hb_render(content.as_str(), keys, vals) {
        Ok(html) => Ok(html),
        Err(diag) => Err(EmailError::Render(diag)),
    }
}

} // verus!
