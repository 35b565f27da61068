use vstd::prelude::*;
use crate::text::{chars_of, find, find_chars};

verus! {

/// Query parameters, in the order they are sent.
pub type Params = Vec<(String, String)>;

/// What a list of query parameters means.
pub type ParamsView = Seq<(Seq<char>, Seq<char>)>;

pub open spec fn params_view(p: Params) -> ParamsView {
    p.deep_view()
}

/// Appends the parameter `k=v`.
pub(crate) fn push_param(p: &mut Params, k: &str, v: &str)
    ensures
        params_view(*final(p)) == params_view(*old(p)).push((k@, v@)),
{
    let ghost before = params_view(*p);
    p.push((String::from_str(k), String::from_str(v)));
    proof {
        assert(params_view(*p) =~= before.push((k@, v@)));
    }
}

/// The parameters that every query ends with.
pub open spec fn query_tail() -> ParamsView {
    seq![("format"@, "json"@), ("action"@, "query"@)]
}

pub(crate) fn add_query_tail(p: &mut Params)
    ensures
        params_view(*final(p)) == params_view(*old(p)) + query_tail(),
{
    let ghost before = params_view(*p);
    push_param(p, "format", "json");
    push_param(p, "action", "query");
    proof {
        assert(params_view(*p) =~= before + query_tail());
    }
}

pub const DEFAULT_USER_AGENT: &'static str = "wikipedia (https://github.com/seppo0010/wikipedia-rs)";

/// The text that marks where the language goes in a base-URL template.
pub const LANGUAGE_URL_MARKER: &'static str = "{language}";

/// Where and how to query: the endpoint, the user agent to send, and the
/// page sizes to ask for.
#[derive(Debug, Clone)]
pub struct Wikipedia {
    /// The endpoint is `pre_language_url` + `language` + `post_language_url`.
    pub pre_language_url: String,
    pub post_language_url: String,
    pub language: String,
    /// Number of results to fetch when searching.
    pub search_results: u32,
    /// Number of images to fetch in each request of an image listing;
    /// the text "max" asks for as many as the server allows.
    pub images_results: String,
    /// Like `images_results`, for links, references and language links.
    pub links_results: String,
    /// Like `images_results`, for categories.
    pub categories_results: String,
    /// The user agent the transport sends.
    pub user_agent: String,
}

impl Default for Wikipedia {
    /// The same configuration as `new`.
    fn default() -> (w: Wikipedia)
        ensures
            w.pre_language_url@ == "https://"@,
            w.post_language_url@ == ".wikipedia.org/w/api.php"@,
            w.language@ == "en"@,
            w.search_results == 10,
            w.images_results@ == "max"@,
            w.links_results@ == "max"@,
            w.categories_results@ == "max"@,
            w.user_agent@ == DEFAULT_USER_AGENT@,
    {
        Wikipedia::new()
    }
}

impl Wikipedia {
    /// A configuration for the English Wikipedia, with the default user
    /// agent and page sizes.
    pub fn new() -> (w: Wikipedia)
        ensures
            w.pre_language_url@ == "https://"@,
            w.post_language_url@ == ".wikipedia.org/w/api.php"@,
            w.language@ == "en"@,
            w.search_results == 10,
            w.images_results@ == "max"@,
            w.links_results@ == "max"@,
            w.categories_results@ == "max"@,
            w.user_agent@ == DEFAULT_USER_AGENT@,
    {
        Wikipedia {
            pre_language_url: String::from_str("https://"),
            post_language_url: String::from_str(".wikipedia.org/w/api.php"),
            language: String::from_str("en"),
            search_results: 10,
            images_results: String::from_str("max"),
            links_results: String::from_str("max"),
            categories_results: String::from_str("max"),
            user_agent: String::from_str(DEFAULT_USER_AGENT),
        }
    }

    pub open spec fn base_url_spec(&self) -> Seq<char> {
        self.pre_language_url@ + self.language@ + self.post_language_url@
    }

    /// The endpoint every request goes to.
    pub fn base_url(&self) -> (r: String)
        ensures
            r@ == self.base_url_spec(),
    {
        let mut r = self.pre_language_url.clone();
        r.append(self.language.as_str());
        r.append(self.post_language_url.as_str());
        r
    }

    /// Sets the endpoint from a template: the first `{language}` in it
    /// stands for the language, which stays as it is. A template without
    /// the marker is the endpoint itself, and the language becomes empty.
    pub fn set_base_url(&mut self, base_url: &str)
        ensures
            final(self).search_results == old(self).search_results,
            final(self).images_results == old(self).images_results,
            final(self).links_results == old(self).links_results,
            final(self).categories_results == old(self).categories_results,
            final(self).user_agent == old(self).user_agent,
            match find(base_url@, LANGUAGE_URL_MARKER@) {
                Some(i) => {
                    &&& final(self).pre_language_url@ == base_url@.subrange(0, i)
                    &&& final(self).post_language_url@ == base_url@.subrange(
                        i + LANGUAGE_URL_MARKER@.len(),
                        base_url@.len() as int,
                    )
                    &&& final(self).language == old(self).language
                },
                None => {
                    &&& final(self).pre_language_url@ == base_url@
                    &&& final(self).post_language_url@ == Seq::<char>::empty()
                    &&& final(self).language@ == Seq::<char>::empty()
                },
            },
    {
        let text = chars_of(base_url);
        let marker = chars_of(LANGUAGE_URL_MARKER);
        match find_chars(&text, &marker, 0) {
            Some(i) => {
                proof {
                    assert(i + marker@.len() <= text@.len()) by {
                        crate::text::lemma_found_fits(text@, marker@, 0);
                    }
                }
                assert(i + marker.len() <= text.len());
                self.pre_language_url = String::from_str(base_url.substring_char(0, i));
                self.post_language_url = String::from_str(
                    base_url.substring_char(i + marker.len(), text.len()),
                );
            },
            None => {
                self.pre_language_url = String::from_str(base_url);
                self.language = String::new();
                self.post_language_url = String::new();
            },
        }
    }
}

} // verus!
