use vstd::prelude::*;
use crate::json::{Json, JsonTree, at, first, text, field, get, str_of, first_of};
use crate::text::{starts_with, has_prefix};

verus! {

/// The collections of a page that come in pages of their own.
#[derive(Debug, Clone, Copy, PartialEq, Eq, Structural)]
pub enum Collection {
    Images,
    References,
    Links,
    Categories,
    LangLinks,
}

/// An element of a paginated collection, decoded from one JSON element.
pub trait IterItem: Sized + View {
    /// The collection this kind of element belongs to.
    spec fn kind() -> Collection;

    /// What one JSON element decodes to; `None` where it is dropped.
    spec fn decode(t: JsonTree) -> Option<Self::V>;

    fn collection() -> (c: Collection)
        ensures
            c == Self::kind(),
    ;

    fn from_value(value: &Json) -> (r: Option<Self>)
        ensures
            match r {
                Some(x) => Self::decode(value@) == Some(x@),
                None => Self::decode(value@) is None,
            },
    ;
}

/// The text of an optional value, or the empty text.
pub open spec fn text_or_empty(t: Option<JsonTree>) -> Seq<char> {
    match str_of(t) {
        Some(s) => s,
        None => Seq::empty(),
    }
}

fn owned_or_empty(s: Option<&String>) -> (r: String)
    ensures
        r@ == match s {
            Some(x) => x@,
            None => Seq::<char>::empty(),
        },
{
    match s {
        Some(x) => x.clone(),
        None => String::new(),
    }
}

/// An image of a page.
#[derive(Debug, PartialEq, Eq)]
pub struct Image {
    pub url: String,
    pub title: String,
    pub description_url: String,
}

impl View for Image {
    /// (url, title, description URL)
    type V = (Seq<char>, Seq<char>, Seq<char>);

    open spec fn view(&self) -> Self::V {
        (self.url@, self.title@, self.description_url@)
    }
}

impl IterItem for Image {
    open spec fn kind() -> Collection {
        Collection::Images
    }

    /// Any object decodes; a missing field reads as the empty text.
    open spec fn decode(t: JsonTree) -> Option<Self::V> {
        match t {
            JsonTree::Object(_) => {
                let info = first_of(field(t, "imageinfo"@));
                Some(
                    (
                        text_or_empty(get(info, "url"@)),
                        text_or_empty(field(t, "title"@)),
                        text_or_empty(get(info, "descriptionurl"@)),
                    ),
                )
            },
            _ => None,
        }
    }

    fn collection() -> (c: Collection) {
        Collection::Images
    }

    fn from_value(value: &Json) -> (r: Option<Image>) {
        match value {
            Json::Object(_) => {
                let info = first(value.get("imageinfo"));
                Some(
                    Image {
                        url: owned_or_empty(text(at(info, "url"))),
                        title: owned_or_empty(text(value.get("title"))),
                        description_url: owned_or_empty(text(at(info, "descriptionurl"))),
                    },
                )
            },
            _ => None,
        }
    }
}

/// An external link of a page.
#[derive(Debug, PartialEq, Eq)]
pub struct Reference {
    pub url: String,
}

impl View for Reference {
    type V = Seq<char>;

    open spec fn view(&self) -> Seq<char> {
        self.url@
    }
}

/// A link as it is followed: protocol-relative ones get `http:` in front.
pub open spec fn absolute_url(s: Seq<char>) -> Seq<char> {
    if starts_with(s, "http:"@) {
        s
    } else {
        "http:"@ + s
    }
}

impl IterItem for Reference {
    open spec fn kind() -> Collection {
        Collection::References
    }

    /// Any object decodes; a missing link reads as the empty text.
    open spec fn decode(t: JsonTree) -> Option<Seq<char>> {
        match t {
            JsonTree::Object(_) => Some(absolute_url(text_or_empty(field(t, "*"@)))),
            _ => None,
        }
    }

    fn collection() -> (c: Collection) {
        Collection::References
    }

    fn from_value(value: &Json) -> (r: Option<Reference>) {
        match value {
            Json::Object(_) => {
                let s = owned_or_empty(text(value.get("*")));
                let url = if has_prefix(s.as_str(), "http:") {
                    s
                } else {
                    let mut u = String::from_str("http:");
                    u.append(s.as_str());
                    u
                };
                Some(Reference { url })
            },
            _ => None,
        }
    }
}

/// A link to another page.
#[derive(Debug, PartialEq, Eq)]
pub struct Link {
    pub title: String,
}

impl View for Link {
    type V = Seq<char>;

    open spec fn view(&self) -> Seq<char> {
        self.title@
    }
}

impl IterItem for Link {
    open spec fn kind() -> Collection {
        Collection::Links
    }

    /// Any object decodes; a missing title reads as the empty text.
    open spec fn decode(t: JsonTree) -> Option<Seq<char>> {
        match t {
            JsonTree::Object(_) => Some(text_or_empty(field(t, "title"@))),
            _ => None,
        }
    }

    fn collection() -> (c: Collection) {
        Collection::Links
    }

    fn from_value(value: &Json) -> (r: Option<Link>) {
        match value {
            Json::Object(_) => Some(Link { title: owned_or_empty(text(value.get("title"))) }),
            _ => None,
        }
    }
}

/// The same page in another language.
#[derive(Debug, PartialEq, Eq)]
pub struct LangLink {
    /// The language ID
    pub lang: String,
    /// The page title in this language, `None` where it is not given
    pub title: Option<String>,
}

impl View for LangLink {
    type V = (Seq<char>, Option<Seq<char>>);

    open spec fn view(&self) -> Self::V {
        (
            self.lang@,
            match self.title {
                Some(t) => Some(t@),
                None => None,
            },
        )
    }
}

impl IterItem for LangLink {
    open spec fn kind() -> Collection {
        Collection::LangLinks
    }

    /// Any object decodes; a missing language reads as the empty text,
    /// and the title is optional.
    open spec fn decode(t: JsonTree) -> Option<Self::V> {
        match t {
            JsonTree::Object(_) => Some((text_or_empty(field(t, "lang"@)), str_of(field(t, "*"@)))),
            _ => None,
        }
    }

    fn collection() -> (c: Collection) {
        Collection::LangLinks
    }

    fn from_value(value: &Json) -> (r: Option<LangLink>) {
        match value {
            Json::Object(_) => {
                let title = match text(value.get("*")) {
                    Some(t) => Some(t.clone()),
                    None => None,
                };
                Some(LangLink { lang: owned_or_empty(text(value.get("lang"))), title })
            },
            _ => None,
        }
    }
}

/// A category a page belongs to.
#[derive(Debug, PartialEq, Eq)]
pub struct Category {
    pub title: String,
}

impl View for Category {
    type V = Seq<char>;

    open spec fn view(&self) -> Seq<char> {
        self.title@
    }
}

/// A category title without its `Category: ` prefix.
pub open spec fn category_name(s: Seq<char>) -> Seq<char> {
    if starts_with(s, "Category: "@) {
        s.subrange(10, s.len() as int)
    } else {
        s
    }
}

impl IterItem for Category {
    open spec fn kind() -> Collection {
        Collection::Categories
    }

    /// Any object decodes; a missing title reads as the empty text.
    open spec fn decode(t: JsonTree) -> Option<Seq<char>> {
        match t {
            JsonTree::Object(_) => Some(category_name(text_or_empty(field(t, "title"@)))),
            _ => None,
        }
    }

    fn collection() -> (c: Collection) {
        Collection::Categories
    }

    fn from_value(value: &Json) -> (r: Option<Category>) {
        match value {
            Json::Object(_) => {
                let s = owned_or_empty(text(value.get("title")));
                let title = if has_prefix(s.as_str(), "Category: ") {
                    proof {
                        reveal_strlit("Category: ");
                    }
                    let n = s.unicode_len();
                    String::from_str(s.as_str().substring_char(10, n))
                } else {
                    s
                };
                Some(Category { title })
            },
            _ => None,
        }
    }
}

} // verus!
