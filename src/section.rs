use vstd::prelude::*;
use crate::response::opt_text;
use crate::text::{chars_of, find, find_from, find_chars, lemma_found_fits};

verus! {

/// The heading line that opens a section.
pub open spec fn section_header(title: Seq<char>) -> Seq<char> {
    "== "@ + title + " =="@
}

/// The text of a section: what follows the first heading of that title, up
/// to the next `==` or the end of the text.
pub open spec fn section_of(content: Seq<char>, title: Seq<char>) -> Option<Seq<char>> {
    let header = section_header(title);
    match find(content, header) {
        None => None,
        Some(i) => {
            let start = i + header.len();
            match find_from(content, "=="@, start) {
                Some(end) => Some(content.subrange(start, end)),
                None => Some(content.subrange(start, content.len() as int)),
            }
        },
    }
}

/// The text of the section `title` in a page's plain-text content.
pub fn section_content(content: &str, title: &str) -> (r: Option<String>)
    ensures
        opt_text(r) == section_of(content@, title@),
{
    let mut header = String::from_str("== ");
    header.append(title);
    header.append(" ==");
    let cs = chars_of(content);
    let hs = chars_of(header.as_str());
    let i = match find_chars(&cs, &hs, 0) {
        Some(i) => i,
        None => return None,
    };
    proof {
        lemma_found_fits(cs@, hs@, 0);
    }
    assert(i + hs.len() <= cs.len());
    let start = i + hs.len();
    let marker = chars_of("==");
    let end = match find_chars(&cs, &marker, start) {
        Some(e) => {
            proof {
                lemma_found_fits(cs@, marker@, start as int);
            }
            assert(e + marker.len() <= cs.len());
            e
        },
        None => cs.len(),
    };
    Some(String::from_str(content.substring_char(start, end)))
}

} // verus!
