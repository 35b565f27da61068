use vstd::prelude::*;
use crate::error::Error;
use crate::text::{chars_of, decimal, decimal_text, find_from, find_chars, lemma_found_fits};
use crate::wiki::{Params, ParamsView, Wikipedia, params_view, push_param, add_query_tail, query_tail};

verus! {

pub open spec fn is_digit(c: char) -> bool {
    '0' <= c && c <= '9'
}

pub open spec fn all_digits(s: Seq<char>) -> bool {
    forall|i: int| 0 <= i < s.len() ==> is_digit(#[trigger] s[i])
}

pub open spec fn all_zeros(s: Seq<char>) -> bool {
    forall|i: int| 0 <= i < s.len() ==> #[trigger] s[i] == '0'
}

/// The number a run of decimal digits stands for.
pub open spec fn digits_value(s: Seq<char>) -> int
    decreases s.len(),
{
    if s.len() == 0 {
        0
    } else {
        digits_value(s.drop_last()) * 10 + (s.last() as int - '0' as int)
    }
}

/// The length of the sign of a decimal text.
pub open spec fn sign_len(s: Seq<char>) -> int {
    if s.len() > 0 && s[0] == '-' { 1 } else { 0 }
}

pub open spec fn point_at(s: Seq<char>) -> Option<int> {
    find_from(s, "."@, sign_len(s))
}

/// The digits before the decimal point.
pub open spec fn whole_digits(s: Seq<char>) -> Seq<char> {
    match point_at(s) {
        Some(k) => s.subrange(sign_len(s), k),
        None => s.subrange(sign_len(s), s.len() as int),
    }
}

/// The digits after the decimal point.
pub open spec fn fraction_digits(s: Seq<char>) -> Seq<char> {
    match point_at(s) {
        Some(k) => s.subrange(k + 1, s.len() as int),
        None => Seq::empty(),
    }
}

/// A decimal number as `Display` writes a float: an optional `-`, digits,
/// and optionally a point followed by digits.
pub open spec fn is_decimal(s: Seq<char>) -> bool {
    &&& whole_digits(s).len() > 0
    &&& all_digits(whole_digits(s))
    &&& point_at(s) is Some ==> fraction_digits(s).len() > 0 && all_digits(fraction_digits(s))
}

/// Whether the decimal text `s` stands for a number in `[-bound, bound]`.
pub open spec fn within(s: Seq<char>, bound: int) -> bool {
    &&& is_decimal(s)
    &&& {
        ||| digits_value(whole_digits(s)) < bound
        ||| digits_value(whole_digits(s)) == bound && all_zeros(fraction_digits(s))
    }
}

/// The least of a digit run's value and `cap`, or `None` where the run is
/// empty or holds another character.
fn capped_value(cs: &Vec<char>, lo: usize, hi: usize, cap: u32) -> (r: Option<u32>)
    requires
        lo <= hi <= cs@.len(),
        cap <= 65536,
    ensures
        match r {
            Some(v) => {
                &&& hi > lo
                &&& all_digits(cs@.subrange(lo as int, hi as int))
                &&& v == if digits_value(cs@.subrange(lo as int, hi as int)) < cap {
                    digits_value(cs@.subrange(lo as int, hi as int))
                } else {
                    cap as int
                }
            },
            None => hi == lo || !all_digits(cs@.subrange(lo as int, hi as int)),
        },
{
    if hi == lo {
        return None;
    }
    let mut v: u32 = 0;
    let mut i: usize = lo;
    while i < hi
        invariant
            lo <= i <= hi <= cs@.len(),
            cap <= 65536,
            all_digits(cs@.subrange(lo as int, i as int)),
            digits_value(cs@.subrange(lo as int, i as int)) >= 0,
            v == if digits_value(cs@.subrange(lo as int, i as int)) < cap {
                digits_value(cs@.subrange(lo as int, i as int))
            } else {
                cap as int
            },
        decreases hi - i,
    {
        let c = cs[i];
        let ghost prev = cs@.subrange(lo as int, i as int);
        let ghost next = cs@.subrange(lo as int, i as int + 1);
        proof {
            assert(next.drop_last() =~= prev);
        }
        if !('0' <= c && c <= '9') {
            proof {
                assert(cs@.subrange(lo as int, hi as int)[i - lo] == c);
            }
            return None;
        }
        let d = (c as u32) - ('0' as u32);
        proof {
            assert(digits_value(next) == digits_value(prev) * 10 + d);
            assert(digits_value(prev) * 10 >= digits_value(prev)) by (nonlinear_arith)
                requires
                    digits_value(prev) >= 0,
            ;
        }
        if v >= cap || v * 10 + d >= cap {
            v = cap;
        } else {
            v = v * 10 + d;
        }
        i = i + 1;
        proof {
            assert forall|m: int| 0 <= m < next.len() implies is_digit(#[trigger] next[m]) by {
                if m < prev.len() {
                    assert(next[m] == prev[m]);
                }
            }
        }
    }
    Some(v)
}

fn zeros_only(cs: &Vec<char>, lo: usize, hi: usize) -> (r: bool)
    requires
        lo <= hi <= cs@.len(),
    ensures
        r == all_zeros(cs@.subrange(lo as int, hi as int)),
{
    let mut i: usize = lo;
    while i < hi
        invariant
            lo <= i <= hi <= cs@.len(),
            all_zeros(cs@.subrange(lo as int, i as int)),
        decreases hi - i,
    {
        if cs[i] != '0' {
            proof {
                assert(cs@.subrange(lo as int, hi as int)[i - lo] == cs@[i as int]);
            }
            return false;
        }
        i = i + 1;
        proof {
            assert forall|m: int| 0 <= m < i - lo implies #[trigger] cs@.subrange(lo as int, i as int)[m] == '0' by {
                assert(cs@.subrange(lo as int, i as int)[m] == cs@[lo + m]);
                if m < i - 1 - lo {
                    assert(cs@.subrange(lo as int, i - 1)[m] == cs@[lo + m]);
                }
            }
        }
    }
    true
}

/// Whether the decimal text `s` stands for a number in `[-bound, bound]`.
pub fn is_within(s: &str, bound: u16) -> (r: bool)
    ensures
        r == within(s@, bound as int),
{
    let cs = chars_of(s);
    let start: usize = if cs.len() > 0 && cs[0] == '-' { 1 } else { 0 };
    let point = chars_of(".");
    let found = find_chars(&cs, &point, start);
    proof {
        lemma_found_fits(cs@, point@, start as int);
        reveal_strlit(".");
    }
    let (whole_end, frac_start) = match found {
        Some(k) => (k, k + 1),
        None => (cs.len(), cs.len()),
    };
    let whole = match capped_value(&cs, start, whole_end, bound as u32 + 1) {
        Some(v) => v,
        None => return false,
    };
    if found.is_some() {
        match capped_value(&cs, frac_start, cs.len(), 1) {
            Some(_) => {},
            None => return false,
        }
    }
    whole < bound as u32 || (whole == bound as u32 && zeros_only(&cs, frac_start, cs.len()))
}

/// The request for a full-text search.
pub open spec fn search_query(q: Seq<char>, limit: u32) -> ParamsView {
    seq![
        ("list"@, "search"@),
        ("srprop"@, ""@),
        ("srlimit"@, decimal_text(limit as nat)),
        ("srsearch"@, q),
    ] + query_tail()
}

/// The request for the pages near a place.
pub open spec fn geosearch_query(lat: Seq<char>, lon: Seq<char>, radius: u16, limit: u32) -> ParamsView {
    seq![
        ("list"@, "geosearch"@),
        ("gsradius"@, decimal_text(radius as nat)),
        ("gscoord"@, lat + "|"@ + lon),
        ("gslimit"@, decimal_text(limit as nat)),
    ] + query_tail()
}

/// The request for `count` random titles.
pub open spec fn random_query(count: u8) -> ParamsView {
    seq![("list"@, "random"@), ("rnnamespace"@, "0"@), ("rnlimit"@, decimal_text(count as nat))]
        + query_tail()
}

/// The request for the languages of the wiki.
pub open spec fn languages_query() -> ParamsView {
    seq![("meta"@, "siteinfo"@), ("siprop"@, "languages"@)] + query_tail()
}

pub open spec fn invalid(r: Result<Params, Error>, name: Seq<char>) -> bool {
    r matches Err(Error::InvalidParameter(n)) && n@ == name
}

impl Wikipedia {
    /// The request for the titles that match `query`.
    pub fn search_query(&self, query: &str) -> (r: Params)
        ensures
            params_view(r) == search_query(query@, self.search_results),
    {
        let mut r: Params = Vec::new();
        push_param(&mut r, "list", "search");
        push_param(&mut r, "srprop", "");
        let limit = decimal(self.search_results);
        push_param(&mut r, "srlimit", limit.as_str());
        push_param(&mut r, "srsearch", query);
        add_query_tail(&mut r);
        proof {
            assert(params_view(r) =~= search_query(query@, self.search_results));
        }
        r
    }

    /// The request for the titles within `radius` meters of a place, whose
    /// latitude and longitude are given as decimal texts. The parameters are
    /// checked first: a latitude outside [-90, 90], a longitude outside
    /// [-180, 180] or a radius outside [10, 10000] gives `InvalidParameter`
    /// with the first offending name, and no request exists then.
    pub fn geosearch_query(&self, latitude: &str, longitude: &str, radius: u16) -> (r: Result<
        Params,
        Error,
    >)
        ensures
            !within(latitude@, 90) ==> invalid(r, "latitude"@),
            within(latitude@, 90) && !within(longitude@, 180) ==> invalid(r, "longitude"@),
            within(latitude@, 90) && within(longitude@, 180) && !(10 <= radius <= 10000)
                ==> invalid(r, "radius"@),
            within(latitude@, 90) && within(longitude@, 180) && 10 <= radius <= 10000 ==> (
            r matches Ok(p) && params_view(p) == geosearch_query(
                latitude@,
                longitude@,
                radius,
                self.search_results,
            )),
    {
        if !is_within(latitude, 90) {
            return Err(Error::InvalidParameter(String::from_str("latitude")));
        }
        if !is_within(longitude, 180) {
            return Err(Error::InvalidParameter(String::from_str("longitude")));
        }
        if radius < 10 || radius > 10000 {
            return Err(Error::InvalidParameter(String::from_str("radius")));
        }
        let mut r: Params = Vec::new();
        push_param(&mut r, "list", "geosearch");
        let rad = decimal(radius as u32);
        push_param(&mut r, "gsradius", rad.as_str());
        let mut coord = String::from_str(latitude);
        coord.append("|");
        coord.append(longitude);
        push_param(&mut r, "gscoord", coord.as_str());
        let limit = decimal(self.search_results);
        push_param(&mut r, "gslimit", limit.as_str());
        add_query_tail(&mut r);
        proof {
            assert(params_view(r) =~= geosearch_query(
                latitude@,
                longitude@,
                radius,
                self.search_results,
            ));
        }
        Ok(r)
    }

    /// The request for `count` random titles.
    pub fn random_count_query(&self, count: u8) -> (r: Params)
        ensures
            params_view(r) == random_query(count),
    {
        let mut r: Params = Vec::new();
        push_param(&mut r, "list", "random");
        push_param(&mut r, "rnnamespace", "0");
        let n = decimal(count as u32);
        push_param(&mut r, "rnlimit", n.as_str());
        add_query_tail(&mut r);
        proof {
            assert(params_view(r) =~= random_query(count));
        }
        r
    }

    /// The request for the languages of the wiki.
    pub fn languages_query(&self) -> (r: Params)
        ensures
            params_view(r) == languages_query(),
    {
        let mut r: Params = Vec::new();
        push_param(&mut r, "meta", "siteinfo");
        push_param(&mut r, "siprop", "languages");
        add_query_tail(&mut r);
        proof {
            assert(params_view(r) =~= languages_query());
        }
        r
    }
}

} // verus!
