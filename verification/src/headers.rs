use vstd::prelude::*;

use crate::reply::text_of;
use crate::session::{session_cookie_name, COOKIE_SESSION_TOKEN_NAME};

verus! {

/// The token of an `Authorization` header value of the form `Bearer <token>`.
pub open spec fn bearer_rule(value: Seq<char>) -> Option<Seq<char>> {
    if value.len() >= 7 && value.take(7) == "Bearer "@ {
        Some(value.skip(7))
    } else {
        None
    }
}

/// Where the cookie pair that starts at `p` ends: at the next `;`, or at the
/// end of the header.
pub open spec fn pair_end(h: Seq<char>, p: int) -> int
    decreases h.len() - p,
{
    if p >= h.len() || h[p] == ';' {
        p
    } else {
        pair_end(h, p + 1)
    }
}

/// The first position from `p` on, before `end`, that is not a space.
pub open spec fn skip_spaces(h: Seq<char>, p: int, end: int) -> int
    decreases end - p,
{
    if p < end && h[p] == ' ' {
        skip_spaces(h, p + 1, end)
    } else {
        p
    }
}

/// Whether the pair between `start` and `end` is `name=value`.
pub open spec fn pair_named(h: Seq<char>, start: int, end: int, name: Seq<char>) -> bool {
    &&& end - start > name.len()
    &&& h.subrange(start, start + name.len()) == name
    &&& h[start + name.len()] == '='
}

/// The value of the first pair named `name` in a `Cookie` header, looking from
/// position `p` on. Pairs are separated by `;`, and spaces before a pair are
/// skipped.
pub open spec fn cookie_value_from(h: Seq<char>, p: int, name: Seq<char>) -> Option<Seq<char>>
    decreases h.len() - p,
    when 0 <= p <= h.len()
{
    let end = pair_end(h, p);
    proof {
        lemma_pair_end_bounds(h, p);
    }
    let start = skip_spaces(h, p, end);
    if pair_named(h, start, end, name) {
        Some(h.subrange(start + name.len() + 1, end))
    } else if end < h.len() {
        cookie_value_from(h, end + 1, name)
    } else {
        None
    }
}

/// The end of a pair lies between its start and the end of the header, and
/// holds a `;` unless it is the end of the header.
pub proof fn lemma_pair_end_bounds(h: Seq<char>, p: int)
    requires
        0 <= p <= h.len(),
    ensures
        p <= pair_end(h, p) <= h.len(),
        pair_end(h, p) < h.len() ==> h[pair_end(h, p)] == ';',
        forall|k: int| p <= k < pair_end(h, p) ==> h[k] != ';',
    decreases h.len() - p,
{
    if p < h.len() && h[p] != ';' {
        lemma_pair_end_bounds(h, p + 1);
    }
}

proof fn lemma_skip_spaces_bounds(h: Seq<char>, p: int, end: int)
    requires
        p <= end,
    ensures
        p <= skip_spaces(h, p, end) <= end,
    decreases end - p,
{
    if p < end && h[p] == ' ' {
        lemma_skip_spaces_bounds(h, p + 1, end);
    }
}

fn chars_of(text: &str) -> (chars: Vec<char>)
    ensures
        chars@ == text@,
{
    let n = text.unicode_len();
    let mut chars: Vec<char> = Vec::new();
    let mut i: usize = 0;
    while i < n
        invariant
            0 <= i <= n,
            n == text@.len(),
            chars@ == text@.take(i as int),
        decreases n - i,
    {
        chars.push(text.get_char(i));
        i = i + 1;
        assert(chars@ =~= text@.take(i as int));
    }
    assert(text@.take(n as int) =~= text@);
    chars
}

fn starts_with_at(chars: &Vec<char>, at: usize, end: usize, prefix: &Vec<char>) -> (found: bool)
    requires
        at <= end <= chars.len(),
    ensures
        found == (end - at >= prefix.len() && chars@.subrange(at as int, at + prefix.len()) == prefix@),
{
    if end - at < prefix.len() {
        return false;
    }
    let mut k: usize = 0;
    while k < prefix.len()
        invariant
            0 <= k <= prefix.len(),
            at + prefix.len() <= end <= chars.len(),
            forall|j: int| 0 <= j < k ==> chars@[at + j] == prefix@[j],
        decreases prefix.len() - k,
    {
        if chars[at + k] != prefix[k] {
            assert(chars@.subrange(at as int, at + prefix.len())[k as int] != prefix@[k as int]);
            return false;
        }
        k = k + 1;
    }
    assert(chars@.subrange(at as int, at + prefix.len()) =~= prefix@);
    true
}

/// The token of an `Authorization` header value: what follows `Bearer `.
pub fn token_from_authorization(value: &str) -> (token: Option<String>)
    ensures
        text_of(token) == bearer_rule(value@),
{
    let chars = chars_of(value);
    let prefix = chars_of("Bearer ");
    proof {
        reveal_strlit("Bearer ");
    }
    if starts_with_at(&chars, 0, chars.len(), &prefix) {
        assert(value@.take(7) =~= chars@.subrange(0, 7));
        Some(String::from_str(value.substring_char(7, chars.len())))
    } else {
        assert(value@.len() >= 7 ==> value@.take(7) =~= chars@.subrange(0, 7));
        None
    }
}

/// The session token of a `Cookie` header value: the value of its first pair
/// named after the session cookie.
pub fn token_from_cookie_header(value: &str) -> (token: Option<String>)
    ensures
        text_of(token) == cookie_value_from(value@, 0, session_cookie_name()),
{
    let h = chars_of(value);
    let name = chars_of(COOKIE_SESSION_TOKEN_NAME);
    let n = h.len();
    let mut p: usize = 0;
    loop
        invariant
            0 <= p <= n,
            n == h@.len(),
            h@ == value@,
            name@ == session_cookie_name(),
            cookie_value_from(h@, 0, name@) == cookie_value_from(h@, p as int, name@),
        decreases n - p,
    {
        let mut end = p;
        while end < n && h[end] != ';'
            invariant
                p <= end <= n,
                n == h@.len(),
                pair_end(h@, p as int) == pair_end(h@, end as int),
            decreases n - end,
        {
            end = end + 1;
        }
        let mut start = p;
        while start < end && h[start] == ' '
            invariant
                p <= start <= end <= n,
                n == h@.len(),
                skip_spaces(h@, p as int, end as int) == skip_spaces(h@, start as int, end as int),
            decreases end - start,
        {
            start = start + 1;
        }
        proof {
            lemma_pair_end_bounds(h@, p as int);
        }
        let named = starts_with_at(&h, start, end, &name) && end - start > name.len()
            && h[start + name.len()] == '=';
        if named {
            return Some(String::from_str(value.substring_char(start + name.len() + 1, end)));
        }
        if end == n {
            return None;
        }
        p = end + 1;
    }
}

/// The session token of a request's `Cookie` headers: the one in the first
/// header that holds a session cookie.
pub open spec fn cookie_headers_rule(values: Seq<String>, i: int) -> Option<Seq<char>>
    decreases values.len() - i,
    when 0 <= i <= values.len()
{
    if i == values.len() {
        None
    } else {
        match cookie_value_from(values[i]@, 0, session_cookie_name()) {
            Some(token) => Some(token),
            None => cookie_headers_rule(values, i + 1),
        }
    }
}

/// Finds the session token among a request's `Cookie` header values.
pub fn token_from_cookie_headers(values: &Vec<String>) -> (token: Option<String>)
    ensures
        text_of(token) == cookie_headers_rule(values@, 0),
{
    let mut i: usize = 0;
    while i < values.len()
        invariant
            0 <= i <= values.len(),
            cookie_headers_rule(values@, 0) == cookie_headers_rule(values@, i as int),
        decreases values.len() - i,
    {
        let found = token_from_cookie_header(values[i].as_str());
        if found.is_some() {
            return found;
        }
        i = i + 1;
    }
    None
}

} // verus!
