use vstd::prelude::*;
use crate::store::attrs_view;

verus! {

/// Position of the closing quote of a string token whose content starts
/// at `i`: the first `"` at or after `i`, provided no escape and no end
/// of input comes first. Content characters are plain: neither `"` nor
/// `\` (escapes are not part of the expected shape).
pub open spec fn string_end(s: Seq<char>, i: int) -> Option<int>
    decreases s.len() - i
    when 0 <= i <= s.len()
{
    if i >= s.len() {
        None
    } else if s[i] == '"' {
        Some(i)
    } else if s[i] == '\\' {
        None
    } else {
        string_end(s, i + 1)
    }
}

/// One `"key":"value"` pair starting at `i`: its key, its value and the
/// position just after it.
pub open spec fn parse_pair(s: Seq<char>, i: int) -> Option<(Seq<char>, Seq<char>, int)> {
    if 0 <= i < s.len() && s[i] == '"' {
        match string_end(s, i + 1) {
            Some(j) => {
                if j + 2 < s.len() && s[j + 1] == ':' && s[j + 2] == '"' {
                    match string_end(s, j + 3) {
                        Some(k) => Some((s.subrange(i + 1, j), s.subrange(j + 3, k), k + 1)),
                        None => None,
                    }
                } else {
                    None
                }
            },
            None => None,
        }
    } else {
        None
    }
}

/// A comma-separated run of pairs starting at `i`: the pairs in order
/// and the position just after the last one. A pair that would not
/// advance the position is out of the grammar.
pub open spec fn parse_members(s: Seq<char>, i: int) -> Option<(Seq<(Seq<char>, Seq<char>)>, int)>
    decreases s.len() - i
    when 0 <= i <= s.len()
{
    match parse_pair(s, i) {
        None => None,
        Some((k, v, n)) => {
            if !(i < n <= s.len()) {
                None
            } else if n < s.len() && s[n] == ',' {
                match parse_members(s, n + 1) {
                    None => None,
                    Some((rest, e)) => Some((seq![(k, v)] + rest, e)),
                }
            } else {
                Some((seq![(k, v)], n))
            }
        },
    }
}

/// The expected shape of a message body: one flat object of string
/// attributes, `{}` or `{"key":"value",...}`, with nothing around it.
pub open spec fn parse_flat_object(s: Seq<char>) -> Option<Seq<(Seq<char>, Seq<char>)>> {
    if s.len() == 2 && s[0] == '{' && s[1] == '}' {
        Some(Seq::empty())
    } else if s.len() >= 2 && s[0] == '{' {
        match parse_members(s, 1) {
            None => None,
            Some((pairs, n)) => {
                if n == s.len() - 1 && s[n] == '}' {
                    Some(pairs)
                } else {
                    None
                }
            },
        }
    } else {
        None
    }
}

fn find_string_end(s: &str, n: usize, i: usize) -> (r: Option<usize>)
    requires
        n == s@.len(),
        i <= n,
    ensures
        match r {
            Some(j) => string_end(s@, i as int) == Some(j as int) && i <= j < n,
            None => string_end(s@, i as int) is None,
        },
    decreases n - i,
{
    if i >= n {
        None
    } else {
        let c = s.get_char(i);
        if c == '"' {
            Some(i)
        } else if c == '\\' {
            None
        } else {
            find_string_end(s, n, i + 1)
        }
    }
}

fn parse_pair_at(s: &str, n: usize, i: usize) -> (r: Option<(String, String, usize)>)
    requires
        n == s@.len(),
        i <= n,
    ensures
        match r {
            Some(p) => parse_pair(s@, i as int) == Some((p.0@, p.1@, p.2 as int)) && i < p.2 <= n,
            None => parse_pair(s@, i as int) is None,
        },
{
    if i >= n {
        return None;
    }
    if s.get_char(i) != '"' {
        return None;
    }
    match find_string_end(s, n, i + 1) {
        None => None,
        Some(j) => {
            if n - j > 2 {
                let c1 = s.get_char(j + 1);
                let c2 = s.get_char(j + 2);
                if c1 == ':' && c2 == '"' {
                    match find_string_end(s, n, j + 3) {
                        None => None,
                        Some(k) => {
                            let key = s.substring_char(i + 1, j).to_owned();
                            let val = s.substring_char(j + 3, k).to_owned();
                            Some((key, val, k + 1))
                        },
                    }
                } else {
                    None
                }
            } else {
                None
            }
        },
    }
}

fn parse_members_at(s: &str, n: usize, i: usize) -> (r: Option<(Vec<(String, String)>, usize)>)
    requires
        n == s@.len(),
        i <= n,
    ensures
        match r {
            Some(p) => parse_members(s@, i as int) == Some((attrs_view(p.0@), p.1 as int)) && i
                < p.1 <= n,
            None => parse_members(s@, i as int) is None,
        },
    decreases n - i,
{
    match parse_pair_at(s, n, i) {
        None => None,
        Some((k, v, m)) => {
            if m < n && s.get_char(m) == ',' {
                match parse_members_at(s, n, m + 1) {
                    None => None,
                    Some((rest, e)) => {
                        let ghost rest0 = rest@;
                        let mut pairs = rest;
                        pairs.insert(0, (k, v));
                        proof {
                            assert(attrs_view(pairs@) =~= seq![(k@, v@)] + attrs_view(rest0));
                        }
                        Some((pairs, e))
                    },
                }
            } else {
                let mut pairs: Vec<(String, String)> = Vec::new();
                pairs.push((k, v));
                proof {
                    assert(attrs_view(pairs@) =~= seq![(k@, v@)]);
                }
                Some((pairs, m))
            }
        },
    }
}

/// Parses a message body against the expected shape, returning its
/// attributes exactly when the body is one flat object of string
/// attributes.
pub fn parse_attributes(s: &str) -> (r: Option<Vec<(String, String)>>)
    ensures
        match r {
            Some(pairs) => parse_flat_object(s@) == Some(attrs_view(pairs@)),
            None => parse_flat_object(s@) is None,
        },
{
    let n = s.unicode_len();
    if n < 2 {
        return None;
    }
    if s.get_char(0) != '{' {
        return None;
    }
    if n == 2 && s.get_char(1) == '}' {
        let pairs: Vec<(String, String)> = Vec::new();
        proof {
            assert(attrs_view(pairs@) =~= Seq::<(Seq<char>, Seq<char>)>::empty());
        }
        return Some(pairs);
    }
    match parse_members_at(s, n, 1) {
        None => None,
        Some((pairs, m)) => {
            if m == n - 1 && s.get_char(m) == '}' {
                Some(pairs)
            } else {
                None
            }
        },
    }
}

} // verus!
