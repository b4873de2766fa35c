//! The `--filter` argument of the listing commands, checked against the SCIM filter
//! grammar (RFC 7644, section 3.4.2.2).
use vstd::prelude::*;
use vstd::string::*;
use crate::common::error::{BiError, BiErrorView};
use crate::text::{chars_of, is_blank, str_is_blank};
use crate::weburl::opt_view;

verus! {

/// The message with which `scim_filter::parser::filter` refuses `input`; `None` where it
/// reads a filter from the start of `input`.
pub uninterp spec fn scim_filter_error(input: Seq<char>) -> Option<Seq<char>>;

/// The longest filter, in characters, that is handed to the SCIM parser.
pub const MAX_FILTER_LENGTH: usize = 1024;

/// The most parentheses and brackets that a filter handed to the SCIM parser may nest.
pub const MAX_FILTER_NESTING: usize = 12;

/// Whether reading `s`, with `depth` groups open and inside a quoted value where `quoted`,
/// opens a group, by `(` or `[`, beyond `MAX_FILTER_NESTING`. Characters inside a quoted
/// value open and close nothing; a `)` or `]` closes one group, if one is open.
pub open spec fn nests_too_deep(s: Seq<char>, depth: nat, quoted: bool) -> bool
    decreases s.len(),
{
    if s.len() == 0 {
        false
    } else {
        let c = s[0];
        let rest = s.skip(1);
        if quoted {
            nests_too_deep(rest, depth, c != '"')
        } else if c == '"' {
            nests_too_deep(rest, depth, true)
        } else if c == '(' || c == '[' {
            depth + 1 > MAX_FILTER_NESTING || nests_too_deep(rest, depth + 1, false)
        } else if c == ')' || c == ']' {
            nests_too_deep(rest, if depth == 0 { 0 } else { (depth - 1) as nat }, false)
        } else {
            nests_too_deep(rest, depth, false)
        }
    }
}

/// Whether the SCIM parser is handed `s`: it is at most `MAX_FILTER_LENGTH` characters
/// long and nests groups at most `MAX_FILTER_NESTING` deep.
pub open spec fn within_parser_limits(s: Seq<char>) -> bool {
    s.len() <= MAX_FILTER_LENGTH && !nests_too_deep(s, 0, false)
}

/// Whether `s` nests groups deeper than `MAX_FILTER_NESTING` (see `nests_too_deep`).
pub fn nesting_too_deep(s: &str) -> (r: bool)
    ensures
        r == nests_too_deep(s@, 0, false),
{
    let v = chars_of(s);
    let mut depth: usize = 0;
    let mut quoted = false;
    let mut i: usize = 0;
    assert(v@.skip(0) =~= v@);
    while i < v.len()
        invariant
            v@ == s@,
            i <= v@.len(),
            depth <= MAX_FILTER_NESTING,
            nests_too_deep(s@, 0, false) == nests_too_deep(v@.skip(i as int), depth as nat, quoted),
        decreases v@.len() - i,
    {
        let c = v[i];
        assert(v@.skip(i as int)[0] == c);
        assert(v@.skip(i as int).skip(1) =~= v@.skip(i + 1));
        if quoted {
            quoted = c != '"';
        } else if c == '"' {
            quoted = true;
        } else if c == '(' || c == '[' {
            if depth + 1 > MAX_FILTER_NESTING {
                return true;
            }
            depth = depth + 1;
        } else if c == ')' || c == ']' {
            if depth > 0 {
                depth = depth - 1;
            }
        }
        i += 1;
    }
    false
}

/// `scim_filter::parser::filter`: `None` where a SCIM filter is read from the start of
/// `input`, otherwise the parser's error as text. The parser reads a parenthesised or
/// bracketed group once more after each failed try, so its time doubles with every level of
/// nesting, and its recursion grows with the length of a chain of `and`/`or`: it is handed
/// only input within `MAX_FILTER_LENGTH` and `MAX_FILTER_NESTING`.
#[verifier::external_body]
fn scim_parse_error(input: &str) -> (r: Option<String>)
    requires
        within_parser_limits(input@),
    ensures
        opt_view(r) == scim_filter_error(input@),
{
    match scim_filter::parser::filter(input) {
        Ok(_) => None,
        Err(e) => Some(e.to_string()),
    }
}

/// What `Filter::new` gives for `raw`: no filter where it is missing or blank; a refusal
/// where it is longer than `MAX_FILTER_LENGTH` or nests groups deeper than
/// `MAX_FILTER_NESTING`; the filter as written where the SCIM parser reads it; the
/// parser's message otherwise.
pub open spec fn checked_filter(raw: Option<Seq<char>>) -> Result<Option<Seq<char>>, Seq<char>> {
    match raw {
        None => Ok(None),
        Some(f) => if is_blank(f) {
            Ok(None)
        } else if f.len() > MAX_FILTER_LENGTH {
            Err("filter is longer than 1024 characters"@)
        } else if nests_too_deep(f, 0, false) {
            Err("filter nests parentheses or brackets more than 12 deep"@)
        } else {
            match scim_filter_error(f) {
                None => Ok(Some(f)),
                Some(m) => Err(m),
            }
        },
    }
}

/// A filter in the SCIM grammar, passed to the API as written.
#[derive(Debug, Clone)]
pub struct Filter(pub String);

impl Filter {
    /// No filter where `maybe_filter` is missing or blank; an `InvalidFilter` error where it
    /// is too long or nested too deep for the SCIM parser; the filter as written where the
    /// parser reads it; an `InvalidFilter` error with the parser's message otherwise.
    pub fn new(maybe_filter: Option<String>) -> (r: Result<Option<Self>, BiError>)
        ensures
            match checked_filter(opt_view(maybe_filter)) {
                Ok(None) => r matches Ok(None),
                Ok(Some(f)) => r matches Ok(Some(g)) && g.0@ == f,
                Err(m) => r matches Err(e) && e@ == BiErrorView::InvalidFilter(m),
            },
    {
        let f = match maybe_filter {
            Some(filter) => {
                if str_is_blank(filter.as_str()) {
                    return Ok(None);
                }
                filter
            },
            None => {
                return Ok(None);
            },
        };
        proof {
            reveal_strlit("filter is longer than 1024 characters");
            reveal_strlit("filter nests parentheses or brackets more than 12 deep");
        }
        if chars_of(f.as_str()).len() > MAX_FILTER_LENGTH {
            return Err(
                BiError::InvalidFilter(String::from_str("filter is longer than 1024 characters")),
            );
        }
        if nesting_too_deep(f.as_str()) {
            return Err(
                BiError::InvalidFilter(
                    String::from_str("filter nests parentheses or brackets more than 12 deep"),
                ),
            );
        }
        match scim_parse_error(f.as_str()) {
            None => Ok(Some(Filter(f))),
            Some(e) => Err(BiError::InvalidFilter(e)),
        }
    }
}

} // verus!
