//! The `--filter` argument of the listing commands: `field operation value`.
use vstd::prelude::*;
use vstd::string::*;
use crate::common::error::BiError;
use crate::text::{is_blank, split_whitespace, str_is_blank, views, words};

verus! {

/// The comparison of a filter. Only equality is supported.
#[derive(Debug, Clone)]
pub enum FilterOperation {
    Eq,
}

impl FilterOperation {
    /// The operation written `s`: exactly `eq`.
    pub fn parse(s: &str) -> (r: Option<FilterOperation>)
        ensures
            r is Some <==> s@ == "eq"@,
    {
        if String::from_str(s) == String::from_str("eq") {
            Some(FilterOperation::Eq)
        } else {
            None
        }
    }

    /// How the operation is written: `eq`.
    pub fn name(&self) -> (r: String)
        ensures
            r@ == "eq"@,
    {
        String::from_str("eq")
    }
}

/// A field that a filter can compare: read from its name, and written by its name.
pub trait FilterField: Sized {
    /// The field named `s`; `None` where no field has that name.
    spec fn spec_from_name(s: Seq<char>) -> Option<Self>;

    /// The name of the field.
    spec fn spec_name(&self) -> Seq<char>;

    /// The description of the failure to read a field from `s`.
    spec fn spec_parse_error(s: Seq<char>) -> Seq<char>;

    /// The field named `s`, or the description of the failure.
    fn from_name(s: &str) -> (r: Result<Self, String>)
        ensures
            Self::spec_from_name(s@) matches Some(f) ==> r == Ok::<Self, String>(f),
            Self::spec_from_name(s@) is None ==> (r matches Err(e) && e@ == Self::spec_parse_error(s@)),
    ;

    /// The name of the field.
    fn name(&self) -> (r: String)
        ensures
            r@ == self.spec_name(),
    ;
}

/// A filter accepted by the API: `field eq "value"`.
#[derive(Debug, Clone)]
pub struct Filter {
    pub filter: String,
}

/// The message of a filter that does not have three words.
pub open spec fn format_message() -> Seq<char> {
    "Invalid filter format. Expected format: 'field operation value'"@
}

/// What `Filter::new` gives for the words `parts` of a filter with at least one word
/// that is not white space, reading fields as `F` does.
pub open spec fn filter_from_words<F: FilterField>(parts: Seq<Seq<char>>) -> Result<
    Option<Seq<char>>,
    Seq<char>,
> {
    if parts.len() != 3 {
        Err(format_message())
    } else if F::spec_from_name(parts[0]) is None {
        Err("Invalid field: "@ + parts[0] + ": "@ + F::spec_parse_error(parts[0]))
    } else if parts[1] != "eq"@ {
        Err("Invalid operation: "@ + parts[1])
    } else {
        Ok(
            Some(
                F::spec_from_name(parts[0])->0.spec_name() + " "@ + "eq"@ + " \""@ + parts[2]
                    + "\""@,
            ),
        )
    }
}

/// What `Filter::new` gives for `raw`: no filter where `raw` is missing or blank; the
/// text of the filter; or the message of the `InvalidFilter` error.
pub open spec fn filter_result<F: FilterField>(raw: Option<Seq<char>>) -> Result<
    Option<Seq<char>>,
    Seq<char>,
> {
    match raw {
        None => Ok(None),
        Some(s) => if is_blank(s) {
            Ok(None)
        } else {
            filter_from_words::<F>(words(s))
        },
    }
}

/// The view of a `Filter::new` result.
pub open spec fn filter_result_view(r: Result<Option<Filter>, BiError>) -> Option<
    Result<Option<Seq<char>>, Seq<char>>,
> {
    match r {
        Ok(None) => Some(Ok(None)),
        Ok(Some(f)) => Some(Ok(Some(f.filter@))),
        Err(BiError::InvalidFilter(m)) => Some(Err(m@)),
        Err(_) => None,
    }
}

impl Filter {
    /// Reads the filter `raw_filter` of three words: a field (read by `F`), the operation
    /// `eq`, and a value. No filter where it is missing or blank.
    pub fn new<F: FilterField>(raw_filter: Option<String>) -> (r: Result<Option<Self>, BiError>)
        ensures
            filter_result_view(r) == Some(
                filter_result::<F>(
                    match raw_filter {
                        Some(s) => Some(s@),
                        None => None,
                    },
                ),
            ),
    {
        let raw = match raw_filter {
            Some(f) => {
                if str_is_blank(f.as_str()) {
                    return Ok(None);
                }
                f
            },
            None => {
                return Ok(None);
            },
        };
        let parts = split_whitespace(raw.as_str());
        assert(views(parts@) == words(raw@));
        if parts.len() != 3 {
            return Err(
                BiError::InvalidFilter(
                    String::from_str(
                        "Invalid filter format. Expected format: 'field operation value'",
                    ),
                ),
            );
        }
        assert(views(parts@)[0] == parts@[0]@);
        assert(views(parts@)[1] == parts@[1]@);
        assert(views(parts@)[2] == parts@[2]@);
        let field = match F::from_name(parts[0].as_str()) {
            Ok(f) => f,
            Err(e) => {
                let mut m = String::from_str("Invalid field: ");
                m.append(parts[0].as_str());
                m.append(": ");
                m.append(e.as_str());
                return Err(BiError::InvalidFilter(m));
            },
        };
        let operation = match FilterOperation::parse(parts[1].as_str()) {
            Some(op) => op,
            None => {
                let mut m = String::from_str("Invalid operation: ");
                m.append(parts[1].as_str());
                return Err(BiError::InvalidFilter(m));
            },
        };
        let mut filter = field.name();
        filter.append(" ");
        let op_name = operation.name();
        filter.append(op_name.as_str());
        filter.append(" \"");
        filter.append(parts[2].as_str());
        filter.append("\"");
        Ok(Some(Filter { filter }))
    }
}

} // verus!
