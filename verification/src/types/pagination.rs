//! The range of a list query: extraction from the query parameters and the
//! two passes that normalise it.

use vstd::prelude::*;
use crate::error::{Error, ErrorView};
use crate::types::number::{is_index_text, index_value, parse_failure_detail, parse_index};
use crate::types::params::QueryParams;

verus! {

/// A half-open range `[start, end)` of positions in a list.
#[derive(Debug, Clone, Copy)]
pub struct Pagination {
    /// The position of the first item to return.
    pub start: usize,
    /// The position behind the last item to return.
    pub end: usize,
}

impl Pagination {
    /// The range with its bounds in ascending order.
    pub open spec fn sanitized(self) -> Pagination {
        if self.start > self.end {
            Pagination { start: self.end, end: self.start }
        } else {
            self
        }
    }

    /// The range with its end cut down to `max_len`.
    pub open spec fn saturated(self, max_len: usize) -> Pagination {
        if self.end > max_len {
            Pagination { start: self.start, end: max_len }
        } else {
            self
        }
    }

    /// Swaps the bounds of an inverted range, so that the start never lies
    /// behind the end.
    pub fn sanitize(self) -> (res: Self)
        ensures
            res == self.sanitized(),
            res.start <= res.end,
    {
        if self.start > self.end {
            Pagination { start: self.end, end: self.start }
        } else {
            self
        }
    }

    /// Cuts the end down to `max_len`, the length of the list that the range
    /// is applied to. The start is left as it is, also where it lies behind
    /// `max_len`.
    pub fn saturate(self, max_len: usize) -> (res: Self)
        ensures
            res == self.saturated(max_len),
            res.start == self.start,
            res.end <= self.end,
            res.end <= max_len,
            self.end > max_len ==> res.end == max_len,
    {
        if self.end > max_len {
            Pagination { start: self.start, end: max_len }
        } else {
            self
        }
    }
}

/// What extraction gives for a set of parameters: both `start` and `end` are
/// required, `start` is read first, and the bounds come out in ascending
/// order.
pub open spec fn extraction(params: Map<Seq<char>, Seq<char>>) -> Result<Pagination, ErrorView> {
    if !(params.contains_key("start"@) && params.contains_key("end"@)) {
        Err(ErrorView::MissingParameters)
    } else if !is_index_text(params["start"@]) {
        Err(ErrorView::ParseError(parse_failure_detail(params["start"@])))
    } else if !is_index_text(params["end"@]) {
        Err(ErrorView::ParseError(parse_failure_detail(params["end"@])))
    } else {
        Ok(
            Pagination {
                start: index_value(params["start"@]) as usize,
                end: index_value(params["end"@]) as usize,
            }.sanitized(),
        )
    }
}

/// Whether `res` is the outcome `expected`, errors compared by their content.
pub open spec fn is_outcome(res: Result<Pagination, Error>, expected: Result<Pagination, ErrorView>) -> bool {
    match expected {
        Ok(range) => res == Ok::<Pagination, Error>(range),
        Err(e) => res is Err && res->Err_0@ == e,
    }
}

/// Reads the range of a list query from its parameters `start` and `end`,
/// as in `/questions?start=1&end=10`.
pub fn extract_pagination(params: QueryParams) -> (res: Result<Pagination, Error>)
    ensures
        is_outcome(res, extraction(params@)),
        !params@.contains_key("start"@) || !params@.contains_key("end"@) ==> res is Err
            && res->Err_0@ == ErrorView::MissingParameters,
        params@.contains_key("start"@) && params@.contains_key("end"@) && !(is_index_text(
            params@["start"@],
        ) && is_index_text(params@["end"@])) ==> res is Err && res->Err_0@ is ParseError,
        res is Ok ==> res->Ok_0.start <= res->Ok_0.end,
{
    if params.contains_key("start") && params.contains_key("end") {
        let start = match params.get("start") {
            Some(text) => match parse_index(text.as_str()) {
                Ok(value) => value,
                Err(detail) => {
                    return Err(Error::ParseError(detail));
                },
            },
            None => {
                return Err(Error::MissingParameters);
            },
        };
        let end = match params.get("end") {
            Some(text) => match parse_index(text.as_str()) {
                Ok(value) => value,
                Err(detail) => {
                    return Err(Error::ParseError(detail));
                },
            },
            None => {
                return Err(Error::MissingParameters);
            },
        };
        let pagination = Pagination { start, end };
        return Ok(pagination.sanitize());
    }
    Err(Error::MissingParameters)
}

} // verus!
