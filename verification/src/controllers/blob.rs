//! Request-parameter parsing for the blob listing endpoint.
use vstd::prelude::*;
use crate::text::str_eq;

verus! {

/// Whether a blob listing returns full metadata or names alone.
#[derive(Debug, Clone, Copy, PartialEq, Eq, Structural)]
pub enum BlobDataMode {
    Full,
    Name,
}

pub open spec fn full_lit() -> Seq<char> {
    seq!['f', 'u', 'l', 'l']
}

pub open spec fn name_lit() -> Seq<char> {
    seq!['n', 'a', 'm', 'e']
}

/// Only the exact literals `full` and `name` are accepted.
pub open spec fn parse_blob_data_mode_spec(s: Seq<char>) -> Option<BlobDataMode> {
    if s == full_lit() {
        Some(BlobDataMode::Full)
    } else if s == name_lit() {
        Some(BlobDataMode::Name)
    } else {
        None
    }
}

impl BlobDataMode {
    pub fn from_value(s: &str) -> (r: Option<BlobDataMode>)
        ensures
            r == parse_blob_data_mode_spec(s@),
    {
        proof {
            reveal_strlit("full");
            reveal_strlit("name");
            assert("full"@ =~= full_lit());
            assert("name"@ =~= name_lit());
        }
        if str_eq(s, "full") {
            Some(BlobDataMode::Full)
        } else if str_eq(s, "name") {
            Some(BlobDataMode::Name)
        } else {
            None
        }
    }
}

} // verus!
