//! How the engine asks the share store for records.
//!
//! The store itself — its engine and its query execution — is an external
//! collaborator; the engine only fixes the search term a query is built
//! from.

use vstd::prelude::*;

use crate::text::dec_digits;

verus! {

/// The two ways to search the store, by row id or by share identifier.
pub enum Search {
    /// Match the row with this id.
    Id(u64),
    /// Match rows carrying this share identifier.
    Uuid(String),
}

impl Search {
    /// The term a store query is built from: the column, an equals sign,
    /// and the sought value, quoted where it is text.
    pub fn get_search_term(self) -> (r: String)
        ensures
            match self {
                Search::Id(i) => r@ == "id = "@ + dec_digits(i as nat),
                Search::Uuid(u) => r@ == "uuid = '"@ + u@ + "'"@,
            },
    {
        match self {
            Search::Id(i) => {
                let mut r = String::from_str("id = ");
                let digits = crate::text::u64_to_string(i);
                r.append(digits.as_str());
                r
            },
            Search::Uuid(u) => {
                let mut r = String::from_str("uuid = '");
                r.append(u.as_str());
                r.append("'");
                r
            },
        }
    }
}

} // verus!
