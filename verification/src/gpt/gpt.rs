//! The request builder: a token and the table of the interfaces.

use crate::text::same_text;
use vstd::prelude::*;

verus! {

/// The name under which the table holds the base address.
pub const BASE_URL_KEY: &'static str = "baseUrl";

/// One row of the table of interfaces: a name and what it stands for.
#[derive(Debug, Clone, PartialEq, Eq)]
pub struct ApiEntry {
    pub name: String,
    pub value: String,
}

/// A token and the table of the interfaces of the service.
#[derive(Debug, Clone, PartialEq, Eq)]
pub struct GPTRequestBuilder {
    token: String,
    api_dict: Vec<ApiEntry>,
}

/// What the first `upto` rows hold under `name`: the value of the last row
/// of that name, as in a table where a later row replaces an earlier one.
pub open spec fn held_upto(rows: Seq<ApiEntry>, name: Seq<char>, upto: int) -> Option<Seq<char>>
    decreases upto,
{
    if upto <= 0 {
        None
    } else if rows[upto - 1].name@ == name {
        Some(rows[upto - 1].value@)
    } else {
        held_upto(rows, name, upto - 1)
    }
}

impl GPTRequestBuilder {
    /// A builder with the given token and table.
    pub fn new(token: String, api_dict: Vec<ApiEntry>) -> (builder: GPTRequestBuilder)
        ensures
            builder.spec_token() == token@,
            builder.spec_rows() == api_dict@,
    {
        GPTRequestBuilder { token, api_dict }
    }

    /// The token.
    pub closed spec fn spec_token(&self) -> Seq<char> {
        self.token@
    }

    /// The rows of the table.
    pub closed spec fn spec_rows(&self) -> Seq<ApiEntry> {
        self.api_dict@
    }

    /// What the table holds under `name`.
    pub open spec fn spec_get(&self, name: Seq<char>) -> Option<Seq<char>> {
        held_upto(self.spec_rows(), name, self.spec_rows().len() as int)
    }

    /// The token.
    pub fn token(&self) -> (token: &str)
        ensures
            token@ == self.spec_token(),
    {
        self.token.as_str()
    }

    /// Looks up what the table holds under `name`.
    pub fn get(&self, name: &str) -> (value: Option<&str>)
        ensures
            match value {
                Some(v) => self.spec_get(name@) == Some(v@),
                None => self.spec_get(name@) is None,
            },
    {
        let mut i: usize = self.api_dict.len();
        while i > 0
            invariant
                i <= self.api_dict@.len(),
                self.spec_get(name@) == held_upto(self.api_dict@, name@, i as int),
            decreases i,
        {
            i = i - 1;
            if same_text(self.api_dict[i].name.as_str(), name) {
                return Some(self.api_dict[i].value.as_str());
            }
        }
        None
    }

    /// The address of an interface: the base address of the table and the
    /// path of the interface. There is none unless the table holds both.
    pub fn retrieve_url(&self, api_name: &str) -> (url: Option<String>)
        ensures
            match url {
                Some(u) => self.spec_get(BASE_URL_KEY@) matches Some(base) && self.spec_get(
                    api_name@,
                ) matches Some(path) && u@ == base + path,
                None => self.spec_get(BASE_URL_KEY@) is None || self.spec_get(api_name@) is None,
            },
    {
        match self.get(BASE_URL_KEY) {
            Some(base) => match self.get(api_name) {
                Some(path) => {
                    let mut url = base.to_owned();
                    vstd::string::StringExecFns::append(&mut url, path);
                    Some(url)
                },
                None => None,
            },
            None => None,
        }
    }
}

} // verus!
