//! Identifier and name types of the agent's catalog.

use std::collections::HashMap;
use vstd::prelude::*;

verus! {

/// An address as the agent reports it.
#[derive(Debug, Default, Clone, PartialEq, Eq)]
pub struct ConsulAddress(pub String);

/// An identifier of a service or a node: a text without `/`.
#[derive(Debug, Default, Clone, PartialEq, Eq)]
pub struct ConsulID(String);

/// A name of a service or a node: a text without `/`.
#[derive(Debug, Default, Clone, PartialEq, Eq)]
pub struct ConsulName(String);

/// Free-form metadata attached to a catalog entry.
#[derive(Debug, Default, Clone, PartialEq, Eq)]
pub struct Metadata(pub HashMap<String, String>);

/// Addresses of a node, by tag.
#[derive(Debug, Default, Clone, PartialEq, Eq)]
pub struct TaggedAddresses(pub HashMap<String, ConsulAddress>);

/// The error returned when a name or an identifier holds a `/`.
#[derive(Debug, Clone, Copy, PartialEq, Eq, Structural)]
pub struct InvalidName;

/// Whether `s` holds a `/`.
pub open spec fn has_slash(s: Seq<char>) -> bool {
    exists|i: int| 0 <= i < s.len() && s[i] == '/'
}

/// Whether `s` holds a `/`, computed.
fn contains_slash(s: &str) -> (r: bool)
    ensures
        r == has_slash(s@),
{
    let n = s.unicode_len();
    let mut i: usize = 0;
    while i < n
        invariant
            n == s@.len(),
            i <= n,
            forall|j: int| 0 <= j < i ==> s@[j] != '/',
        decreases n - i,
    {
        if s.get_char(i) == '/' {
            return true;
        }
        i = i + 1;
    }
    false
}

impl View for ConsulID {
    type V = Seq<char>;

    closed spec fn view(&self) -> Seq<char> {
        self.0@
    }
}

impl View for ConsulName {
    type V = Seq<char>;

    closed spec fn view(&self) -> Seq<char> {
        self.0@
    }
}

impl ConsulID {
    /// The identifier `name`; refused when it holds a `/`.
    pub fn from(name: &str) -> (r: Result<ConsulID, InvalidName>)
        ensures
            match r {
                Ok(id) => !has_slash(name@) && id@ == name@,
                Err(_) => has_slash(name@),
            },
    {
        if contains_slash(name) {
            Err(InvalidName)
        } else {
            Ok(ConsulID(String::from_str(name)))
        }
    }

    /// The identifier as text.
    pub fn to_str(&self) -> (r: &str)
        ensures
            r@ == self@,
    {
        self.0.as_str()
    }
}

impl ConsulName {
    /// The name `name`; refused when it holds a `/`.
    pub fn from(name: &str) -> (r: Result<ConsulName, InvalidName>)
        ensures
            match r {
                Ok(n) => !has_slash(name@) && n@ == name@,
                Err(_) => has_slash(name@),
            },
    {
        if contains_slash(name) {
            Err(InvalidName)
        } else {
            Ok(ConsulName(String::from_str(name)))
        }
    }

    /// The name as text.
    pub fn to_str(&self) -> (r: &str)
        ensures
            r@ == self@,
    {
        self.0.as_str()
    }
}

} // verus!
