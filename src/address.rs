//! Message endpoints: a node plus a process identifier
//! `name:package:publisher`.
use vstd::prelude::*;

verus! {

broadcast use vstd::string::group_string_axioms;

/// A process identifier as three character sequences.
pub struct ProcessIdView {
    pub name: Seq<char>,
    pub package: Seq<char>,
    pub publisher: Seq<char>,
}

/// A sequence that holds no `:`.
pub open spec fn colon_free(t: Seq<char>) -> bool {
    forall|i: int| 0 <= i < t.len() ==> t[i] != ':'
}

/// Each of the three parts is non-empty and holds no `:`.
pub open spec fn id_parts_valid(p: ProcessIdView) -> bool {
    &&& p.name.len() > 0
    &&& p.package.len() > 0
    &&& p.publisher.len() > 0
    &&& colon_free(p.name)
    &&& colon_free(p.package)
    &&& colon_free(p.publisher)
}

/// The textual form `name:package:publisher`.
pub open spec fn id_text(p: ProcessIdView) -> Seq<char> {
    p.name + seq![':'] + p.package + seq![':'] + p.publisher
}

/// The text is the form of some valid process identifier.
pub open spec fn is_id_text(s: Seq<char>) -> bool {
    exists|p: ProcessIdView| id_parts_valid(p) && id_text(p) == s
}

#[derive(Debug, Clone, Copy, PartialEq, Eq)]
pub enum AddressError {
    /// The text is not three non-empty parts separated by two colons.
    InvalidAddressFormat,
}

/// Identifies a process: its name, the package that owns it and the
/// package's publisher.
#[derive(Debug, Clone)]
pub struct ProcessId {
    pub process_name: String,
    pub package_name: String,
    pub publisher_node: String,
}

impl View for ProcessId {
    type V = ProcessIdView;

    open spec fn view(&self) -> ProcessIdView {
        ProcessIdView {
            name: self.process_name@,
            package: self.package_name@,
            publisher: self.publisher_node@,
        }
    }
}

/// A message endpoint: a node and a process on it.
#[derive(Debug, Clone)]
pub struct Address {
    pub node: String,
    pub process: ProcessId,
}

pub struct AddressView {
    pub node: Seq<char>,
    pub process: ProcessIdView,
}

impl View for Address {
    type V = AddressView;

    open spec fn view(&self) -> AddressView {
        AddressView { node: self.node@, process: self.process@ }
    }
}

/// Index of the first `:` in `s` at or after `from`, if any.
fn find_colon(s: &str, from: usize, n: usize) -> (r: Option<usize>)
    requires
        n == s@.len(),
        from <= n,
    ensures
        match r {
            Some(k) => from <= k < n && s@[k as int] == ':' && forall|j: int|
                from <= j < k ==> s@[j] != ':',
            None => forall|j: int| from <= j < n ==> s@[j] != ':',
        },
{
    let mut i: usize = from;
    while i < n
        invariant
            n == s@.len(),
            from <= i <= n,
            forall|j: int| from <= j < i ==> s@[j] != ':',
        decreases n - i,
    {
        if s.get_char(i) == ':' {
            return Some(i);
        }
        i = i + 1;
    }
    None
}

/// Where the colons of a valid identifier's text stand.
proof fn lemma_id_text_colons(p: ProcessIdView)
    requires
        id_parts_valid(p),
    ensures
        ({
            let s = id_text(p);
            let a = p.name.len() as int;
            let b = a + 1 + p.package.len();
            &&& s.len() == b + 1 + p.publisher.len()
            &&& s[a] == ':'
            &&& s[b] == ':'
            &&& forall|j: int| 0 <= j < a ==> s[j] != ':'
            &&& forall|j: int| a < j < b ==> s[j] != ':'
            &&& forall|j: int| b < j < s.len() ==> s[j] != ':'
            &&& s.subrange(0, a) == p.name
            &&& s.subrange(a + 1, b) == p.package
            &&& s.subrange(b + 1, s.len() as int) == p.publisher
        }),
{
    let s = id_text(p);
    let a = p.name.len() as int;
    let b = a + 1 + p.package.len();
    assert(s.subrange(0, a) =~= p.name);
    assert(s.subrange(a + 1, b) =~= p.package);
    assert(s.subrange(b + 1, s.len() as int) =~= p.publisher);
    assert forall|j: int| 0 <= j < a implies s[j] != ':' by {
        assert(s[j] == p.name[j]);
    }
    assert forall|j: int| a < j < b implies s[j] != ':' by {
        assert(s[j] == p.package[j - a - 1]);
    }
    assert forall|j: int| b < j < s.len() implies s[j] != ':' by {
        assert(s[j] == p.publisher[j - b - 1]);
    }
}

impl ProcessId {
    /// Parses `name:package:publisher`: three non-empty parts, two colons.
    pub fn parse(s: &str) -> (r: Result<ProcessId, AddressError>)
        ensures
            match r {
                Ok(p) => id_parts_valid(p@) && id_text(p@) == s@,
                Err(e) => !is_id_text(s@) && e == AddressError::InvalidAddressFormat,
            },
    {
        let n = s.unicode_len();
        let a = match find_colon(s, 0, n) {
            Some(a) => a,
            None => {
                proof {
                    assert forall|p: ProcessIdView| id_parts_valid(p) implies id_text(p) != s@ by {
                        lemma_id_text_colons(p);
                    }
                }
                return Err(AddressError::InvalidAddressFormat);
            },
        };
        let b = match find_colon(s, a + 1, n) {
            Some(b) => b,
            None => {
                proof {
                    assert forall|p: ProcessIdView| id_parts_valid(p) implies id_text(p) != s@ by {
                        lemma_id_text_colons(p);
                    }
                }
                return Err(AddressError::InvalidAddressFormat);
            },
        };
        let rest = find_colon(s, b + 1, n);
        if rest.is_some() || a == 0 || b == a + 1 || b + 1 == n {
            proof {
                assert forall|p: ProcessIdView| id_parts_valid(p) implies id_text(p) != s@ by {
                    lemma_id_text_colons(p);
                }
            }
            return Err(AddressError::InvalidAddressFormat);
        }
        let p = ProcessId {
            process_name: s.substring_char(0, a).to_string(),
            package_name: s.substring_char(a + 1, b).to_string(),
            publisher_node: s.substring_char(b + 1, n).to_string(),
        };
        proof {
            assert(id_text(p@) =~= s@);
        }
        Ok(p)
    }

    /// Whether two identifiers are the same, part by part.
    pub fn same_as(&self, other: &ProcessId) -> (r: bool)
        ensures
            r == (self@ == other@),
    {
        self.process_name == other.process_name && self.package_name == other.package_name
            && self.publisher_node == other.publisher_node
    }
}

impl Address {
    /// A copy of this address.
    pub fn duplicate(&self) -> (r: Address)
        ensures
            r@ == self@,
    {
        Address {
            node: self.node.clone(),
            process: ProcessId {
                process_name: self.process.process_name.clone(),
                package_name: self.process.package_name.clone(),
                publisher_node: self.process.publisher_node.clone(),
            },
        }
    }

    /// Whether two addresses are the same: equal nodes and equal processes.
    pub fn same_as(&self, other: &Address) -> (r: bool)
        ensures
            r == (self@ == other@),
    {
        self.node == other.node && self.process.same_as(&other.process)
    }
}

} // verus!
