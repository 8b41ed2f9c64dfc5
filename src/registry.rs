use vstd::prelude::*;

use crate::error::HarnessError;

verus! {

/// One function of a contract's interface, in declaration order.
#[derive(Clone, Debug, PartialEq, Eq)]
pub struct FunctionEntry {
    pub name: String,
    /// The first four bytes of the hash of the function's signature, big-endian.
    pub selector: u32,
}

/// A compiled contract: its name, interface, deployment code and the deployment code
/// of the libraries linked into it.
#[derive(Clone, Debug, PartialEq, Eq)]
pub struct Artifact {
    pub name: String,
    pub functions: Vec<FunctionEntry>,
    pub deploy_code: Vec<u8>,
    pub libraries: Vec<Vec<u8>>,
}

/// `i` is the first position of `name` among `names`.
pub open spec fn is_first_match(names: Seq<Seq<char>>, name: Seq<char>, i: int) -> bool {
    &&& 0 <= i < names.len()
    &&& names[i] == name
    &&& forall|j: int| 0 <= j < i ==> names[j] != name
}

/// `name` occurs among `names`.
pub open spec fn has_name(names: Seq<Seq<char>>, name: Seq<char>) -> bool {
    exists|i: int| 0 <= i < names.len() && names[i] == name
}

/// No name occurs twice.
pub open spec fn names_unique(names: Seq<Seq<char>>) -> bool {
    forall|i: int, j: int| 0 <= i < j < names.len() ==> names[i] != names[j]
}

pub open spec fn artifact_names(s: Seq<Artifact>) -> Seq<Seq<char>> {
    s.map_values(|a: Artifact| a.name@)
}

/// The compiled contracts of a session, by name.
pub struct Registry {
    artifacts: Vec<Artifact>,
}

impl Registry {
    /// The contracts, in the order the compiler gave them.
    pub closed spec fn contracts(&self) -> Seq<Artifact> {
        self.artifacts@
    }

    pub open spec fn names(&self) -> Seq<Seq<char>> {
        artifact_names(self.contracts())
    }

    /// Each contract name is held once.
    pub open spec fn wf(&self) -> bool {
        names_unique(self.names())
    }

    /// Indexes `artifacts` by name; fails, naming one of them, where two share a name.
    pub fn new(artifacts: Vec<Artifact>) -> (r: Result<Registry, HarnessError>)
        ensures
            r is Ok <==> names_unique(artifact_names(artifacts@)),
            r matches Ok(reg) ==> reg.wf() && reg.contracts() == artifacts@,
            match r {
                Ok(_) => true,
                Err(HarnessError::DuplicateContract { name }) => exists|i: int, j: int|
                    0 <= i < j < artifacts@.len() && artifacts@[i].name@ == name@
                        && artifacts@[j].name@ == name@,
                Err(_) => false,
            },
    {
        let ghost ns = artifact_names(artifacts@);
        let mut j: usize = 0;
        while j < artifacts.len()
            invariant
                0 <= j <= artifacts@.len(),
                ns == artifact_names(artifacts@),
                forall|a: int, b: int| 0 <= a < b < j ==> ns[a] != ns[b],
            decreases artifacts@.len() - j,
        {
            let mut i: usize = 0;
            while i < j
                invariant
                    0 <= i <= j < artifacts@.len(),
                    ns == artifact_names(artifacts@),
                    forall|a: int, b: int| 0 <= a < b < j ==> ns[a] != ns[b],
                    forall|a: int| 0 <= a < i ==> ns[a] != ns[j as int],
                decreases j - i,
            {
                if artifacts[i].name == artifacts[j].name {
                    assert(ns[i as int] == ns[j as int]);
                    return Err(HarnessError::DuplicateContract { name: artifacts[i].name.clone() });
                }
                i = i + 1;
            }
            j = j + 1;
        }
        Ok(Registry { artifacts })
    }

    /// How many contracts are held.
    pub fn len(&self) -> (r: usize)
        ensures
            r == self.contracts().len(),
    {
        self.artifacts.len()
    }

    /// The first contract named `name`, if any.
    pub fn find(&self, name: &str) -> (r: Option<usize>)
        ensures
            r is Some <==> has_name(self.names(), name@),
            r matches Some(i) ==> is_first_match(self.names(), name@, i as int),
    {
        let key = name.to_owned();
        let mut i: usize = 0;
        let ghost ns = self.names();
        while i < self.artifacts.len()
            invariant
                0 <= i <= self.artifacts@.len(),
                ns == self.names(),
                key@ == name@,
                forall|j: int| 0 <= j < i ==> self.artifacts@[j].name@ != name@,
            decreases self.artifacts@.len() - i,
        {
            if self.artifacts[i].name == key {
                assert(is_first_match(ns, name@, i as int));
                return Some(i);
            }
            i = i + 1;
        }
        assert(!exists|k: int| 0 <= k < ns.len() && ns[k] == name@);
        None
    }

    /// The contract at `index`.
    pub fn artifact(&self, index: usize) -> (r: &Artifact)
        requires
            index < self.contracts().len(),
        ensures
            *r == self.contracts()[index as int],
    {
        &self.artifacts[index]
    }
}

} // verus!
