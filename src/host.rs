use vstd::prelude::*;
use crate::error::RibosomeError;

verus! {

/// A WebAssembly value type.
#[derive(Debug, Clone, Copy, PartialEq, Eq, Structural)]
pub enum ValType {
    I32,
    I64,
    F32,
    F64,
}

/// Parameter and result types of a function.
#[derive(Debug, Clone, PartialEq, Eq)]
pub struct HostSignature {
    pub params: Vec<ValType>,
    pub result: Option<ValType>,
}

impl View for HostSignature {
    type V = (Seq<ValType>, Option<ValType>);

    open spec fn view(&self) -> (Seq<ValType>, Option<ValType>) {
        (self.params@, self.result)
    }
}

/// One capability the host offers to guests. The position of a function in
/// `spec_table` is its stable index, used both to resolve imports and to
/// dispatch host calls.
#[derive(Debug, Clone, Copy, PartialEq, Eq, Structural)]
pub enum HostFunction {
    /// `print(i32)`: appends its argument to the call's debug output.
    Print,
    /// `commit(i32, i32) -> i32`: hands an entry to the state store and waits
    /// until it has been applied.
    Commit,
}

/// The import namespace under which host functions are offered.
pub open spec fn env_namespace() -> Seq<char> {
    seq!['e', 'n', 'v']
}

/// The host function table, in index order.
pub open spec fn spec_table() -> Seq<HostFunction> {
    seq![HostFunction::Print, HostFunction::Commit]
}

/// The host function a guest import name refers to, if any.
pub open spec fn spec_lookup(name: Seq<char>) -> Option<HostFunction> {
    if name == HostFunction::Print.spec_name() {
        Some(HostFunction::Print)
    } else if name == HostFunction::Commit.spec_name() {
        Some(HostFunction::Commit)
    } else {
        None
    }
}

/// What resolving an import of `name` under `namespace` yields.
pub open spec fn spec_resolve(namespace: Seq<char>, name: Seq<char>) -> Option<HostFunction> {
    if namespace == env_namespace() {
        spec_lookup(name)
    } else {
        None
    }
}

/// `r` is the failure that names the unresolved import `name`.
pub open spec fn is_unresolved<T>(r: Result<T, RibosomeError>, name: Seq<char>) -> bool {
    match r {
        Err(RibosomeError::ImportUnresolved { name: n }) => n@ == name,
        _ => false,
    }
}

impl HostFunction {
    pub open spec fn spec_index(self) -> usize {
        match self {
            HostFunction::Print => 0,
            HostFunction::Commit => 1,
        }
    }

    pub open spec fn spec_name(self) -> Seq<char> {
        match self {
            HostFunction::Print => seq!['p', 'r', 'i', 'n', 't'],
            HostFunction::Commit => seq!['c', 'o', 'm', 'm', 'i', 't'],
        }
    }

    pub open spec fn spec_signature(self) -> (Seq<ValType>, Option<ValType>) {
        match self {
            HostFunction::Print => (seq![ValType::I32], None),
            HostFunction::Commit => (seq![ValType::I32, ValType::I32], Some(ValType::I32)),
        }
    }

    /// Number of arguments the function takes.
    pub open spec fn spec_arity(self) -> nat {
        self.spec_signature().0.len()
    }

    /// The whole table, in index order.
    pub fn table() -> (r: Vec<HostFunction>)
        ensures
            r@ == spec_table(),
    {
        let r = vec![HostFunction::Print, HostFunction::Commit];
        assert(r@ =~= spec_table());
        r
    }

    /// The stable index of this function.
    pub fn index(self) -> (r: usize)
        ensures
            r == self.spec_index(),
            r < spec_table().len(),
            spec_table()[r as int] == self,
    {
        match self {
            HostFunction::Print => 0,
            HostFunction::Commit => 1,
        }
    }

    /// The name under which guests import this function.
    pub fn name(self) -> (r: &'static str)
        ensures
            r@ == self.spec_name(),
    {
        proof {
            reveal_strlit("print");
            reveal_strlit("commit");
        }
        match self {
            HostFunction::Print => "print",
            HostFunction::Commit => "commit",
        }
    }

    /// The declared signature of this function.
    pub fn signature(self) -> (r: HostSignature)
        ensures
            r@ == self.spec_signature(),
    {
        let r = match self {
            HostFunction::Print => HostSignature { params: vec![ValType::I32], result: None },
            HostFunction::Commit => HostSignature {
                params: vec![ValType::I32, ValType::I32],
                result: Some(ValType::I32),
            },
        };
        assert(r@.0 =~= self.spec_signature().0);
        r
    }

    /// The function at `index` in the table, if there is one.
    pub fn from_index(index: usize) -> (r: Option<HostFunction>)
        ensures
            index < spec_table().len() ==> r == Some(spec_table()[index as int]),
            index >= spec_table().len() ==> r is None,
    {
        let table = HostFunction::table();
        if index < table.len() {
            Some(table[index])
        } else {
            None
        }
    }
}

/// Whether two strings hold the same characters.
pub fn str_eq(a: &str, b: &str) -> (r: bool)
    ensures
        r == (a@ == b@),
{
    let n = a.unicode_len();
    if n != b.unicode_len() {
        return false;
    }
    let mut i: usize = 0;
    while i < n
        invariant
            n == a@.len(),
            n == b@.len(),
            i <= n,
            a@.subrange(0, i as int) == b@.subrange(0, i as int),
        decreases n - i,
    {
        if a.get_char(i) != b.get_char(i) {
            assert(a@[i as int] != b@[i as int]);
            return false;
        }
        assert(a@.subrange(0, i + 1) =~= a@.subrange(0, i as int).push(a@[i as int]));
        assert(b@.subrange(0, i + 1) =~= b@.subrange(0, i as int).push(b@[i as int]));
        i = i + 1;
    }
    assert(a@ =~= a@.subrange(0, n as int));
    assert(b@ =~= b@.subrange(0, n as int));
    true
}

/// Whether two signatures are the same.
pub fn same_signature(a: &HostSignature, b: &HostSignature) -> (r: bool)
    ensures
        r == (a@ == b@),
{
    if a.result != b.result || a.params.len() != b.params.len() {
        return false;
    }
    let n = a.params.len();
    let mut i: usize = 0;
    while i < n
        invariant
            n == a.params@.len(),
            n == b.params@.len(),
            i <= n,
            a.params@.subrange(0, i as int) == b.params@.subrange(0, i as int),
        decreases n - i,
    {
        if a.params[i] != b.params[i] {
            assert(a.params@[i as int] != b.params@[i as int]);
            return false;
        }
        assert(a.params@.subrange(0, i + 1) =~= a.params@.subrange(0, i as int).push(a.params@[i as int]));
        assert(b.params@.subrange(0, i + 1) =~= b.params@.subrange(0, i as int).push(b.params@[i as int]));
        i = i + 1;
    }
    assert(a.params@ =~= a.params@.subrange(0, n as int));
    assert(b.params@ =~= b.params@.subrange(0, n as int));
    true
}

/// Looks up the guest import `name` in the namespace `namespace`.
pub fn resolve_import(namespace: &str, name: &str) -> (r: Result<HostFunction, RibosomeError>)
    ensures
        spec_resolve(namespace@, name@) matches Some(f) ==> r == Ok::<HostFunction, RibosomeError>(f),
        spec_resolve(namespace@, name@) is None ==> is_unresolved(r, name@),
{
    proof {
        reveal_strlit("env");
        assert("env"@ =~= env_namespace());
    }
    if !str_eq(namespace, "env") {
        return Err(RibosomeError::ImportUnresolved { name: name.to_owned() });
    }
    let table = HostFunction::table();
    let mut i: usize = 0;
    while i < table.len()
        invariant
            table@ == spec_table(),
            namespace@ == env_namespace(),
            i <= table@.len(),
            forall|j: int| 0 <= j < i ==> table@[j].spec_name() != name@,
        decreases table@.len() - i,
    {
        let f = table[i];
        if str_eq(f.name(), name) {
            assert(HostFunction::Print.spec_name().len() != HostFunction::Commit.spec_name().len());
            return Ok(f);
        }
        i = i + 1;
    }
    assert(table@[0].spec_name() != name@);
    assert(table@[1].spec_name() != name@);
    Err(RibosomeError::ImportUnresolved { name: name.to_owned() })
}

/// Binds a guest import: it resolves only where the name is in the table and
/// the guest declares the table's signature for it.
pub fn bind_import(namespace: &str, name: &str, declared: &HostSignature) -> (r: Result<HostFunction, RibosomeError>)
    ensures
        (spec_resolve(namespace@, name@) matches Some(f) && declared@ == f.spec_signature())
            ==> r == Ok::<HostFunction, RibosomeError>(spec_resolve(namespace@, name@)->0),
        !(spec_resolve(namespace@, name@) matches Some(f) && declared@ == f.spec_signature())
            ==> is_unresolved(r, name@),
{
    match resolve_import(namespace, name) {
        Ok(f) => {
            if same_signature(declared, &f.signature()) {
                Ok(f)
            } else {
                Err(RibosomeError::ImportUnresolved { name: name.to_owned() })
            }
        },
        Err(e) => Err(e),
    }
}

/// Every function of the table resolves under its own name to itself, at its
/// own position and with its own signature; a name outside the table resolves
/// to nothing.
pub proof fn lemma_table_resolution(namespace: Seq<char>, name: Seq<char>)
    ensures
        forall|i: int|
            0 <= i < spec_table().len() ==> {
                &&& spec_resolve(env_namespace(), #[trigger] spec_table()[i].spec_name()) == Some(spec_table()[i])
                &&& spec_table()[i].spec_index() == i
            },
        spec_resolve(env_namespace(), seq!['p', 'r', 'i', 'n', 't'])
            == Some(HostFunction::Print),
        HostFunction::Print.spec_signature() == (seq![ValType::I32], None::<ValType>),
        spec_resolve(env_namespace(), seq!['c', 'o', 'm', 'm', 'i', 't'])
            == Some(HostFunction::Commit),
        HostFunction::Commit.spec_signature() == (seq![ValType::I32, ValType::I32], Some(ValType::I32)),
        (forall|i: int| 0 <= i < spec_table().len() ==> spec_table()[i].spec_name() != name)
            ==> spec_resolve(namespace, name) is None,
        namespace != env_namespace() ==> spec_resolve(namespace, name) is None,
{
    assert(HostFunction::Print.spec_name() != HostFunction::Commit.spec_name()) by {
        assert(HostFunction::Print.spec_name().len() != HostFunction::Commit.spec_name().len());
    }
    assert forall|i: int| 0 <= i < spec_table().len() implies {
        &&& spec_resolve(env_namespace(), #[trigger] spec_table()[i].spec_name()) == Some(spec_table()[i])
        &&& spec_table()[i].spec_index() == i
    } by {
        if i == 0 {
        } else {
            assert(i == 1);
        }
    }
    if forall|i: int| 0 <= i < spec_table().len() ==> spec_table()[i].spec_name() != name {
        assert(spec_table()[0].spec_name() != name);
        assert(spec_table()[1].spec_name() != name);
    }
}

} // verus!
