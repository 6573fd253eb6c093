//! The function pointer table and its loader.
//!
//! At plugin-load time the host supplies a resolver that maps entry-point
//! names to raw function addresses (or to nothing, on host versions that lack
//! a function). The loader walks the fixed list of declared names once and
//! records every answer; the resulting table is never mutated afterwards. An
//! entry the resolver could not answer stays permanently unresolved — that is
//! not a load-time error, it only surfaces when somebody insists on calling
//! that particular function.

use vstd::prelude::*;

verus! {

/// One answer of the host's resolver: this name lives at this address.
#[derive(Debug)]
pub struct ResolverEntry {
    /// Entry-point name.
    pub name: String,
    /// Raw function address; never zero (a null answer is simply absent).
    pub address: u64,
}

/// The host-supplied function-address resolver, as an answer set: the
/// embedding code queries the host once per name and records every non-null
/// answer here.
#[derive(Debug)]
pub struct Resolver {
    /// All non-null answers.
    pub answers: Vec<ResolverEntry>,
}

/// First answer for `name` in `answers` from index `i` on, if any.
pub open spec fn resolve_from(answers: Seq<ResolverEntry>, name: Seq<char>, i: int) -> Option<u64>
    decreases answers.len() - i when 0 <= i <= answers.len()
{
    if i >= answers.len() {
        None
    } else if answers[i].name@ == name {
        Some(answers[i].address)
    } else {
        resolve_from(answers, name, i + 1)
    }
}

impl Resolver {
    /// A resolver never answers with a null address.
    pub open spec fn wf(self) -> bool {
        forall|i: int| 0 <= i < self.answers@.len() ==> (#[trigger] self.answers@[i]).address != 0
    }

    /// The address this resolver gives for `name`, if any.
    pub open spec fn spec_resolve(self, name: Seq<char>) -> Option<u64> {
        resolve_from(self.answers@, name, 0)
    }

    /// An empty answer set: a host that knows no entry point at all.
    pub fn new() -> (r: Resolver)
        ensures
            r.answers@.len() == 0,
            r.wf(),
    {
        Resolver { answers: Vec::new() }
    }

    /// Records one non-null answer.
    pub fn add(&mut self, name: String, address: u64)
        requires
            address != 0,
        ensures
            final(self).answers@ == old(self).answers@.push(
                ResolverEntry { name, address },
            ),
            old(self).wf() ==> final(self).wf(),
    {
        self.answers.push(ResolverEntry { name, address });
    }

    /// Looks up the answer for `name`.
    pub fn resolve(&self, name: &String) -> (r: Option<u64>)
        ensures
            r == self.spec_resolve(name@),
    {
        let ghost answers = self.answers@;
        let mut i: usize = 0;
        while i < self.answers.len()
            invariant
                0 <= i <= answers.len(),
                answers == self.answers@,
                resolve_from(answers, name@, 0) == resolve_from(answers, name@, i as int),
            decreases answers.len() - i,
        {
            if self.answers[i].name == *name {
                return Some(self.answers[i].address);
            }
            i += 1;
        }
        None
    }
}

/// One entry of the function pointer table: a name and the resolved address,
/// or `None` if the host does not provide this function.
#[derive(Debug)]
pub struct TableEntry {
    /// Entry-point name.
    pub name: String,
    /// Resolved address, if the resolver answered.
    pub address: Option<u64>,
}

/// The function pointer table of one loaded plugin session: one entry per
/// declared entry point, populated in a single pass at load time and
/// read-only afterwards.
#[derive(Debug)]
pub struct FunctionPointerTable {
    /// All entries, in declaration order.
    pub entries: Vec<TableEntry>,
}

/// First entry named `name` in `entries` from index `i` on: `None` if no such
/// entry exists, otherwise that entry's (possibly unresolved) address.
pub open spec fn entry_from(entries: Seq<TableEntry>, name: Seq<char>, i: int) -> Option<
    Option<u64>,
>
    decreases entries.len() - i when 0 <= i <= entries.len()
{
    if i >= entries.len() {
        None
    } else if entries[i].name@ == name {
        Some(entries[i].address)
    } else {
        entry_from(entries, name, i + 1)
    }
}

/// The error raised when a caller insists on an entry point the host did not
/// provide. It names the missing function, so the resulting diagnostic always
/// mentions which native function was absent.
#[derive(Debug)]
pub struct MissingFunctionError {
    /// Name of the entry point that is not loaded.
    pub function_name: String,
}

impl MissingFunctionError {
    /// The diagnostic message; it carries the missing function's name.
    pub fn message(&self) -> (r: String)
        ensures
            r@ == "native function not loaded: "@ + self.function_name@,
    {
        let mut m: String = "native function not loaded: ".to_owned();
        m.append(self.function_name.as_str());
        m
    }
}

/// Whether `t` is the table the loader builds from `names` and `resolver`:
/// one entry per declared name, in order, holding exactly the resolver's
/// answer for that name. Loading is total — an unanswered name loads as an
/// unresolved entry, never as an error.
pub open spec fn is_loaded_from(
    t: FunctionPointerTable,
    names: Seq<String>,
    resolver: Resolver,
) -> bool {
    &&& t.entries@.len() == names.len()
    &&& forall|i: int| 0 <= i < names.len() ==> (#[trigger] t.entries@[i]).name@ == names[i]@
    &&& forall|i: int|
        0 <= i < names.len() ==> (#[trigger] t.entries@[i]).address == resolver.spec_resolve(
            names[i]@,
        )
}

impl FunctionPointerTable {
    /// The table's record for `name`: `None` when no entry point of that name
    /// was ever declared, `Some(None)` for a declared entry the host did not
    /// provide, `Some(Some(a))` for a resolved one.
    pub open spec fn spec_entry(self, name: Seq<char>) -> Option<Option<u64>> {
        entry_from(self.entries@, name, 0)
    }

    /// The loaded address for `name`, if the entry exists and was resolved.
    pub open spec fn spec_address(self, name: Seq<char>) -> Option<u64> {
        match self.spec_entry(name) {
            Some(a) => a,
            None => None,
        }
    }

    /// Whether `name` is loaded and can be called.
    pub open spec fn is_loaded(self, name: Seq<char>) -> bool {
        self.spec_address(name) is Some
    }

    /// Loads the table: resolves every declared name once, in order. Total —
    /// a name the resolver cannot answer is recorded as unresolved.
    pub fn load(names: &Vec<String>, resolver: &Resolver) -> (t: FunctionPointerTable)
        ensures
            is_loaded_from(t, names@, *resolver),
    {
        let mut entries: Vec<TableEntry> = Vec::new();
        let mut i: usize = 0;
        while i < names.len()
            invariant
                0 <= i <= names@.len(),
                entries@.len() == i,
                forall|j: int| 0 <= j < i ==> (#[trigger] entries@[j]).name@ == names@[j]@,
                forall|j: int|
                    0 <= j < i ==> (#[trigger] entries@[j]).address == resolver.spec_resolve(
                        names@[j]@,
                    ),
            decreases names@.len() - i,
        {
            let address = resolver.resolve(&names[i]);
            entries.push(TableEntry { name: names[i].clone(), address });
            i += 1;
        }
        FunctionPointerTable { entries }
    }

    /// Number of resolved entries among the first `i`.
    pub open spec fn spec_loaded_count(entries: Seq<TableEntry>, i: int) -> int
        decreases i when 0 <= i <= entries.len()
    {
        if i <= 0 {
            0
        } else {
            Self::spec_loaded_count(entries, i - 1) + if entries[i - 1].address is Some {
                1int
            } else {
                0int
            }
        }
    }

    /// Counts the entry points that were actually resolved.
    pub fn loaded_count(&self) -> (n: usize)
        ensures
            n == Self::spec_loaded_count(self.entries@, self.entries@.len() as int),
    {
        let mut n: usize = 0;
        let mut i: usize = 0;
        while i < self.entries.len()
            invariant
                0 <= i <= self.entries@.len(),
                n == Self::spec_loaded_count(self.entries@, i as int),
                n <= i,
            decreases self.entries@.len() - i,
        {
            if self.entries[i].address.is_some() {
                n += 1;
            }
            i += 1;
        }
        n
    }

    /// Looks up the loaded address for `name`.
    pub fn address_of(&self, name: &String) -> (r: Option<u64>)
        ensures
            r == self.spec_address(name@),
    {
        let ghost entries = self.entries@;
        let mut i: usize = 0;
        while i < self.entries.len()
            invariant
                0 <= i <= entries.len(),
                entries == self.entries@,
                entry_from(entries, name@, 0) == entry_from(entries, name@, i as int),
            decreases entries.len() - i,
        {
            if self.entries[i].name == *name {
                return match self.entries[i].address {
                    Some(a) => Some(a),
                    None => None,
                };
            }
            i += 1;
        }
        None
    }

    /// Demands the loaded address for `name`; fails with an error naming the
    /// function when the entry is absent or unresolved. This check happens on
    /// use, never at load time.
    pub fn require_address(&self, name: &String) -> (r: Result<u64, MissingFunctionError>)
        ensures
            self.spec_address(name@) matches Some(a) ==> (r matches Ok(got) && got == a),
            self.spec_address(name@) is None ==> (r matches Err(e) && e.function_name@ == name@),
    {
        match self.address_of(name) {
            Some(a) => Ok(a),
            None => Err(MissingFunctionError { function_name: name.clone() }),
        }
    }
}

/// Whether two resolvers hold the same answers.
pub open spec fn resolver_equiv(a: Resolver, b: Resolver) -> bool {
    &&& a.answers@.len() == b.answers@.len()
    &&& forall|i: int|
        0 <= i < a.answers@.len() ==> (#[trigger] a.answers@[i]).name@ == b.answers@[i].name@
            && a.answers@[i].address == b.answers@[i].address
}

/// Resolvers with the same answers give the same answer for every name.
pub proof fn lemma_resolver_equiv_same_answers(a: Resolver, b: Resolver, name: Seq<char>, i: int)
    requires
        resolver_equiv(a, b),
        0 <= i <= a.answers@.len(),
    ensures
        resolve_from(a.answers@, name, i) == resolve_from(b.answers@, name, i),
    decreases a.answers@.len() - i,
{
    if i < a.answers@.len() && a.answers@[i].name@ != name {
        lemma_resolver_equiv_same_answers(a, b, name, i + 1);
    }
}

impl Resolver {
    /// Copies the answer set entry by entry.
    pub fn duplicate(&self) -> (r: Resolver)
        ensures
            resolver_equiv(*self, r),
            forall|name: Seq<char>| #[trigger] r.spec_resolve(name) == self.spec_resolve(name),
    {
        let mut answers: Vec<ResolverEntry> = Vec::new();
        let mut i: usize = 0;
        while i < self.answers.len()
            invariant
                0 <= i <= self.answers@.len(),
                answers@.len() == i,
                forall|j: int|
                    0 <= j < i ==> (#[trigger] answers@[j]).name@ == self.answers@[j].name@
                        && answers@[j].address == self.answers@[j].address,
            decreases self.answers@.len() - i,
        {
            answers.push(
                ResolverEntry {
                    name: self.answers[i].name.clone(),
                    address: self.answers[i].address,
                },
            );
            i += 1;
        }
        let r = Resolver { answers };
        proof {
            assert forall|name: Seq<char>| #[trigger] r.spec_resolve(name) == self.spec_resolve(
                name,
            ) by {
                lemma_resolver_equiv_same_answers(*self, r, name, 0);
            }
        }
        r
    }
}

/// Whether two tables record exactly the same entries.
pub open spec fn table_equiv(a: FunctionPointerTable, b: FunctionPointerTable) -> bool {
    &&& a.entries@.len() == b.entries@.len()
    &&& forall|i: int|
        0 <= i < a.entries@.len() ==> (#[trigger] a.entries@[i]).name@ == b.entries@[i].name@
            && a.entries@[i].address == b.entries@[i].address
}

/// Tables with the same entries give the same record for every name.
pub proof fn lemma_table_equiv_same_entries(
    a: FunctionPointerTable,
    b: FunctionPointerTable,
    name: Seq<char>,
    i: int,
)
    requires
        table_equiv(a, b),
        0 <= i <= a.entries@.len(),
    ensures
        entry_from(a.entries@, name, i) == entry_from(b.entries@, name, i),
    decreases a.entries@.len() - i,
{
    if i < a.entries@.len() && a.entries@[i].name@ != name {
        lemma_table_equiv_same_entries(a, b, name, i + 1);
    }
}

impl FunctionPointerTable {
    /// Copies the table entry by entry: the copy answers every lookup
    /// exactly like the original, so handles over the table can be
    /// duplicated freely.
    pub fn duplicate(&self) -> (r: FunctionPointerTable)
        ensures
            table_equiv(*self, r),
            forall|name: Seq<char>| #[trigger] r.spec_entry(name) == self.spec_entry(name),
    {
        let mut entries: Vec<TableEntry> = Vec::new();
        let mut i: usize = 0;
        while i < self.entries.len()
            invariant
                0 <= i <= self.entries@.len(),
                entries@.len() == i,
                forall|j: int|
                    0 <= j < i ==> (#[trigger] entries@[j]).name@ == self.entries@[j].name@
                        && entries@[j].address == self.entries@[j].address,
            decreases self.entries@.len() - i,
        {
            let address = match self.entries[i].address {
                Some(a) => Some(a),
                None => None,
            };
            entries.push(TableEntry { name: self.entries[i].name.clone(), address });
            i += 1;
        }
        let r = FunctionPointerTable { entries };
        proof {
            assert forall|name: Seq<char>| #[trigger] r.spec_entry(name) == self.spec_entry(
                name,
            ) by {
                lemma_table_equiv_same_entries(*self, r, name, 0);
            }
        }
        r
    }
}

/// Helper for the loading laws: in a loaded table, the record for any declared
/// name is exactly the resolver's answer for it, and a name never declared has
/// no record.
proof fn lemma_entry_from_loaded(
    t: FunctionPointerTable,
    names: Seq<String>,
    resolver: Resolver,
    name: Seq<char>,
    i: int,
)
    requires
        is_loaded_from(t, names, resolver),
        0 <= i <= names.len(),
    ensures
        entry_from(t.entries@, name, i) == if exists|j: int|
            i <= j < names.len() && (#[trigger] names[j])@ == name {
            Some(resolver.spec_resolve(name))
        } else {
            None::<Option<u64>>
        },
    decreases names.len() - i,
{
    if i < names.len() {
        if t.entries@[i].name@ == name {
            assert(names[i]@ == name);
        } else {
            lemma_entry_from_loaded(t, names, resolver, name, i + 1);
            if exists|j: int| i <= j < names.len() && (#[trigger] names[j])@ == name {
                let j = choose|j: int| i <= j < names.len() && (#[trigger] names[j])@ == name;
                assert(j != i);
                assert(i + 1 <= j < names.len() && names[j]@ == name);
            }
        }
    }
}

/// In a loaded table, the record for any name is exactly the resolver's
/// answer when the name was declared, and absent when it never was: the
/// table neither invents addresses nor loses declared entries.
pub proof fn lemma_table_entry_faithful(
    t: FunctionPointerTable,
    names: Seq<String>,
    resolver: Resolver,
    name: Seq<char>,
)
    requires
        is_loaded_from(t, names, resolver),
    ensures
        t.spec_entry(name) == if exists|j: int|
            0 <= j < names.len() && (#[trigger] names[j])@ == name {
            Some(resolver.spec_resolve(name))
        } else {
            None::<Option<u64>>
        },
{
    lemma_entry_from_loaded(t, names, resolver, name, 0);
}

/// Every entry point the resolver answers is, after loading, recorded under
/// its declared name with exactly the resolver's address, ready to be called.
pub proof fn lemma_present_entry_point_is_loaded(
    t: FunctionPointerTable,
    names: Seq<String>,
    resolver: Resolver,
    i: int,
)
    requires
        is_loaded_from(t, names, resolver),
        0 <= i < names.len(),
        resolver.spec_resolve(names[i]@) is Some,
    ensures
        t.spec_address(names[i]@) == resolver.spec_resolve(names[i]@),
        t.is_loaded(names[i]@),
{
    lemma_entry_from_loaded(t, names, resolver, names[i]@, 0);
}

/// Every declared entry point the resolver does not answer still has a table
/// entry after loading — loading never fails — but that entry is unresolved,
/// so only an actual call on it can raise the missing-function error.
pub proof fn lemma_absent_entry_point_stays_unresolved(
    t: FunctionPointerTable,
    names: Seq<String>,
    resolver: Resolver,
    i: int,
)
    requires
        is_loaded_from(t, names, resolver),
        0 <= i < names.len(),
        resolver.spec_resolve(names[i]@) is None,
    ensures
        t.spec_entry(names[i]@) == Some(None::<u64>),
        !t.is_loaded(names[i]@),
{
    lemma_entry_from_loaded(t, names, resolver, names[i]@, 0);
}

} // verus!
