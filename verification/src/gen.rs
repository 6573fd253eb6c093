//! The binding generator.
//!
//! From the ordered list of extracted declarations the generator derives a
//! description of the binding artifact: one optional-function-pointer table
//! field per declaration, one accessor per declaration (marked as requiring an
//! unsafe acknowledgment exactly when its signature has raw-memory
//! parameters), and the ordered list of names the loader resolves. Keeping all
//! three derived from the same declaration list is what guarantees the typed
//! surface never drifts from the native declaration set.

use vstd::prelude::*;

use crate::decl::Declaration;

verus! {

/// One generated table field: an optional function pointer, `None` until the
/// loader resolves it.
#[derive(Debug)]
pub struct TableField {
    /// Field name; equal to the native entry-point name.
    pub name: String,
}

/// One generated accessor method.
#[derive(Debug)]
pub struct AccessorSpec {
    /// Accessor name; equal to the native entry-point name.
    pub name: String,
    /// Whether callers must acknowledge a raw-memory precondition. This is a
    /// pure function of the declaration's parameter types: it holds exactly
    /// when some parameter is a raw pointer.
    pub requires_unsafe_ack: bool,
}

/// The generated binding artifact: the table layout, the accessors and the
/// loader's resolution list, all derived from one declaration list.
#[derive(Debug)]
pub struct GeneratedBinding {
    /// One field per declaration, in declaration order.
    pub fields: Vec<TableField>,
    /// One accessor per declaration, in declaration order.
    pub accessors: Vec<AccessorSpec>,
    /// The names the loader resolves, in declaration order.
    pub loader_names: Vec<String>,
}

/// Whether `b` is the binding generated from `decls`.
pub open spec fn is_generated_from(b: GeneratedBinding, decls: Seq<Declaration>) -> bool {
    &&& b.fields@.len() == decls.len()
    &&& forall|i: int| 0 <= i < decls.len() ==> (#[trigger] b.fields@[i]).name@ == decls[i].name@
    &&& b.accessors@.len() == decls.len()
    &&& forall|i: int|
        0 <= i < decls.len() ==> (#[trigger] b.accessors@[i]).name@ == decls[i].name@
    &&& forall|i: int|
        0 <= i < decls.len() ==> (#[trigger] b.accessors@[i]).requires_unsafe_ack
            == decls[i].signature.spec_has_raw_memory_params()
    &&& b.loader_names@.len() == decls.len()
    &&& forall|i: int| 0 <= i < decls.len() ==> (#[trigger] b.loader_names@[i])@ == decls[i].name@
}

/// Generates the binding artifact for the given declarations: table fields,
/// accessors and the loader list, one entry per declaration, in order.
pub fn generate_binding(decls: &Vec<Declaration>) -> (b: GeneratedBinding)
    ensures
        is_generated_from(b, decls@),
{
    let mut fields: Vec<TableField> = Vec::new();
    let mut accessors: Vec<AccessorSpec> = Vec::new();
    let mut loader_names: Vec<String> = Vec::new();
    let mut i: usize = 0;
    while i < decls.len()
        invariant
            0 <= i <= decls@.len(),
            fields@.len() == i,
            accessors@.len() == i,
            loader_names@.len() == i,
            forall|j: int| 0 <= j < i ==> (#[trigger] fields@[j]).name@ == decls@[j].name@,
            forall|j: int| 0 <= j < i ==> (#[trigger] accessors@[j]).name@ == decls@[j].name@,
            forall|j: int|
                0 <= j < i ==> (#[trigger] accessors@[j]).requires_unsafe_ack
                    == decls@[j].signature.spec_has_raw_memory_params(),
            forall|j: int| 0 <= j < i ==> (#[trigger] loader_names@[j])@ == decls@[j].name@,
        decreases decls@.len() - i,
    {
        let d = &decls[i];
        fields.push(TableField { name: d.name.clone() });
        accessors.push(
            AccessorSpec {
                name: d.name.clone(),
                requires_unsafe_ack: d.signature.has_raw_memory_params(),
            },
        );
        loader_names.push(d.name.clone());
        i += 1;
    }
    GeneratedBinding { fields, accessors, loader_names }
}

/// The generated table has exactly one field per declaration, and when the
/// declaration names are pairwise distinct (as the declaration tree
/// guarantees), so are the field names.
pub proof fn lemma_one_field_per_declaration(b: GeneratedBinding, decls: Seq<Declaration>)
    requires
        is_generated_from(b, decls),
        forall|i: int, j: int|
            0 <= i < decls.len() && 0 <= j < decls.len() && i != j ==> decls[i].name@
                != decls[j].name@,
    ensures
        b.fields@.len() == decls.len(),
        forall|i: int, j: int|
            0 <= i < b.fields@.len() && 0 <= j < b.fields@.len() && i != j
                ==> (#[trigger] b.fields@[i]).name@ != (#[trigger] b.fields@[j]).name@,
{
}

/// Loading the generated loader list produces a table with exactly one
/// entry per declaration, under the declaration's name, holding exactly the
/// resolver's answer for that name.
pub proof fn lemma_loader_covers_declarations(
    b: GeneratedBinding,
    decls: Seq<Declaration>,
    t: crate::table::FunctionPointerTable,
    resolver: crate::table::Resolver,
)
    requires
        is_generated_from(b, decls),
        crate::table::is_loaded_from(t, b.loader_names@, resolver),
    ensures
        t.entries@.len() == decls.len(),
        forall|i: int|
            0 <= i < decls.len() ==> (#[trigger] t.entries@[i]).name@ == decls[i].name@,
        forall|i: int|
            0 <= i < decls.len() ==> (#[trigger] t.entries@[i]).address == resolver.spec_resolve(
                decls[i].name@,
            ),
{
}

/// An accessor carries the unsafe-acknowledgment requirement exactly when its
/// declaration's signature has a raw-memory parameter; the classification
/// depends on the parameter types alone.
pub proof fn lemma_unsafe_marking_follows_signature(
    b: GeneratedBinding,
    decls: Seq<Declaration>,
    i: int,
)
    requires
        is_generated_from(b, decls),
        0 <= i < decls.len(),
    ensures
        b.accessors@[i].requires_unsafe_ack <==> exists|k: int|
            0 <= k < decls[i].signature.params@.len()
                && (#[trigger] decls[i].signature.params@[k]).spec_is_raw_memory(),
{
}

} // verus!
