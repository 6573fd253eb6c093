//! Declaration extraction from a machine-generated native-declaration tree.
//!
//! The native header is translated by a binding generator into a tree of
//! namespaces holding static declarations. Every entry point of interest is
//! declared there as an optional function pointer: a `Option` path type whose
//! first generic argument is a bare function type. The extractor locates the
//! namespace that holds those declarations and turns each one into a
//! [`Declaration`]. Extraction is all-or-nothing: any declaration whose type
//! does not have the expected shape aborts the run with an error, because a
//! shape change in the native header must stop the build rather than produce
//! silently wrong bindings.

use vstd::prelude::*;

use crate::sig::FunctionSignature;

verus! {

/// A type expression as it appears in the machine-generated declaration tree:
/// either a named path type with generic arguments, or a bare function type.
#[derive(Debug)]
pub enum TypeExpr {
    /// A path type such as `Option<...>`, with its generic arguments.
    Path { name: String, args: Vec<TypeExpr> },
    /// A bare function type with the given signature.
    BareFunction(FunctionSignature),
}

/// One static declaration inside a namespace of the declaration tree.
#[derive(Debug)]
pub struct StaticDecl {
    /// The declared name; for an entry point this is the native function name.
    pub name: String,
    /// The declared type.
    pub ty: TypeExpr,
}

/// One namespace of the declaration tree.
#[derive(Debug)]
pub struct Namespace {
    /// The namespace name.
    pub name: String,
    /// The static declarations directly inside this namespace.
    pub statics: Vec<StaticDecl>,
}

/// The parsed declaration tree: a flat collection of namespaces.
#[derive(Debug)]
pub struct DeclTree {
    /// All namespaces of the tree.
    pub namespaces: Vec<Namespace>,
}

/// One extracted entry-point declaration: the native function name and its
/// signature.
#[derive(Debug)]
pub struct Declaration {
    /// The native entry-point name; unique across the whole table.
    pub name: String,
    /// The signature, mirrored exactly from the native header.
    pub signature: FunctionSignature,
}

/// Why extraction failed. Every failure is build-time fatal.
#[derive(Debug)]
pub enum ExtractError {
    /// The expected namespace is absent from the tree.
    NamespaceMissing,
    /// A static declaration's type is not an optional function pointer.
    UnexpectedTypeShape {
        /// Name of the offending static declaration.
        static_name: String,
    },
    /// A static declaration is an `Option` path with no generic arguments.
    EmptyGenericArguments {
        /// Name of the offending static declaration.
        static_name: String,
    },
}

/// Whether a type expression has the expected optional-function-pointer
/// shape: an `Option` path with at least one generic argument whose first
/// argument is a bare function type.
pub open spec fn is_entry_point_shape(t: TypeExpr) -> bool {
    match t {
        TypeExpr::Path { name, args } => name@ == "Option"@ && args@.len() > 0
            && args@[0] is BareFunction,
        TypeExpr::BareFunction(_) => false,
    }
}

/// The signature inside an optional-function-pointer type expression.
pub open spec fn shape_signature(t: TypeExpr) -> FunctionSignature
    recommends
        is_entry_point_shape(t),
{
    t->Path_args@[0]->BareFunction_0
}

/// Whether `d` is the declaration extracted from static `s`.
pub open spec fn decl_matches(d: Declaration, s: StaticDecl) -> bool {
    &&& d.name@ == s.name@
    &&& is_entry_point_shape(s.ty)
    &&& d.signature.params@ == shape_signature(s.ty).params@
    &&& d.signature.ret == shape_signature(s.ty).ret
}

/// Index of the first namespace named `name`, if any.
pub open spec fn find_namespace_from(namespaces: Seq<Namespace>, name: Seq<char>, i: int) -> Option<
    int,
>
    decreases namespaces.len() - i when 0 <= i <= namespaces.len()
{
    if i >= namespaces.len() {
        None
    } else if namespaces[i].name@ == name {
        Some(i)
    } else {
        find_namespace_from(namespaces, name, i + 1)
    }
}

/// Index of the first static declaration from `i` on whose type is not an
/// optional function pointer, if any.
pub open spec fn first_malformed_from(statics: Seq<StaticDecl>, i: int) -> Option<int>
    decreases statics.len() - i when 0 <= i <= statics.len()
{
    if i >= statics.len() {
        None
    } else if !is_entry_point_shape(statics[i].ty) {
        Some(i)
    } else {
        first_malformed_from(statics, i + 1)
    }
}

/// The error reported for one malformed static declaration: an `Option` path
/// with no generic arguments gets the dedicated empty-arguments error, any
/// other shape the generic one.
pub open spec fn shape_error_is_for(e: ExtractError, s: StaticDecl) -> bool {
    match s.ty {
        TypeExpr::Path { name, args } => {
            if name@ == "Option"@ && args@.len() == 0 {
                e matches ExtractError::EmptyGenericArguments { static_name }
                    && static_name@ == s.name@
            } else {
                e matches ExtractError::UnexpectedTypeShape { static_name } && static_name@
                    == s.name@
            }
        },
        TypeExpr::BareFunction(_) => e matches ExtractError::UnexpectedTypeShape { static_name }
            && static_name@ == s.name@,
    }
}

/// Turns one static declaration into a [`Declaration`], or reports exactly why
/// its type does not have the optional-function-pointer shape.
pub fn classify_static(s: &StaticDecl) -> (r: Result<Declaration, ExtractError>)
    ensures
        is_entry_point_shape(s.ty) ==> (r matches Ok(d) && decl_matches(d, *s)),
        !is_entry_point_shape(s.ty) ==> (r matches Err(e) && shape_error_is_for(e, *s)),
{
    match &s.ty {
        TypeExpr::Path { name, args } => {
            let option_name: String = "Option".to_owned();
            if *name == option_name {
                if args.len() == 0 {
                    return Err(
                        ExtractError::EmptyGenericArguments { static_name: s.name.clone() },
                    );
                }
                match &args[0] {
                    TypeExpr::BareFunction(signature) => {
                        let sig = FunctionSignature {
                            params: copy_params(&signature.params),
                            ret: signature.ret,
                        };
                        Ok(Declaration { name: s.name.clone(), signature: sig })
                    },
                    _ => Err(ExtractError::UnexpectedTypeShape { static_name: s.name.clone() }),
                }
            } else {
                Err(ExtractError::UnexpectedTypeShape { static_name: s.name.clone() })
            }
        },
        TypeExpr::BareFunction(_) => {
            Err(ExtractError::UnexpectedTypeShape { static_name: s.name.clone() })
        },
    }
}

/// Copies a parameter-type list element by element.
fn copy_params(params: &Vec<crate::sig::ParamType>) -> (r: Vec<crate::sig::ParamType>)
    ensures
        r@ == params@,
{
    let mut r: Vec<crate::sig::ParamType> = Vec::new();
    let mut i: usize = 0;
    while i < params.len()
        invariant
            0 <= i <= params@.len(),
            r@ == params@.subrange(0, i as int),
        decreases params@.len() - i,
    {
        r.push(params[i]);
        i += 1;
    }
    proof {
        assert(r@ == params@.subrange(0, params@.len() as int));
        assert(params@.subrange(0, params@.len() as int) == params@);
    }
    r
}

/// Extraction keeps names: declarations extracted from statics with
/// pairwise distinct names (which the declaration tree guarantees) have
/// pairwise distinct names themselves, one per static.
pub proof fn lemma_extracted_names_distinct(decls: Seq<Declaration>, statics: Seq<StaticDecl>)
    requires
        decls.len() == statics.len(),
        forall|j: int| 0 <= j < statics.len() ==> decl_matches(#[trigger] decls[j], statics[j]),
        forall|i: int, j: int|
            0 <= i < statics.len() && 0 <= j < statics.len() && i != j ==> statics[i].name@
                != statics[j].name@,
    ensures
        forall|i: int, j: int|
            0 <= i < decls.len() && 0 <= j < decls.len() && i != j ==> (#[trigger] decls[i]).name@
                != (#[trigger] decls[j]).name@,
{
}

/// Extracts every entry-point declaration from the namespace named
/// `namespace_name` of the given tree.
///
/// Succeeds exactly when that namespace exists and every static declaration in
/// it is an optional function pointer; the result then holds one declaration
/// per static, in order. Otherwise the first problem found is reported and
/// nothing is extracted.
pub fn extract_declarations(tree: &DeclTree, namespace_name: &String) -> (r: Result<
    Vec<Declaration>,
    ExtractError,
>)
    ensures
        find_namespace_from(tree.namespaces@, namespace_name@, 0) matches Some(ns) ==> {
            let statics = tree.namespaces@[ns].statics@;
            match first_malformed_from(statics, 0) {
                Some(bad) => r matches Err(e) && shape_error_is_for(e, statics[bad]),
                None => r matches Ok(decls) && decls@.len() == statics.len() && (forall|j: int|
                    0 <= j < statics.len() ==> decl_matches(#[trigger] decls@[j], statics[j])),
            }
        },
        find_namespace_from(tree.namespaces@, namespace_name@, 0) is None ==> (r matches Err(e)
            && e is NamespaceMissing),
{
    let ghost all = tree.namespaces@;
    let mut i: usize = 0;
    while i < tree.namespaces.len()
        invariant
            0 <= i <= all.len(),
            all == tree.namespaces@,
            forall|k: int| 0 <= k < i ==> all[k].name@ != namespace_name@,
            find_namespace_from(all, namespace_name@, 0) == find_namespace_from(
                all,
                namespace_name@,
                i as int,
            ),
        decreases all.len() - i,
    {
        if tree.namespaces[i].name == *namespace_name {
            proof {
                assert(find_namespace_from(all, namespace_name@, i as int) == Some(i as int));
            }
            return extract_from_namespace(&tree.namespaces[i]);
        }
        proof {
            assert(find_namespace_from(all, namespace_name@, i as int) == find_namespace_from(
                all,
                namespace_name@,
                i as int + 1,
            ));
        }
        i += 1;
    }
    Err(ExtractError::NamespaceMissing)
}

/// Extracts the declarations of one namespace, all-or-nothing.
fn extract_from_namespace(ns: &Namespace) -> (r: Result<Vec<Declaration>, ExtractError>)
    ensures
        match first_malformed_from(ns.statics@, 0) {
            Some(bad) => r matches Err(e) && shape_error_is_for(e, ns.statics@[bad]),
            None => r matches Ok(decls) && decls@.len() == ns.statics@.len() && (forall|j: int|
                0 <= j < ns.statics@.len() ==> decl_matches(#[trigger] decls@[j], ns.statics@[j])),
        },
{
    let ghost statics = ns.statics@;
    let mut decls: Vec<Declaration> = Vec::new();
    let mut i: usize = 0;
    while i < ns.statics.len()
        invariant
            0 <= i <= statics.len(),
            statics == ns.statics@,
            decls@.len() == i,
            forall|j: int| 0 <= j < i ==> decl_matches(#[trigger] decls@[j], statics[j]),
            forall|j: int| 0 <= j < i ==> is_entry_point_shape(#[trigger] statics[j].ty),
            first_malformed_from(statics, 0) == first_malformed_from(statics, i as int),
        decreases statics.len() - i,
    {
        match classify_static(&ns.statics[i]) {
            Ok(d) => {
                proof {
                    assert(first_malformed_from(statics, i as int) == first_malformed_from(
                        statics,
                        i as int + 1,
                    ));
                }
                decls.push(d);
            },
            Err(e) => {
                proof {
                    assert(first_malformed_from(statics, i as int) == Some(i as int));
                }
                return Err(e);
            },
        }
        i += 1;
    }
    Ok(decls)
}

} // verus!
