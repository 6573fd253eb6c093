use reaper_rs::decl::{
    extract_declarations, DeclTree, ExtractError, Namespace, StaticDecl, TypeExpr,
};
use reaper_rs::sig::{FunctionSignature, ParamType};

fn opt_fn_ptr(params: Vec<ParamType>, ret: ParamType) -> TypeExpr {
    TypeExpr::Path {
        name: "Option".to_string(),
        args: vec![TypeExpr::BareFunction(FunctionSignature { params, ret })],
    }
}

fn tree_with(statics: Vec<StaticDecl>) -> DeclTree {
    DeclTree {
        namespaces: vec![
            Namespace {
                name: "root".to_string(),
                statics: vec![],
            },
            Namespace {
                name: "reaper_functions".to_string(),
                statics,
            },
        ],
    }
}

#[test]
fn extracts_one_declaration_per_static_in_order() {
    let tree = tree_with(vec![
        StaticDecl {
            name: "CountTracks".to_string(),
            ty: opt_fn_ptr(vec![ParamType::ObjectPtr], ParamType::Int),
        },
        StaticDecl {
            name: "ClearConsole".to_string(),
            ty: opt_fn_ptr(vec![], ParamType::Void),
        },
        StaticDecl {
            name: "GetMainHwnd".to_string(),
            ty: opt_fn_ptr(vec![], ParamType::ObjectPtr),
        },
    ]);
    let decls = extract_declarations(&tree, &"reaper_functions".to_string()).unwrap();
    assert_eq!(decls.len(), 3);
    assert_eq!(decls[0].name, "CountTracks");
    assert_eq!(decls[1].name, "ClearConsole");
    assert_eq!(decls[2].name, "GetMainHwnd");
    assert_eq!(decls[0].signature.params, vec![ParamType::ObjectPtr]);
    assert_eq!(decls[0].signature.ret, ParamType::Int);
    assert_eq!(decls[1].signature.params, vec![]);
}

#[test]
fn extraction_names_are_pairwise_distinct_for_a_valid_tree() {
    let tree = tree_with(vec![
        StaticDecl {
            name: "EnumProjects".to_string(),
            ty: opt_fn_ptr(vec![ParamType::Int, ParamType::CharPtr, ParamType::Int], ParamType::ObjectPtr),
        },
        StaticDecl {
            name: "DeleteTrack".to_string(),
            ty: opt_fn_ptr(vec![ParamType::ObjectPtr], ParamType::Void),
        },
    ]);
    let decls = extract_declarations(&tree, &"reaper_functions".to_string()).unwrap();
    for i in 0..decls.len() {
        for j in 0..decls.len() {
            if i != j {
                assert_ne!(decls[i].name, decls[j].name);
            }
        }
    }
}

#[test]
fn missing_namespace_is_fatal() {
    let tree = tree_with(vec![]);
    let err = extract_declarations(&tree, &"no_such_namespace".to_string()).unwrap_err();
    assert!(matches!(err, ExtractError::NamespaceMissing));
}

#[test]
fn option_without_generic_arguments_is_fatal_and_names_the_static() {
    let tree = tree_with(vec![
        StaticDecl {
            name: "Fine".to_string(),
            ty: opt_fn_ptr(vec![], ParamType::Void),
        },
        StaticDecl {
            name: "Broken".to_string(),
            ty: TypeExpr::Path {
                name: "Option".to_string(),
                args: vec![],
            },
        },
    ]);
    let err = extract_declarations(&tree, &"reaper_functions".to_string()).unwrap_err();
    match err {
        ExtractError::EmptyGenericArguments { static_name } => {
            assert_eq!(static_name, "Broken");
        }
        other => panic!("wrong error: {:?}", other),
    }
}

#[test]
fn non_optional_type_is_fatal_and_names_the_static() {
    let tree = tree_with(vec![StaticDecl {
        name: "NotAPointer".to_string(),
        ty: TypeExpr::Path {
            name: "i32".to_string(),
            args: vec![],
        },
    }]);
    let err = extract_declarations(&tree, &"reaper_functions".to_string()).unwrap_err();
    match err {
        ExtractError::UnexpectedTypeShape { static_name } => {
            assert_eq!(static_name, "NotAPointer");
        }
        other => panic!("wrong error: {:?}", other),
    }
}

#[test]
fn option_of_non_function_is_fatal() {
    let tree = tree_with(vec![StaticDecl {
        name: "OptionOfInt".to_string(),
        ty: TypeExpr::Path {
            name: "Option".to_string(),
            args: vec![TypeExpr::Path {
                name: "i32".to_string(),
                args: vec![],
            }],
        },
    }]);
    let err = extract_declarations(&tree, &"reaper_functions".to_string()).unwrap_err();
    assert!(matches!(err, ExtractError::UnexpectedTypeShape { .. }));
}

#[test]
fn extraction_is_all_or_nothing() {
    // The first malformed static aborts the run even when later ones are fine.
    let tree = tree_with(vec![
        StaticDecl {
            name: "Bad".to_string(),
            ty: TypeExpr::BareFunction(FunctionSignature {
                params: vec![],
                ret: ParamType::Void,
            }),
        },
        StaticDecl {
            name: "Good".to_string(),
            ty: opt_fn_ptr(vec![], ParamType::Void),
        },
    ]);
    let err = extract_declarations(&tree, &"reaper_functions".to_string()).unwrap_err();
    match err {
        ExtractError::UnexpectedTypeShape { static_name } => assert_eq!(static_name, "Bad"),
        other => panic!("wrong error: {:?}", other),
    }
}
