use getter_derive::config::{ArgKey, ArgValue, ConfigRequest, Conflict, GetterError, RawArg, ShapeKind};
use getter_derive::derive::{
    simple_derive, FieldDesc, FieldsDesc, GeneratedMethod, ItemDesc, ItemShape,
};
use getter_derive::getter::{GetterDerive, GetterMethod};
use getter_derive::text::decimal;

fn flag(name: &str) -> RawArg {
    RawArg { name: name.to_string(), value: ArgValue::Flag }
}

fn valued(name: &str, v: &str) -> RawArg {
    RawArg { name: name.to_string(), value: ArgValue::Str(v.to_string()) }
}

fn field(name: &str, attrs: Vec<RawArg>) -> FieldDesc {
    FieldDesc { name: Some(name.to_string()), doc: None, attrs }
}

fn record(name: &str, attrs: Vec<RawArg>, fields: Vec<FieldDesc>) -> ItemDesc {
    ItemDesc { name: name.to_string(), attrs, shape: ItemShape::Struct(FieldsDesc::Named(fields)) }
}

fn point(x_attrs: Vec<RawArg>, y_attrs: Vec<RawArg>, type_attrs: Vec<RawArg>) -> ItemDesc {
    record("Point", type_attrs, vec![field("x", x_attrs), field("y", y_attrs)])
}

fn names(ms: &[GeneratedMethod]) -> Vec<String> {
    ms.iter().map(|m| m.name.clone()).collect()
}

#[test]
fn simple_driver_borrows_each_field() {
    let ms = simple_derive(&point(vec![], vec![], vec![])).unwrap();
    assert_eq!(names(&ms), vec!["x".to_string(), "y".to_string()]);
    for (i, m) in ms.iter().enumerate() {
        assert_eq!(m.method, GetterMethod::AsRef);
        assert_eq!(m.method.ret_prefix(), "&");
        assert_eq!(m.method.mut_prefix(), "");
        assert_eq!(m.field_index, i);
    }
    assert_eq!(ms[0].docs, vec!["Method borrowing [`Point::x`] field.\n".to_string()]);
}

#[test]
fn simple_driver_keeps_field_doc() {
    let mut f = field("x", vec![]);
    f.doc = Some(" The abscissa".to_string());
    let ms = simple_derive(&record("Point", vec![], vec![f])).unwrap();
    assert_eq!(ms[0].docs, vec![" The abscissa".to_string()]);
}

#[test]
fn simple_driver_rejects_shapes() {
    let mut item = point(vec![], vec![], vec![]);
    item.shape = ItemShape::Union;
    assert!(matches!(simple_derive(&item), Err(GetterError::UnsupportedShape(ShapeKind::Union))));
    item.shape = ItemShape::Enum;
    assert!(matches!(simple_derive(&item), Err(GetterError::UnsupportedShape(ShapeKind::Enum))));
    item.shape = ItemShape::Struct(FieldsDesc::Unnamed);
    assert!(matches!(
        simple_derive(&item),
        Err(GetterError::UnsupportedShape(ShapeKind::TupleStruct))
    ));
}

#[test]
fn copy_field_and_default_borrow() {
    let ms = getter_derive::derive::derive(&point(vec![flag("as_copy")], vec![], vec![])).unwrap();
    assert_eq!(names(&ms), vec!["x".to_string(), "y_ref".to_string()]);
    assert_eq!(ms[0].method, GetterMethod::Main { copy: true });
    assert_eq!(ms[0].method.ret_prefix(), "");
    assert_eq!(ms[0].method.ret_suffix(), "");
    assert_eq!(ms[1].method, GetterMethod::AsRef);
    assert_eq!(ms[1].method.ret_prefix(), "&");
    assert_eq!(ms[0].field_index, 0);
    assert_eq!(ms[1].field_index, 1);
}

#[test]
fn unannotated_record_borrows_with_ref_suffix() {
    let ms = getter_derive::derive::derive(&point(vec![], vec![], vec![])).unwrap();
    assert_eq!(names(&ms), vec!["x_ref".to_string(), "y_ref".to_string()]);
    assert!(ms.iter().all(|m| m.method == GetterMethod::AsRef));
}

#[test]
fn all_on_type_with_skipped_field() {
    let ms = getter_derive::derive::derive(&point(vec![], vec![flag("skip")], vec![flag("all")])).unwrap();
    assert_eq!(names(&ms), vec!["x".to_string(), "x_ref".to_string(), "x_mut".to_string()]);
    assert_eq!(ms[0].method, GetterMethod::Main { copy: false });
    assert_eq!(ms[0].method.ret_suffix(), ".clone()");
    assert_eq!(ms[1].method, GetterMethod::AsRef);
    assert_eq!(ms[2].method, GetterMethod::AsMut);
    assert_eq!(ms[2].method.mut_prefix(), "mut");
    assert_eq!(ms[2].method.ret_prefix(), "&mut");
    assert!(ms.iter().all(|m| m.field_index == 0));
}

#[test]
fn copy_and_clone_conflict() {
    let r = getter_derive::derive::derive(&point(vec![flag("as_copy"), flag("as_clone")], vec![], vec![]));
    assert!(matches!(r, Err(GetterError::ConflictingOptions(Conflict::CopyAndClone))));
}

#[test]
fn union_is_rejected() {
    let mut item = point(vec![], vec![], vec![]);
    item.shape = ItemShape::Union;
    assert!(matches!(getter_derive::derive::derive(&item), Err(GetterError::UnsupportedShape(ShapeKind::Union))));
}

#[test]
fn enum_tuple_and_unit_are_rejected() {
    let mut item = point(vec![], vec![], vec![]);
    item.shape = ItemShape::Enum;
    assert!(matches!(getter_derive::derive::derive(&item), Err(GetterError::UnsupportedShape(ShapeKind::Enum))));
    item.shape = ItemShape::Struct(FieldsDesc::Unnamed);
    assert!(matches!(getter_derive::derive::derive(&item), Err(GetterError::UnsupportedShape(ShapeKind::TupleStruct))));
    item.shape = ItemShape::Struct(FieldsDesc::Unit);
    assert!(matches!(getter_derive::derive::derive(&item), Err(GetterError::UnsupportedShape(ShapeKind::UnitStruct))));
}

#[test]
fn empty_named_record_gives_nothing() {
    let ms = getter_derive::derive::derive(&record("Empty", vec![], vec![])).unwrap();
    assert!(ms.is_empty());
}

#[test]
fn all_with_explicit_style_conflicts() {
    for style in ["as_copy", "as_clone", "as_ref", "as_mut"] {
        let r = getter_derive::derive::derive(&point(vec![flag("all"), flag(style)], vec![], vec![]));
        assert!(matches!(r, Err(GetterError::ConflictingOptions(Conflict::AllWithExplicit))));
    }
}

#[test]
fn skip_on_type_is_prohibited() {
    let r = getter_derive::derive::derive(&point(vec![], vec![], vec![flag("skip")]));
    assert!(matches!(r, Err(GetterError::ProhibitedArgument(ArgKey::Skip))));
    let r = getter_derive::derive::derive(&point(vec![], vec![], vec![valued("base_name", "b")]));
    assert!(matches!(r, Err(GetterError::ProhibitedArgument(ArgKey::BaseName))));
}

#[test]
fn skip_overrides_other_styles() {
    let ms = getter_derive::derive::derive(&point(vec![flag("skip"), flag("as_mut")], vec![flag("skip")], vec![])).unwrap();
    assert!(ms.is_empty());
}

#[test]
fn unknown_and_duplicate_arguments() {
    let r = getter_derive::derive::derive(&point(vec![flag("as_owned")], vec![], vec![]));
    match r {
        Err(GetterError::UnknownArgument(n)) => assert_eq!(n, "as_owned"),
        _ => panic!("expected an unknown argument"),
    }
    let r = getter_derive::derive::derive(&point(vec![flag("as_ref"), valued("as_ref", "_r")], vec![], vec![]));
    assert!(matches!(r, Err(GetterError::DuplicateArgument(ArgKey::AsRef))));
}

#[test]
fn wrong_value_classes() {
    let r = getter_derive::derive::derive(&point(vec![valued("all", "x")], vec![], vec![]));
    assert!(matches!(r, Err(GetterError::WrongValueClass(ArgKey::All))));
    let r = getter_derive::derive::derive(&point(vec![flag("base_name")], vec![], vec![]));
    assert!(matches!(r, Err(GetterError::WrongValueClass(ArgKey::BaseName))));
    let r = getter_derive::derive::derive(&point(vec![valued("skip", "yes")], vec![], vec![]));
    assert!(matches!(r, Err(GetterError::WrongValueClass(ArgKey::Skip))));
}

#[test]
fn prefix_base_and_suffix_compose() {
    let ms = getter_derive::derive::derive(&point(
        vec![valued("base_name", "abscissa"), valued("as_ref", "_view"), flag("as_mut")],
        vec![valued("prefix", "own_"), valued("as_clone", "_cloned")],
        vec![valued("prefix", "get_")],
    ))
    .unwrap();
    assert_eq!(
        names(&ms),
        vec![
            "get_abscissa_view".to_string(),
            "get_abscissa_mut".to_string(),
            "own_y_cloned".to_string(),
        ]
    );
}

#[test]
fn field_options_override_type_options() {
    let ms = getter_derive::derive::derive(&point(vec![valued("as_ref", "_peek")], vec![], vec![flag("as_mut")])).unwrap();
    assert_eq!(
        names(&ms),
        vec!["x_peek".to_string(), "x_mut".to_string(), "y_mut".to_string()]
    );
}

#[test]
fn unnamed_field_needs_base_name() {
    let f = FieldDesc { name: None, doc: None, attrs: vec![] };
    let r = getter_derive::derive::derive(&record("Pair", vec![], vec![f]));
    assert!(matches!(r, Err(GetterError::MissingBaseName)));
    let f = FieldDesc { name: None, doc: None, attrs: vec![valued("base_name", "first")] };
    let ms = getter_derive::derive::derive(&record("Pair", vec![], vec![f])).unwrap();
    assert_eq!(names(&ms), vec!["first_ref".to_string()]);
    assert_eq!(ms[0].docs, vec!["Method borrowing [`Pair::0`] field.\n".to_string()]);
}

#[test]
fn docs_name_the_field_and_append_its_doc() {
    let mut f = field("x", vec![flag("as_copy"), flag("as_mut")]);
    f.doc = Some(" The abscissa".to_string());
    let ms = getter_derive::derive::derive(&record("Point", vec![], vec![f])).unwrap();
    assert_eq!(
        ms[0].docs,
        vec!["Method returning copy of [`Point::x`] field.\n".to_string(), " The abscissa".to_string()]
    );
    assert_eq!(ms[1].docs[0], "Method returning mutable borrow of [`Point::x`] field.\n");
}

#[test]
fn doc_phrases() {
    assert_eq!(GetterMethod::Main { copy: true }.doc_phrase(), "returning copy of");
    assert_eq!(GetterMethod::Main { copy: false }.doc_phrase(), "cloning");
    assert_eq!(GetterMethod::AsRef.doc_phrase(), "borrowing");
    assert_eq!(GetterMethod::AsMut.doc_phrase(), "returning mutable borrow of");
}

#[test]
fn doc_of_positional_field_uses_index() {
    let g = GetterDerive::try_from(&ConfigRequest::new(), false).unwrap();
    let docs = g.getter_fn_doc(GetterMethod::AsRef, &"T".to_string(), None, 12, None);
    assert_eq!(docs, vec!["Method borrowing [`T::12`] field.\n".to_string()]);
}

#[test]
fn decimal_digits() {
    assert_eq!(decimal(0), "0");
    assert_eq!(decimal(7), "7");
    assert_eq!(decimal(10), "10");
    assert_eq!(decimal(4096), "4096");
    assert_eq!(decimal(usize::MAX), usize::MAX.to_string());
}

#[test]
fn all_methods_order() {
    let mut req = ConfigRequest::new();
    req.set(ArgKey::AsMut, Some(ArgValue::Flag));
    req.set(ArgKey::AsCopy, Some(ArgValue::Flag));
    req.set(ArgKey::AsRef, Some(ArgValue::Flag));
    let g = GetterDerive::try_from(&req, true).unwrap();
    assert_eq!(
        g.all_methods(),
        vec![GetterMethod::Main { copy: true }, GetterMethod::AsRef, GetterMethod::AsMut]
    );
}

#[test]
fn getter_fn_ident_composes() {
    let mut req = ConfigRequest::new();
    req.set(ArgKey::Prefix, Some(ArgValue::Str("p_".to_string())));
    let g = GetterDerive::try_from(&req, true).unwrap();
    let n = g.getter_fn_ident(GetterMethod::AsRef, Some(&"val".to_string())).unwrap();
    assert_eq!(n, "p_val_ref");
    assert!(matches!(g.getter_fn_ident(GetterMethod::AsRef, None), Err(GetterError::MissingBaseName)));
}

#[test]
fn merge_prefers_local() {
    let mut base = ConfigRequest::new();
    base.set(ArgKey::Prefix, Some(ArgValue::Str("a".to_string())));
    base.set(ArgKey::AsMut, Some(ArgValue::Flag));
    let mut over = ConfigRequest::new();
    over.set(ArgKey::Prefix, Some(ArgValue::Str("b".to_string())));
    let m = base.merged(&over);
    assert!(matches!(&m.prefix, Some(ArgValue::Str(s)) if s == "b"));
    assert!(matches!(m.as_mut, Some(ArgValue::Flag)));
    assert!(m.as_ref.is_none());
}

#[test]
fn error_messages() {
    let mut item = point(vec![], vec![], vec![]);
    item.shape = ItemShape::Union;
    let e = getter_derive::derive::derive(&item).unwrap_err();
    assert_eq!(e.message(), "Deriving getters is not supported in unions");
    assert_eq!(
        GetterError::UnknownArgument("as_owned".to_string()).message(),
        "Attribute `getter` has an unknown argument `as_owned`"
    );
    assert_eq!(
        GetterError::DuplicateArgument(ArgKey::AsRef).message(),
        "Argument `as_ref` of attribute `getter` is given more than once"
    );
    assert_eq!(
        GetterError::ProhibitedArgument(ArgKey::Skip).message(),
        "Argument `skip` of attribute `getter` is not allowed here"
    );
    assert_eq!(
        GetterError::ConflictingOptions(Conflict::CopyAndClone).message(),
        "`as_clone` and `as_copy` attributes can't be present together"
    );
}

#[test]
fn every_key_is_recognized_by_name() {
    let keys = [
        ArgKey::Prefix,
        ArgKey::All,
        ArgKey::AsCopy,
        ArgKey::AsClone,
        ArgKey::AsRef,
        ArgKey::AsMut,
        ArgKey::Skip,
        ArgKey::BaseName,
    ];
    for k in keys {
        let req = ConfigRequest::parse(&vec![flag(k.name())]).unwrap();
        assert!(req.contains_key(k));
        for other in keys {
            assert_eq!(req.contains_key(other), other == k);
        }
    }
}

#[test]
fn copy_and_clone_conflict_on_type() {
    let r = getter_derive::derive::derive(&point(vec![], vec![], vec![flag("as_copy"), flag("as_clone")]));
    assert!(matches!(r, Err(GetterError::ConflictingOptions(Conflict::CopyAndClone))));
    let r = getter_derive::derive::derive(&point(vec![flag("as_clone")], vec![], vec![flag("as_copy")]));
    assert!(matches!(r, Err(GetterError::ConflictingOptions(Conflict::CopyAndClone))));
}

#[test]
fn bare_keys_take_defaults() {
    let req = ConfigRequest::parse(&vec![flag("as_ref"), flag("as_mut"), flag("prefix")]).unwrap();
    let checked = req.checked(false).unwrap();
    assert!(matches!(&checked.as_ref, Some(ArgValue::Str(s)) if s == "_ref"));
    assert!(matches!(&checked.as_mut, Some(ArgValue::Str(s)) if s == "_mut"));
    assert!(matches!(&checked.prefix, Some(ArgValue::Str(s)) if s.is_empty()));
}
