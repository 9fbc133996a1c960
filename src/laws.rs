//! What holds of every configuration and every record.

use vstd::prelude::*;
use crate::config::{
    check_arg_spec, check_from, check_spec, key_at, key_name_spec, key_of, merged_spec,
    parse_spec, raw_view, requirement_spec, ArgKey, ArgReqView, Conflict, ErrView, ReqView,
    NUM_KEYS,
};
use crate::getter::{
    all_methods_spec, docs_spec, expand_all_spec, normalized_spec, resolve_spec, suffix_of,
    try_from_spec, GetterMethod, GetterView,
};
use crate::derive::{
    accessors_spec, base_of, derive_spec, field_methods_spec, fields_methods_spec, fields_view,
    simple_derive_spec, FieldDesc, FieldView, FieldsDesc, ItemDesc, ItemShape, MethodView,
};

verus! {

/// Checking never adds nor removes a key.
proof fn lemma_check_keeps_keys(r: ReqView, global: bool, i: nat)
    requires
        check_from(r, global, i) is Ok,
    ensures
        forall|k: ArgKey| (#[trigger] check_from(r, global, i)->Ok_0.get(k)) is Some <==> r.get(k) is Some,
    decreases NUM_KEYS - i,
{
    if i < NUM_KEYS {
        let k0 = key_at(i as int);
        let v = check_arg_spec(k0, r.get(k0), requirement_spec(k0, global))->Ok_0;
        let r1 = r.set(k0, v);
        lemma_check_keeps_keys(r1, global, i + 1);
        assert forall|k: ArgKey| (#[trigger] r1.get(k)) is Some <==> r.get(k) is Some by {
            if k == k0 {
            } else {
            }
        }
    }
}

/// A key that the schema prohibits fails the check.
proof fn lemma_check_rejects_prohibited(r: ReqView, global: bool, i: nat, j: int)
    requires
        i <= j < NUM_KEYS,
        r.get(key_at(j)) is Some,
        requirement_spec(key_at(j), global) == ArgReqView::Prohibited,
    ensures
        check_from(r, global, i) is Err,
    decreases j - i,
{
    let k0 = key_at(i as int);
    if i < j {
        match check_arg_spec(k0, r.get(k0), requirement_spec(k0, global)) {
            Err(_) => {},
            Ok(v) => {
                assert(r.set(k0, v).get(key_at(j)) == r.get(key_at(j)));
                lemma_check_rejects_prohibited(r.set(k0, v), global, i + 1, j);
            },
        }
    }
}

/// Checking the empty request changes nothing.
proof fn lemma_check_empty(global: bool, i: nat)
    ensures
        check_from(ReqView::empty(), global, i) == Ok::<ReqView, ErrView>(ReqView::empty()),
    decreases NUM_KEYS - i,
{
    if i < NUM_KEYS {
        let k0 = key_at(i as int);
        assert(ReqView::empty().set(k0, None) == ReqView::empty());
        lemma_check_empty(global, i + 1);
    }
}

/// Normalizing keeps `skip` and `base_name` as they are written, and keeps
/// an explicit copy or clone style.
proof fn lemma_normalized_keys(r: ReqView, global: bool)
    requires
        normalized_spec(r, global) is Ok,
    ensures
        normalized_spec(r, global)->Ok_0.skip is Some <==> r.skip is Some,
        normalized_spec(r, global)->Ok_0.base_name is Some <==> r.base_name is Some,
        r.as_copy is Some ==> normalized_spec(r, global)->Ok_0.as_copy is Some,
        r.as_clone is Some ==> normalized_spec(r, global)->Ok_0.as_clone is Some,
{
    lemma_check_keeps_keys(r, global, 0);
    let c = check_spec(r, global)->Ok_0;
    assert(c.get(ArgKey::Skip) is Some <==> r.get(ArgKey::Skip) is Some);
    assert(c.get(ArgKey::BaseName) is Some <==> r.get(ArgKey::BaseName) is Some);
    assert(c.get(ArgKey::AsCopy) is Some <==> r.get(ArgKey::AsCopy) is Some);
    assert(c.get(ArgKey::AsClone) is Some <==> r.get(ArgKey::AsClone) is Some);
}

/// Resolution keeps `skip` and `base_name` and always enables a style.
proof fn lemma_resolved(n: ReqView)
    requires
        resolve_spec(n) is Ok,
    ensures
        resolve_spec(n)->Ok_0.skip == n.skip is Some,
        resolve_spec(n)->Ok_0.base is Some <==> n.base_name is Some,
        all_methods_spec(resolve_spec(n)->Ok_0).len() > 0,
{
}

/// Copy and clone exclude each other: a request that holds both never
/// resolves, on the type or on a field.
pub proof fn law_copy_clone_exclusive(r: ReqView, global: bool)
    requires
        r.as_copy is Some,
        r.as_clone is Some,
    ensures
        try_from_spec(r, global) is Err,
{
    if normalized_spec(r, global) is Ok {
        lemma_normalized_keys(r, global);
    }
}

/// A field whose annotations request both copy and clone is rejected,
/// whatever the type's options.
pub proof fn law_field_copy_clone_rejected(
    global: ReqView,
    f: FieldView,
    struct_name: Seq<char>,
    index: nat,
)
    requires
        parse_spec(f.attrs) is Ok,
        parse_spec(f.attrs)->Ok_0.as_copy is Some,
        parse_spec(f.attrs)->Ok_0.as_clone is Some,
    ensures
        field_methods_spec(global, f, struct_name, index) is Err,
{
    let local = parse_spec(f.attrs)->Ok_0;
    if normalized_spec(local, false) is Ok {
        lemma_normalized_keys(local, false);
    }
}

/// `all` stands for a cloning accessor, a borrow with suffix `_ref` and a
/// mutable borrow with suffix `_mut`; beside an explicit style it is an
/// error.
pub proof fn law_all_expansion(r: ReqView, global: bool)
    requires
        r.all is Some,
    ensures
        r.has_style() ==> expand_all_spec(r) == Err::<ReqView, ErrView>(
            ErrView::ConflictingOptions(Conflict::AllWithExplicit),
        ),
        r.has_style() ==> try_from_spec(r, global) is Err,
        try_from_spec(r, global) is Ok ==> {
            let g = try_from_spec(r, global)->Ok_0;
            &&& all_methods_spec(g) == seq![
                GetterMethod::Main { copy: false },
                GetterMethod::AsRef,
                GetterMethod::AsMut,
            ]
            &&& g.main == Some(Seq::<char>::empty())
            &&& g.as_ref == Some("_ref"@)
            &&& g.as_mut == Some("_mut"@)
        },
{
    if check_spec(r, global) is Ok {
        lemma_check_keeps_keys(r, global, 0);
        let c = check_spec(r, global)->Ok_0;
        assert(c.get(ArgKey::All) is Some);
        assert(c.get(ArgKey::AsCopy) is Some <==> r.get(ArgKey::AsCopy) is Some);
        assert(c.get(ArgKey::AsClone) is Some <==> r.get(ArgKey::AsClone) is Some);
        assert(c.get(ArgKey::AsRef) is Some <==> r.get(ArgKey::AsRef) is Some);
        assert(c.get(ArgKey::AsMut) is Some <==> r.get(ArgKey::AsMut) is Some);
    }
}

/// `skip` on a field leaves it without accessors, whatever else is written:
/// either the options are rejected, or no accessor comes out.
pub proof fn law_skip_field(global: ReqView, f: FieldView, struct_name: Seq<char>, index: nat)
    requires
        parse_spec(f.attrs) is Ok,
        parse_spec(f.attrs)->Ok_0.skip is Some,
    ensures
        field_methods_spec(global, f, struct_name, index) is Ok ==> field_methods_spec(
            global,
            f,
            struct_name,
            index,
        )->Ok_0.len() == 0,
{
    let local = parse_spec(f.attrs)->Ok_0;
    if field_methods_spec(global, f, struct_name, index) is Ok {
        lemma_normalized_keys(local, false);
        let ln = normalized_spec(local, false)->Ok_0;
        let m = merged_spec(global, ln);
        lemma_normalized_keys(m, false);
        lemma_resolved(normalized_spec(m, false)->Ok_0);
    }
}

/// `skip` on the type is always rejected.
pub proof fn law_skip_type_rejected(r: ReqView)
    requires
        r.skip is Some,
    ensures
        normalized_spec(r, true) is Err,
        try_from_spec(r, true) is Err,
{
    assert(key_at(6) == ArgKey::Skip);
    lemma_check_rejects_prohibited(r, true, 0, 6);
}

/// With no option on the type nor on the field, a named field gets exactly
/// one accessor: a borrow named after it with suffix `_ref`.
pub proof fn law_default_borrow(f: FieldView, struct_name: Seq<char>, index: nat)
    requires
        f.attrs.len() == 0,
        f.name is Some,
    ensures
        normalized_spec(ReqView::empty(), true) == Ok::<ReqView, ErrView>(ReqView::empty()),
        field_methods_spec(ReqView::empty(), f, struct_name, index) == Ok::<
            Seq<MethodView>,
            ErrView,
        >(
            seq![
                MethodView {
                    name: f.name->0 + "_ref"@,
                    docs: docs_spec(GetterMethod::AsRef, struct_name, f.name, index, f.doc),
                    method: GetterMethod::AsRef,
                    field_index: index,
                },
            ],
        ),
{
    lemma_check_empty(true, 0);
    lemma_check_empty(false, 0);
    assert(merged_spec(ReqView::empty(), ReqView::empty()) == ReqView::empty());
    let g = resolve_spec(ReqView::empty())->Ok_0;
    assert(all_methods_spec(g) =~= seq![GetterMethod::AsRef]);
    assert(Seq::<char>::empty() + f.name->0 + "_ref"@ =~= f.name->0 + "_ref"@);
    let got = field_methods_spec(ReqView::empty(), f, struct_name, index)->Ok_0;
    assert(got =~= seq![
        MethodView {
            name: f.name->0 + "_ref"@,
            docs: docs_spec(GetterMethod::AsRef, struct_name, f.name, index, f.doc),
            method: GetterMethod::AsRef,
            field_index: index,
        },
    ]);
}

/// Every accessor's name is the prefix, then the base name, then its
/// style's suffix, for every enabled style in turn; with no base name
/// the field is rejected.
pub proof fn law_name_composition(g: GetterView, f: FieldView, struct_name: Seq<char>, index: nat)
    requires
        !g.skip,
    ensures
        base_of(g, f) is None && all_methods_spec(g).len() > 0 ==> accessors_spec(
            g,
            struct_name,
            f,
            index,
        ) == Err::<Seq<MethodView>, ErrView>(ErrView::MissingBaseName),
        accessors_spec(g, struct_name, f, index) is Ok ==> {
            let ms = accessors_spec(g, struct_name, f, index)->Ok_0;
            &&& ms.len() == all_methods_spec(g).len()
            &&& forall|i: int|
                0 <= i < ms.len() ==> (#[trigger] ms[i]).name == g.prefix + base_of(g, f)->0
                    + suffix_of(g, all_methods_spec(g)[i])->0 && ms[i].method == all_methods_spec(
                    g,
                )[i]
        },
{
}

/// A positional field, with no `base_name` on it or on the type and no
/// `skip`, is rejected.
pub proof fn law_unnamed_field_rejected(
    global: ReqView,
    f: FieldView,
    struct_name: Seq<char>,
    index: nat,
)
    requires
        f.name is None,
        global.base_name is None,
        global.skip is None,
        parse_spec(f.attrs) is Ok,
        parse_spec(f.attrs)->Ok_0.base_name is None,
        parse_spec(f.attrs)->Ok_0.skip is None,
    ensures
        field_methods_spec(global, f, struct_name, index) is Err,
{
    let local = parse_spec(f.attrs)->Ok_0;
    if normalized_spec(local, false) is Ok {
        lemma_normalized_keys(local, false);
        let ln = normalized_spec(local, false)->Ok_0;
        let m = merged_spec(global, ln);
        if normalized_spec(m, false) is Ok {
            lemma_normalized_keys(m, false);
            if resolve_spec(normalized_spec(m, false)->Ok_0) is Ok {
                lemma_resolved(normalized_spec(m, false)->Ok_0);
            }
        }
    }
}

/// The position of a style in the emitted order.
pub open spec fn style_rank(m: GetterMethod) -> int {
    match m {
        GetterMethod::Main { .. } => 0,
        GetterMethod::AsRef => 1,
        GetterMethod::AsMut => 2,
    }
}

/// Enabled styles come main first, then borrow, then mutable borrow.
pub proof fn law_style_order(g: GetterView)
    ensures
        forall|i: int, j: int|
            0 <= i < j < all_methods_spec(g).len() ==> style_rank(
                #[trigger] all_methods_spec(g)[i],
            ) < style_rank(#[trigger] all_methods_spec(g)[j]),
{
}

/// The simple driver gives every named field of a record exactly one
/// accessor: a borrow named as the field.
pub proof fn law_simple_driver(item: ItemDesc, fields: Vec<FieldDesc>)
    requires
        item.shape == ItemShape::Struct(FieldsDesc::Named(fields)),
        forall|i: int| 0 <= i < fields@.len() ==> (#[trigger] fields@[i]).name is Some,
    ensures
        simple_derive_spec(item) is Ok,
        simple_derive_spec(item)->Ok_0.len() == fields@.len(),
        forall|i: int|
            0 <= i < fields@.len() ==> {
                let m = #[trigger] simple_derive_spec(item)->Ok_0[i];
                &&& m.method == GetterMethod::AsRef
                &&& m.field_index == i
                &&& m.name == fields@[i].name->0@
            },
{
    let fv = fields_view(fields@);
    assert forall|i: int| 0 <= i < fv.len() implies (#[trigger] fv[i]).name is Some by {
        assert(fv[i] == fields@[i]@);
        assert(fields@[i].name is Some);
    }
    assert forall|i: int| 0 <= i < fields@.len() implies (#[trigger] fv[i]).name->0 == fields@[i].name->0@ by {
        assert(fv[i] == fields@[i]@);
        assert(fields@[i].name is Some);
    }
}

/// Every key is recognized under the name it is written with.
pub proof fn law_key_names(k: ArgKey)
    ensures
        key_of(key_name_spec(k)) == Some(k),
{
    reveal_strlit("prefix");
    reveal_strlit("all");
    reveal_strlit("as_copy");
    reveal_strlit("as_clone");
    reveal_strlit("as_ref");
    reveal_strlit("as_mut");
    reveal_strlit("skip");
    reveal_strlit("base_name");
    let n = key_name_spec(k);
    match k {
        ArgKey::Prefix => {},
        ArgKey::All => {
            assert(n.len() != "prefix"@.len());
        },
        ArgKey::AsCopy => {
            assert(n[0] != "prefix"@[0]);
            assert(n.len() != "all"@.len());
        },
        ArgKey::AsClone => {
            assert(n[0] != "prefix"@[0]);
            assert(n.len() != "all"@.len());
            assert(n.len() != "as_copy"@.len());
        },
        ArgKey::AsRef => {
            assert(n[0] != "prefix"@[0]);
            assert(n.len() != "all"@.len());
            assert(n.len() != "as_copy"@.len());
            assert(n.len() != "as_clone"@.len());
        },
        ArgKey::AsMut => {
            assert(n[0] != "prefix"@[0]);
            assert(n.len() != "all"@.len());
            assert(n.len() != "as_copy"@.len());
            assert(n.len() != "as_clone"@.len());
            assert(n[3] != "as_ref"@[3]);
        },
        ArgKey::Skip => {
            assert(n[0] != "prefix"@[0]);
            assert(n.len() != "all"@.len());
            assert(n[0] != "as_copy"@[0]);
            assert(n[0] != "as_clone"@[0]);
            assert(n[0] != "as_ref"@[0]);
            assert(n[0] != "as_mut"@[0]);
        },
        ArgKey::BaseName => {
            assert(n[0] != "prefix"@[0]);
            assert(n[0] != "all"@[0]);
            assert(n[0] != "as_copy"@[0]);
            assert(n[0] != "as_clone"@[0]);
            assert(n[0] != "as_ref"@[0]);
            assert(n[0] != "as_mut"@[0]);
            assert(n[0] != "skip"@[0]);
        },
    }
}

/// The accessor that a field gets when nothing is configured.
pub open spec fn default_accessor(struct_name: Seq<char>, f: FieldView, index: nat) -> MethodView {
    MethodView {
        name: f.name->0 + "_ref"@,
        docs: docs_spec(GetterMethod::AsRef, struct_name, f.name, index, f.doc),
        method: GetterMethod::AsRef,
        field_index: index,
    }
}

proof fn lemma_default_fields(fv: Seq<FieldView>, struct_name: Seq<char>)
    requires
        forall|i: int| 0 <= i < fv.len() ==> (#[trigger] fv[i]).attrs.len() == 0 && fv[i].name is Some,
    ensures
        fields_methods_spec(ReqView::empty(), fv, struct_name) == Ok::<Seq<MethodView>, ErrView>(
            Seq::new(fv.len(), |i: int| default_accessor(struct_name, fv[i], i as nat)),
        ),
    decreases fv.len(),
{
    if fv.len() == 0 {
        assert(Seq::new(0, |i: int| default_accessor(struct_name, fv[i], i as nat)) =~= Seq::<
            MethodView,
        >::empty());
    } else {
        let init = fv.drop_last();
        assert forall|i: int| 0 <= i < init.len() implies (#[trigger] init[i]).attrs.len() == 0
            && init[i].name is Some by {
            assert(init[i] == fv[i]);
        }
        lemma_default_fields(init, struct_name);
        let last = (fv.len() - 1) as nat;
        assert(fv[last as int].attrs.len() == 0 && fv[last as int].name is Some);
        law_default_borrow(fv.last(), struct_name, last);
        assert(Seq::new(init.len(), |i: int| default_accessor(struct_name, init[i], i as nat)).push(
            default_accessor(struct_name, fv.last(), last),
        ) =~= Seq::new(fv.len(), |i: int| default_accessor(struct_name, fv[i], i as nat)));
        assert(Seq::new(init.len(), |i: int| default_accessor(struct_name, init[i], i as nat))
            + seq![default_accessor(struct_name, fv.last(), last)] =~= Seq::new(
            fv.len(),
            |i: int| default_accessor(struct_name, fv[i], i as nat),
        ));
    }
}

/// The configurable driver on a record with no options anywhere gives each
/// named field exactly one accessor: a borrow named after it with suffix
/// `_ref`.
pub proof fn law_default_record(item: ItemDesc, fields: Vec<FieldDesc>)
    requires
        item.shape == ItemShape::Struct(FieldsDesc::Named(fields)),
        item.attrs@.len() == 0,
        forall|i: int|
            0 <= i < fields@.len() ==> (#[trigger] fields@[i]).attrs@.len() == 0
                && fields@[i].name is Some,
    ensures
        derive_spec(item) == Ok::<Seq<MethodView>, ErrView>(
            Seq::new(
                fields@.len(),
                |i: int| default_accessor(item.name@, fields_view(fields@)[i], i as nat),
            ),
        ),
{
    let fv = fields_view(fields@);
    assert forall|i: int| 0 <= i < fv.len() implies (#[trigger] fv[i]).attrs.len() == 0
        && fv[i].name is Some by {
        assert(fv[i] == fields@[i]@);
        assert(fields@[i].attrs@.len() == 0);
    }
    lemma_check_empty(true, 0);
    assert(raw_view(item.attrs@).len() == 0);
    lemma_default_fields(fv, item.name@);
}

} // verus!
