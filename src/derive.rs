//! The drivers: from a described record to the accessors to emit.

use vstd::prelude::*;
use crate::config::{
    raw_view, parse_spec, merged_spec, ArgView, ConfigRequest, ErrView, GetterError, RawArg,
    ReqView, ShapeKind,
};
use crate::getter::{
    all_methods_spec, docs_spec, doc_sentence, field_label, normalized_spec, resolve_spec,
    strings_view, suffix_of, try_from_spec, GetterDerive, GetterMethod, GetterView,
};

verus! {

/// One field of a record: its name (none for a positional field), its own
/// documentation, and the entries of its `getter` annotations.
#[derive(Clone, Debug)]
pub struct FieldDesc {
    pub name: Option<String>,
    pub doc: Option<String>,
    pub attrs: Vec<RawArg>,
}

pub struct FieldView {
    pub name: Option<Seq<char>>,
    pub doc: Option<Seq<char>>,
    pub attrs: Seq<(Seq<char>, ArgView)>,
}

pub open spec fn opt_string_view(o: Option<String>) -> Option<Seq<char>> {
    match o {
        Some(s) => Some(s@),
        None => None,
    }
}

impl View for FieldDesc {
    type V = FieldView;

    open spec fn view(&self) -> FieldView {
        FieldView {
            name: opt_string_view(self.name),
            doc: opt_string_view(self.doc),
            attrs: raw_view(self.attrs@),
        }
    }
}

/// The fields of a record.
#[derive(Clone, Debug)]
pub enum FieldsDesc {
    Named(Vec<FieldDesc>),
    Unnamed,
    Unit,
}

/// The kind of the annotated item.
#[derive(Clone, Debug)]
pub enum ItemShape {
    Struct(FieldsDesc),
    Enum,
    Union,
}

/// The annotated item: its name, its `getter` annotation entries, its shape.
#[derive(Clone, Debug)]
pub struct ItemDesc {
    pub name: String,
    pub attrs: Vec<RawArg>,
    pub shape: ItemShape,
}

/// One accessor to emit for the field at `field_index`.
#[derive(Clone, Debug)]
pub struct GeneratedMethod {
    pub name: String,
    pub docs: Vec<String>,
    pub method: GetterMethod,
    pub field_index: usize,
}

pub struct MethodView {
    pub name: Seq<char>,
    pub docs: Seq<Seq<char>>,
    pub method: GetterMethod,
    pub field_index: nat,
}

impl View for GeneratedMethod {
    type V = MethodView;

    open spec fn view(&self) -> MethodView {
        MethodView {
            name: self.name@,
            docs: strings_view(self.docs@),
            method: self.method,
            field_index: self.field_index as nat,
        }
    }
}

pub open spec fn methods_view(v: Seq<GeneratedMethod>) -> Seq<MethodView> {
    v.map_values(|m: GeneratedMethod| m@)
}

pub open spec fn fields_view(v: Seq<FieldDesc>) -> Seq<FieldView> {
    v.map_values(|f: FieldDesc| f@)
}

pub open spec fn methods_result(r: Result<Vec<GeneratedMethod>, GetterError>) -> Result<
    Seq<MethodView>,
    ErrView,
> {
    match r {
        Ok(v) => Ok(methods_view(v@)),
        Err(e) => Err(e@),
    }
}

/// The base of a field's accessor names: the override, else the field's name.
pub open spec fn base_of(g: GetterView, f: FieldView) -> Option<Seq<char>> {
    if g.base is Some {
        g.base
    } else {
        f.name
    }
}

/// The accessor of style `m` for a field whose base name is known.
pub open spec fn method_spec(
    g: GetterView,
    m: GetterMethod,
    struct_name: Seq<char>,
    f: FieldView,
    index: nat,
) -> MethodView {
    MethodView {
        name: g.prefix + base_of(g, f).unwrap() + suffix_of(g, m).unwrap(),
        docs: docs_spec(m, struct_name, f.name, index, f.doc),
        method: m,
        field_index: index,
    }
}

/// The accessors that resolved options give a field, in style order.
pub open spec fn accessors_spec(g: GetterView, struct_name: Seq<char>, f: FieldView, index: nat) -> Result<
    Seq<MethodView>,
    ErrView,
> {
    let ms = all_methods_spec(g);
    if g.skip {
        Ok(Seq::empty())
    } else if base_of(g, f) is None && ms.len() > 0 {
        Err(ErrView::MissingBaseName)
    } else {
        Ok(Seq::new(ms.len(), |i: int| method_spec(g, ms[i], struct_name, f, index)))
    }
}

/// One field: its own options are validated alone, then laid over the type's
/// normalized options and resolved.
pub open spec fn field_methods_spec(
    global: ReqView,
    f: FieldView,
    struct_name: Seq<char>,
    index: nat,
) -> Result<Seq<MethodView>, ErrView> {
    match parse_spec(f.attrs) {
        Err(e) => Err(e),
        Ok(local) => match normalized_spec(local, false) {
            Err(e) => Err(e),
            Ok(ln) => match resolve_spec(ln) {
                Err(e) => Err(e),
                Ok(_) => match try_from_spec(merged_spec(global, ln), false) {
                    Err(e) => Err(e),
                    Ok(g) => accessors_spec(g, struct_name, f, index),
                },
            },
        },
    }
}

/// All fields in declaration order; the first failing field decides the
/// error.
pub open spec fn fields_methods_spec(global: ReqView, fields: Seq<FieldView>, struct_name: Seq<char>) -> Result<
    Seq<MethodView>,
    ErrView,
>
    decreases fields.len(),
{
    if fields.len() == 0 {
        Ok(Seq::empty())
    } else {
        match fields_methods_spec(global, fields.drop_last(), struct_name) {
            Err(e) => Err(e),
            Ok(before) => match field_methods_spec(
                global,
                fields.last(),
                struct_name,
                (fields.len() - 1) as nat,
            ) {
                Err(e) => Err(e),
                Ok(these) => Ok(before + these),
            },
        }
    }
}

proof fn lemma_fields_err_extends(
    global: ReqView,
    fields: Seq<FieldView>,
    struct_name: Seq<char>,
    j: int,
    k: int,
)
    requires
        0 <= j <= k <= fields.len(),
        fields_methods_spec(global, fields.take(j), struct_name) is Err,
    ensures
        fields_methods_spec(global, fields.take(k), struct_name) == fields_methods_spec(
            global,
            fields.take(j),
            struct_name,
        ),
    decreases k - j,
{
    if k > j {
        lemma_fields_err_extends(global, fields, struct_name, j, k - 1);
        assert(fields.take(k).drop_last() =~= fields.take(k - 1));
    }
}

pub open spec fn shape_spec(global: ReqView, struct_name: Seq<char>, shape: ItemShape) -> Result<
    Seq<MethodView>,
    ErrView,
> {
    match shape {
        ItemShape::Enum => Err(ErrView::UnsupportedShape(ShapeKind::Enum)),
        ItemShape::Union => Err(ErrView::UnsupportedShape(ShapeKind::Union)),
        ItemShape::Struct(FieldsDesc::Unnamed) => Err(
            ErrView::UnsupportedShape(ShapeKind::TupleStruct),
        ),
        ItemShape::Struct(FieldsDesc::Unit) => Err(ErrView::UnsupportedShape(ShapeKind::UnitStruct)),
        ItemShape::Struct(FieldsDesc::Named(fields)) => fields_methods_spec(
            global,
            fields_view(fields@),
            struct_name,
        ),
    }
}

/// The configurable driver: the type's options are validated first, then
/// the shape, then each field.
pub open spec fn derive_spec(item: ItemDesc) -> Result<Seq<MethodView>, ErrView> {
    match parse_spec(raw_view(item.attrs@)) {
        Err(e) => Err(e),
        Ok(gr) => match normalized_spec(gr, true) {
            Err(e) => Err(e),
            Ok(gn) => match resolve_spec(gn) {
                Err(e) => Err(e),
                Ok(_) => shape_spec(gn, item.name@, item.shape),
            },
        },
    }
}

/// The accessors of one field under resolved options.
fn field_accessors(
    getter: &GetterDerive,
    field: &FieldDesc,
    index: usize,
    struct_name: &String,
) -> (r: Result<Vec<GeneratedMethod>, GetterError>)
    ensures
        methods_result(r) == accessors_spec(getter@, struct_name@, field@, index as nat),
{
    let mut res: Vec<GeneratedMethod> = Vec::with_capacity(3);
    if getter.skip {
        assert(methods_view(res@) =~= Seq::<MethodView>::empty());
        return Ok(res);
    }
    let ms = getter.all_methods();
    let ghost g = getter@;
    let ghost f = field@;
    let mut j: usize = 0;
    while j < ms.len()
        invariant
            0 <= j <= ms.len(),
            ms@ == all_methods_spec(g),
            g == getter@,
            f == field@,
            !g.skip,
            j > 0 ==> base_of(g, f) is Some,
            methods_view(res@) =~= Seq::new(
                j as nat,
                |i: int| method_spec(g, ms@[i], struct_name@, f, index as nat),
            ),
        decreases ms.len() - j,
    {
        let m = ms[j];
        assert(suffix_of(g, m) is Some);
        let fname = field.name.as_ref();
        assert(match fname {
            Some(s) => Some(s@),
            None => None::<Seq<char>>,
        } == f.name);
        let name = getter.getter_fn_ident(m, fname)?;
        let docs = getter.getter_fn_doc(
            m,
            struct_name,
            field.name.as_ref(),
            index,
            field.doc.as_ref(),
        );
        let ghost before = methods_view(res@);
        res.push(GeneratedMethod { name, docs, method: m, field_index: index });
        assert(methods_view(res@) =~= before.push(
            method_spec(g, ms@[j as int], struct_name@, f, index as nat),
        ));
        j = j + 1;
    }
    assert(methods_view(res@) =~= Seq::new(
        ms@.len(),
        |i: int| method_spec(g, ms@[i], struct_name@, f, index as nat),
    ));
    Ok(res)
}

/// The accessors of one field, `global_param` being the type's normalized
/// options.
pub fn derive_field_methods(
    field: &FieldDesc,
    index: usize,
    struct_name: &String,
    global_param: &ConfigRequest,
) -> (r: Result<Vec<GeneratedMethod>, GetterError>)
    ensures
        methods_result(r) == field_methods_spec(
            global_param@,
            field@,
            struct_name@,
            index as nat,
        ),
{
    let local = ConfigRequest::parse(&field.attrs)?;
    let local_n = local.normalized(false)?;
    let _ = GetterDerive::resolve(&local_n)?;
    let merged = global_param.merged(&local_n);
    let getter = GetterDerive::try_from(&merged, false)?;
    field_accessors(&getter, field, index, struct_name)
}

/// The accessors of all named fields, in declaration order.
pub fn derive_struct_impl(
    fields: &Vec<FieldDesc>,
    struct_name: &String,
    global_param: &ConfigRequest,
) -> (r: Result<Vec<GeneratedMethod>, GetterError>)
    ensures
        methods_result(r) == fields_methods_spec(
            global_param@,
            fields_view(fields@),
            struct_name@,
        ),
{
    let ghost fv = fields_view(fields@);
    let mut methods: Vec<GeneratedMethod> = Vec::with_capacity(fields.len());
    let mut i: usize = 0;
    assert(fv.take(0) =~= Seq::<FieldView>::empty());
    assert(methods_view(methods@) =~= Seq::<MethodView>::empty());
    while i < fields.len()
        invariant
            0 <= i <= fields.len(),
            fv == fields_view(fields@),
            fields_methods_spec(global_param@, fv.take(i as int), struct_name@) == Ok::<
                Seq<MethodView>,
                ErrView,
            >(methods_view(methods@)),
        decreases fields.len() - i,
    {
        proof {
            assert(fv.take(i + 1).drop_last() =~= fv.take(i as int));
            assert(fv.take(i + 1).last() == fields@[i as int]@);
        }
        let found = derive_field_methods(&fields[i], i, struct_name, global_param);
        match found {
            Err(e) => {
                proof {
                    lemma_fields_err_extends(global_param@, fv, struct_name@, i + 1, fv.len() as int);
                    assert(fv.take(fv.len() as int) =~= fv);
                }
                return Err(e);
            },
            Ok(these) => {
                let ghost before = methods_view(methods@);
                let mut j: usize = 0;
                while j < these.len()
                    invariant
                        0 <= j <= these.len(),
                        methods_view(methods@) =~= before + methods_view(these@).take(j as int),
                    decreases these.len() - j,
                {
                    let ghost b2 = methods_view(methods@);
                    methods.push(these[j].clone_method());
                    assert(methods_view(methods@) =~= b2.push(these@[j as int]@));
                    assert(methods_view(these@).take(j + 1) =~= methods_view(these@).take(
                        j as int,
                    ).push(these@[j as int]@));
                    j = j + 1;
                }
                assert(methods_view(these@).take(these.len() as int) =~= methods_view(these@));
            },
        }
        i = i + 1;
    }
    assert(fv.take(fields.len() as int) =~= fv);
    Ok(methods)
}

/// The configurable driver: validates the type's options and its shape, then
/// generates the accessors of every field.
pub fn derive(input: &ItemDesc) -> (r: Result<Vec<GeneratedMethod>, GetterError>)
    ensures
        methods_result(r) == derive_spec(*input),
{
    let global_raw = ConfigRequest::parse(&input.attrs)?;
    let global_param = global_raw.normalized(true)?;
    let _ = GetterDerive::resolve(&global_param)?;
    match &input.shape {
        ItemShape::Enum => Err(GetterError::UnsupportedShape(ShapeKind::Enum)),
        ItemShape::Union => Err(GetterError::UnsupportedShape(ShapeKind::Union)),
        ItemShape::Struct(FieldsDesc::Unnamed) => Err(
            GetterError::UnsupportedShape(ShapeKind::TupleStruct),
        ),
        ItemShape::Struct(FieldsDesc::Unit) => Err(
            GetterError::UnsupportedShape(ShapeKind::UnitStruct),
        ),
        ItemShape::Struct(FieldsDesc::Named(fields)) => derive_struct_impl(
            fields,
            &input.name,
            &global_param,
        ),
    }
}

impl GeneratedMethod {
    /// A copy of this accessor.
    pub fn clone_method(&self) -> (r: GeneratedMethod)
        ensures
            r@ == self@,
    {
        let mut docs: Vec<String> = Vec::with_capacity(self.docs.len());
        let mut i: usize = 0;
        while i < self.docs.len()
            invariant
                0 <= i <= self.docs.len(),
                strings_view(docs@) =~= strings_view(self.docs@).take(i as int),
            decreases self.docs.len() - i,
        {
            docs.push(self.docs[i].clone());
            assert(strings_view(self.docs@).take(i + 1) =~= strings_view(self.docs@).take(
                i as int,
            ).push(self.docs@[i as int]@));
            i = i + 1;
        }
        assert(strings_view(self.docs@).take(self.docs.len() as int) =~= strings_view(self.docs@));
        GeneratedMethod {
            name: self.name.clone(),
            docs,
            method: self.method,
            field_index: self.field_index,
        }
    }
}

/// The simple driver's accessor for one field: a borrow named as the field,
/// documented by the field's own documentation, else by the generated
/// sentence.
pub open spec fn simple_method_spec(struct_name: Seq<char>, f: FieldView, index: nat) -> MethodView {
    MethodView {
        name: f.name.unwrap(),
        docs: match f.doc {
            Some(d) => seq![d],
            None => seq![
                doc_sentence(GetterMethod::AsRef, struct_name, field_label(f.name, index)),
            ],
        },
        method: GetterMethod::AsRef,
        field_index: index,
    }
}

/// The simple driver: one borrowing accessor per named field, with no
/// options read.
pub open spec fn simple_derive_spec(item: ItemDesc) -> Result<Seq<MethodView>, ErrView> {
    match item.shape {
        ItemShape::Enum => Err(ErrView::UnsupportedShape(ShapeKind::Enum)),
        ItemShape::Union => Err(ErrView::UnsupportedShape(ShapeKind::Union)),
        ItemShape::Struct(FieldsDesc::Unnamed) => Err(
            ErrView::UnsupportedShape(ShapeKind::TupleStruct),
        ),
        ItemShape::Struct(FieldsDesc::Unit) => Err(ErrView::UnsupportedShape(ShapeKind::UnitStruct)),
        ItemShape::Struct(FieldsDesc::Named(fields)) => {
            let fv = fields_view(fields@);
            if exists|i: int| 0 <= i < fv.len() && (#[trigger] fv[i]).name is None {
                Err(ErrView::MissingBaseName)
            } else {
                Ok(Seq::new(fv.len(), |i: int| simple_method_spec(item.name@, fv[i], i as nat)))
            }
        },
    }
}

/// The simple driver: for a record with named fields, one borrowing accessor
/// per field, named as the field.
pub fn simple_derive(input: &ItemDesc) -> (r: Result<Vec<GeneratedMethod>, GetterError>)
    ensures
        methods_result(r) == simple_derive_spec(*input),
{
    match &input.shape {
        ItemShape::Enum => Err(GetterError::UnsupportedShape(ShapeKind::Enum)),
        ItemShape::Union => Err(GetterError::UnsupportedShape(ShapeKind::Union)),
        ItemShape::Struct(FieldsDesc::Unnamed) => Err(
            GetterError::UnsupportedShape(ShapeKind::TupleStruct),
        ),
        ItemShape::Struct(FieldsDesc::Unit) => Err(
            GetterError::UnsupportedShape(ShapeKind::UnitStruct),
        ),
        ItemShape::Struct(FieldsDesc::Named(fields)) => {
            let ghost fv = fields_view(fields@);
            let mut methods: Vec<GeneratedMethod> = Vec::with_capacity(fields.len());
            let mut i: usize = 0;
            while i < fields.len()
                invariant
                    0 <= i <= fields.len(),
                    fv == fields_view(fields@),
                    input.shape == ItemShape::Struct(FieldsDesc::Named(*fields)),
                    forall|k: int| 0 <= k < i ==> (#[trigger] fv[k]).name is Some,
                    methods_view(methods@) =~= Seq::new(
                        i as nat,
                        |k: int| simple_method_spec(input.name@, fv[k], k as nat),
                    ),
                decreases fields.len() - i,
            {
                let field = &fields[i];
                let name = match &field.name {
                    Some(n) => n.clone(),
                    None => {
                        assert(fv[i as int] == fields@[i as int]@);
                        assert(fv[i as int].name is None);
                        assert(exists|k: int| 0 <= k < fv.len() && (#[trigger] fv[k]).name is None);
                        return Err(GetterError::MissingBaseName);
                    },
                };
                let docs = match &field.doc {
                    Some(d) => {
                        let mut docs: Vec<String> = Vec::new();
                        docs.push(d.clone());
                        assert(strings_view(docs@) =~= seq![d@]);
                        docs
                    },
                    None => {
                        let g = GetterDerive {
                            prefix: String::new(),
                            skip: false,
                            copy: false,
                            base: None,
                            main: None,
                            as_ref: None,
                            as_mut: None,
                        };
                        let docs = g.getter_fn_doc(
                            GetterMethod::AsRef,
                            &input.name,
                            Some(&name),
                            i,
                            None,
                        );
                        docs
                    },
                };
                let ghost before = methods_view(methods@);
                methods.push(GeneratedMethod { name, docs, method: GetterMethod::AsRef, field_index: i });
                assert(methods_view(methods@) =~= before.push(
                    simple_method_spec(input.name@, fv[i as int], i as nat),
                ));
                i = i + 1;
            }
            Ok(methods)
        },
    }
}

} // verus!
