//! The accessor-style resolver: which accessors a field gets, their names and
//! their documentation.

use vstd::prelude::*;
use vstd::string::*;
use crate::config::{
    opt_view, req_result, ArgKey, ArgValue, ArgView, ConfigRequest, Conflict, ErrView, GetterError,
    ReqView, check_spec,
};
use crate::text::{decimal, decimal_spec};

verus! {

/// The text that a value stands for once checked: a bare key reads as empty.
pub open spec fn text_of(v: Option<ArgView>) -> Option<Seq<char>> {
    match v {
        Some(ArgView::Str(s)) => Some(s),
        Some(ArgView::Flag) => Some(Seq::empty()),
        None => None,
    }
}

pub open spec fn str_view(o: Option<String>) -> Option<Seq<char>> {
    match o {
        Some(s) => Some(s@),
        None => None,
    }
}

/// `all` stands for a clone accessor, `_ref` and `_mut`; written beside an
/// explicit style it is an error.
pub open spec fn expand_all_spec(r: ReqView) -> Result<ReqView, ErrView> {
    if r.all is Some {
        if r.has_style() {
            Err(ErrView::ConflictingOptions(Conflict::AllWithExplicit))
        } else {
            Ok(
                ReqView {
                    all: None,
                    as_clone: Some(ArgView::Str(Seq::empty())),
                    as_ref: Some(ArgView::Str("_ref"@)),
                    as_mut: Some(ArgView::Str("_mut"@)),
                    ..r
                },
            )
        }
    } else {
        Ok(r)
    }
}

/// Checked against the schema of its level, then `all` expanded.
pub open spec fn normalized_spec(r: ReqView, global: bool) -> Result<ReqView, ErrView> {
    match check_spec(r, global) {
        Err(e) => Err(e),
        Ok(c) => expand_all_spec(c),
    }
}

/// A request with no style gets a borrowing accessor with suffix `_ref`.
pub open spec fn with_default_style(r: ReqView) -> ReqView {
    if r.has_style() {
        r
    } else {
        r.set(ArgKey::AsRef, Some(ArgView::Str("_ref"@)))
    }
}

/// The options that decide a field's accessors.
pub struct GetterView {
    pub prefix: Seq<char>,
    pub skip: bool,
    pub copy: bool,
    pub base: Option<Seq<char>>,
    pub main: Option<Seq<char>>,
    pub as_ref: Option<Seq<char>>,
    pub as_mut: Option<Seq<char>>,
}

/// Resolution of a normalized request.
pub open spec fn resolve_spec(r: ReqView) -> Result<GetterView, ErrView> {
    if r.as_copy is Some && r.as_clone is Some {
        Err(ErrView::ConflictingOptions(Conflict::CopyAndClone))
    } else {
        let d = with_default_style(r);
        Ok(
            GetterView {
                prefix: match text_of(d.prefix) {
                    Some(p) => p,
                    None => Seq::empty(),
                },
                skip: d.skip is Some,
                copy: d.as_copy is Some,
                base: text_of(d.base_name),
                main: if d.as_copy is Some {
                    text_of(d.as_copy)
                } else {
                    text_of(d.as_clone)
                },
                as_ref: text_of(d.as_ref),
                as_mut: text_of(d.as_mut),
            },
        )
    }
}

/// A raw request turned into the options of one level.
pub open spec fn try_from_spec(r: ReqView, global: bool) -> Result<GetterView, ErrView> {
    match normalized_spec(r, global) {
        Err(e) => Err(e),
        Ok(n) => resolve_spec(n),
    }
}

/// Resolved options of one type or one field.
#[derive(Clone, Debug)]
pub struct GetterDerive {
    pub prefix: String,
    pub skip: bool,
    pub copy: bool,
    pub base: Option<String>,
    pub main: Option<String>,
    pub as_ref: Option<String>,
    pub as_mut: Option<String>,
}

impl View for GetterDerive {
    type V = GetterView;

    open spec fn view(&self) -> GetterView {
        GetterView {
            prefix: self.prefix@,
            skip: self.skip,
            copy: self.copy,
            base: str_view(self.base),
            main: str_view(self.main),
            as_ref: str_view(self.as_ref),
            as_mut: str_view(self.as_mut),
        }
    }
}

pub open spec fn getter_result(r: Result<GetterDerive, GetterError>) -> Result<GetterView, ErrView> {
    match r {
        Ok(g) => Ok(g@),
        Err(e) => Err(e@),
    }
}

fn text_value(v: &Option<ArgValue>) -> (r: Option<String>)
    ensures
        str_view(r) == text_of(opt_view(*v)),
{
    match v {
        Some(ArgValue::Str(s)) => Some(s.clone()),
        Some(ArgValue::Flag) => Some(String::new()),
        None => None,
    }
}

impl ConfigRequest {
    /// Expands `all` into its three styles.
    pub fn expand_all(&self) -> (r: Result<ConfigRequest, GetterError>)
        ensures
            req_result(r) == expand_all_spec(self@),
    {
        let mut c = self.clone_request();
        if c.all.is_some() {
            if c.as_copy.is_some() || c.as_clone.is_some() || c.as_ref.is_some()
                || c.as_mut.is_some() {
                return Err(GetterError::ConflictingOptions(Conflict::AllWithExplicit));
            }
            c.all = None;
            c.as_clone = Some(ArgValue::Str(String::new()));
            c.as_ref = Some(ArgValue::Str(String::from_str("_ref")));
            c.as_mut = Some(ArgValue::Str(String::from_str("_mut")));
        }
        Ok(c)
    }

    /// Checks the request against the schema of its level and expands `all`.
    pub fn normalized(&self, global: bool) -> (r: Result<ConfigRequest, GetterError>)
        ensures
            req_result(r) == normalized_spec(self@, global),
    {
        let c = self.checked(global)?;
        c.expand_all()
    }
}

impl GetterDerive {
    /// Resolves a normalized request: copy and clone exclude each other, and
    /// with no style given the field is borrowed.
    pub fn resolve(attr: &ConfigRequest) -> (r: Result<GetterDerive, GetterError>)
        ensures
            getter_result(r) == resolve_spec(attr@),
    {
        if attr.as_copy.is_some() && attr.as_clone.is_some() {
            return Err(GetterError::ConflictingOptions(Conflict::CopyAndClone));
        }
        let mut d = attr.clone_request();
        if !(d.as_copy.is_some() || d.as_clone.is_some() || d.as_ref.is_some()
            || d.as_mut.is_some()) {
            d.as_ref = Some(ArgValue::Str(String::from_str("_ref")));
        }
        let prefix = match text_value(&d.prefix) {
            Some(p) => p,
            None => String::new(),
        };
        let main = if d.as_copy.is_some() {
            text_value(&d.as_copy)
        } else {
            text_value(&d.as_clone)
        };
        Ok(
            GetterDerive {
                prefix,
                skip: d.skip.is_some(),
                copy: d.as_copy.is_some(),
                base: text_value(&d.base_name),
                main,
                as_ref: text_value(&d.as_ref),
                as_mut: text_value(&d.as_mut),
            },
        )
    }

    /// Validates a raw request of the type (`global`) or of a field and
    /// resolves it.
    pub fn try_from(attr: &ConfigRequest, global: bool) -> (r: Result<GetterDerive, GetterError>)
        ensures
            getter_result(r) == try_from_spec(attr@, global),
    {
        let n = attr.normalized(global)?;
        GetterDerive::resolve(&n)
    }
}

/// The accessor styles, in the order they are emitted.
#[derive(PartialEq, Eq, Structural, Clone, Copy, Debug)]
pub enum GetterMethod {
    /// Returns the field by value: copied, or else cloned.
    Main { copy: bool },
    /// Borrows the field.
    AsRef,
    /// Borrows the field mutably.
    AsMut,
}

pub open spec fn phrase_spec(m: GetterMethod) -> Seq<char> {
    match m {
        GetterMethod::Main { copy: true } => "returning copy of"@,
        GetterMethod::Main { copy: false } => "cloning"@,
        GetterMethod::AsRef => "borrowing"@,
        GetterMethod::AsMut => "returning mutable borrow of"@,
    }
}

impl GetterMethod {
    /// How the documentation sentence describes the accessor.
    pub fn doc_phrase(&self) -> (r: &'static str)
        ensures
            r@ == phrase_spec(*self),
    {
        match self {
            GetterMethod::Main { copy: true } => "returning copy of",
            GetterMethod::Main { copy: false } => "cloning",
            GetterMethod::AsRef => "borrowing",
            GetterMethod::AsMut => "returning mutable borrow of",
        }
    }

    /// The receiver's mutability marker: only a mutable borrow needs `mut`.
    pub fn mut_prefix(&self) -> (r: &'static str)
        ensures
            r@ == (if *self == GetterMethod::AsMut {
                "mut"@
            } else {
                ""@
            }),
    {
        match self {
            GetterMethod::Main { .. } => "",
            GetterMethod::AsRef => "",
            GetterMethod::AsMut => "mut",
        }
    }

    /// What precedes the returned type and the returned field.
    pub fn ret_prefix(&self) -> (r: &'static str)
        ensures
            r@ == (match *self {
                GetterMethod::Main { .. } => ""@,
                GetterMethod::AsRef => "&"@,
                GetterMethod::AsMut => "&mut"@,
            }),
    {
        match self {
            GetterMethod::Main { .. } => "",
            GetterMethod::AsRef => "&",
            GetterMethod::AsMut => "&mut",
        }
    }

    /// What follows the returned field: a clone call for a cloning accessor.
    pub fn ret_suffix(&self) -> (r: &'static str)
        ensures
            r@ == (if *self == (GetterMethod::Main { copy: false }) {
                ".clone()"@
            } else {
                ""@
            }),
    {
        match self {
            GetterMethod::Main { copy: false } => ".clone()",
            _ => "",
        }
    }
}

/// The accessors that the options enable: main, then borrow, then mutable
/// borrow.
pub open spec fn all_methods_spec(g: GetterView) -> Seq<GetterMethod> {
    let a = if g.main is Some {
        seq![GetterMethod::Main { copy: g.copy }]
    } else {
        Seq::<GetterMethod>::empty()
    };
    let b = if g.as_ref is Some {
        a.push(GetterMethod::AsRef)
    } else {
        a
    };
    if g.as_mut is Some {
        b.push(GetterMethod::AsMut)
    } else {
        b
    }
}

/// The name suffix of a style.
pub open spec fn suffix_of(g: GetterView, m: GetterMethod) -> Option<Seq<char>> {
    match m {
        GetterMethod::Main { .. } => g.main,
        GetterMethod::AsRef => g.as_ref,
        GetterMethod::AsMut => g.as_mut,
    }
}

/// An accessor's name: prefix, then the base name (the override, else the
/// field's name), then the style's suffix.
pub open spec fn fn_name_spec(g: GetterView, m: GetterMethod, field: Option<Seq<char>>) -> Result<
    Seq<char>,
    ErrView,
> {
    let base = if g.base is Some {
        g.base
    } else {
        field
    };
    match base {
        None => Err(ErrView::MissingBaseName),
        Some(b) => Ok(g.prefix + b + suffix_of(g, m).unwrap()),
    }
}

/// How documentation names a field: by name, else by position.
pub open spec fn field_label(name: Option<Seq<char>>, index: nat) -> Seq<char> {
    match name {
        Some(n) => n,
        None => decimal_spec(index),
    }
}

pub open spec fn doc_sentence(m: GetterMethod, struct_name: Seq<char>, label: Seq<char>) -> Seq<
    char,
> {
    "Method "@ + phrase_spec(m) + " [`"@ + struct_name + "::"@ + label + "`] field.\n"@
}

/// An accessor's documentation: the generated sentence, then the field's own
/// documentation, if any.
pub open spec fn docs_spec(
    m: GetterMethod,
    struct_name: Seq<char>,
    field_name: Option<Seq<char>>,
    index: nat,
    field_doc: Option<Seq<char>>,
) -> Seq<Seq<char>> {
    let s = doc_sentence(m, struct_name, field_label(field_name, index));
    match field_doc {
        Some(d) => seq![s, d],
        None => seq![s],
    }
}

pub open spec fn name_result(r: Result<String, GetterError>) -> Result<Seq<char>, ErrView> {
    match r {
        Ok(s) => Ok(s@),
        Err(e) => Err(e@),
    }
}

pub open spec fn strings_view(v: Seq<String>) -> Seq<Seq<char>> {
    v.map_values(|s: String| s@)
}

impl GetterDerive {
    /// The enabled accessor styles, main first, then borrow, then mutable
    /// borrow.
    pub fn all_methods(&self) -> (r: Vec<GetterMethod>)
        ensures
            r@ == all_methods_spec(self@),
    {
        let mut methods: Vec<GetterMethod> = Vec::with_capacity(3);
        if self.main.is_some() {
            methods.push(GetterMethod::Main { copy: self.copy });
        }
        if self.as_ref.is_some() {
            methods.push(GetterMethod::AsRef);
        }
        if self.as_mut.is_some() {
            methods.push(GetterMethod::AsMut);
        }
        methods
    }

    /// The name of the accessor of style `method` for a field.
    pub fn getter_fn_ident(&self, method: GetterMethod, field_name: Option<&String>) -> (r: Result<
        String,
        GetterError,
    >)
        requires
            suffix_of(self@, method) is Some,
        ensures
            name_result(r) == fn_name_spec(
                self@,
                method,
                match field_name {
                    Some(s) => Some(s@),
                    None => None,
                },
            ),
    {
        let base_string = match &self.base {
            Some(b) => b.clone(),
            None => match field_name {
                Some(f) => f.clone(),
                None => {
                    return Err(GetterError::MissingBaseName);
                },
            },
        };
        let suffix = match method {
            GetterMethod::Main { .. } => &self.main,
            GetterMethod::AsRef => &self.as_ref,
            GetterMethod::AsMut => &self.as_mut,
        };
        let mut s = self.prefix.clone();
        s.append(base_string.as_str());
        match suffix {
            Some(x) => s.append(x.as_str()),
            None => {},
        }
        Ok(s)
    }

    /// The documentation of the accessor of style `method` for a field: a
    /// generated sentence, then the field's own documentation, if any.
    pub fn getter_fn_doc(
        &self,
        method: GetterMethod,
        struct_name: &String,
        field_name: Option<&String>,
        field_index: usize,
        field_doc: Option<&String>,
    ) -> (r: Vec<String>)
        ensures
            strings_view(r@) == docs_spec(
                method,
                struct_name@,
                match field_name {
                    Some(s) => Some(s@),
                    None => None,
                },
                field_index as nat,
                match field_doc {
                    Some(s) => Some(s@),
                    None => None,
                },
            ),
    {
        let label = match field_name {
            Some(f) => f.clone(),
            None => decimal(field_index),
        };
        let mut s = String::from_str("Method ");
        s.append(method.doc_phrase());
        s.append(" [`");
        s.append(struct_name.as_str());
        s.append("::");
        s.append(label.as_str());
        s.append("`] field.\n");
        let mut docs: Vec<String> = Vec::new();
        docs.push(s);
        match field_doc {
            Some(d) => docs.push(d.clone()),
            None => {},
        }
        proof {
            assert(strings_view(docs@) =~= docs_spec(
                method,
                struct_name@,
                match field_name {
                    Some(s) => Some(s@),
                    None => None,
                },
                field_index as nat,
                match field_doc {
                    Some(s) => Some(s@),
                    None => None,
                },
            ));
        }
        docs
    }
}

} // verus!
