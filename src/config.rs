//! Configuration requests: the key/value options written in `getter`
//! annotations, the schema they are validated against, and their merge.

use vstd::prelude::*;
use vstd::string::*;

verus! {

/// The keys that a `getter` annotation may hold.
#[derive(PartialEq, Eq, Structural, Clone, Copy, Debug)]
pub enum ArgKey {
    Prefix,
    All,
    AsCopy,
    AsClone,
    AsRef,
    AsMut,
    Skip,
    BaseName,
}

/// The value written for a key: none (a bare flag) or a string literal.
#[derive(Clone, Debug)]
pub enum ArgValue {
    Flag,
    Str(String),
}

/// Mathematical model of an [`ArgValue`].
pub enum ArgView {
    Flag,
    Str(Seq<char>),
}

impl View for ArgValue {
    type V = ArgView;

    open spec fn view(&self) -> ArgView {
        match self {
            ArgValue::Flag => ArgView::Flag,
            ArgValue::Str(s) => ArgView::Str(s@),
        }
    }
}

pub open spec fn opt_view(o: Option<ArgValue>) -> Option<ArgView> {
    match o {
        Some(v) => Some(v@),
        None => None,
    }
}

impl ArgValue {
    /// A copy of this value.
    pub fn copied(&self) -> (r: ArgValue)
        ensures
            r@ == self@,
    {
        match self {
            ArgValue::Flag => ArgValue::Flag,
            ArgValue::Str(s) => ArgValue::Str(s.clone()),
        }
    }
}

pub fn copy_opt(o: &Option<ArgValue>) -> (r: Option<ArgValue>)
    ensures
        opt_view(r) == opt_view(*o),
{
    match o {
        Some(v) => Some(v.copied()),
        None => None,
    }
}

/// One `key` or `key = "value"` entry, as written in an annotation.
#[derive(Clone, Debug)]
pub struct RawArg {
    pub name: String,
    pub value: ArgValue,
}

impl View for RawArg {
    type V = (Seq<char>, ArgView);

    open spec fn view(&self) -> (Seq<char>, ArgView) {
        (self.name@, self.value@)
    }
}

/// Why a configuration or a record cannot be turned into accessors.
#[derive(PartialEq, Eq, Structural, Clone, Copy, Debug)]
pub enum ShapeKind {
    Enum,
    Union,
    TupleStruct,
    UnitStruct,
}

/// Which two options were requested together.
#[derive(PartialEq, Eq, Structural, Clone, Copy, Debug)]
pub enum Conflict {
    AllWithExplicit,
    CopyAndClone,
}

/// A generation failure.
#[derive(Clone, Debug)]
pub enum GetterError {
    UnsupportedShape(ShapeKind),
    UnknownArgument(String),
    DuplicateArgument(ArgKey),
    ProhibitedArgument(ArgKey),
    WrongValueClass(ArgKey),
    ConflictingOptions(Conflict),
    MissingBaseName,
}

/// Mathematical model of a [`GetterError`].
pub enum ErrView {
    UnsupportedShape(ShapeKind),
    UnknownArgument(Seq<char>),
    DuplicateArgument(ArgKey),
    ProhibitedArgument(ArgKey),
    WrongValueClass(ArgKey),
    ConflictingOptions(Conflict),
    MissingBaseName,
}

impl View for GetterError {
    type V = ErrView;

    open spec fn view(&self) -> ErrView {
        match self {
            GetterError::UnsupportedShape(k) => ErrView::UnsupportedShape(*k),
            GetterError::UnknownArgument(s) => ErrView::UnknownArgument(s@),
            GetterError::DuplicateArgument(k) => ErrView::DuplicateArgument(*k),
            GetterError::ProhibitedArgument(k) => ErrView::ProhibitedArgument(*k),
            GetterError::WrongValueClass(k) => ErrView::WrongValueClass(*k),
            GetterError::ConflictingOptions(c) => ErrView::ConflictingOptions(*c),
            GetterError::MissingBaseName => ErrView::MissingBaseName,
        }
    }
}

/// The name under which a key is written.
pub open spec fn key_name_spec(k: ArgKey) -> Seq<char> {
    match k {
        ArgKey::Prefix => "prefix"@,
        ArgKey::All => "all"@,
        ArgKey::AsCopy => "as_copy"@,
        ArgKey::AsClone => "as_clone"@,
        ArgKey::AsRef => "as_ref"@,
        ArgKey::AsMut => "as_mut"@,
        ArgKey::Skip => "skip"@,
        ArgKey::BaseName => "base_name"@,
    }
}

impl ArgKey {
    /// The name under which the key is written.
    pub fn name(&self) -> (r: &'static str)
        ensures
            r@ == key_name_spec(*self),
    {
        match self {
            ArgKey::Prefix => "prefix",
            ArgKey::All => "all",
            ArgKey::AsCopy => "as_copy",
            ArgKey::AsClone => "as_clone",
            ArgKey::AsRef => "as_ref",
            ArgKey::AsMut => "as_mut",
            ArgKey::Skip => "skip",
            ArgKey::BaseName => "base_name",
        }
    }
}

/// The diagnostic text of an error.
pub open spec fn message_spec(e: ErrView) -> Seq<char> {
    match e {
        ErrView::UnsupportedShape(ShapeKind::Enum) => "Deriving getters is not supported in enums"@,
        ErrView::UnsupportedShape(ShapeKind::Union) => "Deriving getters is not supported in unions"@,
        ErrView::UnsupportedShape(ShapeKind::TupleStruct) =>
            "Deriving getters is not supported for tuple-based structs"@,
        ErrView::UnsupportedShape(ShapeKind::UnitStruct) =>
            "Deriving getters is meaningless for unit structs"@,
        ErrView::UnknownArgument(n) => "Attribute `getter` has an unknown argument `"@ + n + "`"@,
        ErrView::DuplicateArgument(k) => "Argument `"@ + key_name_spec(k)
            + "` of attribute `getter` is given more than once"@,
        ErrView::ProhibitedArgument(k) => "Argument `"@ + key_name_spec(k)
            + "` of attribute `getter` is not allowed here"@,
        ErrView::WrongValueClass(k) => "Argument `"@ + key_name_spec(k)
            + "` of attribute `getter` has a value of the wrong kind"@,
        ErrView::ConflictingOptions(Conflict::AllWithExplicit) =>
            "`all` attribute can't be combined with other"@,
        ErrView::ConflictingOptions(Conflict::CopyAndClone) =>
            "`as_clone` and `as_copy` attributes can't be present together"@,
        ErrView::MissingBaseName =>
            "Unnamed fields must be equipped with `#[getter(base_name = \"name\"]` attribute"@,
    }
}

impl GetterError {
    /// The diagnostic text of the error.
    pub fn message(&self) -> (r: String)
        ensures
            r@ == message_spec(self@),
    {
        match self {
            GetterError::UnsupportedShape(ShapeKind::Enum) => String::from_str(
                "Deriving getters is not supported in enums",
            ),
            GetterError::UnsupportedShape(ShapeKind::Union) => String::from_str(
                "Deriving getters is not supported in unions",
            ),
            GetterError::UnsupportedShape(ShapeKind::TupleStruct) => String::from_str(
                "Deriving getters is not supported for tuple-based structs",
            ),
            GetterError::UnsupportedShape(ShapeKind::UnitStruct) => String::from_str(
                "Deriving getters is meaningless for unit structs",
            ),
            GetterError::UnknownArgument(n) => {
                let mut s = String::from_str("Attribute `getter` has an unknown argument `");
                s.append(n.as_str());
                s.append("`");
                s
            },
            GetterError::DuplicateArgument(k) => {
                let mut s = String::from_str("Argument `");
                s.append(k.name());
                s.append("` of attribute `getter` is given more than once");
                s
            },
            GetterError::ProhibitedArgument(k) => {
                let mut s = String::from_str("Argument `");
                s.append(k.name());
                s.append("` of attribute `getter` is not allowed here");
                s
            },
            GetterError::WrongValueClass(k) => {
                let mut s = String::from_str("Argument `");
                s.append(k.name());
                s.append("` of attribute `getter` has a value of the wrong kind");
                s
            },
            GetterError::ConflictingOptions(Conflict::AllWithExplicit) => String::from_str(
                "`all` attribute can't be combined with other",
            ),
            GetterError::ConflictingOptions(Conflict::CopyAndClone) => String::from_str(
                "`as_clone` and `as_copy` attributes can't be present together",
            ),
            GetterError::MissingBaseName => String::from_str(
                "Unnamed fields must be equipped with `#[getter(base_name = \"name\"]` attribute",
            ),
        }
    }
}

/// A set of options, at most one value per key. A key that is `None` was not
/// written.
#[derive(Clone, Debug)]
pub struct ConfigRequest {
    pub prefix: Option<ArgValue>,
    pub all: Option<ArgValue>,
    pub as_copy: Option<ArgValue>,
    pub as_clone: Option<ArgValue>,
    pub as_ref: Option<ArgValue>,
    pub as_mut: Option<ArgValue>,
    pub skip: Option<ArgValue>,
    pub base_name: Option<ArgValue>,
}

/// Mathematical model of a [`ConfigRequest`]: a map from keys to values,
/// written as one slot per key.
pub struct ReqView {
    pub prefix: Option<ArgView>,
    pub all: Option<ArgView>,
    pub as_copy: Option<ArgView>,
    pub as_clone: Option<ArgView>,
    pub as_ref: Option<ArgView>,
    pub as_mut: Option<ArgView>,
    pub skip: Option<ArgView>,
    pub base_name: Option<ArgView>,
}

impl ReqView {
    pub open spec fn empty() -> ReqView {
        ReqView {
            prefix: None,
            all: None,
            as_copy: None,
            as_clone: None,
            as_ref: None,
            as_mut: None,
            skip: None,
            base_name: None,
        }
    }

    pub open spec fn get(self, k: ArgKey) -> Option<ArgView> {
        match k {
            ArgKey::Prefix => self.prefix,
            ArgKey::All => self.all,
            ArgKey::AsCopy => self.as_copy,
            ArgKey::AsClone => self.as_clone,
            ArgKey::AsRef => self.as_ref,
            ArgKey::AsMut => self.as_mut,
            ArgKey::Skip => self.skip,
            ArgKey::BaseName => self.base_name,
        }
    }

    pub open spec fn set(self, k: ArgKey, v: Option<ArgView>) -> ReqView {
        match k {
            ArgKey::Prefix => ReqView { prefix: v, ..self },
            ArgKey::All => ReqView { all: v, ..self },
            ArgKey::AsCopy => ReqView { as_copy: v, ..self },
            ArgKey::AsClone => ReqView { as_clone: v, ..self },
            ArgKey::AsRef => ReqView { as_ref: v, ..self },
            ArgKey::AsMut => ReqView { as_mut: v, ..self },
            ArgKey::Skip => ReqView { skip: v, ..self },
            ArgKey::BaseName => ReqView { base_name: v, ..self },
        }
    }

    /// Whether any accessor style is requested explicitly.
    pub open spec fn has_style(self) -> bool {
        self.as_copy is Some || self.as_clone is Some || self.as_ref is Some
            || self.as_mut is Some
    }
}

impl View for ConfigRequest {
    type V = ReqView;

    open spec fn view(&self) -> ReqView {
        ReqView {
            prefix: opt_view(self.prefix),
            all: opt_view(self.all),
            as_copy: opt_view(self.as_copy),
            as_clone: opt_view(self.as_clone),
            as_ref: opt_view(self.as_ref),
            as_mut: opt_view(self.as_mut),
            skip: opt_view(self.skip),
            base_name: opt_view(self.base_name),
        }
    }
}

/// The key that an argument name stands for, if any.
pub open spec fn key_of(name: Seq<char>) -> Option<ArgKey> {
    if name == "prefix"@ {
        Some(ArgKey::Prefix)
    } else if name == "all"@ {
        Some(ArgKey::All)
    } else if name == "as_copy"@ {
        Some(ArgKey::AsCopy)
    } else if name == "as_clone"@ {
        Some(ArgKey::AsClone)
    } else if name == "as_ref"@ {
        Some(ArgKey::AsRef)
    } else if name == "as_mut"@ {
        Some(ArgKey::AsMut)
    } else if name == "skip"@ {
        Some(ArgKey::Skip)
    } else if name == "base_name"@ {
        Some(ArgKey::BaseName)
    } else {
        None
    }
}

/// Collecting entries in order: an unknown name or a key seen before is an
/// error, and the first such entry decides which.
pub open spec fn parse_spec(s: Seq<(Seq<char>, ArgView)>) -> Result<ReqView, ErrView>
    decreases s.len(),
{
    if s.len() == 0 {
        Ok(ReqView::empty())
    } else {
        match parse_spec(s.drop_last()) {
            Err(e) => Err(e),
            Ok(r) => {
                let (name, v) = s.last();
                match key_of(name) {
                    None => Err(ErrView::UnknownArgument(name)),
                    Some(k) => if r.get(k) is Some {
                        Err(ErrView::DuplicateArgument(k))
                    } else {
                        Ok(r.set(k, Some(v)))
                    },
                }
            }
        }
    }
}

/// Once an entry fails, every longer run of entries fails the same way.
proof fn lemma_parse_err_extends(s: Seq<(Seq<char>, ArgView)>, j: int, k: int)
    requires
        0 <= j <= k <= s.len(),
        parse_spec(s.take(j)) is Err,
    ensures
        parse_spec(s.take(k)) == parse_spec(s.take(j)),
    decreases k - j,
{
    if k > j {
        lemma_parse_err_extends(s, j, k - 1);
        assert(s.take(k).drop_last() =~= s.take(k - 1));
    }
}

pub open spec fn raw_view(s: Seq<RawArg>) -> Seq<(Seq<char>, ArgView)> {
    s.map_values(|a: RawArg| a@)
}

/// Local options win over base options, key by key.
pub open spec fn merged_spec(base: ReqView, over: ReqView) -> ReqView {
    ReqView {
        prefix: if over.prefix is Some { over.prefix } else { base.prefix },
        all: if over.all is Some { over.all } else { base.all },
        as_copy: if over.as_copy is Some { over.as_copy } else { base.as_copy },
        as_clone: if over.as_clone is Some { over.as_clone } else { base.as_clone },
        as_ref: if over.as_ref is Some { over.as_ref } else { base.as_ref },
        as_mut: if over.as_mut is Some { over.as_mut } else { base.as_mut },
        skip: if over.skip is Some { over.skip } else { base.skip },
        base_name: if over.base_name is Some { over.base_name } else { base.base_name },
    }
}


/// What the schema asks of one key.
#[derive(Clone, Debug)]
pub enum ArgReq {
    /// The key may not be written at this level.
    Prohibited,
    /// The key may be written, without a value.
    Flag,
    /// The key may be written, with a string value.
    OptionalStr,
    /// The key may be written with a string value or bare; bare, it takes the
    /// default.
    WithDefault(String),
}

pub enum ArgReqView {
    Prohibited,
    Flag,
    OptionalStr,
    WithDefault(Seq<char>),
}

impl View for ArgReq {
    type V = ArgReqView;

    open spec fn view(&self) -> ArgReqView {
        match self {
            ArgReq::Prohibited => ArgReqView::Prohibited,
            ArgReq::Flag => ArgReqView::Flag,
            ArgReq::OptionalStr => ArgReqView::OptionalStr,
            ArgReq::WithDefault(d) => ArgReqView::WithDefault(d@),
        }
    }
}

/// The schema of `getter` annotations: on the type (`global`) or on a field.
/// `skip` and `base_name` are field options only.
pub open spec fn requirement_spec(k: ArgKey, global: bool) -> ArgReqView {
    match k {
        ArgKey::Prefix => ArgReqView::WithDefault(Seq::empty()),
        ArgKey::All => ArgReqView::Flag,
        ArgKey::AsCopy => ArgReqView::WithDefault(Seq::empty()),
        ArgKey::AsClone => ArgReqView::WithDefault(Seq::empty()),
        ArgKey::AsRef => ArgReqView::WithDefault("_ref"@),
        ArgKey::AsMut => ArgReqView::WithDefault("_mut"@),
        ArgKey::Skip => if global {
            ArgReqView::Prohibited
        } else {
            ArgReqView::Flag
        },
        ArgKey::BaseName => if global {
            ArgReqView::Prohibited
        } else {
            ArgReqView::OptionalStr
        },
    }
}

pub fn requirement(k: ArgKey, global: bool) -> (r: ArgReq)
    ensures
        r@ == requirement_spec(k, global),
{
    match k {
        ArgKey::Prefix => ArgReq::WithDefault(String::new()),
        ArgKey::All => ArgReq::Flag,
        ArgKey::AsCopy => ArgReq::WithDefault(String::new()),
        ArgKey::AsClone => ArgReq::WithDefault(String::new()),
        ArgKey::AsRef => ArgReq::WithDefault(String::from_str("_ref")),
        ArgKey::AsMut => ArgReq::WithDefault(String::from_str("_mut")),
        ArgKey::Skip => if global {
            ArgReq::Prohibited
        } else {
            ArgReq::Flag
        },
        ArgKey::BaseName => if global {
            ArgReq::Prohibited
        } else {
            ArgReq::OptionalStr
        },
    }
}

/// One key checked against its requirement: the value kept, or the error.
pub open spec fn check_arg_spec(k: ArgKey, v: Option<ArgView>, req: ArgReqView) -> Result<
    Option<ArgView>,
    ErrView,
> {
    match v {
        None => Ok(None),
        Some(a) => match req {
            ArgReqView::Prohibited => Err(ErrView::ProhibitedArgument(k)),
            ArgReqView::Flag => if a is Flag {
                Ok(Some(a))
            } else {
                Err(ErrView::WrongValueClass(k))
            },
            ArgReqView::OptionalStr => if a is Str {
                Ok(Some(a))
            } else {
                Err(ErrView::WrongValueClass(k))
            },
            ArgReqView::WithDefault(d) => if a is Str {
                Ok(Some(a))
            } else {
                Ok(Some(ArgView::Str(d)))
            },
        },
    }
}

/// The order in which keys are checked.
pub open spec fn key_at(i: int) -> ArgKey {
    if i == 0 {
        ArgKey::Prefix
    } else if i == 1 {
        ArgKey::All
    } else if i == 2 {
        ArgKey::AsCopy
    } else if i == 3 {
        ArgKey::AsClone
    } else if i == 4 {
        ArgKey::AsRef
    } else if i == 5 {
        ArgKey::AsMut
    } else if i == 6 {
        ArgKey::Skip
    } else {
        ArgKey::BaseName
    }
}

pub const NUM_KEYS: usize = 8;

pub open spec fn check_from(r: ReqView, global: bool, i: nat) -> Result<ReqView, ErrView>
    decreases NUM_KEYS - i,
{
    if i >= NUM_KEYS {
        Ok(r)
    } else {
        let k = key_at(i as int);
        match check_arg_spec(k, r.get(k), requirement_spec(k, global)) {
            Err(e) => Err(e),
            Ok(v) => check_from(r.set(k, v), global, i + 1),
        }
    }
}

/// A request validated against the schema of its level, bare keys filled
/// with their defaults.
pub open spec fn check_spec(r: ReqView, global: bool) -> Result<ReqView, ErrView> {
    check_from(r, global, 0)
}

pub open spec fn req_result(r: Result<ConfigRequest, GetterError>) -> Result<ReqView, ErrView> {
    match r {
        Ok(c) => Ok(c@),
        Err(e) => Err(e@),
    }
}

pub fn key_index(i: usize) -> (k: ArgKey)
    ensures
        k == key_at(i as int),
{
    if i == 0 {
        ArgKey::Prefix
    } else if i == 1 {
        ArgKey::All
    } else if i == 2 {
        ArgKey::AsCopy
    } else if i == 3 {
        ArgKey::AsClone
    } else if i == 4 {
        ArgKey::AsRef
    } else if i == 5 {
        ArgKey::AsMut
    } else if i == 6 {
        ArgKey::Skip
    } else {
        ArgKey::BaseName
    }
}

/// Checks one value against its requirement.
pub fn check_arg(k: ArgKey, v: &Option<ArgValue>, req: &ArgReq) -> (r: Result<
    Option<ArgValue>,
    GetterError,
>)
    ensures
        match r {
            Ok(o) => check_arg_spec(k, opt_view(*v), req@) == Ok::<Option<ArgView>, ErrView>(
                opt_view(o),
            ),
            Err(e) => check_arg_spec(k, opt_view(*v), req@) == Err::<Option<ArgView>, ErrView>(
                e@,
            ),
        },
{
    match v {
        None => Ok(None),
        Some(a) => match req {
            ArgReq::Prohibited => Err(GetterError::ProhibitedArgument(k)),
            ArgReq::Flag => match a {
                ArgValue::Flag => Ok(Some(ArgValue::Flag)),
                ArgValue::Str(_) => Err(GetterError::WrongValueClass(k)),
            },
            ArgReq::OptionalStr => match a {
                ArgValue::Str(s) => Ok(Some(ArgValue::Str(s.clone()))),
                ArgValue::Flag => Err(GetterError::WrongValueClass(k)),
            },
            ArgReq::WithDefault(d) => match a {
                ArgValue::Str(s) => Ok(Some(ArgValue::Str(s.clone()))),
                ArgValue::Flag => Ok(Some(ArgValue::Str(d.clone()))),
            },
        },
    }
}

pub fn key_from_name(name: &String) -> (r: Option<ArgKey>)
    ensures
        r == key_of(name@),
{
    if *name == String::from_str("prefix") {
        Some(ArgKey::Prefix)
    } else if *name == String::from_str("all") {
        Some(ArgKey::All)
    } else if *name == String::from_str("as_copy") {
        Some(ArgKey::AsCopy)
    } else if *name == String::from_str("as_clone") {
        Some(ArgKey::AsClone)
    } else if *name == String::from_str("as_ref") {
        Some(ArgKey::AsRef)
    } else if *name == String::from_str("as_mut") {
        Some(ArgKey::AsMut)
    } else if *name == String::from_str("skip") {
        Some(ArgKey::Skip)
    } else if *name == String::from_str("base_name") {
        Some(ArgKey::BaseName)
    } else {
        None
    }
}

impl ConfigRequest {
    /// A request with no options.
    pub fn new() -> (r: ConfigRequest)
        ensures
            r@ == ReqView::empty(),
    {
        ConfigRequest {
            prefix: None,
            all: None,
            as_copy: None,
            as_clone: None,
            as_ref: None,
            as_mut: None,
            skip: None,
            base_name: None,
        }
    }

    /// The value held for `k`.
    pub fn slot(&self, k: ArgKey) -> (r: &Option<ArgValue>)
        ensures
            opt_view(*r) == self@.get(k),
    {
        match k {
            ArgKey::Prefix => &self.prefix,
            ArgKey::All => &self.all,
            ArgKey::AsCopy => &self.as_copy,
            ArgKey::AsClone => &self.as_clone,
            ArgKey::AsRef => &self.as_ref,
            ArgKey::AsMut => &self.as_mut,
            ArgKey::Skip => &self.skip,
            ArgKey::BaseName => &self.base_name,
        }
    }

    /// Whether `k` was written.
    pub fn contains_key(&self, k: ArgKey) -> (r: bool)
        ensures
            r == self@.get(k) is Some,
    {
        self.slot(k).is_some()
    }

    /// Replaces the value held for `k`.
    pub fn set(&mut self, k: ArgKey, v: Option<ArgValue>)
        ensures
            final(self)@ == old(self)@.set(k, opt_view(v)),
    {
        match k {
            ArgKey::Prefix => self.prefix = v,
            ArgKey::All => self.all = v,
            ArgKey::AsCopy => self.as_copy = v,
            ArgKey::AsClone => self.as_clone = v,
            ArgKey::AsRef => self.as_ref = v,
            ArgKey::AsMut => self.as_mut = v,
            ArgKey::Skip => self.skip = v,
            ArgKey::BaseName => self.base_name = v,
        }
    }

    /// Collects the entries of all annotations on one item into a request.
    pub fn parse(args: &Vec<RawArg>) -> (r: Result<ConfigRequest, GetterError>)
        ensures
            match r {
                Ok(c) => parse_spec(raw_view(args@)) == Ok::<ReqView, ErrView>(c@),
                Err(e) => parse_spec(raw_view(args@)) == Err::<ReqView, ErrView>(e@),
            },
    {
        let mut acc = ConfigRequest::new();
        let mut i: usize = 0;
        while i < args.len()
            invariant
                0 <= i <= args.len(),
                parse_spec(raw_view(args@.take(i as int))) == Ok::<ReqView, ErrView>(acc@),
            decreases args.len() - i,
        {
            let a = &args[i];
            proof {
                assert(raw_view(args@.take(i + 1)).drop_last() =~= raw_view(args@.take(i as int)));
                assert(raw_view(args@.take(i + 1)).last() == a@);
            }
            match key_from_name(&a.name) {
                None => {
                    proof {
                        assert(raw_view(args@).take(i + 1) =~= raw_view(args@.take(i + 1)));
                        lemma_parse_err_extends(raw_view(args@), i + 1, args@.len() as int);
                        assert(raw_view(args@).take(args@.len() as int) =~= raw_view(args@));
                    }
                    return Err(GetterError::UnknownArgument(a.name.clone()));
                },
                Some(k) => {
                    if acc.contains_key(k) {
                        proof {
                            assert(raw_view(args@).take(i + 1) =~= raw_view(args@.take(i + 1)));
                            lemma_parse_err_extends(raw_view(args@), i + 1, args@.len() as int);
                            assert(raw_view(args@).take(args@.len() as int) =~= raw_view(args@));
                        }
                        return Err(GetterError::DuplicateArgument(k));
                    }
                    acc.set(k, Some(a.value.copied()));
                },
            }
            i = i + 1;
        }
        assert(args@.take(args@.len() as int) =~= args@);
        Ok(acc)
    }

    /// Validates the request against the schema of its level (`global` for
    /// the type, else a field), filling bare keys with their defaults.
    pub fn checked(&self, global: bool) -> (r: Result<ConfigRequest, GetterError>)
        ensures
            req_result(r) == check_spec(self@, global),
    {
        let mut acc = self.clone_request();
        let mut i: usize = 0;
        while i < NUM_KEYS
            invariant
                0 <= i <= NUM_KEYS,
                check_from(self@, global, 0) == check_from(acc@, global, i as nat),
            decreases NUM_KEYS - i,
        {
            let k = key_index(i);
            let req = requirement(k, global);
            let v = check_arg(k, acc.slot(k), &req)?;
            acc.set(k, v);
            i = i + 1;
        }
        Ok(acc)
    }

    /// A copy of this request.
    pub fn clone_request(&self) -> (r: ConfigRequest)
        ensures
            r@ == self@,
    {
        ConfigRequest {
            prefix: copy_opt(&self.prefix),
            all: copy_opt(&self.all),
            as_copy: copy_opt(&self.as_copy),
            as_clone: copy_opt(&self.as_clone),
            as_ref: copy_opt(&self.as_ref),
            as_mut: copy_opt(&self.as_mut),
            skip: copy_opt(&self.skip),
            base_name: copy_opt(&self.base_name),
        }
    }

    /// This request with `other`'s options laid over it, key by key.
    pub fn merged(&self, other: &ConfigRequest) -> (r: ConfigRequest)
        ensures
            r@ == merged_spec(self@, other@),
    {
        ConfigRequest {
            prefix: if other.prefix.is_some() { copy_opt(&other.prefix) } else { copy_opt(&self.prefix) },
            all: if other.all.is_some() { copy_opt(&other.all) } else { copy_opt(&self.all) },
            as_copy: if other.as_copy.is_some() { copy_opt(&other.as_copy) } else { copy_opt(&self.as_copy) },
            as_clone: if other.as_clone.is_some() { copy_opt(&other.as_clone) } else { copy_opt(&self.as_clone) },
            as_ref: if other.as_ref.is_some() { copy_opt(&other.as_ref) } else { copy_opt(&self.as_ref) },
            as_mut: if other.as_mut.is_some() { copy_opt(&other.as_mut) } else { copy_opt(&self.as_mut) },
            skip: if other.skip.is_some() { copy_opt(&other.skip) } else { copy_opt(&self.skip) },
            base_name: if other.base_name.is_some() { copy_opt(&other.base_name) } else { copy_opt(&self.base_name) },
        }
    }
}

} // verus!
