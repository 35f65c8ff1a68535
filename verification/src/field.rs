//! The field descriptor builder: one raw field declaration plus its
//! parsed attributes become one validated `FieldSpec`, or a hard error.

use vstd::prelude::*;
use vstd::string::StringExecFns;
use crate::attrs::{AttrKind, BuildError, ErrorModel, FieldAttr, FieldAttrModel, opt_view};
use crate::reserved::{is_reserved, reserved_words_spec, upper_of};

verus! {

/// When the database supplies a field's value.
#[derive(Clone, Copy, PartialEq, Eq, Structural, Debug)]
pub enum DefaultType {
    /// Supplied by the database only at insert time; read back once.
    Insert,
    /// Owned by the database for the entity's whole lifetime.
    Always,
}

/// One getter directive, with its optional accessor name.
pub struct GetterCfg {
    pub name: Option<String>,
}

/// Spec-level mirror of `GetterCfg`.
pub ghost struct GetterCfgModel {
    pub name: Option<Seq<char>>,
}

impl View for GetterCfg {
    type V = GetterCfgModel;

    open spec fn view(&self) -> GetterCfgModel {
        GetterCfgModel { name: opt_view(self.name) }
    }
}

impl DeepView for GetterCfg {
    type V = GetterCfgModel;

    open spec fn deep_view(&self) -> GetterCfgModel {
        self.view()
    }
}

impl Clone for GetterCfg {
    fn clone(&self) -> (r: Self)
        ensures
            r@ == self@,
    {
        GetterCfg {
            name: match &self.name {
                Option::Some(n) => Option::Some(n.clone()),
                Option::None => Option::None,
            },
        }
    }
}

/// One validated, mapped field.
pub struct FieldSpec {
    /// Identifier of the field in the host record type.
    pub field: String,
    /// SQL column name; the field name unless overridden.
    pub column_name: String,
    /// Textual reference to the declared type, for the emission backend.
    pub ty: String,
    /// The SQL driver needs an explicit type-cast hint for this field.
    pub custom_type: bool,
    /// The column name's uppercase form is a reserved SQL keyword.
    pub reserved_ident: bool,
    /// When, if ever, the database supplies this field's value.
    pub default: Option<DefaultType>,
    pub get_one: Option<GetterCfg>,
    pub get_optional: Option<GetterCfg>,
    pub get_many: Option<GetterCfg>,
    /// Name of the generated setter, when one was requested.
    pub set: Option<String>,
    /// Bind by reference when used as a statement parameter.
    pub by_ref: bool,
    pub set_as_wildcard: bool,
    /// Pass-through annotations for the insert payload type, in order.
    pub insert_attrs: Vec<String>,
}

/// Spec-level mirror of `FieldSpec`.
pub ghost struct FieldModel {
    pub field: Seq<char>,
    pub column_name: Seq<char>,
    pub ty: Seq<char>,
    pub custom_type: bool,
    pub reserved_ident: bool,
    pub default: Option<DefaultType>,
    pub get_one: Option<GetterCfgModel>,
    pub get_optional: Option<GetterCfgModel>,
    pub get_many: Option<GetterCfgModel>,
    pub set: Option<Seq<char>>,
    pub by_ref: bool,
    pub set_as_wildcard: bool,
    pub insert_attrs: Seq<Seq<char>>,
}

pub open spec fn opt_getter_view(o: Option<GetterCfg>) -> Option<GetterCfgModel> {
    match o {
        Option::Some(g) => Option::Some(g@),
        Option::None => Option::None,
    }
}

impl View for FieldSpec {
    type V = FieldModel;

    open spec fn view(&self) -> FieldModel {
        FieldModel {
            field: self.field@,
            column_name: self.column_name@,
            ty: self.ty@,
            custom_type: self.custom_type,
            reserved_ident: self.reserved_ident,
            default: self.default,
            get_one: opt_getter_view(self.get_one),
            get_optional: opt_getter_view(self.get_optional),
            get_many: opt_getter_view(self.get_many),
            set: opt_view(self.set),
            by_ref: self.by_ref,
            set_as_wildcard: self.set_as_wildcard,
            insert_attrs: self.insert_attrs.deep_view(),
        }
    }
}

impl DeepView for FieldSpec {
    type V = FieldModel;

    open spec fn deep_view(&self) -> FieldModel {
        self.view()
    }
}

fn clone_opt_string(o: &Option<String>) -> (r: Option<String>)
    ensures
        opt_view(r) == opt_view(*o),
{
    match o {
        Option::Some(s) => Option::Some(s.clone()),
        Option::None => Option::None,
    }
}

fn clone_opt_getter(o: &Option<GetterCfg>) -> (r: Option<GetterCfg>)
    ensures
        opt_getter_view(r) == opt_getter_view(*o),
{
    match o {
        Option::Some(g) => Option::Some(g.clone()),
        Option::None => Option::None,
    }
}

fn clone_strings(v: &Vec<String>) -> (r: Vec<String>)
    ensures
        r@ == v@,
{
    let mut r: Vec<String> = Vec::new();
    let mut i: usize = 0;
    while i < v.len()
        invariant
            i <= v.len(),
            r@ =~= v@.take(i as int),
        decreases v.len() - i,
    {
        let s = v[i].clone();
        r.push(s);
        proof {
            assert(r@ =~= v@.take((i + 1) as int));
        }
        i = i + 1;
    }
    proof {
        assert(v@.take(v.len() as int) =~= v@);
    }
    r
}

impl Clone for FieldSpec {
    fn clone(&self) -> (r: Self)
        ensures
            r@ == self@,
    {
        FieldSpec {
            field: self.field.clone(),
            column_name: self.column_name.clone(),
            ty: self.ty.clone(),
            custom_type: self.custom_type,
            reserved_ident: self.reserved_ident,
            default: self.default,
            get_one: clone_opt_getter(&self.get_one),
            get_optional: clone_opt_getter(&self.get_optional),
            get_many: clone_opt_getter(&self.get_many),
            set: clone_opt_string(&self.set),
            by_ref: self.by_ref,
            set_as_wildcard: self.set_as_wildcard,
            insert_attrs: clone_strings(&self.insert_attrs),
        }
    }
}

/// Accumulator of the at-most-once attribute fold.
pub ghost struct FieldAcc {
    pub column: Option<Seq<char>>,
    pub custom_type: Option<bool>,
    pub get_one: Option<GetterCfgModel>,
    pub get_optional: Option<GetterCfgModel>,
    pub get_many: Option<GetterCfgModel>,
    pub set: Option<Seq<char>>,
    pub default: Option<DefaultType>,
    pub by_ref: Option<bool>,
    pub set_as_wildcard: Option<bool>,
    pub insert_attrs: Seq<Seq<char>>,
}

pub open spec fn field_acc_init() -> FieldAcc {
    FieldAcc {
        column: Option::None,
        custom_type: Option::None,
        get_one: Option::None,
        get_optional: Option::None,
        get_many: Option::None,
        set: Option::None,
        default: Option::None,
        by_ref: Option::None,
        set_as_wildcard: Option::None,
        insert_attrs: Seq::empty(),
    }
}

/// One step of the attribute fold: apply `a` to the accumulator, or
/// fail on a repeated attribute or an invalid `default` argument.
pub open spec fn apply_field_attr(name: Seq<char>, acc: FieldAcc, a: FieldAttrModel) -> Result<
    FieldAcc,
    ErrorModel,
> {
    match a {
        FieldAttrModel::Column(c) => if acc.column is Some {
            Result::Err(ErrorModel::DuplicateAttr(AttrKind::Column))
        } else {
            Result::Ok(FieldAcc { column: Option::Some(c), ..acc })
        },
        FieldAttrModel::CustomType => if acc.custom_type is Some {
            Result::Err(ErrorModel::DuplicateAttr(AttrKind::CustomType))
        } else {
            Result::Ok(FieldAcc { custom_type: Option::Some(true), ..acc })
        },
        FieldAttrModel::GetOne(o) => if acc.get_one is Some {
            Result::Err(ErrorModel::DuplicateAttr(AttrKind::GetOne))
        } else {
            Result::Ok(FieldAcc { get_one: Option::Some(GetterCfgModel { name: o }), ..acc })
        },
        FieldAttrModel::GetOptional(o) => if acc.get_optional is Some {
            Result::Err(ErrorModel::DuplicateAttr(AttrKind::GetOptional))
        } else {
            Result::Ok(FieldAcc { get_optional: Option::Some(GetterCfgModel { name: o }), ..acc })
        },
        FieldAttrModel::GetMany(o) => if acc.get_many is Some {
            Result::Err(ErrorModel::DuplicateAttr(AttrKind::GetMany))
        } else {
            Result::Ok(FieldAcc { get_many: Option::Some(GetterCfgModel { name: o }), ..acc })
        },
        FieldAttrModel::Setter(o) => {
            let setter_name = match o {
                Option::Some(n) => n,
                Option::None => "set_"@ + name,
            };
            if acc.set is Some {
                Result::Err(ErrorModel::DuplicateAttr(AttrKind::Setter))
            } else {
                Result::Ok(FieldAcc { set: Option::Some(setter_name), ..acc })
            }
        },
        FieldAttrModel::DefaultAttr(o) => match o {
            Option::Some(arg) => if arg == "always"@ {
                if acc.default is Some {
                    Result::Err(ErrorModel::DuplicateAttr(AttrKind::DefaultAttr))
                } else {
                    Result::Ok(FieldAcc { default: Option::Some(DefaultType::Always), ..acc })
                }
            } else if arg == "insert"@ {
                if acc.default is Some {
                    Result::Err(ErrorModel::DuplicateAttr(AttrKind::DefaultAttr))
                } else {
                    Result::Ok(FieldAcc { default: Option::Some(DefaultType::Insert), ..acc })
                }
            } else {
                Result::Err(ErrorModel::InvalidDefaultArg(arg))
            },
            Option::None => if acc.default is Some {
                Result::Err(ErrorModel::DuplicateAttr(AttrKind::DefaultAttr))
            } else {
                Result::Ok(FieldAcc { default: Option::Some(DefaultType::Insert), ..acc })
            },
        },
        FieldAttrModel::ByRef => if acc.by_ref is Some {
            Result::Err(ErrorModel::DuplicateAttr(AttrKind::ByRef))
        } else {
            Result::Ok(FieldAcc { by_ref: Option::Some(true), ..acc })
        },
        FieldAttrModel::SetAsWildcard => if acc.set_as_wildcard is Some {
            Result::Err(ErrorModel::DuplicateAttr(AttrKind::SetAsWildcard))
        } else {
            Result::Ok(FieldAcc { set_as_wildcard: Option::Some(true), ..acc })
        },
        FieldAttrModel::InsertAttr(s) => Result::Ok(
            FieldAcc { insert_attrs: acc.insert_attrs.push(s), ..acc },
        ),
    }
}

/// The attribute fold, left to right over declaration order.
pub open spec fn fold_field_attrs(
    name: Seq<char>,
    acc: FieldAcc,
    attrs: Seq<FieldAttrModel>,
) -> Result<FieldAcc, ErrorModel>
    decreases attrs.len(),
{
    if attrs.len() == 0 {
        Result::Ok(acc)
    } else {
        match apply_field_attr(name, acc, attrs[0]) {
            Result::Ok(a) => fold_field_attrs(name, a, attrs.drop_first()),
            Result::Err(e) => Result::Err(e),
        }
    }
}

pub proof fn lemma_fold_field_push(
    name: Seq<char>,
    acc: FieldAcc,
    s: Seq<FieldAttrModel>,
    x: FieldAttrModel,
)
    ensures
        fold_field_attrs(name, acc, s.push(x)) == (match fold_field_attrs(name, acc, s) {
            Result::Ok(a) => apply_field_attr(name, a, x),
            Result::Err(e) => Result::Err(e),
        }),
    decreases s.len(),
{
    if s.len() == 0 {
        assert(s.push(x)[0] == x);
        assert(s.push(x).drop_first() =~= Seq::<FieldAttrModel>::empty());
        assert(fold_field_attrs(name, acc, s) == Result::Ok::<FieldAcc, ErrorModel>(acc));
        match apply_field_attr(name, acc, x) {
            Result::Ok(a) => {
                assert(fold_field_attrs(name, a, Seq::<FieldAttrModel>::empty())
                    == Result::Ok::<FieldAcc, ErrorModel>(a));
            },
            Result::Err(_) => {},
        }
    } else {
        assert(s.push(x)[0] == s[0]);
        assert(s.push(x).drop_first() =~= s.drop_first().push(x));
        match apply_field_attr(name, acc, s[0]) {
            Result::Ok(a) => lemma_fold_field_push(name, a, s.drop_first(), x),
            Result::Err(_) => {},
        }
    }
}

pub proof fn lemma_fold_field_prefix_err(
    name: Seq<char>,
    acc: FieldAcc,
    s: Seq<FieldAttrModel>,
    j: int,
)
    requires
        0 <= j <= s.len(),
        fold_field_attrs(name, acc, s.take(j)) is Err,
    ensures
        fold_field_attrs(name, acc, s) == fold_field_attrs(name, acc, s.take(j)),
    decreases s.len(),
{
    if j == 0 {
        assert(s.take(0) =~= Seq::<FieldAttrModel>::empty());
    } else {
        assert(s.take(j)[0] == s[0]);
        match apply_field_attr(name, acc, s[0]) {
            Result::Ok(a) => {
                assert(s.take(j).drop_first() =~= s.drop_first().take(j - 1));
                lemma_fold_field_prefix_err(name, a, s.drop_first(), j - 1);
            },
            Result::Err(_) => {},
        }
    }
}

/// What the field descriptor builder returns: the fold's accumulator,
/// completed with the defaults for whatever was left unspecified.
pub open spec fn build_field_spec(
    name: Seq<char>,
    ty: Seq<char>,
    attrs: Seq<FieldAttrModel>,
) -> Result<FieldModel, ErrorModel> {
    match fold_field_attrs(name, field_acc_init(), attrs) {
        Result::Err(e) => Result::Err(e),
        Result::Ok(acc) => {
            let column_name = match acc.column {
                Option::Some(c) => c,
                Option::None => name,
            };
            Result::Ok(
                FieldModel {
                    field: name,
                    column_name: column_name,
                    ty: ty,
                    custom_type: match acc.custom_type {
                        Option::Some(b) => b,
                        Option::None => false,
                    },
                    reserved_ident: reserved_words_spec().contains(upper_of(column_name)),
                    default: acc.default,
                    get_one: acc.get_one,
                    get_optional: acc.get_optional,
                    get_many: acc.get_many,
                    set: acc.set,
                    by_ref: match acc.by_ref {
                        Option::Some(b) => b,
                        Option::None => false,
                    },
                    set_as_wildcard: match acc.set_as_wildcard {
                        Option::Some(b) => b,
                        Option::None => false,
                    },
                    insert_attrs: acc.insert_attrs,
                },
            )
        },
    }
}

pub open spec fn field_result_view(r: Result<FieldSpec, BuildError>) -> Result<
    FieldModel,
    ErrorModel,
> {
    match r {
        Result::Ok(f) => Result::Ok(f@),
        Result::Err(e) => Result::Err(e@),
    }
}

/// Build one `FieldSpec` from the field's name, its declared type's
/// textual form, and its parsed attributes in declaration order.
///
/// Each at-most-once attribute may appear only once; the `default`
/// argument must be `"always"` or `"insert"` (absent means `"insert"`);
/// a setter without a name becomes `set_<field>`; the column name
/// falls back to the field name; a reserved column name only sets the
/// advisory flag and never fails.
pub fn build_field(name: String, ty: String, attrs: Vec<FieldAttr>) -> (r: Result<
    FieldSpec,
    BuildError,
>)
    ensures
        field_result_view(r) == build_field_spec(name@, ty@, attrs.deep_view()),
{
    let ghost attrs_m: Seq<FieldAttrModel> = attrs.deep_view();
    let mut column: Option<String> = Option::None;
    let mut custom_type: Option<bool> = Option::None;
    let mut get_one: Option<GetterCfg> = Option::None;
    let mut get_optional: Option<GetterCfg> = Option::None;
    let mut get_many: Option<GetterCfg> = Option::None;
    let mut set: Option<String> = Option::None;
    let mut default: Option<DefaultType> = Option::None;
    let mut by_ref: Option<bool> = Option::None;
    let mut set_as_wildcard: Option<bool> = Option::None;
    let mut insert_attrs: Vec<String> = Vec::new();

    proof {
        assert(attrs_m.take(0) =~= Seq::<FieldAttrModel>::empty());
        assert(insert_attrs.deep_view() =~= Seq::<Seq<char>>::empty());
    }
    let mut i: usize = 0;
    while i < attrs.len()
        invariant
            i <= attrs.len(),
            attrs_m == attrs.deep_view(),
            attrs_m.len() == attrs.len(),
            fold_field_attrs(name@, field_acc_init(), attrs_m.take(i as int)) == Result::Ok::<
                FieldAcc,
                ErrorModel,
            >(
                FieldAcc {
                    column: opt_view(column),
                    custom_type: custom_type,
                    get_one: opt_getter_view(get_one),
                    get_optional: opt_getter_view(get_optional),
                    get_many: opt_getter_view(get_many),
                    set: opt_view(set),
                    default: default,
                    by_ref: by_ref,
                    set_as_wildcard: set_as_wildcard,
                    insert_attrs: insert_attrs.deep_view(),
                },
            ),
        decreases attrs.len() - i,
    {
        let ghost acc_before = FieldAcc {
            column: opt_view(column),
            custom_type: custom_type,
            get_one: opt_getter_view(get_one),
            get_optional: opt_getter_view(get_optional),
            get_many: opt_getter_view(get_many),
            set: opt_view(set),
            default: default,
            by_ref: by_ref,
            set_as_wildcard: set_as_wildcard,
            insert_attrs: insert_attrs.deep_view(),
        };
        proof {
            assert(attrs_m.take((i + 1) as int) =~= attrs_m.take(i as int).push(attrs_m[i as int]));
            lemma_fold_field_push(
                name@,
                field_acc_init(),
                attrs_m.take(i as int),
                attrs_m[i as int],
            );
        }
        match &attrs[i] {
            FieldAttr::Column(c) => {
                if column.is_some() {
                    proof {
                        lemma_fold_field_prefix_err(
                            name@,
                            field_acc_init(),
                            attrs_m,
                            (i + 1) as int,
                        );
                    }
                    return Result::Err(BuildError::DuplicateAttr(AttrKind::Column));
                }
                column = Option::Some(c.clone());
            },
            FieldAttr::CustomType => {
                if custom_type.is_some() {
                    proof {
                        lemma_fold_field_prefix_err(
                            name@,
                            field_acc_init(),
                            attrs_m,
                            (i + 1) as int,
                        );
                    }
                    return Result::Err(BuildError::DuplicateAttr(AttrKind::CustomType));
                }
                custom_type = Option::Some(true);
            },
            FieldAttr::GetOne(o) => {
                if get_one.is_some() {
                    proof {
                        lemma_fold_field_prefix_err(
                            name@,
                            field_acc_init(),
                            attrs_m,
                            (i + 1) as int,
                        );
                    }
                    return Result::Err(BuildError::DuplicateAttr(AttrKind::GetOne));
                }
                get_one = Option::Some(GetterCfg { name: clone_opt_string(o) });
            },
            FieldAttr::GetOptional(o) => {
                if get_optional.is_some() {
                    proof {
                        lemma_fold_field_prefix_err(
                            name@,
                            field_acc_init(),
                            attrs_m,
                            (i + 1) as int,
                        );
                    }
                    return Result::Err(BuildError::DuplicateAttr(AttrKind::GetOptional));
                }
                get_optional = Option::Some(GetterCfg { name: clone_opt_string(o) });
            },
            FieldAttr::GetMany(o) => {
                if get_many.is_some() {
                    proof {
                        lemma_fold_field_prefix_err(
                            name@,
                            field_acc_init(),
                            attrs_m,
                            (i + 1) as int,
                        );
                    }
                    return Result::Err(BuildError::DuplicateAttr(AttrKind::GetMany));
                }
                get_many = Option::Some(GetterCfg { name: clone_opt_string(o) });
            },
            FieldAttr::Setter(o) => {
                let setter_name = match o {
                    Option::Some(n) => n.clone(),
                    Option::None => {
                        let mut sn = "set_".to_owned();
                        sn.append(name.as_str());
                        sn
                    },
                };
                if set.is_some() {
                    proof {
                        lemma_fold_field_prefix_err(
                            name@,
                            field_acc_init(),
                            attrs_m,
                            (i + 1) as int,
                        );
                    }
                    return Result::Err(BuildError::DuplicateAttr(AttrKind::Setter));
                }
                set = Option::Some(setter_name);
            },
            FieldAttr::DefaultAttr(o) => {
                let dt: DefaultType = match o {
                    Option::Some(arg) => {
                        let always = "always".to_owned();
                        let insert = "insert".to_owned();
                        if *arg == always {
                            DefaultType::Always
                        } else if *arg == insert {
                            DefaultType::Insert
                        } else {
                            proof {
                                lemma_fold_field_prefix_err(
                                    name@,
                                    field_acc_init(),
                                    attrs_m,
                                    (i + 1) as int,
                                );
                            }
                            return Result::Err(BuildError::InvalidDefaultArg(arg.clone()));
                        }
                    },
                    Option::None => DefaultType::Insert,
                };
                if default.is_some() {
                    proof {
                        lemma_fold_field_prefix_err(
                            name@,
                            field_acc_init(),
                            attrs_m,
                            (i + 1) as int,
                        );
                    }
                    return Result::Err(BuildError::DuplicateAttr(AttrKind::DefaultAttr));
                }
                default = Option::Some(dt);
            },
            FieldAttr::ByRef => {
                if by_ref.is_some() {
                    proof {
                        lemma_fold_field_prefix_err(
                            name@,
                            field_acc_init(),
                            attrs_m,
                            (i + 1) as int,
                        );
                    }
                    return Result::Err(BuildError::DuplicateAttr(AttrKind::ByRef));
                }
                by_ref = Option::Some(true);
            },
            FieldAttr::SetAsWildcard => {
                if set_as_wildcard.is_some() {
                    proof {
                        lemma_fold_field_prefix_err(
                            name@,
                            field_acc_init(),
                            attrs_m,
                            (i + 1) as int,
                        );
                    }
                    return Result::Err(BuildError::DuplicateAttr(AttrKind::SetAsWildcard));
                }
                set_as_wildcard = Option::Some(true);
            },
            FieldAttr::InsertAttr(s) => {
                insert_attrs.push(s.clone());
                proof {
                    assert(insert_attrs.deep_view() =~= acc_before.insert_attrs.push(s@));
                }
            },
        }
        i = i + 1;
    }
    proof {
        assert(attrs_m.take(attrs.len() as int) =~= attrs_m);
    }

    let column_name: String = match &column {
        Option::Some(c) => c.clone(),
        Option::None => name.clone(),
    };
    let reserved_ident = is_reserved(column_name.as_str());
    Result::Ok(
        FieldSpec {
            field: name,
            column_name: column_name,
            ty: ty,
            custom_type: match custom_type {
                Option::Some(b) => b,
                Option::None => false,
            },
            reserved_ident: reserved_ident,
            default: default,
            get_one: get_one,
            get_optional: get_optional,
            get_many: get_many,
            set: set,
            by_ref: match by_ref {
                Option::Some(b) => b,
                Option::None => false,
            },
            set_as_wildcard: match set_as_wildcard {
                Option::Some(b) => b,
                Option::None => false,
            },
            insert_attrs: insert_attrs,
        },
    )
}

} // verus!
