//! The table model builder: all of a declaration's `FieldSpec`s plus
//! its struct-level attributes become one validated `TableSpec`, or a
//! hard error. Cross-field rules live here: id semantics, the
//! default/setter conflict, the required table name, and the advisory
//! reserved-word checks.

use vstd::prelude::*;
use vstd::string::StringExecFns;
use crate::attrs::{
    Advisory, AdvisoryModel, AttrKind, BuildError, ErrorModel, TableAttr, TableAttrModel, opt_view,
};
use crate::field::{DefaultType, FieldModel, FieldSpec};
use crate::reserved::{is_reserved, reserved_words_spec, upper_of};

verus! {

/// Opt-in insert configuration: the name of the companion insert
/// payload type.
pub struct InsertableCfg {
    pub ident: String,
}

/// Spec-level mirror of `InsertableCfg`.
pub ghost struct InsertableModel {
    pub ident: Seq<char>,
}

impl View for InsertableCfg {
    type V = InsertableModel;

    open spec fn view(&self) -> InsertableModel {
        InsertableModel { ident: self.ident@ }
    }
}

impl DeepView for InsertableCfg {
    type V = InsertableModel;

    open spec fn deep_view(&self) -> InsertableModel {
        self.view()
    }
}

impl Clone for InsertableCfg {
    fn clone(&self) -> (r: Self)
        ensures
            r@ == self@,
    {
        InsertableCfg { ident: self.ident.clone() }
    }
}

/// One validated, mapped table.
pub struct TableSpec {
    /// Identifier of the host record type.
    pub ident: String,
    /// SQL table name.
    pub table: String,
    /// The table name's uppercase form is a reserved SQL keyword.
    pub reserved_table_name: bool,
    /// The distinguished id field, with its forced always-default.
    pub id: FieldSpec,
    /// Index of the id field within `fields`.
    pub id_index: usize,
    /// Present when insert code generation was requested.
    pub insertable: Option<InsertableCfg>,
    /// All fields, in declaration order, id included.
    pub fields: Vec<FieldSpec>,
    /// Opt-in delete generation flag, passed through verbatim.
    pub deletable: bool,
}

/// Spec-level mirror of `TableSpec`.
pub ghost struct TableModel {
    pub ident: Seq<char>,
    pub table: Seq<char>,
    pub reserved_table_name: bool,
    pub id: FieldModel,
    pub id_index: int,
    pub insertable: Option<InsertableModel>,
    pub fields: Seq<FieldModel>,
    pub deletable: bool,
}

pub open spec fn opt_insertable_view(o: Option<InsertableCfg>) -> Option<InsertableModel> {
    match o {
        Option::Some(c) => Option::Some(c@),
        Option::None => Option::None,
    }
}

impl View for TableSpec {
    type V = TableModel;

    open spec fn view(&self) -> TableModel {
        TableModel {
            ident: self.ident@,
            table: self.table@,
            reserved_table_name: self.reserved_table_name,
            id: self.id@,
            id_index: self.id_index as int,
            insertable: opt_insertable_view(self.insertable),
            fields: self.fields.deep_view(),
            deletable: self.deletable,
        }
    }
}

/// A well-formed table model: the id slot points into the field list,
/// names the same field, and that field is always-default; and no
/// field combines an always-default with a setter.
pub open spec fn table_wf(t: TableModel) -> bool {
    &&& 0 <= t.id_index < t.fields.len()
    &&& t.fields[t.id_index] == t.id
    &&& t.id.default == Option::Some(DefaultType::Always)
    &&& forall|j: int|
        0 <= j < t.fields.len() ==> !(#[trigger] t.fields[j].set is Some && t.fields[j].default
            == Option::Some(DefaultType::Always))
}

/// Accumulator of the struct-level attribute fold.
pub ghost struct TableAcc {
    pub table: Option<Seq<char>>,
    pub id: Option<Seq<char>>,
    pub insertable: Option<InsertableModel>,
    pub deletable: Option<bool>,
}

pub open spec fn table_acc_init() -> TableAcc {
    TableAcc {
        table: Option::None,
        id: Option::None,
        insertable: Option::None,
        deletable: Option::None,
    }
}

/// One step of the struct-level attribute fold.
pub open spec fn apply_table_attr(ident: Seq<char>, acc: TableAcc, a: TableAttrModel) -> Result<
    TableAcc,
    ErrorModel,
> {
    match a {
        TableAttrModel::TableName(x) => if acc.table is Some {
            Result::Err(ErrorModel::DuplicateAttr(AttrKind::TableName))
        } else {
            Result::Ok(TableAcc { table: Option::Some(x), ..acc })
        },
        TableAttrModel::Id(x) => if acc.id is Some {
            Result::Err(ErrorModel::DuplicateAttr(AttrKind::Id))
        } else {
            Result::Ok(TableAcc { id: Option::Some(x), ..acc })
        },
        TableAttrModel::Insertable(o) => {
            let name = match o {
                Option::Some(n) => n,
                Option::None => "Insert"@ + ident,
            };
            if acc.insertable is Some {
                Result::Err(ErrorModel::DuplicateAttr(AttrKind::Insertable))
            } else {
                Result::Ok(
                    TableAcc { insertable: Option::Some(InsertableModel { ident: name }), ..acc },
                )
            }
        },
        TableAttrModel::Deletable => if acc.deletable is Some {
            Result::Err(ErrorModel::DuplicateAttr(AttrKind::Deletable))
        } else {
            Result::Ok(TableAcc { deletable: Option::Some(true), ..acc })
        },
    }
}

/// The struct-level attribute fold, left to right.
pub open spec fn fold_table_attrs(
    ident: Seq<char>,
    acc: TableAcc,
    attrs: Seq<TableAttrModel>,
) -> Result<TableAcc, ErrorModel>
    decreases attrs.len(),
{
    if attrs.len() == 0 {
        Result::Ok(acc)
    } else {
        match apply_table_attr(ident, acc, attrs[0]) {
            Result::Ok(a) => fold_table_attrs(ident, a, attrs.drop_first()),
            Result::Err(e) => Result::Err(e),
        }
    }
}

pub proof fn lemma_fold_table_push(
    ident: Seq<char>,
    acc: TableAcc,
    s: Seq<TableAttrModel>,
    x: TableAttrModel,
)
    ensures
        fold_table_attrs(ident, acc, s.push(x)) == (match fold_table_attrs(ident, acc, s) {
            Result::Ok(a) => apply_table_attr(ident, a, x),
            Result::Err(e) => Result::Err(e),
        }),
    decreases s.len(),
{
    if s.len() == 0 {
        assert(s.push(x)[0] == x);
        assert(s.push(x).drop_first() =~= Seq::<TableAttrModel>::empty());
        assert(fold_table_attrs(ident, acc, s) == Result::Ok::<TableAcc, ErrorModel>(acc));
        match apply_table_attr(ident, acc, x) {
            Result::Ok(a) => {
                assert(fold_table_attrs(ident, a, Seq::<TableAttrModel>::empty())
                    == Result::Ok::<TableAcc, ErrorModel>(a));
            },
            Result::Err(_) => {},
        }
    } else {
        assert(s.push(x)[0] == s[0]);
        assert(s.push(x).drop_first() =~= s.drop_first().push(x));
        match apply_table_attr(ident, acc, s[0]) {
            Result::Ok(a) => lemma_fold_table_push(ident, a, s.drop_first(), x),
            Result::Err(_) => {},
        }
    }
}

pub proof fn lemma_fold_table_prefix_err(
    ident: Seq<char>,
    acc: TableAcc,
    s: Seq<TableAttrModel>,
    j: int,
)
    requires
        0 <= j <= s.len(),
        fold_table_attrs(ident, acc, s.take(j)) is Err,
    ensures
        fold_table_attrs(ident, acc, s) == fold_table_attrs(ident, acc, s.take(j)),
    decreases s.len(),
{
    if j == 0 {
        assert(s.take(0) =~= Seq::<TableAttrModel>::empty());
    } else {
        assert(s.take(j)[0] == s[0]);
        match apply_table_attr(ident, acc, s[0]) {
            Result::Ok(a) => {
                assert(s.take(j).drop_first() =~= s.drop_first().take(j - 1));
                lemma_fold_table_prefix_err(ident, a, s.drop_first(), j - 1);
            },
            Result::Err(_) => {},
        }
    }
}

/// Index of the first field named `name`, if any.
pub open spec fn find_named(fields: Seq<FieldModel>, name: Seq<char>) -> Option<int>
    decreases fields.len(),
{
    if fields.len() == 0 {
        Option::None
    } else if fields[0].field == name {
        Option::Some(0)
    } else {
        match find_named(fields.drop_first(), name) {
            Option::Some(i) => Option::Some(i + 1),
            Option::None => Option::None,
        }
    }
}

pub proof fn lemma_find_named_props(fields: Seq<FieldModel>, name: Seq<char>)
    ensures
        match find_named(fields, name) {
            Option::Some(i) => 0 <= i < fields.len() && fields[i].field == name,
            Option::None => true,
        },
    decreases fields.len(),
{
    if fields.len() > 0 && fields[0].field != name {
        lemma_find_named_props(fields.drop_first(), name);
    }
}

pub proof fn lemma_find_named_at(fields: Seq<FieldModel>, name: Seq<char>, i: int)
    requires
        0 <= i < fields.len(),
        fields[i].field == name,
        forall|j: int| 0 <= j < i ==> (#[trigger] fields[j]).field != name,
    ensures
        find_named(fields, name) == Option::Some(i),
    decreases i,
{
    if i > 0 {
        assert(fields[0].field != name);
        lemma_find_named_at(fields.drop_first(), name, i - 1);
    }
}

pub proof fn lemma_find_named_none(fields: Seq<FieldModel>, name: Seq<char>)
    requires
        forall|j: int| 0 <= j < fields.len() ==> (#[trigger] fields[j]).field != name,
    ensures
        find_named(fields, name) is None,
    decreases fields.len(),
{
    if fields.len() > 0 {
        lemma_find_named_none(fields.drop_first(), name);
    }
}

/// An always-default field that also has a setter configured.
pub open spec fn setter_conflict(f: FieldModel) -> bool {
    f.set is Some && f.default == Option::Some(DefaultType::Always)
}

/// Index of the first field breaking the setter rule, if any.
pub open spec fn first_setter_conflict(fields: Seq<FieldModel>) -> Option<int>
    decreases fields.len(),
{
    if fields.len() == 0 {
        Option::None
    } else if setter_conflict(fields[0]) {
        Option::Some(0)
    } else {
        match first_setter_conflict(fields.drop_first()) {
            Option::Some(i) => Option::Some(i + 1),
            Option::None => Option::None,
        }
    }
}

pub proof fn lemma_first_conflict_at(fields: Seq<FieldModel>, i: int)
    requires
        0 <= i < fields.len(),
        setter_conflict(fields[i]),
        forall|j: int| 0 <= j < i ==> !setter_conflict(#[trigger] fields[j]),
    ensures
        first_setter_conflict(fields) == Option::Some(i),
    decreases i,
{
    if i > 0 {
        lemma_first_conflict_at(fields.drop_first(), i - 1);
    }
}

pub proof fn lemma_first_conflict_none(fields: Seq<FieldModel>)
    requires
        forall|j: int| 0 <= j < fields.len() ==> !setter_conflict(#[trigger] fields[j]),
    ensures
        first_setter_conflict(fields) is None,
    decreases fields.len(),
{
    if fields.len() > 0 {
        lemma_first_conflict_none(fields.drop_first());
    }
}

/// The field list with the id field's default forced to always.
pub open spec fn force_id(fields: Seq<FieldModel>, i: int) -> Seq<FieldModel> {
    fields.update(
        i,
        FieldModel { default: Option::Some(DefaultType::Always), ..fields[i] },
    )
}

/// What the table model builder returns: the attribute fold, the id
/// lookup and forcing, the setter rule, the required table name, and
/// the reserved-word advisory flag, in that order.
pub open spec fn build_table_spec(
    ident: Seq<char>,
    attrs: Seq<TableAttrModel>,
    fields: Seq<FieldModel>,
) -> Result<TableModel, ErrorModel> {
    match fold_table_attrs(ident, table_acc_init(), attrs) {
        Result::Err(e) => Result::Err(e),
        Result::Ok(acc) => {
            let id_name = match acc.id {
                Option::Some(n) => n,
                Option::None => "id"@,
            };
            match find_named(fields, id_name) {
                Option::None => Result::Err(ErrorModel::IdFieldMissing),
                Option::Some(i) => if fields[i].default == Option::Some(DefaultType::Insert) {
                    Result::Err(ErrorModel::IdDefaultConflict)
                } else {
                    let forced = force_id(fields, i);
                    match first_setter_conflict(forced) {
                        Option::Some(j) => Result::Err(
                            ErrorModel::AlwaysDefaultWithSetter(forced[j].field),
                        ),
                        Option::None => match acc.table {
                            Option::None => Result::Err(ErrorModel::MissingTableAttr),
                            Option::Some(tname) => Result::Ok(
                                TableModel {
                                    ident: ident,
                                    table: tname,
                                    reserved_table_name: reserved_words_spec().contains(
                                        upper_of(tname),
                                    ),
                                    id: forced[i],
                                    id_index: i,
                                    insertable: acc.insertable,
                                    fields: forced,
                                    deletable: match acc.deletable {
                                        Option::Some(b) => b,
                                        Option::None => false,
                                    },
                                },
                            ),
                        },
                    }
                },
            }
        },
    }
}

pub open spec fn table_result_view(r: Result<TableSpec, BuildError>) -> Result<
    TableModel,
    ErrorModel,
> {
    match r {
        Result::Ok(t) => Result::Ok(t@),
        Result::Err(e) => Result::Err(e@),
    }
}

/// Fold the struct-level attributes, enforcing the at-most-once rule.
fn scan_table_attrs(ident: &String, attrs: &Vec<TableAttr>) -> (r: Result<
    (Option<String>, Option<String>, Option<InsertableCfg>, Option<bool>),
    BuildError,
>)
    ensures
        (match r {
            Result::Ok((table, id, ins, del)) => fold_table_attrs(
                ident@,
                table_acc_init(),
                attrs.deep_view(),
            ) == Result::Ok::<TableAcc, ErrorModel>(
                TableAcc {
                    table: opt_view(table),
                    id: opt_view(id),
                    insertable: opt_insertable_view(ins),
                    deletable: del,
                },
            ),
            Result::Err(e) => fold_table_attrs(ident@, table_acc_init(), attrs.deep_view())
                == Result::Err::<TableAcc, ErrorModel>(e@),
        }),
{
    let ghost attrs_m: Seq<TableAttrModel> = attrs.deep_view();
    let mut table: Option<String> = Option::None;
    let mut id: Option<String> = Option::None;
    let mut insertable: Option<InsertableCfg> = Option::None;
    let mut deletable: Option<bool> = Option::None;

    proof {
        assert(attrs_m.take(0) =~= Seq::<TableAttrModel>::empty());
    }
    let mut i: usize = 0;
    while i < attrs.len()
        invariant
            i <= attrs.len(),
            attrs_m == attrs.deep_view(),
            attrs_m.len() == attrs.len(),
            fold_table_attrs(ident@, table_acc_init(), attrs_m.take(i as int)) == Result::Ok::<
                TableAcc,
                ErrorModel,
            >(
                TableAcc {
                    table: opt_view(table),
                    id: opt_view(id),
                    insertable: opt_insertable_view(insertable),
                    deletable: deletable,
                },
            ),
        decreases attrs.len() - i,
    {
        proof {
            assert(attrs_m.take((i + 1) as int) =~= attrs_m.take(i as int).push(attrs_m[i as int]));
            lemma_fold_table_push(
                ident@,
                table_acc_init(),
                attrs_m.take(i as int),
                attrs_m[i as int],
            );
        }
        match &attrs[i] {
            TableAttr::TableName(x) => {
                if table.is_some() {
                    proof {
                        lemma_fold_table_prefix_err(
                            ident@,
                            table_acc_init(),
                            attrs_m,
                            (i + 1) as int,
                        );
                    }
                    return Result::Err(BuildError::DuplicateAttr(AttrKind::TableName));
                }
                table = Option::Some(x.clone());
            },
            TableAttr::Id(x) => {
                if id.is_some() {
                    proof {
                        lemma_fold_table_prefix_err(
                            ident@,
                            table_acc_init(),
                            attrs_m,
                            (i + 1) as int,
                        );
                    }
                    return Result::Err(BuildError::DuplicateAttr(AttrKind::Id));
                }
                id = Option::Some(x.clone());
            },
            TableAttr::Insertable(o) => {
                let name: String = match o {
                    Option::Some(n) => n.clone(),
                    Option::None => {
                        let mut s = "Insert".to_owned();
                        s.append(ident.as_str());
                        s
                    },
                };
                if insertable.is_some() {
                    proof {
                        lemma_fold_table_prefix_err(
                            ident@,
                            table_acc_init(),
                            attrs_m,
                            (i + 1) as int,
                        );
                    }
                    return Result::Err(BuildError::DuplicateAttr(AttrKind::Insertable));
                }
                insertable = Option::Some(InsertableCfg { ident: name });
            },
            TableAttr::Deletable => {
                if deletable.is_some() {
                    proof {
                        lemma_fold_table_prefix_err(
                            ident@,
                            table_acc_init(),
                            attrs_m,
                            (i + 1) as int,
                        );
                    }
                    return Result::Err(BuildError::DuplicateAttr(AttrKind::Deletable));
                }
                deletable = Option::Some(true);
            },
        }
        i = i + 1;
    }
    proof {
        assert(attrs_m.take(attrs.len() as int) =~= attrs_m);
    }
    Result::Ok((table, id, insertable, deletable))
}

/// Index of the first field named `name`, if any.
fn find_field_index(fields: &Vec<FieldSpec>, name: &String) -> (r: Option<usize>)
    ensures
        find_named(fields.deep_view(), name@) == (match r {
            Option::Some(i) => Option::Some(i as int),
            Option::None => Option::None::<int>,
        }),
        r matches Option::Some(i) ==> i < fields.len(),
{
    let ghost fields_m = fields.deep_view();
    let mut idx: usize = 0;
    while idx < fields.len()
        invariant
            idx <= fields.len(),
            fields_m == fields.deep_view(),
            fields_m.len() == fields.len(),
            forall|j: int| 0 <= j < idx ==> (#[trigger] fields_m[j]).field != name@,
        decreases fields.len() - idx,
    {
        proof {
            assert(fields.deep_view()[idx as int] == fields@[idx as int].deep_view());
        }
        if fields[idx].field == *name {
            proof {
                lemma_find_named_at(fields_m, name@, idx as int);
            }
            return Option::Some(idx);
        }
        idx = idx + 1;
    }
    proof {
        lemma_find_named_none(fields_m, name@);
    }
    Option::None
}

/// Copy the field list, forcing the field at `idx` to always-default.
fn force_id_fields(fields: &Vec<FieldSpec>, idx: usize) -> (r: Vec<FieldSpec>)
    requires
        idx < fields@.len(),
    ensures
        r.deep_view() == force_id(fields.deep_view(), idx as int),
        r@.len() == fields@.len(),
{
    let ghost fields_m = fields.deep_view();
    let ghost forced_m = force_id(fields_m, idx as int);
    let mut r: Vec<FieldSpec> = Vec::new();
    proof {
        assert(r.deep_view() =~= forced_m.take(0));
    }
    let mut k: usize = 0;
    while k < fields.len()
        invariant
            k <= fields.len(),
            fields_m == fields.deep_view(),
            fields_m.len() == fields.len(),
            idx < fields.len(),
            forced_m == force_id(fields_m, idx as int),
            forced_m.len() == fields_m.len(),
            r@.len() == k,
            r.deep_view() == forced_m.take(k as int),
        decreases fields.len() - k,
    {
        let mut c = fields[k].clone();
        if k == idx {
            c.default = Option::Some(DefaultType::Always);
        }
        proof {
            assert(c.deep_view() == forced_m[k as int]);
        }
        r.push(c);
        proof {
            assert forall|j: int| 0 <= j < k + 1 implies #[trigger] r.deep_view()[j]
                == forced_m.take((k + 1) as int)[j] by {
                if j < k {
                    assert(r@[j] == r@.take(k as int)[j]);
                    assert(r.deep_view()[j] == r@[j].deep_view());
                } else {
                    assert(r@[j].deep_view() == forced_m[k as int]);
                }
            }
            assert(r.deep_view() =~= forced_m.take((k + 1) as int));
        }
        k = k + 1;
    }
    proof {
        assert(forced_m.take(fields.len() as int) =~= forced_m);
    }
    r
}

/// Index of the first field that breaks the setter rule, if any.
fn find_setter_conflict(fields: &Vec<FieldSpec>) -> (r: Option<usize>)
    ensures
        first_setter_conflict(fields.deep_view()) == (match r {
            Option::Some(i) => Option::Some(i as int),
            Option::None => Option::None::<int>,
        }),
        r matches Option::Some(i) ==> i < fields.len(),
        r is None ==> forall|m: int|
            0 <= m < fields.deep_view().len() ==> !setter_conflict(
                #[trigger] fields.deep_view()[m],
            ),
{
    let ghost fields_m = fields.deep_view();
    let mut j: usize = 0;
    while j < fields.len()
        invariant
            j <= fields.len(),
            fields_m == fields.deep_view(),
            fields_m.len() == fields.len(),
            forall|m: int| 0 <= m < j ==> !setter_conflict(#[trigger] fields_m[m]),
        decreases fields.len() - j,
    {
        proof {
            assert(fields.deep_view()[j as int] == fields@[j as int].deep_view());
        }
        let has_set: bool = fields[j].set.is_some();
        let is_always: bool = match fields[j].default {
            Option::Some(DefaultType::Always) => true,
            _ => false,
        };
        if has_set && is_always {
            proof {
                assert(setter_conflict(fields_m[j as int]));
                lemma_first_conflict_at(fields_m, j as int);
            }
            return Option::Some(j);
        }
        j = j + 1;
    }
    proof {
        lemma_first_conflict_none(fields_m);
    }
    Option::None
}

/// Build one `TableSpec` from the record type's identifier, its parsed
/// struct-level attributes in declaration order, and its already-built
/// field descriptors in declaration order.
///
/// The id field (named by the `id` attribute, else the literal `id`)
/// must exist and is forced to always-default; an explicit non-always
/// default on it is a hard error. No field may combine an
/// always-default with a setter. The `table` attribute is required.
/// A reserved table name only sets the advisory flag and never fails.
#[verifier::rlimit(30)]
pub fn build_table(ident: String, attrs: Vec<TableAttr>, fields: Vec<FieldSpec>) -> (r: Result<
    TableSpec,
    BuildError,
>)
    ensures
        table_result_view(r) == build_table_spec(ident@, attrs.deep_view(), fields.deep_view()),
        r matches Result::Ok(t) ==> table_wf(t@),
{
    let ghost fields_m: Seq<FieldModel> = fields.deep_view();

    let (table, id, insertable, deletable) = match scan_table_attrs(&ident, &attrs) {
        Result::Ok(acc) => acc,
        Result::Err(e) => {
            return Result::Err(e);
        },
    };

    let id_name: String = match &id {
        Option::Some(n) => n.clone(),
        Option::None => "id".to_owned(),
    };

    let idx: usize = match find_field_index(&fields, &id_name) {
        Option::Some(i) => i,
        Option::None => {
            return Result::Err(BuildError::IdFieldMissing);
        },
    };

    proof {
        assert(fields.deep_view()[idx as int] == fields@[idx as int].deep_view());
    }
    let id_is_insert: bool = match fields[idx].default {
        Option::Some(DefaultType::Insert) => true,
        _ => false,
    };
    if id_is_insert {
        return Result::Err(BuildError::IdDefaultConflict);
    }

    let forced = force_id_fields(&fields, idx);

    match find_setter_conflict(&forced) {
        Option::Some(j) => {
            proof {
                assert(forced.deep_view()[j as int] == forced@[j as int].deep_view());
            }
            return Result::Err(BuildError::AlwaysDefaultWithSetter(forced[j].field.clone()));
        },
        Option::None => {},
    }

    let table_name: String = match table {
        Option::Some(t) => t,
        Option::None => {
            return Result::Err(BuildError::MissingTableAttr);
        },
    };
    let reserved_table_name = is_reserved(table_name.as_str());

    proof {
        assert(forced.deep_view()[idx as int] == forced@[idx as int].deep_view());
    }
    let id_field = forced[idx].clone();
    let result = TableSpec {
        ident: ident,
        table: table_name,
        reserved_table_name: reserved_table_name,
        id: id_field,
        id_index: idx,
        insertable: insertable,
        fields: forced,
        deletable: match deletable {
            Option::Some(b) => b,
            Option::None => false,
        },
    };
    proof {
        assert(result@.fields == force_id(fields_m, idx as int));
    }
    Result::Ok(result)
}

/// A caller-supplied field: the database provides no default for it.
pub open spec fn is_insertable_field(f: FieldModel) -> bool {
    f.default is None
}

/// A database-supplied field: its value must be read back after insert.
pub open spec fn is_default_field(f: FieldModel) -> bool {
    f.default is Some
}

/// The insertable-fields view: declaration order, caller-supplied only.
pub open spec fn insertable_view(fields: Seq<FieldModel>) -> Seq<FieldModel> {
    fields.filter(|f: FieldModel| is_insertable_field(f))
}

/// The default-fields view: declaration order, database-supplied only.
pub open spec fn default_view(fields: Seq<FieldModel>) -> Seq<FieldModel> {
    fields.filter(|f: FieldModel| is_default_field(f))
}

impl TableSpec {
    /// The fields the caller must supply on insert, in declaration order.
    pub fn insertable_fields(&self) -> (r: Vec<FieldSpec>)
        ensures
            r.deep_view() == insertable_view(self@.fields),
    {
        let ghost fields_m = self.fields.deep_view();
        let mut r: Vec<FieldSpec> = Vec::new();
        proof {
            broadcast use Seq::lemma_filter_push;

            assert(fields_m.take(0) =~= Seq::<FieldModel>::empty());
            assert(r.deep_view() =~= insertable_view(fields_m.take(0)));
        }
        let mut i: usize = 0;
        while i < self.fields.len()
            invariant
                i <= self.fields.len(),
                fields_m == self.fields.deep_view(),
                fields_m.len() == self.fields.len(),
                r.deep_view() == insertable_view(fields_m.take(i as int)),
            decreases self.fields.len() - i,
        {
            proof {
                broadcast use Seq::lemma_filter_push;

                assert(fields_m.take((i + 1) as int) =~= fields_m.take(i as int).push(
                    fields_m[i as int],
                ));
            }
            let keep: bool = self.fields[i].default.is_none();
            if keep {
                let ghost prev = r.deep_view();
                let c = self.fields[i].clone();
                proof {
                    assert(c.deep_view() == fields_m[i as int]);
                }
                r.push(c);
                proof {
                    assert forall|j: int| 0 <= j < prev.len() + 1 implies #[trigger] r.deep_view()[j]
                        == prev.push(fields_m[i as int])[j] by {
                        if j < prev.len() {
                            assert(r@[j] == r@.take(r@.len() - 1)[j]);
                            assert(r.deep_view()[j] == r@[j].deep_view());
                        } else {
                            assert(r@[j].deep_view() == fields_m[i as int]);
                        }
                    }
                    assert(r.deep_view() =~= prev.push(fields_m[i as int]));
                }
            }
            i = i + 1;
        }
        proof {
            assert(fields_m.take(self.fields.len() as int) =~= fields_m);
        }
        r
    }

    /// The fields the database supplies, in declaration order.
    pub fn default_fields(&self) -> (r: Vec<FieldSpec>)
        ensures
            r.deep_view() == default_view(self@.fields),
    {
        let ghost fields_m = self.fields.deep_view();
        let mut r: Vec<FieldSpec> = Vec::new();
        proof {
            broadcast use Seq::lemma_filter_push;

            assert(fields_m.take(0) =~= Seq::<FieldModel>::empty());
            assert(r.deep_view() =~= default_view(fields_m.take(0)));
        }
        let mut i: usize = 0;
        while i < self.fields.len()
            invariant
                i <= self.fields.len(),
                fields_m == self.fields.deep_view(),
                fields_m.len() == self.fields.len(),
                r.deep_view() == default_view(fields_m.take(i as int)),
            decreases self.fields.len() - i,
        {
            proof {
                broadcast use Seq::lemma_filter_push;

                assert(fields_m.take((i + 1) as int) =~= fields_m.take(i as int).push(
                    fields_m[i as int],
                ));
            }
            let keep: bool = self.fields[i].default.is_some();
            if keep {
                let ghost prev = r.deep_view();
                let c = self.fields[i].clone();
                proof {
                    assert(c.deep_view() == fields_m[i as int]);
                }
                r.push(c);
                proof {
                    assert forall|j: int| 0 <= j < prev.len() + 1 implies #[trigger] r.deep_view()[j]
                        == prev.push(fields_m[i as int])[j] by {
                        if j < prev.len() {
                            assert(r@[j] == r@.take(r@.len() - 1)[j]);
                            assert(r.deep_view()[j] == r@[j].deep_view());
                        } else {
                            assert(r@[j].deep_view() == fields_m[i as int]);
                        }
                    }
                    assert(r.deep_view() =~= prev.push(fields_m[i as int]));
                }
            }
            i = i + 1;
        }
        proof {
            assert(fields_m.take(self.fields.len() as int) =~= fields_m);
        }
        r
    }

    /// The SQL table name.
    pub fn name(&self) -> (r: &String)
        ensures
            r@ == self@.table,
    {
        &self.table
    }
}

/// The advisory list for `t`: one entry per reserved column name, in
/// declaration order, then one for a reserved table name.
pub open spec fn advisories_spec(t: TableModel) -> Seq<AdvisoryModel> {
    let cols = t.fields.filter(|f: FieldModel| f.reserved_ident).map_values(
        |f: FieldModel| AdvisoryModel::ReservedColumn(f.column_name),
    );
    if t.reserved_table_name {
        cols.push(AdvisoryModel::ReservedTableName(t.table))
    } else {
        cols
    }
}

/// The reserved-word advisories for a built table, in a stable order.
/// Advisories never block generation.
pub fn advisories(t: &TableSpec) -> (r: Vec<Advisory>)
    ensures
        r.deep_view() == advisories_spec(t@),
{
    let ghost fields_m = t.fields.deep_view();
    let mut r: Vec<Advisory> = Vec::new();
    proof {
        broadcast use Seq::lemma_filter_push;

        assert(fields_m.take(0) =~= Seq::<FieldModel>::empty());
        assert(fields_m.take(0).filter(|f: FieldModel| f.reserved_ident).map_values(
            |f: FieldModel| AdvisoryModel::ReservedColumn(f.column_name),
        ) =~= Seq::<AdvisoryModel>::empty());
        assert(r.deep_view() =~= Seq::<AdvisoryModel>::empty());
    }
    let mut i: usize = 0;
    while i < t.fields.len()
        invariant
            i <= t.fields.len(),
            fields_m == t.fields.deep_view(),
            fields_m.len() == t.fields.len(),
            r.deep_view() == fields_m.take(i as int).filter(|f: FieldModel| f.reserved_ident)
                .map_values(|f: FieldModel| AdvisoryModel::ReservedColumn(f.column_name)),
        decreases t.fields.len() - i,
    {
        proof {
            broadcast use Seq::lemma_filter_push;

            assert(fields_m.take((i + 1) as int) =~= fields_m.take(i as int).push(
                fields_m[i as int],
            ));
            assert(fields_m.take((i + 1) as int).filter(|f: FieldModel| f.reserved_ident)
                == if fields_m[i as int].reserved_ident {
                    fields_m.take(i as int).filter(|f: FieldModel| f.reserved_ident).push(
                        fields_m[i as int],
                    )
                } else {
                    fields_m.take(i as int).filter(|f: FieldModel| f.reserved_ident)
                });
        }
        if t.fields[i].reserved_ident {
            let ghost prev = r.deep_view();
            let a = Advisory::ReservedColumn(t.fields[i].column_name.clone());
            proof {
                assert(a.deep_view() == AdvisoryModel::ReservedColumn(
                    fields_m[i as int].column_name,
                ));
            }
            r.push(a);
            proof {
                assert forall|j: int| 0 <= j < prev.len() + 1 implies #[trigger] r.deep_view()[j]
                    == prev.push(AdvisoryModel::ReservedColumn(fields_m[i as int].column_name))[j]
                by {
                    if j < prev.len() {
                        assert(r@[j] == r@.take(r@.len() - 1)[j]);
                        assert(r.deep_view()[j] == r@[j].deep_view());
                    } else {
                        assert(r@[j].deep_view() == AdvisoryModel::ReservedColumn(
                            fields_m[i as int].column_name,
                        ));
                    }
                }
                assert(r.deep_view() =~= prev.push(
                    AdvisoryModel::ReservedColumn(fields_m[i as int].column_name),
                ));
                let pm = fields_m.take((i + 1) as int).filter(|f: FieldModel| f.reserved_ident);
                let qm = fields_m.take(i as int).filter(|f: FieldModel| f.reserved_ident);
                assert(pm =~= qm.push(fields_m[i as int]));
                assert(pm.map_values(
                    |f: FieldModel| AdvisoryModel::ReservedColumn(f.column_name),
                ) =~= qm.map_values(|f: FieldModel| AdvisoryModel::ReservedColumn(f.column_name)).push(
                    AdvisoryModel::ReservedColumn(fields_m[i as int].column_name),
                ));
            }
        } else {
            proof {
                let pm = fields_m.take((i + 1) as int).filter(|f: FieldModel| f.reserved_ident);
                let qm = fields_m.take(i as int).filter(|f: FieldModel| f.reserved_ident);
                assert(pm.map_values(
                    |f: FieldModel| AdvisoryModel::ReservedColumn(f.column_name),
                ) =~= qm.map_values(|f: FieldModel| AdvisoryModel::ReservedColumn(f.column_name)));
            }
        }
        i = i + 1;
    }
    proof {
        assert(fields_m.take(t.fields.len() as int) =~= fields_m);
    }
    if t.reserved_table_name {
        let ghost prev = r.deep_view();
        let a = Advisory::ReservedTableName(t.table.clone());
        r.push(a);
        proof {
            assert forall|j: int| 0 <= j < prev.len() + 1 implies #[trigger] r.deep_view()[j]
                == prev.push(AdvisoryModel::ReservedTableName(t@.table))[j] by {
                if j < prev.len() {
                    assert(r@[j] == r@.take(r@.len() - 1)[j]);
                    assert(r.deep_view()[j] == r@[j].deep_view());
                } else {
                    assert(r@[j].deep_view() == AdvisoryModel::ReservedTableName(t@.table));
                }
            }
            assert(r.deep_view() =~= prev.push(AdvisoryModel::ReservedTableName(t@.table)));
        }
    }
    r
}

} // verus!
