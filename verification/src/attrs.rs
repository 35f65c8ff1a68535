//! Parsed attribute values handed to the builders, and the two outcome
//! channels of validation: hard errors and advisories.

use vstd::prelude::*;

verus! {

/// The attribute kinds that may be given at most once per field or per
/// struct; a hard error names the kind that was repeated.
#[derive(Clone, Copy, PartialEq, Eq, Structural, Debug)]
pub enum AttrKind {
    Column,
    CustomType,
    GetOne,
    GetOptional,
    GetMany,
    Setter,
    DefaultAttr,
    ByRef,
    SetAsWildcard,
    TableName,
    Id,
    Insertable,
    Deletable,
}

/// One parsed field-level attribute, in declaration order.
pub enum FieldAttr {
    /// Override of the SQL column name.
    Column(String),
    /// The SQL driver needs an explicit type-cast hint for this field.
    CustomType,
    /// Getter returning exactly one row, with an optional accessor name.
    GetOne(Option<String>),
    /// Getter returning zero or one row, with an optional accessor name.
    GetOptional(Option<String>),
    /// Getter returning many rows, with an optional accessor name.
    GetMany(Option<String>),
    /// Setter directive; without a name, `set_<field>` is synthesized.
    Setter(Option<String>),
    /// Default-value directive with its optional raw string argument;
    /// only `"always"` and `"insert"` are legal arguments.
    DefaultAttr(Option<String>),
    /// Bind this field by reference when used as a statement parameter.
    ByRef,
    SetAsWildcard,
    /// Pass-through annotation for the insert payload type; entries
    /// accumulate in declaration order rather than conflicting.
    InsertAttr(String),
}

/// Spec-level mirror of `FieldAttr`.
pub ghost enum FieldAttrModel {
    Column(Seq<char>),
    CustomType,
    GetOne(Option<Seq<char>>),
    GetOptional(Option<Seq<char>>),
    GetMany(Option<Seq<char>>),
    Setter(Option<Seq<char>>),
    DefaultAttr(Option<Seq<char>>),
    ByRef,
    SetAsWildcard,
    InsertAttr(Seq<char>),
}

pub open spec fn opt_view(o: Option<String>) -> Option<Seq<char>> {
    match o {
        Option::Some(s) => Option::Some(s@),
        Option::None => Option::None,
    }
}

impl View for FieldAttr {
    type V = FieldAttrModel;

    open spec fn view(&self) -> FieldAttrModel {
        match self {
            FieldAttr::Column(s) => FieldAttrModel::Column(s@),
            FieldAttr::CustomType => FieldAttrModel::CustomType,
            FieldAttr::GetOne(o) => FieldAttrModel::GetOne(opt_view(*o)),
            FieldAttr::GetOptional(o) => FieldAttrModel::GetOptional(opt_view(*o)),
            FieldAttr::GetMany(o) => FieldAttrModel::GetMany(opt_view(*o)),
            FieldAttr::Setter(o) => FieldAttrModel::Setter(opt_view(*o)),
            FieldAttr::DefaultAttr(o) => FieldAttrModel::DefaultAttr(opt_view(*o)),
            FieldAttr::ByRef => FieldAttrModel::ByRef,
            FieldAttr::SetAsWildcard => FieldAttrModel::SetAsWildcard,
            FieldAttr::InsertAttr(s) => FieldAttrModel::InsertAttr(s@),
        }
    }
}

impl DeepView for FieldAttr {
    type V = FieldAttrModel;

    open spec fn deep_view(&self) -> FieldAttrModel {
        self.view()
    }
}

/// One parsed struct-level attribute, in declaration order.
pub enum TableAttr {
    /// The SQL table name (required).
    TableName(String),
    /// The name of the id field; defaults to `id` when absent.
    Id(String),
    /// Opt-in to insert generation, optionally naming the insert payload
    /// type; without a name, `Insert<StructName>` is synthesized.
    Insertable(Option<String>),
    /// Opt-in to delete generation (consumed elsewhere; passed through).
    Deletable,
}

/// Spec-level mirror of `TableAttr`.
pub ghost enum TableAttrModel {
    TableName(Seq<char>),
    Id(Seq<char>),
    Insertable(Option<Seq<char>>),
    Deletable,
}

impl View for TableAttr {
    type V = TableAttrModel;

    open spec fn view(&self) -> TableAttrModel {
        match self {
            TableAttr::TableName(s) => TableAttrModel::TableName(s@),
            TableAttr::Id(s) => TableAttrModel::Id(s@),
            TableAttr::Insertable(o) => TableAttrModel::Insertable(opt_view(*o)),
            TableAttr::Deletable => TableAttrModel::Deletable,
        }
    }
}

impl DeepView for TableAttr {
    type V = TableAttrModel;

    open spec fn deep_view(&self) -> TableAttrModel {
        self.view()
    }
}

/// A hard error: it aborts model building for the offending declaration.
#[derive(Debug)]
pub enum BuildError {
    /// An at-most-once attribute was given twice.
    DuplicateAttr(AttrKind),
    /// The `default` argument was neither `"always"` nor `"insert"`.
    InvalidDefaultArg(String),
    /// No field matches the configured (or implicit `id`) id field name.
    IdFieldMissing,
    /// The id field carries an explicit non-always default.
    IdDefaultConflict,
    /// The named always-default field also has a setter configured.
    AlwaysDefaultWithSetter(String),
    /// The required `table` attribute is absent.
    MissingTableAttr,
}

/// Spec-level mirror of `BuildError`.
pub ghost enum ErrorModel {
    DuplicateAttr(AttrKind),
    InvalidDefaultArg(Seq<char>),
    IdFieldMissing,
    IdDefaultConflict,
    AlwaysDefaultWithSetter(Seq<char>),
    MissingTableAttr,
}

impl View for BuildError {
    type V = ErrorModel;

    open spec fn view(&self) -> ErrorModel {
        match self {
            BuildError::DuplicateAttr(k) => ErrorModel::DuplicateAttr(*k),
            BuildError::InvalidDefaultArg(s) => ErrorModel::InvalidDefaultArg(s@),
            BuildError::IdFieldMissing => ErrorModel::IdFieldMissing,
            BuildError::IdDefaultConflict => ErrorModel::IdDefaultConflict,
            BuildError::AlwaysDefaultWithSetter(s) => ErrorModel::AlwaysDefaultWithSetter(s@),
            BuildError::MissingTableAttr => ErrorModel::MissingTableAttr,
        }
    }
}

impl DeepView for BuildError {
    type V = ErrorModel;

    open spec fn deep_view(&self) -> ErrorModel {
        self.view()
    }
}

/// An advisory: reported, but generation proceeds unchanged.
pub enum Advisory {
    /// A column name whose uppercase form is a reserved SQL keyword.
    ReservedColumn(String),
    /// A table name whose uppercase form is a reserved SQL keyword.
    ReservedTableName(String),
}

/// Spec-level mirror of `Advisory`.
pub ghost enum AdvisoryModel {
    ReservedColumn(Seq<char>),
    ReservedTableName(Seq<char>),
}

impl View for Advisory {
    type V = AdvisoryModel;

    open spec fn view(&self) -> AdvisoryModel {
        match self {
            Advisory::ReservedColumn(s) => AdvisoryModel::ReservedColumn(s@),
            Advisory::ReservedTableName(s) => AdvisoryModel::ReservedTableName(s@),
        }
    }
}

impl DeepView for Advisory {
    type V = AdvisoryModel;

    open spec fn deep_view(&self) -> AdvisoryModel {
        self.view()
    }
}

/// The attribute name as it is written in a declaration.
pub open spec fn attr_kind_name_spec(k: AttrKind) -> Seq<char> {
    match k {
        AttrKind::Column => "column"@,
        AttrKind::CustomType => "custom_type"@,
        AttrKind::GetOne => "get_one"@,
        AttrKind::GetOptional => "get_optional"@,
        AttrKind::GetMany => "get_many"@,
        AttrKind::Setter => "set"@,
        AttrKind::DefaultAttr => "default"@,
        AttrKind::ByRef => "by_ref"@,
        AttrKind::SetAsWildcard => "set_as_wildcard"@,
        AttrKind::TableName => "table"@,
        AttrKind::Id => "id"@,
        AttrKind::Insertable => "insertable"@,
        AttrKind::Deletable => "deletable"@,
    }
}

pub fn attr_kind_name(k: AttrKind) -> (r: &'static str)
    ensures
        r@ == attr_kind_name_spec(k),
{
    match k {
        AttrKind::Column => "column",
        AttrKind::CustomType => "custom_type",
        AttrKind::GetOne => "get_one",
        AttrKind::GetOptional => "get_optional",
        AttrKind::GetMany => "get_many",
        AttrKind::Setter => "set",
        AttrKind::DefaultAttr => "default",
        AttrKind::ByRef => "by_ref",
        AttrKind::SetAsWildcard => "set_as_wildcard",
        AttrKind::TableName => "table",
        AttrKind::Id => "id",
        AttrKind::Insertable => "insertable",
        AttrKind::Deletable => "deletable",
    }
}

/// The human-readable message of a hard error.
pub open spec fn error_message_spec(e: ErrorModel) -> Seq<char> {
    match e {
        ErrorModel::DuplicateAttr(k) => "duplicate attribute: "@ + attr_kind_name_spec(k),
        ErrorModel::InvalidDefaultArg(_) => "allowed values: \"always\", \"insert\""@,
        ErrorModel::IdFieldMissing => "id field does not exist in struct"@,
        ErrorModel::IdDefaultConflict =>
            "the id field is always always-default and another default-behavior cannot be specified"@,
        ErrorModel::AlwaysDefaultWithSetter(_) => "an always-default field cannot have a setter"@,
        ErrorModel::MissingTableAttr => "missing required attribute: table"@,
    }
}

impl BuildError {
    /// The human-readable message reported at the declaration site.
    pub fn message(&self) -> (r: String)
        ensures
            r@ == error_message_spec(self@),
    {
        match self {
            BuildError::DuplicateAttr(k) => {
                let mut s = "duplicate attribute: ".to_owned();
                s.append(attr_kind_name(*k));
                s
            },
            BuildError::InvalidDefaultArg(_) => "allowed values: \"always\", \"insert\"".to_owned(),
            BuildError::IdFieldMissing => "id field does not exist in struct".to_owned(),
            BuildError::IdDefaultConflict =>
                "the id field is always always-default and another default-behavior cannot be specified".to_owned(),
            BuildError::AlwaysDefaultWithSetter(_) =>
                "an always-default field cannot have a setter".to_owned(),
            BuildError::MissingTableAttr => "missing required attribute: table".to_owned(),
        }
    }
}

/// The human-readable text of an advisory.
pub open spec fn advisory_message_spec(a: AdvisoryModel) -> Seq<char> {
    match a {
        AdvisoryModel::ReservedColumn(_) =>
            "This is a reserved keyword, you might want to consider choosing a different name."@,
        AdvisoryModel::ReservedTableName(_) =>
            "This table name is a reserved keyword, you might want to consider choosing a different name."@,
    }
}

impl Advisory {
    /// The human-readable warning text.
    pub fn message(&self) -> (r: String)
        ensures
            r@ == advisory_message_spec(self@),
    {
        match self {
            Advisory::ReservedColumn(_) =>
                "This is a reserved keyword, you might want to consider choosing a different name.".to_owned(),
            Advisory::ReservedTableName(_) =>
                "This table name is a reserved keyword, you might want to consider choosing a different name.".to_owned(),
        }
    }
}

/// Pushing onto a vector pushes the element's model onto its model.
pub proof fn lemma_deep_view_push<T: DeepView>(pre: Vec<T>, post: Vec<T>, x: T)
    requires
        post@ == pre@.push(x),
    ensures
        post.deep_view() =~= pre.deep_view().push(x.deep_view()),
{
    assert forall|j: int| 0 <= j < post@.len() implies #[trigger] post.deep_view()[j]
        == pre.deep_view().push(x.deep_view())[j] by {
        if j < pre@.len() {
            assert(post@[j] == pre@[j]);
            assert(pre.deep_view()[j] == pre@[j].deep_view());
        } else {
            assert(post@[j] == x);
        }
        assert(post.deep_view()[j] == post@[j].deep_view());
    }
}

} // verus!
