//! The rules the generator guarantees, stated and proved once over
//! every input rather than checked example by example.

use vstd::prelude::*;
use crate::attrs::{ErrorModel, TableAttrModel};
use crate::field::{DefaultType, FieldModel};
use crate::insert::{DescriptionModel, FetchMode, cols_of, describe_insert_spec, returning_of};
use crate::strfmt::{join_with_spec, lemma_placeholders_len, placeholders};
use crate::table::{
    TableModel, build_table_spec, default_view, find_named, fold_table_attrs, insertable_view,
    is_default_field, is_insertable_field, lemma_find_named_props, table_acc_init, table_wf,
};

verus! {

/// Every successfully built table has an always-default id field: the
/// builder forces it, whatever default the declaration carried.
pub proof fn lemma_id_always_default(
    ident: Seq<char>,
    attrs: Seq<TableAttrModel>,
    fields: Seq<FieldModel>,
    t: TableModel,
)
    requires
        build_table_spec(ident, attrs, fields) == Result::Ok::<TableModel, ErrorModel>(t),
    ensures
        t.id.default == Option::Some(DefaultType::Always),
        0 <= t.id_index < t.fields.len(),
        t.fields[t.id_index] == t.id,
{
    let acc = fold_table_attrs(ident, table_acc_init(), attrs)->Ok_0;
    let id_name = match acc.id {
        Option::Some(n) => n,
        Option::None => "id"@,
    };
    lemma_find_named_props(fields, id_name);
}

/// Declaring the id field with an explicit insert-only default is
/// rejected: the id's defaultness is not overridable.
pub proof fn lemma_id_insert_default_rejected(
    ident: Seq<char>,
    attrs: Seq<TableAttrModel>,
    fields: Seq<FieldModel>,
    i: int,
)
    requires
        fold_table_attrs(ident, table_acc_init(), attrs) is Ok,
        find_named(
            fields,
            match fold_table_attrs(ident, table_acc_init(), attrs)->Ok_0.id {
                Option::Some(n) => n,
                Option::None => "id"@,
            },
        ) == Option::Some(i),
        fields[i].default == Option::Some(DefaultType::Insert),
    ensures
        build_table_spec(ident, attrs, fields) == Result::Err::<TableModel, ErrorModel>(
            ErrorModel::IdDefaultConflict,
        ),
{
}

/// In every well-formed table the id field sits in the default-fields
/// view and never in the insertable-fields view.
pub proof fn lemma_id_field_views(t: TableModel)
    requires
        table_wf(t),
    ensures
        default_view(t.fields).contains(t.id),
        !insertable_view(t.fields).contains(t.id),
{
    t.fields.lemma_filter_contains(|f: FieldModel| is_default_field(f), t.id_index);
    if insertable_view(t.fields).contains(t.id) {
        let k = choose|k: int|
            0 <= k < insertable_view(t.fields).len() && insertable_view(t.fields)[k] == t.id;
        t.fields.lemma_filter_pred(|f: FieldModel| is_insertable_field(f), k);
    }
}

/// A table with no default field gets a statement without a RETURNING
/// clause and the fire-and-discard execution mode.
pub proof fn lemma_no_defaults_fire_and_discard(t: TableModel, d: DescriptionModel)
    requires
        describe_insert_spec(t) == Option::Some(d),
        default_view(t.fields).len() == 0,
    ensures
        d.fetch_mode == FetchMode::Execute,
        d.sql == "INSERT INTO "@ + t.table + " ("@ + join_with_spec(
            cols_of(insertable_view(t.fields)),
            ", "@,
        ) + ") VALUES ("@ + join_with_spec(
            placeholders(cols_of(insertable_view(t.fields)).len()),
            ", "@,
        ) + ")"@,
        d.generated_fields.len() == 0,
{
    assert(returning_of(default_view(t.fields)).len() == 0);
}

/// A table with at least one default field gets the fetch-one-row
/// execution mode, a statement ending in a RETURNING clause over the
/// default fields' read expressions, and an intermediate record shaped
/// exactly like the default-fields view: same names, same types, same
/// order.
pub proof fn lemma_defaults_fetch_one(t: TableModel, d: DescriptionModel)
    requires
        describe_insert_spec(t) == Option::Some(d),
        default_view(t.fields).len() > 0,
    ensures
        d.fetch_mode == FetchMode::FetchOne,
        d.sql == "INSERT INTO "@ + t.table + " ("@ + join_with_spec(
            cols_of(insertable_view(t.fields)),
            ", "@,
        ) + ") VALUES ("@ + join_with_spec(
            placeholders(cols_of(insertable_view(t.fields)).len()),
            ", "@,
        ) + ")"@ + " RETURNING "@ + join_with_spec(returning_of(default_view(t.fields)), ", "@),
        d.generated_fields.len() == default_view(t.fields).len(),
        forall|j: int|
            0 <= j < d.generated_fields.len() ==> (#[trigger] d.generated_fields[j]).field
                == default_view(t.fields)[j].field && d.generated_fields[j].ty == default_view(
                t.fields,
            )[j].ty,
{
    assert(returning_of(default_view(t.fields)).len() == default_view(t.fields).len());
}

/// A table the builder accepted never has an empty default-fields
/// view — its id field is always database-supplied — so an accessor
/// generated for it always fetches the inserted row back.
pub proof fn lemma_built_tables_fetch_one(
    ident: Seq<char>,
    attrs: Seq<TableAttrModel>,
    fields: Seq<FieldModel>,
    t: TableModel,
    d: DescriptionModel,
)
    requires
        build_table_spec(ident, attrs, fields) == Result::Ok::<TableModel, ErrorModel>(t),
        describe_insert_spec(t) == Option::Some(d),
    ensures
        default_view(t.fields).len() > 0,
        d.fetch_mode == FetchMode::FetchOne,
{
    lemma_id_always_default(ident, attrs, fields, t);
    t.fields.lemma_filter_contains(|f: FieldModel| is_default_field(f), t.id_index);
}

/// The column list is exactly one column per insertable field, and the
/// bind-parameter list is exactly one placeholder per column.
pub proof fn lemma_column_and_bind_counts(t: TableModel, d: DescriptionModel)
    requires
        describe_insert_spec(t) == Option::Some(d),
    ensures
        d.insert_fields.len() == insertable_view(t.fields).len(),
        cols_of(insertable_view(t.fields)).len() == insertable_view(t.fields).len(),
        placeholders(cols_of(insertable_view(t.fields)).len()).len() == cols_of(
            insertable_view(t.fields),
        ).len(),
{
    lemma_placeholders_len(cols_of(insertable_view(t.fields)).len());
}

} // verus!
