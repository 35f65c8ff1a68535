//! The insert generator: a validated `TableSpec` with insert
//! generation enabled becomes the INSERT statement text plus a
//! description of the accessor function that should run it.

use vstd::prelude::*;
use vstd::string::StringExecFns;
use crate::attrs::lemma_deep_view_push;
use crate::field::{FieldModel, FieldSpec};
use crate::strfmt::{bindings, join_with, join_with_spec, placeholders};
use crate::table::{TableModel, TableSpec, default_view, insertable_view};

verus! {

/// The SQL read expression of a field in a RETURNING list: the bare
/// column, or an aliased form carrying the driver's type-cast hint for
/// custom types.
pub open spec fn select_expr_spec(f: FieldModel) -> Seq<char> {
    if f.custom_type {
        f.column_name + " AS \""@ + f.field + ": _\""@
    } else {
        f.column_name
    }
}

impl FieldSpec {
    /// The SQL column name as it appears in a column list.
    pub fn column(&self) -> (r: &String)
        ensures
            r@ == self@.column_name,
    {
        &self.column_name
    }

    /// The SQL read expression used in a RETURNING list.
    pub fn fmt_for_select(&self) -> (r: String)
        ensures
            r@ == select_expr_spec(self@),
    {
        if self.custom_type {
            let mut s = self.column_name.clone();
            s.append(" AS \"");
            s.append(self.field.as_str());
            s.append(": _\"");
            s
        } else {
            self.column_name.clone()
        }
    }
}

/// The column names of `fields`, in order.
pub open spec fn cols_of(fields: Seq<FieldModel>) -> Seq<Seq<char>> {
    fields.map_values(|f: FieldModel| f.column_name)
}

/// The RETURNING expressions of `fields`, in order.
pub open spec fn returning_of(fields: Seq<FieldModel>) -> Seq<Seq<char>> {
    fields.map_values(|f: FieldModel| select_expr_spec(f))
}

/// The full INSERT statement text: the column list and one positional
/// placeholder per column, and a RETURNING clause exactly when
/// `returning` is non-empty.
pub open spec fn insert_sql_spec(
    table: Seq<char>,
    columns: Seq<Seq<char>>,
    returning: Seq<Seq<char>>,
) -> Seq<char> {
    let base = "INSERT INTO "@ + table + " ("@ + join_with_spec(columns, ", "@) + ") VALUES ("@
        + join_with_spec(placeholders(columns.len()), ", "@) + ")"@;
    if returning.len() == 0 {
        base
    } else {
        base + " RETURNING "@ + join_with_spec(returning, ", "@)
    }
}

/// The column names of `fields` as an executable vector.
#[verifier::loop_isolation(false)]
fn column_list(fields: &Vec<FieldSpec>) -> (r: Vec<String>)
    ensures
        r.deep_view() == cols_of(fields.deep_view()),
{
    let ghost fields_m = fields.deep_view();
    let mut r: Vec<String> = Vec::new();
    proof {
        assert(r.deep_view() =~= cols_of(fields_m.take(0)));
    }
    let mut i: usize = 0;
    while i < fields.len()
        invariant
            i <= fields.len(),
            r@.len() == i,
            r.deep_view() == cols_of(fields_m.take(i as int)),
        decreases fields.len() - i,
    {
        let c = fields[i].column_name.clone();
        let ghost oldr = r;
        let ghost cg = c;
        r.push(c);
        proof {
            broadcast use Seq::lemma_map_take_succ;

            lemma_deep_view_push(oldr, r, cg);
            assert(fields.deep_view()[i as int] == fields@[i as int].deep_view());
            assert(cg.deep_view() == fields_m[i as int].column_name);
            assert(r.deep_view() =~= cols_of(fields_m.take((i + 1) as int)));
        }
        i = i + 1;
    }
    proof {
        assert(fields_m.take(fields.len() as int) =~= fields_m);
        assert(cols_of(fields_m.take(fields.len() as int)) =~= cols_of(fields_m));
    }
    r
}

/// The RETURNING expressions of `fields` as an executable vector.
#[verifier::loop_isolation(false)]
fn returning_list(fields: &Vec<FieldSpec>) -> (r: Vec<String>)
    ensures
        r.deep_view() == returning_of(fields.deep_view()),
{
    let ghost fields_m = fields.deep_view();
    let mut r: Vec<String> = Vec::new();
    proof {
        assert(r.deep_view() =~= returning_of(fields_m.take(0)));
    }
    let mut i: usize = 0;
    while i < fields.len()
        invariant
            i <= fields.len(),
            r@.len() == i,
            r.deep_view() == returning_of(fields_m.take(i as int)),
        decreases fields.len() - i,
    {
        let e = fields[i].fmt_for_select();
        let ghost oldr = r;
        let ghost eg = e;
        r.push(e);
        proof {
            broadcast use Seq::lemma_map_take_succ;

            lemma_deep_view_push(oldr, r, eg);
            assert(fields.deep_view()[i as int] == fields@[i as int].deep_view());
            assert(eg.deep_view() == select_expr_spec(fields_m[i as int]));
            assert(r.deep_view() =~= returning_of(fields_m.take((i + 1) as int)));
        }
        i = i + 1;
    }
    proof {
        assert(fields_m.take(fields.len() as int) =~= fields_m);
        assert(returning_of(fields_m.take(fields.len() as int)) =~= returning_of(fields_m));
    }
    r
}

/// The INSERT statement for `table`, binding exactly the given
/// caller-supplied fields in order and reading back every
/// database-supplied field of the table.
pub fn insert_sql(table: &TableSpec, insert_fields: &Vec<FieldSpec>) -> (r: String)
    ensures
        r@ == insert_sql_spec(
            table@.table,
            cols_of(insert_fields.deep_view()),
            returning_of(default_view(table@.fields)),
        ),
{
    let cols = column_list(insert_fields);
    let binds = bindings(cols.len());
    let defaults = table.default_fields();
    let rets = returning_list(&defaults);

    let columns_s = join_with(&cols, ", ");
    let binds_s = join_with(&binds, ", ");

    let mut out = "INSERT INTO ".to_owned();
    out.append(table.table.as_str());
    out.append(" (");
    out.append(columns_s.as_str());
    out.append(") VALUES (");
    out.append(binds_s.as_str());
    out.append(")");
    if rets.len() > 0 {
        let rets_s = join_with(&rets, ", ");
        out.append(" RETURNING ");
        out.append(rets_s.as_str());
    }
    proof {
        assert(cols.deep_view().len() == insert_fields.deep_view().len());
        if returning_of(default_view(table@.fields)).len() == 0 {
            assert(rets@.len() == 0);
        }
    }
    out
}

/// How the generated accessor runs the statement: fire-and-discard, or
/// fetch exactly one row to read the database-supplied values back.
#[derive(Clone, Copy, PartialEq, Eq, Structural, Debug)]
pub enum FetchMode {
    /// Run the statement and ignore any rows; only failure matters.
    Execute,
    /// Run the statement and decode exactly one returned row.
    FetchOne,
}

/// One bound parameter of the generated statement, in column order.
pub struct BoundParam {
    /// The payload field supplying the value.
    pub field: String,
    /// Pass the value by reference rather than by move.
    pub by_ref: bool,
    /// The driver needs an explicit type-cast hint for this value.
    pub custom_type: bool,
}

/// Spec-level mirror of `BoundParam`.
pub ghost struct BoundParamModel {
    pub field: Seq<char>,
    pub by_ref: bool,
    pub custom_type: bool,
}

impl View for BoundParam {
    type V = BoundParamModel;

    open spec fn view(&self) -> BoundParamModel {
        BoundParamModel { field: self.field@, by_ref: self.by_ref, custom_type: self.custom_type }
    }
}

impl DeepView for BoundParam {
    type V = BoundParamModel;

    open spec fn deep_view(&self) -> BoundParamModel {
        self.view()
    }
}

/// One field of the intermediate record that a fetch-one-row accessor
/// decodes: same name and type as the corresponding default field.
pub struct GeneratedField {
    pub field: String,
    pub ty: String,
}

/// Spec-level mirror of `GeneratedField`.
pub ghost struct GeneratedFieldModel {
    pub field: Seq<char>,
    pub ty: Seq<char>,
}

impl View for GeneratedField {
    type V = GeneratedFieldModel;

    open spec fn view(&self) -> GeneratedFieldModel {
        GeneratedFieldModel { field: self.field@, ty: self.ty@ }
    }
}

impl DeepView for GeneratedField {
    type V = GeneratedFieldModel;

    open spec fn deep_view(&self) -> GeneratedFieldModel {
        self.view()
    }
}

/// Everything the emission backend needs to lower the generated
/// accessor: statement text, ordered bind parameters, execution mode,
/// and the intermediate record for reading default fields back.
pub struct InsertDescription {
    /// Name of the insert payload type implementing the accessor.
    pub insert_ident: String,
    /// Name of the table's domain type, which the accessor returns.
    pub table_ident: String,
    /// The parameterized statement text.
    pub sql: String,
    /// The caller-supplied fields bound in column order.
    pub insert_fields: Vec<BoundParam>,
    /// Fire-and-discard, or fetch exactly one row.
    pub fetch_mode: FetchMode,
    /// The intermediate record's fields; empty under fire-and-discard.
    pub generated_fields: Vec<GeneratedField>,
}

/// Spec-level mirror of `InsertDescription`.
pub ghost struct DescriptionModel {
    pub insert_ident: Seq<char>,
    pub table_ident: Seq<char>,
    pub sql: Seq<char>,
    pub insert_fields: Seq<BoundParamModel>,
    pub fetch_mode: FetchMode,
    pub generated_fields: Seq<GeneratedFieldModel>,
}

impl View for InsertDescription {
    type V = DescriptionModel;

    open spec fn view(&self) -> DescriptionModel {
        DescriptionModel {
            insert_ident: self.insert_ident@,
            table_ident: self.table_ident@,
            sql: self.sql@,
            insert_fields: self.insert_fields.deep_view(),
            fetch_mode: self.fetch_mode,
            generated_fields: self.generated_fields.deep_view(),
        }
    }
}

pub open spec fn bound_param_of(f: FieldModel) -> BoundParamModel {
    BoundParamModel { field: f.field, by_ref: f.by_ref, custom_type: f.custom_type }
}

pub open spec fn generated_field_of(f: FieldModel) -> GeneratedFieldModel {
    GeneratedFieldModel { field: f.field, ty: f.ty }
}

/// What the insert generator returns: nothing when insert generation
/// was not requested; otherwise the statement over the insertable
/// fields, fire-and-discard exactly when no default field exists, and
/// an intermediate record shaped exactly like the default-fields view.
pub open spec fn describe_insert_spec(t: TableModel) -> Option<DescriptionModel> {
    match t.insertable {
        Option::None => Option::None,
        Option::Some(ins) => Option::Some(
            DescriptionModel {
                insert_ident: ins.ident,
                table_ident: t.ident,
                sql: insert_sql_spec(
                    t.table,
                    cols_of(insertable_view(t.fields)),
                    returning_of(default_view(t.fields)),
                ),
                insert_fields: insertable_view(t.fields).map_values(
                    |f: FieldModel| bound_param_of(f),
                ),
                fetch_mode: if default_view(t.fields).len() == 0 {
                    FetchMode::Execute
                } else {
                    FetchMode::FetchOne
                },
                generated_fields: default_view(t.fields).map_values(
                    |f: FieldModel| generated_field_of(f),
                ),
            },
        ),
    }
}

pub open spec fn desc_result_view(r: Option<InsertDescription>) -> Option<DescriptionModel> {
    match r {
        Option::Some(d) => Option::Some(d@),
        Option::None => Option::None,
    }
}

/// The bound parameters of the given fields, in order.
#[verifier::loop_isolation(false)]
fn bound_params(fields: &Vec<FieldSpec>) -> (r: Vec<BoundParam>)
    ensures
        r.deep_view() == fields.deep_view().map_values(|f: FieldModel| bound_param_of(f)),
{
    let ghost fields_m = fields.deep_view();
    let mut r: Vec<BoundParam> = Vec::new();
    proof {
        assert(r.deep_view() =~= fields_m.take(0).map_values(|f: FieldModel| bound_param_of(f)));
    }
    let mut i: usize = 0;
    while i < fields.len()
        invariant
            i <= fields.len(),
            r@.len() == i,
            r.deep_view() == fields_m.take(i as int).map_values(
                |f: FieldModel| bound_param_of(f),
            ),
        decreases fields.len() - i,
    {
        let p = BoundParam {
            field: fields[i].field.clone(),
            by_ref: fields[i].by_ref,
            custom_type: fields[i].custom_type,
        };
        let ghost oldr = r;
        let ghost pg = p;
        r.push(p);
        proof {
            broadcast use Seq::lemma_map_take_succ;

            lemma_deep_view_push(oldr, r, pg);
            assert(fields.deep_view()[i as int] == fields@[i as int].deep_view());
            assert(pg.deep_view() == bound_param_of(fields_m[i as int]));
            assert(r.deep_view() =~= fields_m.take((i + 1) as int).map_values(
                |f: FieldModel| bound_param_of(f),
            ));
        }
        i = i + 1;
    }
    proof {
        assert(fields_m.take(fields.len() as int) =~= fields_m);
        assert(fields_m.take(fields.len() as int).map_values(|f: FieldModel| bound_param_of(f))
            =~= fields_m.map_values(|f: FieldModel| bound_param_of(f)));
    }
    r
}

/// The intermediate-record fields for the given default fields.
#[verifier::loop_isolation(false)]
fn generated_fields_of(fields: &Vec<FieldSpec>) -> (r: Vec<GeneratedField>)
    ensures
        r.deep_view() == fields.deep_view().map_values(|f: FieldModel| generated_field_of(f)),
{
    let ghost fields_m = fields.deep_view();
    let mut r: Vec<GeneratedField> = Vec::new();
    proof {
        assert(r.deep_view() =~= fields_m.take(0).map_values(
            |f: FieldModel| generated_field_of(f),
        ));
    }
    let mut i: usize = 0;
    while i < fields.len()
        invariant
            i <= fields.len(),
            r@.len() == i,
            r.deep_view() == fields_m.take(i as int).map_values(
                |f: FieldModel| generated_field_of(f),
            ),
        decreases fields.len() - i,
    {
        let g = GeneratedField { field: fields[i].field.clone(), ty: fields[i].ty.clone() };
        let ghost oldr = r;
        let ghost gg = g;
        r.push(g);
        proof {
            broadcast use Seq::lemma_map_take_succ;

            lemma_deep_view_push(oldr, r, gg);
            assert(fields.deep_view()[i as int] == fields@[i as int].deep_view());
            assert(gg.deep_view() == generated_field_of(fields_m[i as int]));
            assert(r.deep_view() =~= fields_m.take((i + 1) as int).map_values(
                |f: FieldModel| generated_field_of(f),
            ));
        }
        i = i + 1;
    }
    proof {
        assert(fields_m.take(fields.len() as int) =~= fields_m);
        assert(fields_m.take(fields.len() as int).map_values(
            |f: FieldModel| generated_field_of(f),
        ) =~= fields_m.map_values(|f: FieldModel| generated_field_of(f)));
    }
    r
}

/// Produce the generated-accessor description for `table`, or nothing
/// when the table did not opt in to insert generation (not an error).
pub fn describe_insert(table: &TableSpec) -> (r: Option<InsertDescription>)
    ensures
        desc_result_view(r) == describe_insert_spec(table@),
{
    let ins_ident: String = match &table.insertable {
        Option::Some(i) => i.ident.clone(),
        Option::None => {
            return Option::None;
        },
    };

    let ins_fields = table.insertable_fields();
    let defaults = table.default_fields();

    let sql = insert_sql(table, &ins_fields);
    let params = bound_params(&ins_fields);
    let gens = generated_fields_of(&defaults);
    let fetch_mode = if defaults.len() == 0 {
        FetchMode::Execute
    } else {
        FetchMode::FetchOne
    };

    Option::Some(
        InsertDescription {
            insert_ident: ins_ident,
            table_ident: table.ident.clone(),
            sql: sql,
            insert_fields: params,
            fetch_mode: fetch_mode,
            generated_fields: gens,
        },
    )
}

} // verus!
