//! The reserved-keyword check: a column or table name whose uppercase
//! form is a reserved word of the SQL dialect draws an advisory, never
//! an error.

use vstd::prelude::*;

verus! {

/// The reserved key words of the PostgreSQL dialect, uppercase.
pub open spec fn reserved_words_spec() -> Seq<Seq<char>> {
    seq![
        "ALL"@,
        "ANALYSE"@,
        "ANALYZE"@,
        "AND"@,
        "ANY"@,
        "ARRAY"@,
        "AS"@,
        "ASC"@,
        "ASYMMETRIC"@,
        "BOTH"@,
        "CASE"@,
        "CAST"@,
        "CHECK"@,
        "COLLATE"@,
        "COLUMN"@,
        "CONSTRAINT"@,
        "CREATE"@,
        "CURRENT_CATALOG"@,
        "CURRENT_DATE"@,
        "CURRENT_ROLE"@,
        "CURRENT_TIME"@,
        "CURRENT_TIMESTAMP"@,
        "CURRENT_USER"@,
        "DEFAULT"@,
        "DEFERRABLE"@,
        "DESC"@,
        "DISTINCT"@,
        "DO"@,
        "ELSE"@,
        "END"@,
        "EXCEPT"@,
        "FALSE"@,
        "FETCH"@,
        "FOR"@,
        "FOREIGN"@,
        "FROM"@,
        "GRANT"@,
        "GROUP"@,
        "HAVING"@,
        "IN"@,
        "INITIALLY"@,
        "INTERSECT"@,
        "INTO"@,
        "LATERAL"@,
        "LEADING"@,
        "LIMIT"@,
        "LOCALTIME"@,
        "LOCALTIMESTAMP"@,
        "NOT"@,
        "NULL"@,
        "OFFSET"@,
        "ON"@,
        "ONLY"@,
        "OR"@,
        "ORDER"@,
        "PLACING"@,
        "PRIMARY"@,
        "REFERENCES"@,
        "RETURNING"@,
        "SELECT"@,
        "SESSION_USER"@,
        "SOME"@,
        "SYMMETRIC"@,
        "TABLE"@,
        "THEN"@,
        "TO"@,
        "TRAILING"@,
        "TRUE"@,
        "UNION"@,
        "UNIQUE"@,
        "USER"@,
        "USING"@,
        "VARIADIC"@,
        "WHEN"@,
        "WHERE"@,
        "WINDOW"@,
        "WITH"@
    ]
}

/// The same list as an executable vector.
#[verifier::rlimit(60)]
pub fn reserved_words() -> (r: Vec<String>)
    ensures
        r.deep_view() == reserved_words_spec(),
{
    let mut r: Vec<String> = Vec::new();
    r.push("ALL".to_owned());
    r.push("ANALYSE".to_owned());
    r.push("ANALYZE".to_owned());
    r.push("AND".to_owned());
    r.push("ANY".to_owned());
    r.push("ARRAY".to_owned());
    r.push("AS".to_owned());
    r.push("ASC".to_owned());
    r.push("ASYMMETRIC".to_owned());
    r.push("BOTH".to_owned());
    r.push("CASE".to_owned());
    r.push("CAST".to_owned());
    r.push("CHECK".to_owned());
    r.push("COLLATE".to_owned());
    r.push("COLUMN".to_owned());
    r.push("CONSTRAINT".to_owned());
    r.push("CREATE".to_owned());
    r.push("CURRENT_CATALOG".to_owned());
    r.push("CURRENT_DATE".to_owned());
    r.push("CURRENT_ROLE".to_owned());
    r.push("CURRENT_TIME".to_owned());
    r.push("CURRENT_TIMESTAMP".to_owned());
    r.push("CURRENT_USER".to_owned());
    r.push("DEFAULT".to_owned());
    r.push("DEFERRABLE".to_owned());
    r.push("DESC".to_owned());
    r.push("DISTINCT".to_owned());
    r.push("DO".to_owned());
    r.push("ELSE".to_owned());
    r.push("END".to_owned());
    r.push("EXCEPT".to_owned());
    r.push("FALSE".to_owned());
    r.push("FETCH".to_owned());
    r.push("FOR".to_owned());
    r.push("FOREIGN".to_owned());
    r.push("FROM".to_owned());
    r.push("GRANT".to_owned());
    r.push("GROUP".to_owned());
    r.push("HAVING".to_owned());
    r.push("IN".to_owned());
    r.push("INITIALLY".to_owned());
    r.push("INTERSECT".to_owned());
    r.push("INTO".to_owned());
    r.push("LATERAL".to_owned());
    r.push("LEADING".to_owned());
    r.push("LIMIT".to_owned());
    r.push("LOCALTIME".to_owned());
    r.push("LOCALTIMESTAMP".to_owned());
    r.push("NOT".to_owned());
    r.push("NULL".to_owned());
    r.push("OFFSET".to_owned());
    r.push("ON".to_owned());
    r.push("ONLY".to_owned());
    r.push("OR".to_owned());
    r.push("ORDER".to_owned());
    r.push("PLACING".to_owned());
    r.push("PRIMARY".to_owned());
    r.push("REFERENCES".to_owned());
    r.push("RETURNING".to_owned());
    r.push("SELECT".to_owned());
    r.push("SESSION_USER".to_owned());
    r.push("SOME".to_owned());
    r.push("SYMMETRIC".to_owned());
    r.push("TABLE".to_owned());
    r.push("THEN".to_owned());
    r.push("TO".to_owned());
    r.push("TRAILING".to_owned());
    r.push("TRUE".to_owned());
    r.push("UNION".to_owned());
    r.push("UNIQUE".to_owned());
    r.push("USER".to_owned());
    r.push("USING".to_owned());
    r.push("VARIADIC".to_owned());
    r.push("WHEN".to_owned());
    r.push("WHERE".to_owned());
    r.push("WINDOW".to_owned());
    r.push("WITH".to_owned());
    proof {
        assert(r.deep_view() =~= reserved_words_spec());
    }
    r
}

/// The uppercase form of `s`, as the standard library's parameterless
/// Unicode case mapping produces it.
pub uninterp spec fn upper_of(s: Seq<char>) -> Seq<char>;

/// Relies on `str::to_uppercase`: the result depends on the characters
/// of the input alone (parameterless Unicode uppercasing).
#[verifier::external_body]
fn to_upper(s: &str) -> (r: String)
    ensures
        r@ == upper_of(s@),
{
    s.to_uppercase()
}

/// Whether the uppercase form of `name` collides with a reserved word.
pub fn is_reserved(name: &str) -> (r: bool)
    ensures
        r == reserved_words_spec().contains(upper_of(name@)),
{
    let u = to_upper(name);
    let words = reserved_words();
    let n = words.len();
    let mut j: usize = 0;
    while j < n
        invariant
            j <= n,
            n == reserved_words_spec().len(),
            words.deep_view() == reserved_words_spec(),
            u@ == upper_of(name@),
            forall|k: int| 0 <= k < j ==> reserved_words_spec()[k] != u@,
        decreases n - j,
    {
        if u == words[j] {
            proof {
                assert(reserved_words_spec()[j as int] == u@);
            }
            return true;
        }
        j = j + 1;
    }
    false
}

} // verus!
