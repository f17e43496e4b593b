//! Laws of the parser, stated over the specification functions that
//! [`crate::parse_schema`]'s contract pins the result to.

use vstd::prelude::*;

use crate::grammar::{
    is_identifier_tok, is_mode_value_tok, is_name_tok, is_type_value_tok, name_text,
    sp_column_entries, sp_column_entry, sp_column_mode, sp_column_section, sp_column_type,
    sp_file, sp_mode_value, sp_schema_entry, sp_schema_section, sp_table_entries, sp_table_entry,
    sp_table_section, sp_type_value, ColumnClauseV, ColumnEntryV, ColumnModeV, ColumnSectionV,
    ColumnTypeV, FileV, SchemaEntryV, SchemaSectionV, TableEntryV, TableSectionV,
};
use crate::lower::{lower_columns, lower_entry, lower_file, lower_table, lower_tables};
use crate::model::{ColumnV, SchemaV, TableV};
use crate::spec_parse_schema;
use crate::ParseOutcome;
use crate::token::tokens_of;

verus! {

broadcast use vstd::string::group_string_axioms;

// ---------------------------------------------------------------------
// The documented skeleton: the token sequence of a schema written in the
// canonical document shape, and the well-formedness its parts must have.
// ---------------------------------------------------------------------

/// A column model whose fields can appear verbatim in a document.
pub open spec fn wf_column(c: ColumnV) -> bool {
    &&& is_identifier_tok(c.name)
    &&& is_type_value_tok(c.datatype)
    &&& is_mode_value_tok(c.mode)
}

/// A table model whose fields can appear verbatim in a document.
pub open spec fn wf_table(t: TableV) -> bool {
    &&& is_identifier_tok(t.name)
    &&& forall|k: int| 0 <= k < t.columns.len() ==> wf_column(#[trigger] t.columns[k])
}

/// A schema model whose fields can appear verbatim in a document.  The
/// grammar requires at least one table.
pub open spec fn wf_schema(s: SchemaV) -> bool {
    &&& is_identifier_tok(s.name)
    &&& s.tables.len() >= 1
    &&& forall|k: int| 0 <= k < s.tables.len() ==> wf_table(#[trigger] s.tables[k])
}

/// The five tokens of one column block of the skeleton.
pub open spec fn column_tokens(c: ColumnV) -> Seq<Seq<char>> {
    seq![c.name.push(':'), "type:"@, c.datatype, "mode:"@, c.mode]
}

/// The tokens of a run of column blocks, in order.
pub open spec fn columns_tokens(cs: Seq<ColumnV>) -> Seq<Seq<char>>
    decreases cs.len(),
{
    if cs.len() == 0 {
        Seq::empty()
    } else {
        column_tokens(cs[0]) + columns_tokens(cs.drop_first())
    }
}

/// The tokens of one table block of the skeleton.
pub open spec fn table_tokens(t: TableV) -> Seq<Seq<char>> {
    seq![t.name.push(':'), "columns:"@] + columns_tokens(t.columns)
}

/// The tokens of a run of table blocks, in order.
pub open spec fn tables_tokens(ts: Seq<TableV>) -> Seq<Seq<char>>
    decreases ts.len(),
{
    if ts.len() == 0 {
        Seq::empty()
    } else {
        table_tokens(ts[0]) + tables_tokens(ts.drop_first())
    }
}

/// The token sequence of a schema written in the documented skeleton.
/// Any input that matches the skeleton — whatever its whitespace and
/// indentation — tokenizes to exactly this sequence.
pub open spec fn skeleton_tokens(s: SchemaV) -> Seq<Seq<char>> {
    seq!["schema:"@, "name:"@, s.name, "tables:"@] + tables_tokens(s.tables)
}

/// The parse tree node of one column block of the skeleton.
pub open spec fn entry_of(c: ColumnV) -> ColumnEntryV {
    ColumnEntryV {
        name: c.name,
        clauses: seq![
            ColumnClauseV::TypeClause(ColumnTypeV { value: Option::Some(c.datatype) }),
            ColumnClauseV::ModeClause(ColumnModeV { value: Option::Some(c.mode) }),
        ],
    }
}

/// The parse tree nodes of a run of column blocks.
pub open spec fn col_entries(cs: Seq<ColumnV>) -> Seq<ColumnEntryV> {
    cs.map_values(|c: ColumnV| entry_of(c))
}

/// The parse tree node of one table block of the skeleton.
pub open spec fn table_entry_of(t: TableV) -> TableEntryV {
    TableEntryV { name: t.name, columns: ColumnSectionV { entries: col_entries(t.columns) } }
}

/// The parse tree nodes of a run of table blocks.
pub open spec fn tbl_entries(ts: Seq<TableV>) -> Seq<TableEntryV> {
    ts.map_values(|t: TableV| table_entry_of(t))
}

/// The parse tree of a schema written in the documented skeleton.
pub open spec fn file_of(s: SchemaV) -> FileV {
    FileV {
        section: SchemaSectionV {
            entry: SchemaEntryV {
                name: s.name,
                tables: TableSectionV { entries: tbl_entries(s.tables) },
            },
        },
    }
}

// ---------------------------------------------------------------------
// Lowering a skeleton tree recovers the schema it was written from.
// ---------------------------------------------------------------------

/// Lowering the tree of one skeleton column block yields that column.
pub proof fn lemma_lower_entry(c: ColumnV)
    ensures
        lower_entry(entry_of(c)) == Result::<ColumnV, ()>::Ok(c),
{
    reveal_with_fuel(crate::lower::lower_clauses, 4);
    let e = entry_of(c);
    let init = ColumnV { name: c.name, datatype: Seq::empty(), mode: Seq::empty() };
    let c1 = ColumnV { datatype: c.datatype, ..init };
    let c2 = ColumnV { mode: c.mode, ..c1 };
    assert(e.clauses.drop_first() =~= seq![
        ColumnClauseV::ModeClause(ColumnModeV { value: Option::Some(c.mode) }),
    ]);
    assert(e.clauses.drop_first().drop_first() =~= Seq::<ColumnClauseV>::empty());
    assert(crate::lower::lower_clauses(e.clauses, init) == crate::lower::lower_clauses(
        e.clauses.drop_first(),
        c1,
    ));
    assert(crate::lower::lower_clauses(e.clauses.drop_first(), c1) == crate::lower::lower_clauses(
        e.clauses.drop_first().drop_first(),
        c2,
    ));
    assert(c2 == c);
}

/// Lowering the trees of a run of skeleton column blocks yields those
/// columns, in order, after `acc`.
pub proof fn lemma_lower_columns(cs: Seq<ColumnV>, acc: Seq<ColumnV>)
    ensures
        lower_columns(col_entries(cs), acc) == Result::<Seq<ColumnV>, ()>::Ok(acc + cs),
    decreases cs.len(),
{
    if cs.len() == 0 {
        assert(col_entries(cs).len() == 0);
        assert(acc + cs =~= acc);
    } else {
        lemma_lower_entry(cs[0]);
        assert(col_entries(cs)[0] == entry_of(cs[0]));
        assert(col_entries(cs).drop_first() =~= col_entries(cs.drop_first()));
        lemma_lower_columns(cs.drop_first(), acc.push(cs[0]));
        assert(acc.push(cs[0]) + cs.drop_first() =~= acc + cs);
    }
}

/// Lowering the tree of one skeleton table block yields that table.
pub proof fn lemma_lower_table(t: TableV)
    ensures
        lower_table(table_entry_of(t)) == Result::<TableV, ()>::Ok(t),
{
    lemma_lower_columns(t.columns, Seq::empty());
    assert(Seq::empty() + t.columns =~= t.columns);
    assert(TableV { name: t.name, columns: t.columns } == t);
}

/// Lowering the trees of a run of skeleton table blocks yields those
/// tables, in order, after `acc`.
pub proof fn lemma_lower_tables(ts: Seq<TableV>, acc: Seq<TableV>)
    ensures
        lower_tables(tbl_entries(ts), acc) == Result::<Seq<TableV>, ()>::Ok(acc + ts),
    decreases ts.len(),
{
    if ts.len() == 0 {
        assert(tbl_entries(ts).len() == 0);
        assert(acc + ts =~= acc);
    } else {
        lemma_lower_table(ts[0]);
        assert(tbl_entries(ts)[0] == table_entry_of(ts[0]));
        assert(tbl_entries(ts).drop_first() =~= tbl_entries(ts.drop_first()));
        lemma_lower_tables(ts.drop_first(), acc.push(ts[0]));
        assert(acc.push(ts[0]) + ts.drop_first() =~= acc + ts);
    }
}

/// Lowering the skeleton tree of a schema yields that schema.
pub proof fn lemma_lower_file(s: SchemaV)
    ensures
        lower_file(file_of(s)) == Result::<SchemaV, ()>::Ok(s),
{
    lemma_lower_tables(s.tables, Seq::empty());
    assert(Seq::empty() + s.tables =~= s.tables);
    assert(SchemaV { name: s.name, tables: s.tables } == s);
}

// ---------------------------------------------------------------------
// The grammar accepts every skeleton token sequence, and the tree it
// produces is the skeleton tree.
// ---------------------------------------------------------------------

/// The contents of the keyword tokens the proofs below compare.
proof fn lemma_keywords()
    ensures
        "type:"@ != "columns:"@,
        "mode:"@ != "columns:"@,
        "type:"@.len() == 5,
        "mode:"@.len() == 5,
        "columns:"@.len() == 8,
{
    reveal_strlit("type:");
    reveal_strlit("mode:");
    reveal_strlit("columns:");
    assert("type:"@.len() == 5);
    assert("mode:"@.len() == 5);
    assert("columns:"@.len() == 8);
    assert("type:"@ != "columns:"@);
    assert("mode:"@ != "columns:"@);
}

/// A run of column blocks holds five tokens per column.
proof fn lemma_columns_tokens_len(cs: Seq<ColumnV>)
    ensures
        columns_tokens(cs).len() == 5 * cs.len(),
    decreases cs.len(),
{
    if cs.len() > 0 {
        lemma_columns_tokens_len(cs.drop_first());
    }
}

/// No column entry starts where a table block starts: the token after
/// the table's naming token is `columns:`, which neither clause accepts.
proof fn lemma_entry_none_at_table_start(toks: Seq<Seq<char>>, p: int)
    requires
        0 <= p,
        p + 1 < toks.len(),
        toks[p + 1] == "columns:"@,
    ensures
        sp_column_entry(toks, p) is None,
{
    lemma_keywords();
    assert(sp_column_type(toks, p + 1) is None);
    assert(sp_column_mode(toks, p + 1) is None);
}

/// The column entries of a skeleton column run parse back to exactly the
/// skeleton trees, consuming exactly the run's tokens.
proof fn lemma_columns_complete(toks: Seq<Seq<char>>, i: int, cs: Seq<ColumnV>, acc: Seq<
    ColumnEntryV,
>)
    requires
        0 <= i,
        i + 5 * cs.len() <= toks.len(),
        forall|k: int| 0 <= k < cs.len() ==> wf_column(#[trigger] cs[k]),
        toks.subrange(i, i + 5 * cs.len()) == columns_tokens(cs),
        sp_column_entry(toks, i + 5 * cs.len()) is None,
    ensures
        sp_column_entries(toks, i, acc) == (acc + col_entries(cs), i + 5 * cs.len()),
    decreases cs.len(),
{
    if cs.len() == 0 {
        assert(acc + col_entries(cs) =~= acc);
    } else {
        let c = cs[0];
        lemma_columns_tokens_len(cs);
        lemma_columns_tokens_len(cs.drop_first());
        assert(columns_tokens(cs) == column_tokens(c) + columns_tokens(cs.drop_first()));
        let seg = toks.subrange(i, i + 5 * cs.len());
        assert(toks[i] == seg[0]);
        assert(toks[i + 1] == seg[1]);
        assert(toks[i + 2] == seg[2]);
        assert(toks[i + 3] == seg[3]);
        assert(toks[i + 4] == seg[4]);
        assert(seg[0] == c.name.push(':'));
        assert(seg[1] == "type:"@);
        assert(seg[2] == c.datatype);
        assert(seg[3] == "mode:"@);
        assert(seg[4] == c.mode);
        assert(is_name_tok(c.name.push(':'))) by {
            assert(forall|k: int|
                0 <= k < c.name.len() ==> c.name.push(':')[k] == #[trigger] c.name[k]);
        }
        assert(name_text(c.name.push(':')) =~= c.name);
        assert(sp_type_value(toks, i + 2) == Option::Some((c.datatype, i + 3)));
        assert(sp_column_type(toks, i + 1) == Option::Some(
            (ColumnTypeV { value: Option::Some(c.datatype) }, i + 3),
        ));
        assert(sp_mode_value(toks, i + 4) == Option::Some((c.mode, i + 5)));
        assert(sp_column_mode(toks, i + 3) == Option::Some(
            (ColumnModeV { value: Option::Some(c.mode) }, i + 5),
        ));
        assert(sp_column_entry(toks, i) == Option::Some((entry_of(c), i + 5))) by {
            assert(seq![
                ColumnClauseV::TypeClause(ColumnTypeV { value: Option::Some(c.datatype) }),
                ColumnClauseV::ModeClause(ColumnModeV { value: Option::Some(c.mode) }),
            ] =~= entry_of(c).clauses);
        }
        let rest = cs.drop_first();
        assert(toks.subrange(i + 5, i + 5 + 5 * rest.len()) =~= columns_tokens(rest)) by {
            assert forall|k: int| 0 <= k < 5 * rest.len() implies toks.subrange(
                i + 5,
                i + 5 + 5 * rest.len(),
            )[k] == columns_tokens(rest)[k] by {
                assert(toks.subrange(i + 5, i + 5 + 5 * rest.len())[k] == toks[i + 5 + k]);
                assert(toks[i + 5 + k] == seg[5 + k]);
                assert(seg[5 + k] == columns_tokens(cs)[5 + k]);
                assert((column_tokens(c) + columns_tokens(rest))[5 + k] == columns_tokens(
                    rest,
                )[k]);
            }
        }
        lemma_columns_complete(toks, i + 5, rest, acc.push(entry_of(c)));
        assert(acc.push(entry_of(c)) + col_entries(rest) =~= acc + col_entries(cs)) by {
            assert(col_entries(cs)[0] == entry_of(c));
            assert(col_entries(cs).drop_first() =~= col_entries(rest));
        }
    }
}

/// A skeleton table block parses back to exactly its skeleton tree,
/// consuming exactly the block's tokens.
proof fn lemma_table_entry_complete(toks: Seq<Seq<char>>, i: int, t: TableV)
    requires
        0 <= i,
        wf_table(t),
        i + table_tokens(t).len() <= toks.len(),
        toks.subrange(i, i + table_tokens(t).len()) == table_tokens(t),
        sp_column_entry(toks, i + table_tokens(t).len()) is None,
    ensures
        sp_table_entry(toks, i) == Option::Some((table_entry_of(t), i + table_tokens(t).len())),
{
    lemma_columns_tokens_len(t.columns);
    let tl = table_tokens(t).len() as int;
    assert(tl == 2 + 5 * t.columns.len());
    let seg = toks.subrange(i, i + tl);
    assert(toks[i] == seg[0]);
    assert(toks[i + 1] == seg[1]);
    assert(seg[0] == t.name.push(':'));
    assert(seg[1] == "columns:"@);
    assert(is_name_tok(t.name.push(':'))) by {
        assert(forall|k: int| 0 <= k < t.name.len() ==> t.name.push(':')[k] == #[trigger] t.name[k]);
    }
    assert(name_text(t.name.push(':')) =~= t.name);
    assert(toks.subrange(i + 2, i + 2 + 5 * t.columns.len()) =~= columns_tokens(t.columns)) by {
        assert forall|k: int| 0 <= k < 5 * t.columns.len() implies toks.subrange(
            i + 2,
            i + 2 + 5 * t.columns.len(),
        )[k] == columns_tokens(t.columns)[k] by {
            assert(toks.subrange(i + 2, i + 2 + 5 * t.columns.len())[k] == toks[i + 2 + k]);
            assert(toks[i + 2 + k] == seg[2 + k]);
            assert(seg[2 + k] == table_tokens(t)[2 + k]);
            assert(table_tokens(t)[2 + k] == columns_tokens(t.columns)[k]);
        }
    }
    lemma_columns_complete(toks, i + 2, t.columns, Seq::empty());
    assert(Seq::empty() + col_entries(t.columns) =~= col_entries(t.columns));
    assert(sp_column_section(toks, i + 2) == (
        ColumnSectionV { entries: col_entries(t.columns) },
        i + tl,
    ));
}

/// The tail of a skeleton table run — which extends to the end of the
/// token sequence — parses back to exactly its skeleton trees.
proof fn lemma_tables_complete(toks: Seq<Seq<char>>, i: int, ts: Seq<TableV>, acc: Seq<
    TableEntryV,
>)
    requires
        0 <= i <= toks.len(),
        forall|k: int| 0 <= k < ts.len() ==> wf_table(#[trigger] ts[k]),
        toks.subrange(i, toks.len() as int) == tables_tokens(ts),
    ensures
        sp_table_entries(toks, i, acc) == (acc + tbl_entries(ts), toks.len() as int),
    decreases ts.len(),
{
    lemma_keywords();
    assert(toks.len() - i == tables_tokens(ts).len());
    if ts.len() == 0 {
        assert(i == toks.len());
        assert(sp_table_entry(toks, i) is None);
        assert(acc + tbl_entries(ts) =~= acc);
    } else {
        let t = ts[0];
        lemma_columns_tokens_len(t.columns);
        let tl = table_tokens(t).len() as int;
        let end0 = i + tl;
        let rest = ts.drop_first();
        assert(tables_tokens(ts) == table_tokens(t) + tables_tokens(rest));
        let seg = toks.subrange(i, toks.len() as int);
        assert(toks.subrange(i, end0) =~= table_tokens(t)) by {
            assert forall|k: int| 0 <= k < tl implies toks.subrange(i, end0)[k] == table_tokens(
                t,
            )[k] by {
                assert(toks.subrange(i, end0)[k] == toks[i + k]);
                assert(toks[i + k] == seg[k]);
                assert(seg[k] == tables_tokens(ts)[k]);
                assert(tables_tokens(ts)[k] == table_tokens(t)[k]);
            }
        }
        assert(toks.subrange(end0, toks.len() as int) =~= tables_tokens(rest)) by {
            assert forall|k: int| 0 <= k < toks.len() - end0 implies toks.subrange(
                end0,
                toks.len() as int,
            )[k] == tables_tokens(rest)[k] by {
                assert(toks.subrange(end0, toks.len() as int)[k] == toks[end0 + k]);
                assert(toks[end0 + k] == seg[tl + k]);
                assert(seg[tl + k] == tables_tokens(ts)[tl + k]);
                assert((table_tokens(t) + tables_tokens(rest))[tl + k] == tables_tokens(rest)[k]);
            }
        }
        if rest.len() == 0 {
            assert(end0 == toks.len());
            assert(sp_column_entry(toks, end0) is None);
        } else {
            lemma_columns_tokens_len(rest[0].columns);
            assert(tables_tokens(rest)[1] == table_tokens(rest[0])[1]);
            assert(toks[end0 + 1] == "columns:"@);
            lemma_entry_none_at_table_start(toks, end0);
        }
        lemma_table_entry_complete(toks, i, t);
        lemma_tables_complete(toks, end0, rest, acc.push(table_entry_of(t)));
        assert(acc.push(table_entry_of(t)) + tbl_entries(rest) =~= acc + tbl_entries(ts)) by {
            assert(tbl_entries(ts)[0] == table_entry_of(t));
            assert(tbl_entries(ts).drop_first() =~= tbl_entries(rest));
        }
    }
}

/// Every input matching the documented skeleton of a well-formed schema
/// parses back to exactly that schema: as many tables as the document
/// declares, in source order, each with as many columns as its block
/// declares, in source order; every name, datatype and mode verbatim.
#[verifier::rlimit(80)]
pub proof fn lemma_skeleton_round_trip(s: SchemaV, input: Seq<char>)
    requires
        wf_schema(s),
        tokens_of(input) == skeleton_tokens(s),
    ensures
        spec_parse_schema(input) == ParseOutcome::Parsed(s),
{
    reveal_strlit("schema:");
    reveal_strlit("name:");
    reveal_strlit("tables:");
    lemma_keywords();
    let toks = skeleton_tokens(s);
    let ts = s.tables;
    lemma_columns_tokens_len(ts[0].columns);
    assert(tables_tokens(ts).len() >= 2) by {
        assert(tables_tokens(ts)[0] == table_tokens(ts[0])[0]);
    }
    assert(toks[0] == "schema:"@);
    assert(toks[1] == "name:"@);
    assert(toks[2] == s.name);
    assert(toks[3] == "tables:"@);
    assert(toks.subrange(4, toks.len() as int) =~= tables_tokens(ts)) by {
        assert forall|k: int| 0 <= k < toks.len() - 4 implies toks.subrange(
            4,
            toks.len() as int,
        )[k] == tables_tokens(ts)[k] by {
            assert(toks.subrange(4, toks.len() as int)[k] == toks[4 + k]);
            assert(toks[4 + k] == tables_tokens(ts)[k]);
        }
    }
    let t = ts[0];
    let tl = table_tokens(t).len() as int;
    let end0 = 4 + tl;
    let rest = ts.drop_first();
    let tail = toks.subrange(4, toks.len() as int);
    assert(toks.subrange(4, end0) =~= table_tokens(t)) by {
        assert forall|k: int| 0 <= k < tl implies toks.subrange(4, end0)[k] == table_tokens(
            t,
        )[k] by {
            assert(toks.subrange(4, end0)[k] == toks[4 + k]);
            assert(toks[4 + k] == tail[k]);
            assert(tail[k] == tables_tokens(ts)[k]);
            assert(tables_tokens(ts)[k] == table_tokens(t)[k]);
        }
    }
    assert(toks.subrange(end0, toks.len() as int) =~= tables_tokens(rest)) by {
        assert forall|k: int| 0 <= k < toks.len() - end0 implies toks.subrange(
            end0,
            toks.len() as int,
        )[k] == tables_tokens(rest)[k] by {
            assert(toks.subrange(end0, toks.len() as int)[k] == toks[end0 + k]);
            assert(toks[end0 + k] == tail[tl + k]);
            assert(tail[tl + k] == tables_tokens(ts)[tl + k]);
            assert(tables_tokens(ts)[tl + k] == tables_tokens(rest)[k]);
        }
    }
    if rest.len() == 0 {
        assert(end0 == toks.len());
        assert(sp_column_entry(toks, end0) is None);
    } else {
        lemma_columns_tokens_len(rest[0].columns);
        assert(tables_tokens(rest)[1] == table_tokens(rest[0])[1]);
        assert(toks[end0 + 1] == "columns:"@);
        lemma_entry_none_at_table_start(toks, end0);
    }
    lemma_table_entry_complete(toks, 4, t);
    lemma_tables_complete(toks, end0, rest, seq![table_entry_of(t)]);
    assert(seq![table_entry_of(t)] + tbl_entries(rest) =~= tbl_entries(ts)) by {
        assert(tbl_entries(ts)[0] == table_entry_of(t));
        assert(tbl_entries(ts).drop_first() =~= tbl_entries(rest));
    }
    assert(sp_table_section(toks, 4) == Option::Some(
        (TableSectionV { entries: tbl_entries(ts) }, toks.len() as int),
    ));
    assert(sp_schema_entry(toks, 1) == Option::Some(
        (
            SchemaEntryV { name: s.name, tables: TableSectionV { entries: tbl_entries(ts) } },
            toks.len() as int,
        ),
    ));
    assert(sp_schema_section(toks, 0) == Option::Some((file_of(s).section, toks.len() as int)));
    assert(sp_file(toks) == Option::Some(file_of(s)));
    lemma_lower_file(s);
}

// ---------------------------------------------------------------------
// The grammar only stores datatype and mode tokens of the closed lexical
// sets: whatever parse succeeds, its columns' fields lie in them.
// ---------------------------------------------------------------------

/// A clause as the grammar produces it: its value, when present, lies in
/// the clause's lexical set.
pub open spec fn clause_ok(cl: ColumnClauseV) -> bool {
    match cl {
        ColumnClauseV::TypeClause(t) => match t.value {
            Option::Some(v) => is_type_value_tok(v),
            Option::None => true,
        },
        ColumnClauseV::ModeClause(m) => match m.value {
            Option::Some(v) => is_mode_value_tok(v),
            Option::None => true,
        },
    }
}

/// A column entry as the grammar produces it: one clause of each kind,
/// each with a value of its lexical set when present.
pub open spec fn grammar_entry(e: ColumnEntryV) -> bool {
    &&& e.clauses.len() == 2
    &&& clause_ok(e.clauses[0])
    &&& clause_ok(e.clauses[1])
    &&& (e.clauses[0] is TypeClause <==> e.clauses[1] is ModeClause)
}

/// A table entry whose column entries the grammar could have produced.
pub open spec fn grammar_table_entry(e: TableEntryV) -> bool {
    forall|k: int| 0 <= k < e.columns.entries.len() ==> grammar_entry(
        #[trigger] e.columns.entries[k],
    )
}

/// A column whose datatype and mode lie in the closed lexical sets.
pub open spec fn column_in_sets(c: ColumnV) -> bool {
    is_type_value_tok(c.datatype) && is_mode_value_tok(c.mode)
}

/// A table all of whose columns satisfy [`column_in_sets`].
pub open spec fn table_in_sets(t: TableV) -> bool {
    forall|k: int| 0 <= k < t.columns.len() ==> column_in_sets(#[trigger] t.columns[k])
}

/// Whatever the `column_entry` rule matches is a grammar entry.
proof fn lemma_entry_grammar(toks: Seq<Seq<char>>, i: int)
    ensures
        sp_column_entry(toks, i) matches Option::Some(p) ==> grammar_entry(p.0),
{
}

/// Whatever a run of `column_entry` matches are grammar entries.
proof fn lemma_entries_grammar(toks: Seq<Seq<char>>, i: int, acc: Seq<ColumnEntryV>)
    requires
        forall|k: int| 0 <= k < acc.len() ==> grammar_entry(#[trigger] acc[k]),
    ensures
        forall|k: int| 0 <= k < sp_column_entries(toks, i, acc).0.len() ==> grammar_entry(
            #[trigger] sp_column_entries(toks, i, acc).0[k],
        ),
    decreases toks.len() - i,
{
    lemma_entry_grammar(toks, i);
    match sp_column_entry(toks, i) {
        Option::Some(p) => {
            if i < p.1 <= toks.len() {
                assert(forall|k: int|
                    0 <= k < acc.push(p.0).len() ==> grammar_entry(#[trigger] acc.push(p.0)[k]));
                lemma_entries_grammar(toks, p.1, acc.push(p.0));
                assert(sp_column_entries(toks, i, acc) == sp_column_entries(
                    toks,
                    p.1,
                    acc.push(p.0),
                ));
            } else {
                assert(sp_column_entries(toks, i, acc) == (acc, i));
            }
        },
        Option::None => {
            assert(sp_column_entries(toks, i, acc) == (acc, i));
        },
    }
}

/// Whatever the `table_entry` rule matches holds grammar entries only.
proof fn lemma_table_entry_grammar(toks: Seq<Seq<char>>, i: int)
    ensures
        sp_table_entry(toks, i) matches Option::Some(p) ==> grammar_table_entry(p.0),
{
    lemma_entries_grammar(toks, i + 2, Seq::empty());
}

/// Whatever a run of `table_entry` matches holds grammar entries only.
proof fn lemma_table_entries_grammar(toks: Seq<Seq<char>>, i: int, acc: Seq<TableEntryV>)
    requires
        forall|k: int| 0 <= k < acc.len() ==> grammar_table_entry(#[trigger] acc[k]),
    ensures
        forall|k: int| 0 <= k < sp_table_entries(toks, i, acc).0.len() ==> grammar_table_entry(
            #[trigger] sp_table_entries(toks, i, acc).0[k],
        ),
    decreases toks.len() - i,
{
    lemma_table_entry_grammar(toks, i);
    match sp_table_entry(toks, i) {
        Option::Some(p) => {
            if i < p.1 <= toks.len() {
                assert(forall|k: int|
                    0 <= k < acc.push(p.0).len() ==> grammar_table_entry(
                        #[trigger] acc.push(p.0)[k],
                    ));
                lemma_table_entries_grammar(toks, p.1, acc.push(p.0));
                assert(sp_table_entries(toks, i, acc) == sp_table_entries(
                    toks,
                    p.1,
                    acc.push(p.0),
                ));
            } else {
                assert(sp_table_entries(toks, i, acc) == (acc, i));
            }
        },
        Option::None => {
            assert(sp_table_entries(toks, i, acc) == (acc, i));
        },
    }
}

/// Lowering a grammar entry, when it succeeds, yields a column whose
/// datatype and mode lie in the lexical sets.
proof fn lemma_lower_grammar_entry(e: ColumnEntryV)
    requires
        grammar_entry(e),
    ensures
        lower_entry(e) matches Result::Ok(c) ==> column_in_sets(c),
{
    reveal_with_fuel(crate::lower::lower_clauses, 4);
    let cl1 = e.clauses[1];
    assert(e.clauses.drop_first() =~= seq![cl1]);
    assert(seq![cl1].drop_first() =~= Seq::<ColumnClauseV>::empty());
}

/// Lowering grammar entries, when it succeeds, yields columns whose
/// fields lie in the lexical sets.
proof fn lemma_lower_columns_sets(entries: Seq<ColumnEntryV>, acc: Seq<ColumnV>)
    requires
        forall|k: int| 0 <= k < entries.len() ==> grammar_entry(#[trigger] entries[k]),
        forall|k: int| 0 <= k < acc.len() ==> column_in_sets(#[trigger] acc[k]),
    ensures
        lower_columns(entries, acc) matches Result::Ok(cs) ==> forall|k: int|
            0 <= k < cs.len() ==> column_in_sets(#[trigger] cs[k]),
    decreases entries.len(),
{
    if entries.len() > 0 {
        lemma_lower_grammar_entry(entries[0]);
        match lower_entry(entries[0]) {
            Result::Ok(c) => {
                assert(forall|k: int|
                    0 <= k < acc.push(c).len() ==> column_in_sets(#[trigger] acc.push(c)[k]));
                lemma_lower_columns_sets(entries.drop_first(), acc.push(c));
            },
            Result::Err(_) => {},
        }
    }
}

/// Lowering a grammar table entry, when it succeeds, yields a table all
/// of whose columns lie in the lexical sets.
proof fn lemma_lower_table_sets(e: TableEntryV)
    requires
        grammar_table_entry(e),
    ensures
        lower_table(e) matches Result::Ok(t) ==> table_in_sets(t),
{
    lemma_lower_columns_sets(e.columns.entries, Seq::empty());
}

/// Lowering grammar table entries, when it succeeds, yields tables all
/// of whose columns lie in the lexical sets.
proof fn lemma_lower_tables_sets(entries: Seq<TableEntryV>, acc: Seq<TableV>)
    requires
        forall|k: int| 0 <= k < entries.len() ==> grammar_table_entry(#[trigger] entries[k]),
        forall|k: int| 0 <= k < acc.len() ==> table_in_sets(#[trigger] acc[k]),
    ensures
        lower_tables(entries, acc) matches Result::Ok(ts) ==> forall|k: int|
            0 <= k < ts.len() ==> table_in_sets(#[trigger] ts[k]),
    decreases entries.len(),
{
    if entries.len() > 0 {
        lemma_lower_table_sets(entries[0]);
        match lower_table(entries[0]) {
            Result::Ok(t) => {
                assert(forall|k: int|
                    0 <= k < acc.push(t).len() ==> table_in_sets(#[trigger] acc.push(t)[k]));
                lemma_lower_tables_sets(entries.drop_first(), acc.push(t));
            },
            Result::Err(_) => {},
        }
    }
}

/// Tokens outside the closed lexical sets are rejected at the grammar
/// level, never stored: whenever a parse succeeds, every column's
/// datatype is one of `int`, `str`, `float`, `bool` and every column's
/// mode is one of `nullable`, `required`, `repeated` — each the exact
/// token that was parsed, as the grammar and lowering functions copy
/// tokens verbatim.
pub proof fn lemma_parsed_lexical_sets(input: Seq<char>)
    ensures
        spec_parse_schema(input) matches ParseOutcome::Parsed(s) ==> forall|k: int|
            0 <= k < s.tables.len() ==> table_in_sets(#[trigger] s.tables[k]),
{
    let toks = tokens_of(input);
    match sp_schema_section(toks, 0) {
        Option::Some(q) => {
            match sp_table_section(toks, 4) {
                Option::Some(p) => {
                    lemma_table_entry_grammar(toks, 4);
                    match sp_table_entry(toks, 4) {
                        Option::Some(first) => {
                            if 4 < first.1 <= toks.len() {
                                assert(forall|k: int|
                                    0 <= k < seq![first.0].len() ==> grammar_table_entry(
                                        #[trigger] seq![first.0][k],
                                    ));
                                lemma_table_entries_grammar(toks, first.1, seq![first.0]);
                            } else {
                                assert(forall|k: int|
                                    0 <= k < seq![first.0].len() ==> grammar_table_entry(
                                        #[trigger] seq![first.0][k],
                                    ));
                            }
                            lemma_lower_tables_sets(p.0.entries, Seq::empty());
                        },
                        Option::None => {},
                    }
                },
                Option::None => {},
            }
        },
        Option::None => {},
    }
}

/// Parsing is deterministic: the outcome is a function of the input
/// characters alone, so two parses of equal inputs yield equal models.
pub proof fn lemma_parse_deterministic(a: Seq<char>, b: Seq<char>)
    requires
        a == b,
    ensures
        spec_parse_schema(a) == spec_parse_schema(b),
{
}

/// An input without the `schema:` top-level key is a syntax error, never
/// a default or empty schema.
pub proof fn lemma_no_schema_key_is_syntax_error(s: Seq<char>)
    requires
        forall|k: int| 0 <= k < tokens_of(s).len() ==> tokens_of(s)[k] != "schema:"@,
    ensures
        spec_parse_schema(s) is Syntax,
{
}

} // verus!
