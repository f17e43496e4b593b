//! The lowering pass: converts a `file` parse tree into a [`Schema`]
//! value, depth first and order preserving.
//!
//! The only semantic checks live here: a `type:` or `mode:` clause that is
//! structurally present but carries no value token fails the whole pass
//! with [`SchemaErr::MissingValue`].  A column whose tree holds no clause
//! of a kind keeps the empty string in that field.

use vstd::prelude::*;

use crate::grammar::{
    ColumnClause, ColumnClauseV, ColumnEntryNode, ColumnEntryV, FileNode, FileV, TableEntryNode,
    TableEntryV,
};
use crate::model::{Column, ColumnV, Schema, SchemaErr, SchemaV, Table, TableV};

verus! {

/// Folds the clauses of a column entry over a partial column, in source
/// order: a later clause of the same kind overwrites an earlier one; a
/// clause without a value fails the pass.
pub open spec fn lower_clauses(cls: Seq<ColumnClauseV>, c: ColumnV) -> Result<ColumnV, ()>
    decreases cls.len(),
{
    if cls.len() == 0 {
        Result::Ok(c)
    } else {
        match cls[0] {
            ColumnClauseV::TypeClause(t) => match t.value {
                Option::Some(v) => lower_clauses(
                    cls.drop_first(),
                    ColumnV { datatype: v, ..c },
                ),
                Option::None => Result::Err(()),
            },
            ColumnClauseV::ModeClause(m) => match m.value {
                Option::Some(v) => lower_clauses(cls.drop_first(), ColumnV { mode: v, ..c }),
                Option::None => Result::Err(()),
            },
        }
    }
}

/// Lowers one `column_entry` node: the name comes from the entry, the
/// datatype and mode from its clauses, both empty when no such clause is
/// in the tree.
pub open spec fn lower_entry(e: ColumnEntryV) -> Result<ColumnV, ()> {
    lower_clauses(
        e.clauses,
        ColumnV { name: e.name, datatype: Seq::empty(), mode: Seq::empty() },
    )
}

/// Lowers a sequence of `column_entry` nodes in order, appending to `acc`;
/// the first failing entry fails the whole pass.
pub open spec fn lower_columns(entries: Seq<ColumnEntryV>, acc: Seq<ColumnV>) -> Result<
    Seq<ColumnV>,
    (),
>
    decreases entries.len(),
{
    if entries.len() == 0 {
        Result::Ok(acc)
    } else {
        match lower_entry(entries[0]) {
            Result::Ok(c) => lower_columns(entries.drop_first(), acc.push(c)),
            Result::Err(e) => Result::Err(e),
        }
    }
}

/// Lowers one `table_entry` node.
pub open spec fn lower_table(t: TableEntryV) -> Result<TableV, ()> {
    match lower_columns(t.columns.entries, Seq::empty()) {
        Result::Ok(cs) => Result::Ok(TableV { name: t.name, columns: cs }),
        Result::Err(e) => Result::Err(e),
    }
}

/// Lowers a sequence of `table_entry` nodes in order, appending to `acc`.
pub open spec fn lower_tables(entries: Seq<TableEntryV>, acc: Seq<TableV>) -> Result<
    Seq<TableV>,
    (),
>
    decreases entries.len(),
{
    if entries.len() == 0 {
        Result::Ok(acc)
    } else {
        match lower_table(entries[0]) {
            Result::Ok(t) => lower_tables(entries.drop_first(), acc.push(t)),
            Result::Err(e) => Result::Err(e),
        }
    }
}

/// Lowers a whole `file` tree into a schema model.
pub open spec fn lower_file(f: FileV) -> Result<SchemaV, ()> {
    match lower_tables(f.section.entry.tables.entries, Seq::empty()) {
        Result::Ok(ts) => Result::Ok(SchemaV { name: f.section.entry.name, tables: ts }),
        Result::Err(e) => Result::Err(e),
    }
}

/// Lowers one column entry, walking its clauses in source order.
fn lower_column_entry(e: &ColumnEntryNode) -> (r: Result<Column, SchemaErr>)
    ensures
        match lower_entry(e@) {
            Result::Ok(c) => r matches Ok(col) && col@ == c,
            Result::Err(_) => r == Result::<Column, SchemaErr>::Err(SchemaErr::MissingValue),
        },
{
    let mut column = Column {
        name: e.name.clone(),
        datatype: String::new(),
        mode: String::new(),
    };
    proof {
        assert(column@.datatype =~= Seq::<char>::empty());
        assert(column@.mode =~= Seq::<char>::empty());
    }
    let ghost cls = e@.clauses;
    proof {
        assert(cls.skip(0) =~= cls);
    }
    let mut k: usize = 0;
    while k < e.clauses.len()
        invariant
            cls == e@.clauses,
            cls.len() == e.clauses@.len(),
            k <= e.clauses@.len(),
            forall|m: int| 0 <= m < cls.len() ==> cls[m] == #[trigger] e.clauses@[m]@,
            lower_entry(e@) == lower_clauses(cls.skip(k as int), column@),
        decreases e.clauses@.len() - k,
    {
        let ghost before = column@;
        proof {
            assert(cls.skip(k as int)[0] == cls[k as int]);
        }
        match &e.clauses[k] {
            ColumnClause::TypeClause(t) => match &t.value {
                Some(v) => {
                    column.datatype = v.clone();
                },
                None => {
                    return Err(SchemaErr::MissingValue);
                },
            },
            ColumnClause::ModeClause(m) => match &m.value {
                Some(v) => {
                    column.mode = v.clone();
                },
                None => {
                    return Err(SchemaErr::MissingValue);
                },
            },
        }
        proof {
            assert(cls.skip(k as int).drop_first() =~= cls.skip(k as int + 1));
        }
        k = k + 1;
    }
    proof {
        assert(cls.skip(k as int).len() == 0);
    }
    Ok(column)
}

/// Lowers a whole parse tree into a [`Schema`], depth first; the result
/// preserves the source order of tables and columns.
#[verifier::loop_isolation(false)]
pub fn lower(file: &FileNode) -> (r: Result<Schema, SchemaErr>)
    ensures
        match lower_file(file@) {
            Result::Ok(s) => r matches Ok(schema) && schema@ == s,
            Result::Err(_) => r == Result::<Schema, SchemaErr>::Err(SchemaErr::MissingValue),
        },
{
    let entry = &file.section.entry;
    let mut tables: Vec<Table> = Vec::new();
    proof {
        assert(tables@.map_values(|t: Table| t@) =~~= Seq::<TableV>::empty());
    }
    let ghost tents = entry.tables@.entries;
    proof {
        assert(tents.skip(0) =~= tents);
    }
    let n = entry.tables.entries.len();
    let mut k: usize = 0;
    while k < n
        invariant
            tents == entry.tables@.entries,
            n == entry.tables.entries@.len(),
            tents.len() == n,
            k <= n,
            forall|m: int| 0 <= m < n ==> tents[m] == #[trigger] entry.tables.entries@[m]@,
            lower_tables(tents, Seq::empty()) == lower_tables(
                tents.skip(k as int),
                tables@.map_values(|t: Table| t@),
            ),
        decreases n - k,
    {
        let ghost acc = tables@.map_values(|t: Table| t@);
        proof {
            assert(tents.skip(k as int)[0] == tents[k as int]);
        }
        let tnode = &entry.tables.entries[k];
        let mut columns: Vec<Column> = Vec::new();
        proof {
            assert(columns@.map_values(|c: Column| c@) =~~= Seq::<ColumnV>::empty());
        }
        let ghost cents = tnode@.columns.entries;
        proof {
            assert(cents.skip(0) =~= cents);
        }
        let cn = tnode.columns.entries.len();
        let mut j: usize = 0;
        while j < cn
            invariant
                cents == tnode@.columns.entries,
                cn == tnode.columns.entries@.len(),
                cents.len() == cn,
                j <= cn,
                forall|m: int| 0 <= m < cn ==> cents[m] == #[trigger] tnode.columns.entries@[m]@,
                lower_columns(cents, Seq::empty()) == lower_columns(
                    cents.skip(j as int),
                    columns@.map_values(|c: Column| c@),
                ),
            decreases cn - j,
        {
            let ghost cacc = columns@.map_values(|c: Column| c@);
            proof {
                assert(cents.skip(j as int)[0] == cents[j as int]);
            }
            match lower_column_entry(&tnode.columns.entries[j]) {
                Ok(col) => {
                    let ghost col_v = col@;
                    proof {
                        assert(cents.skip(j as int).drop_first() =~= cents.skip(j as int + 1));
                    }
                    columns.push(col);
                    proof {
                        assert(columns@.map_values(|c: Column| c@) =~~= cacc.push(col_v));
                    }
                    j = j + 1;
                },
                Err(e) => {
                    proof {
                        assert(lower_columns(cents.skip(j as int), cacc) is Err);
                        assert(lower_table(tents[k as int]) is Err);
                        assert(lower_tables(tents.skip(k as int), acc) is Err);
                    }
                    return Err(e);
                },
            }
        }
        proof {
            assert(cents.skip(j as int).len() == 0);
        }
        let table = Table { name: tnode.name.clone(), columns };
        let ghost table_v = table@;
        proof {
            assert(tents.skip(k as int).drop_first() =~= tents.skip(k as int + 1));
        }
        tables.push(table);
        proof {
            assert(tables@.map_values(|t: Table| t@) =~~= acc.push(table_v));
        }
        k = k + 1;
    }
    proof {
        assert(tents.skip(k as int).len() == 0);
    }
    Ok(Schema { name: entry.name.clone(), tables })
}

} // verus!
