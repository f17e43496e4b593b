//! The grammar: the exact token-level shape of a valid document, and the
//! parse step that turns a token sequence into a concrete syntax tree.
//!
//! Structure is carried by tokens (see [`crate::token`]); within each
//! nesting level matching is order-sensitive, except that the `type:` and
//! `mode:` clauses of a column may appear in either order.  The grammar is
//! total over its alphabet: a token sequence either reduces to the `file`
//! rule or the parse step reports the position where it deviates.
//!
//! Each rule has a specification-level parser (`sp_*`), a pure function
//! from a token sequence and a position to the matched node and the next
//! position, and an executable parser on [`YAMLParser`] proved equal to it.

use vstd::prelude::*;

use crate::token::views_of;

verus! {

// ---------------------------------------------------------------------
// Lexical classification of tokens.
// ---------------------------------------------------------------------

/// Characters an identifier may hold: ASCII letters, digits, underscore.
pub open spec fn is_ident_char(c: char) -> bool {
    let u = c as u32;
    (97 <= u && u <= 122)  // 'a'..='z'
    || (65 <= u && u <= 90)  // 'A'..='Z'
    || (48 <= u && u <= 57)  // '0'..='9'
    || u == 95  // '_'
}

/// A bare identifier token: nonempty, identifier characters only.
pub open spec fn is_identifier_tok(t: Seq<char>) -> bool {
    t.len() > 0 && (forall|k: int| 0 <= k < t.len() ==> is_ident_char(t[k]))
}

/// A naming token: an identifier immediately followed by a colon, the
/// form that introduces a table or column block (`products:`).
pub open spec fn is_name_tok(t: Seq<char>) -> bool {
    t.len() >= 2 && t[t.len() - 1] == ':' && (forall|k: int|
        0 <= k < t.len() - 1 ==> is_ident_char(t[k]))
}

/// The identifier part of a naming token, without the trailing colon.
pub open spec fn name_text(t: Seq<char>) -> Seq<char> {
    t.subrange(0, t.len() - 1)
}

/// The closed lexical set of column datatypes.
pub open spec fn is_type_value_tok(t: Seq<char>) -> bool {
    t == "int"@ || t == "str"@ || t == "float"@ || t == "bool"@
}

/// The closed lexical set of column modes.
pub open spec fn is_mode_value_tok(t: Seq<char>) -> bool {
    t == "nullable"@ || t == "required"@ || t == "repeated"@
}

/// Runtime check for [`is_ident_char`].
fn ident_char(c: char) -> (r: bool)
    ensures
        r == is_ident_char(c),
{
    let u = c as u32;
    (97 <= u && u <= 122) || (65 <= u && u <= 90) || (48 <= u && u <= 57) || u == 95
}

/// Character-wise string equality, proved equivalent to view equality.
fn str_eq(a: &str, b: &str) -> (r: bool)
    ensures
        r == (a@ == b@),
{
    let na = a.unicode_len();
    let nb = b.unicode_len();
    if na != nb {
        return false;
    }
    let mut k: usize = 0;
    while k < na
        invariant
            na == a@.len(),
            na == b@.len(),
            k <= na,
            forall|m: int| 0 <= m < k ==> a@[m] == b@[m],
        decreases na - k,
    {
        if a.get_char(k) != b.get_char(k) {
            return false;
        }
        k = k + 1;
    }
    proof {
        assert(a@ =~= b@);
    }
    true
}

/// Runtime check for [`is_identifier_tok`].
pub fn check_identifier(t: &str) -> (r: bool)
    ensures
        r == is_identifier_tok(t@),
{
    let n = t.unicode_len();
    if n == 0 {
        return false;
    }
    let mut k: usize = 0;
    while k < n
        invariant
            n == t@.len(),
            k <= n,
            forall|m: int| 0 <= m < k ==> is_ident_char(t@[m]),
        decreases n - k,
    {
        if !ident_char(t.get_char(k)) {
            return false;
        }
        k = k + 1;
    }
    true
}

/// Runtime check for [`is_name_tok`].
pub fn check_name_tok(t: &str) -> (r: bool)
    ensures
        r == is_name_tok(t@),
{
    let n = t.unicode_len();
    if n < 2 {
        return false;
    }
    if t.get_char(n - 1) != ':' {
        return false;
    }
    let mut k: usize = 0;
    while k < n - 1
        invariant
            n == t@.len(),
            2 <= n,
            k <= n - 1,
            t@[n - 1] == ':',
            forall|m: int| 0 <= m < k ==> is_ident_char(t@[m]),
        decreases n - k,
    {
        if !ident_char(t.get_char(k)) {
            return false;
        }
        k = k + 1;
    }
    true
}

/// The identifier part of a naming token, as an owned string.
fn name_of(t: &str) -> (r: String)
    requires
        is_name_tok(t@),
    ensures
        r@ == name_text(t@),
{
    let n = t.unicode_len();
    t.substring_char(0, n - 1).to_owned()
}

/// Runtime check for [`is_type_value_tok`].
pub fn check_type_value(t: &str) -> (r: bool)
    ensures
        r == is_type_value_tok(t@),
{
    str_eq(t, "int") || str_eq(t, "str") || str_eq(t, "float") || str_eq(t, "bool")
}

/// Runtime check for [`is_mode_value_tok`].
pub fn check_mode_value(t: &str) -> (r: bool)
    ensures
        r == is_mode_value_tok(t@),
{
    str_eq(t, "nullable") || str_eq(t, "required") || str_eq(t, "repeated")
}

// ---------------------------------------------------------------------
// The concrete syntax tree: one node type per value-bearing rule.
// ---------------------------------------------------------------------

/// A `column_type` node: the `type:` clause, with its value token when
/// one followed the keyword.
pub struct ColumnTypeNode {
    pub value: Option<String>,
}

/// Model of a [`ColumnTypeNode`].
pub ghost struct ColumnTypeV {
    pub value: Option<Seq<char>>,
}

impl View for ColumnTypeNode {
    type V = ColumnTypeV;

    open spec fn view(&self) -> ColumnTypeV {
        ColumnTypeV {
            value: match self.value {
                Option::Some(v) => Option::Some(v@),
                Option::None => Option::None,
            },
        }
    }
}

/// A `column_mode` node: the `mode:` clause, with its value token when
/// one followed the keyword.
pub struct ColumnModeNode {
    pub value: Option<String>,
}

/// Model of a [`ColumnModeNode`].
pub ghost struct ColumnModeV {
    pub value: Option<Seq<char>>,
}

impl View for ColumnModeNode {
    type V = ColumnModeV;

    open spec fn view(&self) -> ColumnModeV {
        ColumnModeV {
            value: match self.value {
                Option::Some(v) => Option::Some(v@),
                Option::None => Option::None,
            },
        }
    }
}

/// A clause inside a `column_entry`, in source order.
pub enum ColumnClause {
    TypeClause(ColumnTypeNode),
    ModeClause(ColumnModeNode),
}

/// Model of a [`ColumnClause`].
pub ghost enum ColumnClauseV {
    TypeClause(ColumnTypeV),
    ModeClause(ColumnModeV),
}

impl View for ColumnClause {
    type V = ColumnClauseV;

    open spec fn view(&self) -> ColumnClauseV {
        match self {
            ColumnClause::TypeClause(t) => ColumnClauseV::TypeClause(t@),
            ColumnClause::ModeClause(m) => ColumnClauseV::ModeClause(m@),
        }
    }
}

/// A `column_entry` node: a column name and its clauses in source order.
pub struct ColumnEntryNode {
    pub name: String,
    pub clauses: Vec<ColumnClause>,
}

/// Model of a [`ColumnEntryNode`].
pub ghost struct ColumnEntryV {
    pub name: Seq<char>,
    pub clauses: Seq<ColumnClauseV>,
}

impl View for ColumnEntryNode {
    type V = ColumnEntryV;

    open spec fn view(&self) -> ColumnEntryV {
        ColumnEntryV {
            name: self.name@,
            clauses: self.clauses@.map_values(|c: ColumnClause| c@),
        }
    }
}

/// A `column_section` node: zero or more column entries, in source order.
pub struct ColumnSectionNode {
    pub entries: Vec<ColumnEntryNode>,
}

/// Model of a [`ColumnSectionNode`].
pub ghost struct ColumnSectionV {
    pub entries: Seq<ColumnEntryV>,
}

impl View for ColumnSectionNode {
    type V = ColumnSectionV;

    open spec fn view(&self) -> ColumnSectionV {
        ColumnSectionV { entries: self.entries@.map_values(|e: ColumnEntryNode| e@) }
    }
}

/// A `table_entry` node: a table name and its column section.
pub struct TableEntryNode {
    pub name: String,
    pub columns: ColumnSectionNode,
}

/// Model of a [`TableEntryNode`].
pub ghost struct TableEntryV {
    pub name: Seq<char>,
    pub columns: ColumnSectionV,
}

impl View for TableEntryNode {
    type V = TableEntryV;

    open spec fn view(&self) -> TableEntryV {
        TableEntryV { name: self.name@, columns: self.columns@ }
    }
}

/// A `table_section` node: one or more table entries, in source order.
pub struct TableSectionNode {
    pub entries: Vec<TableEntryNode>,
}

/// Model of a [`TableSectionNode`].
pub ghost struct TableSectionV {
    pub entries: Seq<TableEntryV>,
}

impl View for TableSectionNode {
    type V = TableSectionV;

    open spec fn view(&self) -> TableSectionV {
        TableSectionV { entries: self.entries@.map_values(|e: TableEntryNode| e@) }
    }
}

/// A `schema_entry` node: the schema name and the table section.
pub struct SchemaEntryNode {
    pub name: String,
    pub tables: TableSectionNode,
}

/// Model of a [`SchemaEntryNode`].
pub ghost struct SchemaEntryV {
    pub name: Seq<char>,
    pub tables: TableSectionV,
}

impl View for SchemaEntryNode {
    type V = SchemaEntryV;

    open spec fn view(&self) -> SchemaEntryV {
        SchemaEntryV { name: self.name@, tables: self.tables@ }
    }
}

/// A `schema_section` node: the block the `schema:` keyword introduces.
pub struct SchemaSectionNode {
    pub entry: SchemaEntryNode,
}

/// Model of a [`SchemaSectionNode`].
pub ghost struct SchemaSectionV {
    pub entry: SchemaEntryV,
}

impl View for SchemaSectionNode {
    type V = SchemaSectionV;

    open spec fn view(&self) -> SchemaSectionV {
        SchemaSectionV { entry: self.entry@ }
    }
}

/// A `file` node: exactly one schema section covering the whole input.
pub struct FileNode {
    pub section: SchemaSectionNode,
}

/// Model of a [`FileNode`].
pub ghost struct FileV {
    pub section: SchemaSectionV,
}

impl View for FileNode {
    type V = FileV;

    open spec fn view(&self) -> FileV {
        FileV { section: self.section@ }
    }
}

// ---------------------------------------------------------------------
// Specification-level parsers, one per rule.  Each takes the token
// sequence and a position and yields the matched node and the position
// after it, or nothing when the rule does not match there.
// ---------------------------------------------------------------------

/// Rule `identifier`: one bare identifier token.
pub open spec fn sp_identifier(toks: Seq<Seq<char>>, i: int) -> Option<(Seq<char>, int)> {
    if 0 <= i < toks.len() && is_identifier_tok(toks[i]) {
        Option::Some((toks[i], i + 1))
    } else {
        Option::None
    }
}

/// Rule `column_type_value`: one token of the datatype lexical set.
pub open spec fn sp_type_value(toks: Seq<Seq<char>>, i: int) -> Option<(Seq<char>, int)> {
    if 0 <= i < toks.len() && is_type_value_tok(toks[i]) {
        Option::Some((toks[i], i + 1))
    } else {
        Option::None
    }
}

/// Rule `column_mode_value`: one token of the mode lexical set.
pub open spec fn sp_mode_value(toks: Seq<Seq<char>>, i: int) -> Option<(Seq<char>, int)> {
    if 0 <= i < toks.len() && is_mode_value_tok(toks[i]) {
        Option::Some((toks[i], i + 1))
    } else {
        Option::None
    }
}

/// Rule `column_type`: the `type:` keyword, then optionally a datatype
/// token.  A missing value still matches the rule; the lowering pass is
/// what rejects it.
pub open spec fn sp_column_type(toks: Seq<Seq<char>>, i: int) -> Option<(ColumnTypeV, int)> {
    if 0 <= i < toks.len() && toks[i] == "type:"@ {
        match sp_type_value(toks, i + 1) {
            Option::Some(p) => Option::Some((ColumnTypeV { value: Option::Some(p.0) }, p.1)),
            Option::None => Option::Some((ColumnTypeV { value: Option::None }, i + 1)),
        }
    } else {
        Option::None
    }
}

/// Rule `column_mode`: the `mode:` keyword, then optionally a mode token.
pub open spec fn sp_column_mode(toks: Seq<Seq<char>>, i: int) -> Option<(ColumnModeV, int)> {
    if 0 <= i < toks.len() && toks[i] == "mode:"@ {
        match sp_mode_value(toks, i + 1) {
            Option::Some(p) => Option::Some((ColumnModeV { value: Option::Some(p.0) }, p.1)),
            Option::None => Option::Some((ColumnModeV { value: Option::None }, i + 1)),
        }
    } else {
        Option::None
    }
}

/// Rule `column_entry`: a naming token, then a `column_type` and a
/// `column_mode` in either order.
pub open spec fn sp_column_entry(toks: Seq<Seq<char>>, i: int) -> Option<(ColumnEntryV, int)> {
    if 0 <= i < toks.len() && is_name_tok(toks[i]) {
        match sp_column_type(toks, i + 1) {
            Option::Some(t) => match sp_column_mode(toks, t.1) {
                Option::Some(m) => Option::Some(
                    (
                        ColumnEntryV {
                            name: name_text(toks[i]),
                            clauses: seq![
                                ColumnClauseV::TypeClause(t.0),
                                ColumnClauseV::ModeClause(m.0),
                            ],
                        },
                        m.1,
                    ),
                ),
                Option::None => Option::None,
            },
            Option::None => match sp_column_mode(toks, i + 1) {
                Option::Some(m) => match sp_column_type(toks, m.1) {
                    Option::Some(t) => Option::Some(
                        (
                            ColumnEntryV {
                                name: name_text(toks[i]),
                                clauses: seq![
                                    ColumnClauseV::ModeClause(m.0),
                                    ColumnClauseV::TypeClause(t.0),
                                ],
                            },
                            t.1,
                        ),
                    ),
                    Option::None => Option::None,
                },
                Option::None => Option::None,
            },
        }
    } else {
        Option::None
    }
}

/// Rule `column_section` body: column entries repeated until the next
/// tokens no longer form one, appended to `acc`.
pub open spec fn sp_column_entries(toks: Seq<Seq<char>>, i: int, acc: Seq<ColumnEntryV>) -> (
    Seq<ColumnEntryV>,
    int,
)
    decreases toks.len() - i,
{
    match sp_column_entry(toks, i) {
        Option::Some(p) => if i < p.1 <= toks.len() {
            sp_column_entries(toks, p.1, acc.push(p.0))
        } else {
            (acc, i)
        },
        Option::None => (acc, i),
    }
}

/// Rule `column_section`: zero or more column entries.
pub open spec fn sp_column_section(toks: Seq<Seq<char>>, i: int) -> (ColumnSectionV, int) {
    let r = sp_column_entries(toks, i, Seq::empty());
    (ColumnSectionV { entries: r.0 }, r.1)
}

/// Rule `table_entry`: a naming token, the `columns:` keyword, then the
/// table's column section.
pub open spec fn sp_table_entry(toks: Seq<Seq<char>>, i: int) -> Option<(TableEntryV, int)> {
    if 0 <= i && i + 1 < toks.len() && is_name_tok(toks[i]) && toks[i + 1] == "columns:"@ {
        let r = sp_column_section(toks, i + 2);
        Option::Some((TableEntryV { name: name_text(toks[i]), columns: r.0 }, r.1))
    } else {
        Option::None
    }
}

/// Rule `table_section` tail: further table entries, appended to `acc`.
pub open spec fn sp_table_entries(toks: Seq<Seq<char>>, i: int, acc: Seq<TableEntryV>) -> (
    Seq<TableEntryV>,
    int,
)
    decreases toks.len() - i,
{
    match sp_table_entry(toks, i) {
        Option::Some(p) => if i < p.1 <= toks.len() {
            sp_table_entries(toks, p.1, acc.push(p.0))
        } else {
            (acc, i)
        },
        Option::None => (acc, i),
    }
}

/// Rule `table_section`: one or more table entries.
pub open spec fn sp_table_section(toks: Seq<Seq<char>>, i: int) -> Option<(TableSectionV, int)> {
    match sp_table_entry(toks, i) {
        Option::Some(p) => if i < p.1 <= toks.len() {
            let r = sp_table_entries(toks, p.1, seq![p.0]);
            Option::Some((TableSectionV { entries: r.0 }, r.1))
        } else {
            Option::Some((TableSectionV { entries: seq![p.0] }, p.1))
        },
        Option::None => Option::None,
    }
}

/// Rule `schema_entry`: `name:`, the schema identifier, `tables:`, then
/// the table section.
pub open spec fn sp_schema_entry(toks: Seq<Seq<char>>, i: int) -> Option<(SchemaEntryV, int)> {
    if 0 <= i && i + 2 < toks.len() && toks[i] == "name:"@ && is_identifier_tok(toks[i + 1])
        && toks[i + 2] == "tables:"@ {
        match sp_table_section(toks, i + 3) {
            Option::Some(p) => Option::Some(
                (SchemaEntryV { name: toks[i + 1], tables: p.0 }, p.1),
            ),
            Option::None => Option::None,
        }
    } else {
        Option::None
    }
}

/// Rule `schema_section`: the `schema:` keyword, then a schema entry.
pub open spec fn sp_schema_section(toks: Seq<Seq<char>>, i: int) -> Option<(SchemaSectionV, int)> {
    if 0 <= i < toks.len() && toks[i] == "schema:"@ {
        match sp_schema_entry(toks, i + 1) {
            Option::Some(p) => Option::Some((SchemaSectionV { entry: p.0 }, p.1)),
            Option::None => Option::None,
        }
    } else {
        Option::None
    }
}

/// Rule `file`: exactly one schema section consuming every token.
pub open spec fn sp_file(toks: Seq<Seq<char>>) -> Option<FileV> {
    match sp_schema_section(toks, 0) {
        Option::Some(p) => if p.1 == toks.len() {
            Option::Some(FileV { section: p.0 })
        } else {
            Option::None
        },
        Option::None => Option::None,
    }
}

// ---------------------------------------------------------------------
// The executable parser.
// ---------------------------------------------------------------------

/// The parser for schema documents.  Each method matches one grammar
/// rule against the token sequence at a position; on success it returns
/// the node and the position after it, on failure the position where the
/// rule stopped matching.
pub struct YAMLParser;

impl YAMLParser {
    /// Matches the `identifier` rule at `i`.
    pub fn parse_identifier(toks: &Vec<String>, i: usize) -> (r: Result<(String, usize), usize>)
        ensures
            match sp_identifier(views_of(toks@), i as int) {
                Option::Some(p) => r matches Ok(o) && o.0@ == p.0 && o.1 as int == p.1 && i < o.1
                    && o.1 <= toks@.len(),
                Option::None => r is Err,
            },
    {
        if i >= toks.len() {
            return Err(i);
        }
        if check_identifier(toks[i].as_str()) {
            Ok((toks[i].clone(), i + 1))
        } else {
            Err(i)
        }
    }

    /// Matches the `column_type_value` rule at `i`.
    pub fn parse_column_type_value(toks: &Vec<String>, i: usize) -> (r: Result<
        (String, usize),
        usize,
    >)
        ensures
            match sp_type_value(views_of(toks@), i as int) {
                Option::Some(p) => r matches Ok(o) && o.0@ == p.0 && o.1 as int == p.1 && i < o.1
                    && o.1 <= toks@.len(),
                Option::None => r is Err,
            },
    {
        if i >= toks.len() {
            return Err(i);
        }
        if check_type_value(toks[i].as_str()) {
            Ok((toks[i].clone(), i + 1))
        } else {
            Err(i)
        }
    }

    /// Matches the `column_mode_value` rule at `i`.
    pub fn parse_column_mode_value(toks: &Vec<String>, i: usize) -> (r: Result<
        (String, usize),
        usize,
    >)
        ensures
            match sp_mode_value(views_of(toks@), i as int) {
                Option::Some(p) => r matches Ok(o) && o.0@ == p.0 && o.1 as int == p.1 && i < o.1
                    && o.1 <= toks@.len(),
                Option::None => r is Err,
            },
    {
        if i >= toks.len() {
            return Err(i);
        }
        if check_mode_value(toks[i].as_str()) {
            Ok((toks[i].clone(), i + 1))
        } else {
            Err(i)
        }
    }

    /// Matches the `column_type` rule at `i`.
    pub fn parse_column_type(toks: &Vec<String>, i: usize) -> (r: Result<
        (ColumnTypeNode, usize),
        usize,
    >)
        ensures
            match sp_column_type(views_of(toks@), i as int) {
                Option::Some(p) => r matches Ok(o) && o.0@ == p.0 && o.1 as int == p.1 && i < o.1
                    && o.1 <= toks@.len(),
                Option::None => r is Err,
            },
    {
        if i >= toks.len() {
            return Err(i);
        }
        if !str_eq(toks[i].as_str(), "type:") {
            return Err(i);
        }
        match Self::parse_column_type_value(toks, i + 1) {
            Ok((v, j)) => Ok((ColumnTypeNode { value: Some(v) }, j)),
            Err(_) => Ok((ColumnTypeNode { value: None }, i + 1)),
        }
    }

    /// Matches the `column_mode` rule at `i`.
    pub fn parse_column_mode(toks: &Vec<String>, i: usize) -> (r: Result<
        (ColumnModeNode, usize),
        usize,
    >)
        ensures
            match sp_column_mode(views_of(toks@), i as int) {
                Option::Some(p) => r matches Ok(o) && o.0@ == p.0 && o.1 as int == p.1 && i < o.1
                    && o.1 <= toks@.len(),
                Option::None => r is Err,
            },
    {
        if i >= toks.len() {
            return Err(i);
        }
        if !str_eq(toks[i].as_str(), "mode:") {
            return Err(i);
        }
        match Self::parse_column_mode_value(toks, i + 1) {
            Ok((v, j)) => Ok((ColumnModeNode { value: Some(v) }, j)),
            Err(_) => Ok((ColumnModeNode { value: None }, i + 1)),
        }
    }

    /// Matches the `column_entry` rule at `i`.
    pub fn parse_column_entry(toks: &Vec<String>, i: usize) -> (r: Result<
        (ColumnEntryNode, usize),
        usize,
    >)
        ensures
            match sp_column_entry(views_of(toks@), i as int) {
                Option::Some(p) => r matches Ok(o) && o.0@ == p.0 && o.1 as int == p.1 && i < o.1
                    && o.1 <= toks@.len(),
                Option::None => r is Err,
            },
    {
        if i >= toks.len() {
            return Err(i);
        }
        if !check_name_tok(toks[i].as_str()) {
            return Err(i);
        }
        let name = name_of(toks[i].as_str());
        match Self::parse_column_type(toks, i + 1) {
            Ok((t, j)) => match Self::parse_column_mode(toks, j) {
                Ok((m, k)) => {
                    let entry = ColumnEntryNode {
                        name,
                        clauses: vec![
                            ColumnClause::TypeClause(t),
                            ColumnClause::ModeClause(m),
                        ],
                    };
                    proof {
                        assert(entry@.clauses =~~= sp_column_entry(
                            views_of(toks@),
                            i as int,
                        ).unwrap().0.clauses);
                    }
                    Ok((entry, k))
                },
                Err(e) => Err(e),
            },
            Err(_) => match Self::parse_column_mode(toks, i + 1) {
                Ok((m, j)) => match Self::parse_column_type(toks, j) {
                    Ok((t, k)) => {
                        let entry = ColumnEntryNode {
                            name,
                            clauses: vec![
                                ColumnClause::ModeClause(m),
                                ColumnClause::TypeClause(t),
                            ],
                        };
                        proof {
                            assert(entry@.clauses =~~= sp_column_entry(
                                views_of(toks@),
                                i as int,
                            ).unwrap().0.clauses);
                        }
                        Ok((entry, k))
                    },
                    Err(e) => Err(e),
                },
                Err(e) => Err(e),
            },
        }
    }

    /// Matches the `column_section` rule at `i`: column entries until the
    /// next tokens no longer form one.  Always succeeds, possibly empty.
    pub fn parse_column_section(toks: &Vec<String>, i: usize) -> (r: (ColumnSectionNode, usize))
        requires
            i <= toks@.len(),
        ensures
            sp_column_section(views_of(toks@), i as int) == (r.0@, r.1 as int),
            i <= r.1 <= toks@.len(),
    {
        let ghost t = views_of(toks@);
        let mut entries: Vec<ColumnEntryNode> = Vec::new();
        let mut pos: usize = i;
        proof {
            assert(entries@.map_values(|e: ColumnEntryNode| e@) =~~= Seq::<ColumnEntryV>::empty());
        }
        loop
            invariant
                t == views_of(toks@),
                i <= pos <= toks@.len(),
                sp_column_entries(t, i as int, Seq::empty()) == sp_column_entries(
                    t,
                    pos as int,
                    entries@.map_values(|e: ColumnEntryNode| e@),
                ),
            ensures
                i <= pos <= toks@.len(),
                sp_column_entries(t, i as int, Seq::empty()) == (
                    entries@.map_values(|e: ColumnEntryNode| e@),
                    pos as int,
                ),
            decreases toks@.len() - pos,
        {
            let ghost old_entries = entries@.map_values(|e: ColumnEntryNode| e@);
            match Self::parse_column_entry(toks, pos) {
                Ok((e, j)) => {
                    proof {
                        assert(sp_column_entries(t, pos as int, old_entries)
                            == sp_column_entries(t, j as int, old_entries.push(e@)));
                    }
                    entries.push(e);
                    proof {
                        assert(entries@.map_values(|e: ColumnEntryNode| e@) =~~= old_entries.push(
                            e@,
                        ));
                    }
                    pos = j;
                },
                Err(_) => {
                    break;
                },
            }
        }
        let section = ColumnSectionNode { entries };
        (section, pos)
    }

    /// Matches the `table_entry` rule at `i`.
    pub fn parse_table_entry(toks: &Vec<String>, i: usize) -> (r: Result<
        (TableEntryNode, usize),
        usize,
    >)
        ensures
            match sp_table_entry(views_of(toks@), i as int) {
                Option::Some(p) => r matches Ok(o) && o.0@ == p.0 && o.1 as int == p.1 && i < o.1
                    && o.1 <= toks@.len(),
                Option::None => r is Err,
            },
    {
        if i >= toks.len() {
            return Err(i);
        }
        if !check_name_tok(toks[i].as_str()) {
            return Err(i);
        }
        if i + 1 >= toks.len() {
            return Err(i + 1);
        }
        if !str_eq(toks[i + 1].as_str(), "columns:") {
            return Err(i + 1);
        }
        let name = name_of(toks[i].as_str());
        let (columns, j) = Self::parse_column_section(toks, i + 2);
        Ok((TableEntryNode { name, columns }, j))
    }

    /// Matches the `table_section` rule at `i`: one or more table
    /// entries.
    pub fn parse_table_section(toks: &Vec<String>, i: usize) -> (r: Result<
        (TableSectionNode, usize),
        usize,
    >)
        ensures
            match sp_table_section(views_of(toks@), i as int) {
                Option::Some(p) => r matches Ok(o) && o.0@ == p.0 && o.1 as int == p.1 && i < o.1
                    && o.1 <= toks@.len(),
                Option::None => r is Err,
            },
    {
        let ghost t = views_of(toks@);
        let first = match Self::parse_table_entry(toks, i) {
            Ok(p) => p,
            Err(e) => {
                return Err(e);
            },
        };
        let ghost first_v = first.0@;
        let mut entries: Vec<TableEntryNode> = Vec::new();
        entries.push(first.0);
        let mut pos: usize = first.1;
        proof {
            assert(entries@.map_values(|e: TableEntryNode| e@) =~~= seq![first_v]);
        }
        loop
            invariant
                t == views_of(toks@),
                pos <= toks@.len(),
                i < pos,
                sp_table_entries(t, first.1 as int, seq![first_v]) == sp_table_entries(
                    t,
                    pos as int,
                    entries@.map_values(|e: TableEntryNode| e@),
                ),
            ensures
                pos <= toks@.len(),
                i < pos,
                sp_table_entries(t, first.1 as int, seq![first_v]) == (
                    entries@.map_values(|e: TableEntryNode| e@),
                    pos as int,
                ),
            decreases toks@.len() - pos,
        {
            let ghost old_entries = entries@.map_values(|e: TableEntryNode| e@);
            match Self::parse_table_entry(toks, pos) {
                Ok((e, j)) => {
                    proof {
                        assert(sp_table_entries(t, pos as int, old_entries)
                            == sp_table_entries(t, j as int, old_entries.push(e@)));
                    }
                    entries.push(e);
                    proof {
                        assert(entries@.map_values(|e: TableEntryNode| e@) =~~= old_entries.push(
                            e@,
                        ));
                    }
                    pos = j;
                },
                Err(_) => {
                    break;
                },
            }
        }
        let section = TableSectionNode { entries };
        Ok((section, pos))
    }

    /// Matches the `schema_entry` rule at `i`.
    pub fn parse_schema_entry(toks: &Vec<String>, i: usize) -> (r: Result<
        (SchemaEntryNode, usize),
        usize,
    >)
        ensures
            match sp_schema_entry(views_of(toks@), i as int) {
                Option::Some(p) => r matches Ok(o) && o.0@ == p.0 && o.1 as int == p.1 && i < o.1
                    && o.1 <= toks@.len(),
                Option::None => r is Err,
            },
    {
        if i >= toks.len() {
            return Err(i);
        }
        if !str_eq(toks[i].as_str(), "name:") {
            return Err(i);
        }
        if i + 1 >= toks.len() {
            return Err(i + 1);
        }
        if !check_identifier(toks[i + 1].as_str()) {
            return Err(i + 1);
        }
        if i + 2 >= toks.len() {
            return Err(i + 2);
        }
        if !str_eq(toks[i + 2].as_str(), "tables:") {
            return Err(i + 2);
        }
        let name = toks[i + 1].clone();
        match Self::parse_table_section(toks, i + 3) {
            Ok((tables, j)) => Ok((SchemaEntryNode { name, tables }, j)),
            Err(e) => Err(e),
        }
    }

    /// Matches the `schema_section` rule at `i`.
    pub fn parse_schema_section(toks: &Vec<String>, i: usize) -> (r: Result<
        (SchemaSectionNode, usize),
        usize,
    >)
        ensures
            match sp_schema_section(views_of(toks@), i as int) {
                Option::Some(p) => r matches Ok(o) && o.0@ == p.0 && o.1 as int == p.1 && i < o.1
                    && o.1 <= toks@.len(),
                Option::None => r is Err,
            },
    {
        if i >= toks.len() {
            return Err(i);
        }
        if !str_eq(toks[i].as_str(), "schema:") {
            return Err(i);
        }
        match Self::parse_schema_entry(toks, i + 1) {
            Ok((entry, j)) => Ok((SchemaSectionNode { entry }, j)),
            Err(e) => Err(e),
        }
    }

    /// Matches the `file` rule: a schema section consuming every token.
    /// On failure the returned position is where matching stopped.
    pub fn parse_file(toks: &Vec<String>) -> (r: Result<FileNode, usize>)
        ensures
            match sp_file(views_of(toks@)) {
                Option::Some(f) => r matches Ok(n) && n@ == f,
                Option::None => r is Err,
            },
    {
        match Self::parse_schema_section(toks, 0) {
            Ok((section, j)) => {
                if j == toks.len() {
                    Ok(FileNode { section })
                } else {
                    Err(j)
                }
            },
            Err(e) => Err(e),
        }
    }
}

} // verus!
