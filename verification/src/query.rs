//! The schema and program description a caller assembles before asking an
//! execution-plan analysis for column types and nullability, and the
//! encoding of such an analysis' outcome as a flat list of integer codes,
//! three per column.
use vstd::prelude::*;

verus! {

/// The column type exposed to a managed-runtime caller.
#[derive(Clone, Copy, Debug, PartialEq, Eq, Structural)]
pub enum JSColumnType {
    Number,
    String,
    Buffer,
    Null,
}

/// A three-state nullability outcome exposed to a managed-runtime caller.
#[derive(Clone, Copy, Debug, PartialEq, Eq, Structural)]
pub enum NullableStatus {
    NotNull,
    Null,
    Unknown,
}

/// The declared type a column of an analysed program can carry.
#[derive(Clone, Copy, Debug, PartialEq, Eq, Structural)]
pub enum ColumnDataType {
    Null,
    Integer,
    Float,
    Text,
    Blob,
    Numeric,
    Bool,
    Int4,
    Date,
    Time,
    Datetime,
}

impl JSColumnType {
    /// The integer code of this column type, in declaration order.
    pub open spec fn spec_code(self) -> i32 {
        match self {
            JSColumnType::Number => 0,
            JSColumnType::String => 1,
            JSColumnType::Buffer => 2,
            JSColumnType::Null => 3,
        }
    }

    /// Executable form of `spec_code`.
    pub fn code(&self) -> (r: i32)
        ensures
            r == self.spec_code(),
    {
        match self {
            JSColumnType::Number => 0,
            JSColumnType::String => 1,
            JSColumnType::Buffer => 2,
            JSColumnType::Null => 3,
        }
    }
}

impl NullableStatus {
    /// The integer code of this status, in declaration order.
    pub open spec fn spec_code(self) -> i32 {
        match self {
            NullableStatus::NotNull => 0,
            NullableStatus::Null => 1,
            NullableStatus::Unknown => 2,
        }
    }

    /// Executable form of `spec_code`.
    pub fn code(&self) -> (r: i32)
        ensures
            r == self.spec_code(),
    {
        match self {
            NullableStatus::NotNull => 0,
            NullableStatus::Null => 1,
            NullableStatus::Unknown => 2,
        }
    }
}

/// The status encoding of an analysis' per-column answer: a definite
/// `true` means the column may be null.
pub open spec fn spec_status_of(nullable: Option<bool>) -> NullableStatus {
    match nullable {
        Some(true) => NullableStatus::Null,
        Some(false) => NullableStatus::NotNull,
        None => NullableStatus::Unknown,
    }
}

/// The caller-facing column type of a declared type.
pub open spec fn spec_jstype_of(ty: ColumnDataType) -> JSColumnType {
    match ty {
        ColumnDataType::Null => JSColumnType::Null,
        ColumnDataType::Text => JSColumnType::String,
        ColumnDataType::Blob => JSColumnType::Buffer,
        _ => JSColumnType::Number,
    }
}

/// A description of a query's environment: the table columns the program
/// can touch and the program's steps.
pub struct Query {
    pub table_block_columns: Vec<(i64, i64, i64, String, bool)>,
    pub program: Vec<(i64, String, i64, i64, i64, Vec<u8>)>,
}

impl Query {
    /// An empty description.
    pub fn new() -> (q: Query)
        ensures
            q.table_block_columns@ == Seq::<(i64, i64, i64, String, bool)>::empty(),
            q.program@ == Seq::<(i64, String, i64, i64, i64, Vec<u8>)>::empty(),
    {
        Query { table_block_columns: Vec::new(), program: Vec::new() }
    }

    /// Record one table column: database number, root page, column number,
    /// declared type name, and whether the schema marks it NOT NULL.
    pub fn add_table_block_column(
        &mut self,
        dbnum: i64,
        rootpage: i64,
        colnum: i64,
        decl_type: String,
        notnull: bool,
    )
        ensures
            final(self).table_block_columns@ == old(self).table_block_columns@.push(
                (dbnum, rootpage, colnum, decl_type, notnull),
            ),
            final(self).program@ == old(self).program@,
    {
        self.table_block_columns.push((dbnum, rootpage, colnum, decl_type, notnull));
    }

    /// Record one program step: address, opcode, the three integer
    /// operands, and the fourth operand as its UTF-8 bytes.
    pub fn add_program_step(
        &mut self,
        addr: i64,
        opcode: String,
        p1: i64,
        p2: i64,
        p3: i64,
        p4: String,
    )
        ensures
            final(self).table_block_columns@ == old(self).table_block_columns@,
            final(self).program@.len() == old(self).program@.len() + 1,
            final(self).program@.drop_last() == old(self).program@,
            final(self).program@.last().0 == addr,
            final(self).program@.last().1 == opcode,
            final(self).program@.last().2 == p1,
            final(self).program@.last().3 == p2,
            final(self).program@.last().4 == p3,
            final(self).program@.last().5@ == vstd::utf8::encode_utf8(p4@),
    {
        let bytes = p4.as_str().as_bytes_vec();
        self.program.push((addr, opcode, p1, p2, p3, bytes));
        proof {
            assert(final(self).program@.drop_last() =~= old(self).program@);
        }
    }
}

impl Default for Query {
    /// An empty description.
    fn default() -> (q: Query)
        ensures
            q.table_block_columns@ == Seq::<(i64, i64, i64, String, bool)>::empty(),
            q.program@ == Seq::<(i64, String, i64, i64, i64, Vec<u8>)>::empty(),
    {
        Query::new()
    }
}

/// The flat encoding of an analysis' outcome: for each column, its index,
/// the code of its nullability status, and the code of its caller-facing
/// type, in that order.
pub open spec fn spec_explain_codes(
    types: Seq<ColumnDataType>,
    nullables: Seq<Option<bool>>,
) -> Seq<i32> {
    let n = vstd::math::min(types.len() as int, nullables.len() as int);
    Seq::new((3 * n) as nat, |k: int|
        if k % 3 == 0 {
            (k / 3) as i32
        } else if k % 3 == 1 {
            spec_status_of(nullables[k / 3]).spec_code()
        } else {
            spec_jstype_of(types[k / 3]).spec_code()
        }
    )
}

/// Encode an analysis' per-column answers as the flat integer-code list;
/// columns past the shorter of the two lists are dropped.
#[verifier::loop_isolation(false)]
pub fn explain_codes(types: &Vec<ColumnDataType>, nullables: &Vec<Option<bool>>) -> (r: Vec<i32>)
    requires
        types@.len() <= i32::MAX,
        nullables@.len() <= i32::MAX,
    ensures
        r@ == spec_explain_codes(types@, nullables@),
{
    let n = if types.len() < nullables.len() {
        types.len()
    } else {
        nullables.len()
    };
    let mut out: Vec<i32> = Vec::new();
    let mut i: usize = 0;
    while i < n
        invariant
            0 <= i <= n,
            n == vstd::math::min(types@.len() as int, nullables@.len() as int),
            types@.len() <= i32::MAX,
            nullables@.len() <= i32::MAX,
            out@.len() == 3 * i,
            out@ == spec_explain_codes(types@, nullables@).take(3 * i as int),
        decreases n - i,
    {
        let status = match nullables[i] {
            Some(true) => NullableStatus::Null,
            Some(false) => NullableStatus::NotNull,
            None => NullableStatus::Unknown,
        };
        let jstype = match types[i] {
            ColumnDataType::Null => JSColumnType::Null,
            ColumnDataType::Text => JSColumnType::String,
            ColumnDataType::Blob => JSColumnType::Buffer,
            _ => JSColumnType::Number,
        };
        out.push(i as i32);
        out.push(status.code());
        out.push(jstype.code());
        proof {
            assert(out@ =~= spec_explain_codes(types@, nullables@).take(3 * (i + 1) as int));
        }
        i += 1;
    }
    proof {
        assert(spec_explain_codes(types@, nullables@).take(
            spec_explain_codes(types@, nullables@).len() as int,
        ) =~= spec_explain_codes(types@, nullables@));
    }
    out
}

} // verus!
