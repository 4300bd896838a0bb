//! The type model: backend value kinds, the protocol's SQL types they report
//! as, and the immutable per-column metadata of a result shape.
use vstd::prelude::*;
use vstd::string::*;

verus! {

/// Length and display size of variable-length textual and document types.
pub const UNBOUNDED: usize = usize::MAX;

/// The kinds of value the document backend stores.
#[derive(Clone, Copy, Debug, PartialEq, Eq, Structural)]
pub enum BsonKind {
    Double,
    String,
    Document,
    Array,
    Binary,
    Undefined,
    ObjectId,
    Boolean,
    DateTime,
    Null,
    RegularExpression,
    DbPointer,
    JavaScriptCode,
    Symbol,
    JavaScriptCodeWithScope,
    Int32,
    Timestamp,
    Int64,
    Decimal128,
    MinKey,
    MaxKey,
}

/// How richly value kinds are reported: with full fidelity, or with every
/// kind that has no SQL counterpart reported as text.
#[derive(Clone, Copy, Debug, PartialEq, Eq, Structural)]
pub enum TypeMode {
    Standard,
    Simple,
}

/// The protocol's SQL types that columns report.
#[derive(Clone, Copy, Debug, PartialEq, Eq, Structural)]
pub enum SqlDataType {
    Unknown,
    WVarchar,
    Integer,
    BigInt,
    Double,
    Decimal,
    Bit,
    Timestamp,
    Binary,
}

/// The descriptor defaults of one value kind.
#[derive(Clone, Copy, Debug, PartialEq, Eq, Structural)]
pub struct TypeInfo {
    pub sql_type: SqlDataType,
    pub precision: u16,
    pub scale: u16,
    pub display_size: usize,
    pub fixed_prec_scale: bool,
    pub is_unsigned: bool,
    pub is_searchable: bool,
}

/// Descriptor of a textual, unbounded type.
pub open spec fn text_info() -> TypeInfo {
    TypeInfo {
        sql_type: SqlDataType::WVarchar,
        precision: 0,
        scale: 0,
        display_size: UNBOUNDED,
        fixed_prec_scale: false,
        is_unsigned: true,
        is_searchable: true,
    }
}

/// Descriptor of a kind with no SQL counterpart, in the given mode.
pub open spec fn other_info(mode: TypeMode) -> TypeInfo {
    match mode {
        TypeMode::Simple => text_info(),
        TypeMode::Standard => TypeInfo {
            sql_type: SqlDataType::Unknown,
            precision: 0,
            scale: 0,
            display_size: UNBOUNDED,
            fixed_prec_scale: false,
            is_unsigned: true,
            is_searchable: false,
        },
    }
}

/// Descriptor of a signed numeric type.
pub open spec fn numeric_info(sql_type: SqlDataType, precision: u16, scale: u16, display_size: usize) -> TypeInfo {
    TypeInfo {
        sql_type,
        precision,
        scale,
        display_size,
        fixed_prec_scale: false,
        is_unsigned: false,
        is_searchable: true,
    }
}

/// The SQL type and descriptor defaults that each value kind reports.
pub open spec fn type_info(kind: BsonKind, mode: TypeMode) -> TypeInfo {
    match kind {
        BsonKind::String => text_info(),
        BsonKind::ObjectId => TypeInfo { display_size: 24, ..text_info() },
        BsonKind::Int32 => numeric_info(SqlDataType::Integer, 10, 0, 11),
        BsonKind::Int64 => numeric_info(SqlDataType::BigInt, 19, 0, 20),
        BsonKind::Double => numeric_info(SqlDataType::Double, 15, 0, 24),
        BsonKind::Decimal128 => numeric_info(SqlDataType::Decimal, 34, 0, 36),
        BsonKind::Boolean => TypeInfo {
            sql_type: SqlDataType::Bit,
            precision: 1,
            scale: 0,
            display_size: 1,
            fixed_prec_scale: false,
            is_unsigned: true,
            is_searchable: true,
        },
        BsonKind::DateTime => TypeInfo {
            sql_type: SqlDataType::Timestamp,
            precision: 23,
            scale: 3,
            display_size: 23,
            fixed_prec_scale: false,
            is_unsigned: true,
            is_searchable: true,
        },
        BsonKind::Binary => TypeInfo {
            sql_type: SqlDataType::Binary,
            precision: 0,
            scale: 0,
            display_size: UNBOUNDED,
            fixed_prec_scale: false,
            is_unsigned: true,
            is_searchable: false,
        },
        _ => other_info(mode),
    }
}

/// The backend's name of each value kind.
pub open spec fn kind_name(kind: BsonKind) -> Seq<char> {
    match kind {
        BsonKind::Double => "double"@,
        BsonKind::String => "string"@,
        BsonKind::Document => "object"@,
        BsonKind::Array => "array"@,
        BsonKind::Binary => "binData"@,
        BsonKind::Undefined => "undefined"@,
        BsonKind::ObjectId => "objectId"@,
        BsonKind::Boolean => "bool"@,
        BsonKind::DateTime => "date"@,
        BsonKind::Null => "null"@,
        BsonKind::RegularExpression => "regex"@,
        BsonKind::DbPointer => "dbPointer"@,
        BsonKind::JavaScriptCode => "javascript"@,
        BsonKind::Symbol => "symbol"@,
        BsonKind::JavaScriptCodeWithScope => "javascriptWithScope"@,
        BsonKind::Int32 => "int"@,
        BsonKind::Timestamp => "timestamp"@,
        BsonKind::Int64 => "long"@,
        BsonKind::Decimal128 => "decimal"@,
        BsonKind::MinKey => "minKey"@,
        BsonKind::MaxKey => "maxKey"@,
    }
}

impl BsonKind {
    /// The SQL type and descriptor defaults this kind reports in `mode`.
    pub fn type_info(&self, mode: TypeMode) -> (r: TypeInfo)
        ensures
            r == type_info(*self, mode),
    {
        let text = TypeInfo {
            sql_type: SqlDataType::WVarchar,
            precision: 0,
            scale: 0,
            display_size: UNBOUNDED,
            fixed_prec_scale: false,
            is_unsigned: true,
            is_searchable: true,
        };
        let other = match mode {
            TypeMode::Simple => text,
            TypeMode::Standard => TypeInfo {
                sql_type: SqlDataType::Unknown,
                is_searchable: false,
                ..text
            },
        };
        let signed = TypeInfo { is_unsigned: false, ..text };
        match self {
            BsonKind::String => text,
            BsonKind::ObjectId => TypeInfo { display_size: 24, ..text },
            BsonKind::Int32 => TypeInfo { sql_type: SqlDataType::Integer, precision: 10, display_size: 11, ..signed },
            BsonKind::Int64 => TypeInfo { sql_type: SqlDataType::BigInt, precision: 19, display_size: 20, ..signed },
            BsonKind::Double => TypeInfo { sql_type: SqlDataType::Double, precision: 15, display_size: 24, ..signed },
            BsonKind::Decimal128 => TypeInfo { sql_type: SqlDataType::Decimal, precision: 34, display_size: 36, ..signed },
            BsonKind::Boolean => TypeInfo { sql_type: SqlDataType::Bit, precision: 1, display_size: 1, ..text },
            BsonKind::DateTime => TypeInfo { sql_type: SqlDataType::Timestamp, precision: 23, scale: 3, display_size: 23, ..text },
            BsonKind::Binary => TypeInfo { sql_type: SqlDataType::Binary, is_searchable: false, ..text },
            _ => other,
        }
    }

    /// The backend's name of this kind.
    pub fn name(&self) -> (r: &'static str)
        ensures
            r@ == kind_name(*self),
    {
        match self {
            BsonKind::Double => "double",
            BsonKind::String => "string",
            BsonKind::Document => "object",
            BsonKind::Array => "array",
            BsonKind::Binary => "binData",
            BsonKind::Undefined => "undefined",
            BsonKind::ObjectId => "objectId",
            BsonKind::Boolean => "bool",
            BsonKind::DateTime => "date",
            BsonKind::Null => "null",
            BsonKind::RegularExpression => "regex",
            BsonKind::DbPointer => "dbPointer",
            BsonKind::JavaScriptCode => "javascript",
            BsonKind::Symbol => "symbol",
            BsonKind::JavaScriptCodeWithScope => "javascriptWithScope",
            BsonKind::Int32 => "int",
            BsonKind::Timestamp => "timestamp",
            BsonKind::Int64 => "long",
            BsonKind::Decimal128 => "decimal",
            BsonKind::MinKey => "minKey",
            BsonKind::MaxKey => "maxKey",
        }
    }
}

/// Metadata of one column of a result set, as reported by the column
/// description calls and used when converting its values.
#[derive(Debug)]
pub struct MongoColMetadata {
    pub base_col_name: String,
    pub base_table_name: String,
    pub catalog_name: String,
    pub display_size: usize,
    pub fixed_prec_scale: bool,
    pub label: String,
    pub length: usize,
    pub col_name: String,
    pub is_nullable: bool,
    pub octet_length: usize,
    pub precision: u16,
    pub scale: u16,
    pub is_searchable: bool,
    pub table_name: String,
    /// The backend's name of the column's value kind.
    pub bson_type: String,
    pub sql_type: SqlDataType,
    pub is_unsigned: bool,
    pub is_updatable: bool,
}

/// Whether `m` describes a column named `name` of table `table`, holding
/// values of kind `kind`, with descriptor `info` and the given nullability.
pub open spec fn describes_with(
    m: MongoColMetadata,
    table: Seq<char>,
    name: Seq<char>,
    kind: BsonKind,
    info: TypeInfo,
    nullable: bool,
) -> bool {
    &&& m.col_name@ == name
    &&& m.base_col_name@ == name
    &&& m.label@ == name
    &&& m.table_name@ == table
    &&& m.base_table_name@ == table
    &&& m.catalog_name@ == Seq::<char>::empty()
    &&& m.bson_type@ == kind_name(kind)
    &&& m.sql_type == info.sql_type
    &&& m.precision == info.precision
    &&& m.scale == info.scale
    &&& m.display_size == info.display_size
    &&& m.length == info.display_size
    &&& m.octet_length == info.display_size
    &&& m.fixed_prec_scale == info.fixed_prec_scale
    &&& m.is_unsigned == info.is_unsigned
    &&& m.is_searchable == info.is_searchable
    &&& m.is_nullable == nullable
    &&& !m.is_updatable
}

/// Whether `m` describes a column named `name` of table `table`, holding
/// values of kind `kind` reported in `mode`, with the given nullability.
pub open spec fn describes(
    m: MongoColMetadata,
    table: Seq<char>,
    name: Seq<char>,
    kind: BsonKind,
    nullable: bool,
    mode: TypeMode,
) -> bool {
    describes_with(m, table, name, kind, type_info(kind, mode), nullable)
}

/// The descriptor of the string columns of catalog listings: unbounded
/// text, neither searchable nor signed-typed.
pub open spec fn catalog_text_info() -> TypeInfo {
    TypeInfo { is_unsigned: false, is_searchable: false, ..text_info() }
}

impl MongoColMetadata {
    /// Metadata of column `name` of table `table`, holding values of kind
    /// `kind` reported in `mode`.
    pub fn new(table: &str, name: &str, kind: BsonKind, nullable: bool, mode: TypeMode) -> (r: MongoColMetadata)
        ensures
            describes(r, table@, name@, kind, nullable, mode),
    {
        MongoColMetadata::with_info(table, name, kind, kind.type_info(mode), nullable)
    }

    /// Metadata of column `name` of table `table`, holding values of kind
    /// `kind`, with descriptor `info`.
    pub fn with_info(table: &str, name: &str, kind: BsonKind, info: TypeInfo, nullable: bool) -> (r: MongoColMetadata)
        ensures
            describes_with(r, table@, name@, kind, info, nullable),
    {
        MongoColMetadata {
            base_col_name: String::from_str(name),
            base_table_name: String::from_str(table),
            catalog_name: String::new(),
            display_size: info.display_size,
            fixed_prec_scale: info.fixed_prec_scale,
            label: String::from_str(name),
            length: info.display_size,
            col_name: String::from_str(name),
            is_nullable: nullable,
            octet_length: info.display_size,
            precision: info.precision,
            scale: info.scale,
            is_searchable: info.is_searchable,
            table_name: String::from_str(table),
            bson_type: String::from_str(kind.name()),
            sql_type: info.sql_type,
            is_unsigned: info.is_unsigned,
            is_updatable: false,
        }
    }
}

/// The names of the columns of a table listing, in order.
pub open spec fn tables_column_names() -> Seq<Seq<char>> {
    seq!["TABLE_CAT"@, "TABLE_SCHEM"@, "TABLE_NAME"@, "TABLE_TYPE"@, "REMARKS"@]
}

/// Whether `cols` is the fixed shape of a table listing: five unbounded
/// string columns, neither searchable nor signed-typed, of which only the
/// schema column is nullable.
pub open spec fn is_tables_shape(cols: Seq<MongoColMetadata>) -> bool {
    &&& cols.len() == 5
    &&& forall|i: int| 0 <= i < 5 ==> describes_with(
        #[trigger] cols[i],
        Seq::<char>::empty(),
        tables_column_names()[i],
        BsonKind::String,
        catalog_text_info(),
        i == 1,
    )
}

/// The metadata of the columns of a table listing.
pub fn sql_tables_metadata() -> (r: Vec<MongoColMetadata>)
    ensures
        is_tables_shape(r@),
{
    let info = TypeInfo {
        sql_type: SqlDataType::WVarchar,
        precision: 0,
        scale: 0,
        display_size: UNBOUNDED,
        fixed_prec_scale: false,
        is_unsigned: false,
        is_searchable: false,
    };
    let mut r: Vec<MongoColMetadata> = Vec::new();
    r.push(MongoColMetadata::with_info("", "TABLE_CAT", BsonKind::String, info, false));
    r.push(MongoColMetadata::with_info("", "TABLE_SCHEM", BsonKind::String, info, true));
    r.push(MongoColMetadata::with_info("", "TABLE_NAME", BsonKind::String, info, false));
    r.push(MongoColMetadata::with_info("", "TABLE_TYPE", BsonKind::String, info, false));
    r.push(MongoColMetadata::with_info("", "REMARKS", BsonKind::String, info, false));
    proof {
        reveal_strlit("");
        assert forall|i: int| 0 <= i < 5 implies describes_with(
            #[trigger] r@[i],
            Seq::<char>::empty(),
            tables_column_names()[i],
            BsonKind::String,
            catalog_text_info(),
            i == 1,
        ) by {
            assert(r@[i].table_name@ == Seq::<char>::empty());
            assert(r@[i].col_name@ == tables_column_names()[i]);
        }
    }
    r
}

/// A table listing has five string columns, named in order TABLE_CAT,
/// TABLE_SCHEM, TABLE_NAME, TABLE_TYPE and REMARKS, none searchable or
/// signed-typed, of which only TABLE_SCHEM is nullable.
pub proof fn lemma_tables_shape(cols: Seq<MongoColMetadata>)
    requires
        is_tables_shape(cols),
    ensures
        cols.len() == 5,
        forall|i: int| 0 <= i < 5 ==> (#[trigger] cols[i]).is_nullable == (i == 1),
        forall|i: int| 0 <= i < 5 ==> !(#[trigger] cols[i]).is_searchable && !cols[i].is_unsigned,
        forall|i: int| 0 <= i < 5 ==> (#[trigger] cols[i]).bson_type@ == "string"@,
        cols[0].col_name@ == "TABLE_CAT"@,
        cols[1].col_name@ == "TABLE_SCHEM"@,
        cols[2].col_name@ == "TABLE_NAME"@,
        cols[3].col_name@ == "TABLE_TYPE"@,
        cols[4].col_name@ == "REMARKS"@,
{
    assert(describes_with(cols[0], Seq::<char>::empty(), tables_column_names()[0], BsonKind::String, catalog_text_info(), false));
    assert(describes_with(cols[1], Seq::<char>::empty(), tables_column_names()[1], BsonKind::String, catalog_text_info(), true));
    assert(describes_with(cols[2], Seq::<char>::empty(), tables_column_names()[2], BsonKind::String, catalog_text_info(), false));
    assert(describes_with(cols[3], Seq::<char>::empty(), tables_column_names()[3], BsonKind::String, catalog_text_info(), false));
    assert(describes_with(cols[4], Seq::<char>::empty(), tables_column_names()[4], BsonKind::String, catalog_text_info(), false));
}

} // verus!
