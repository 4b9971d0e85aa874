use vstd::prelude::*;

verus! {

/// Information requested by `SQLGetInfo`
#[derive(Debug, Clone, Copy, PartialEq, Eq, Structural)]
pub enum InfoType {
    MaxDriverConnectinos,
    MaxConcurrentActivities,
    DataSourceName,
    // FetchDirection (8) is deprecated in ODBC 3
    ServerName,
    SearchPatternEscape,
    DbmsName,
    DbmsVer,
    AccessibleTables,
    AccessibleProcedures,
    CursorCommitBehaviour,
    DataSourceReadOnly,
    DefaultTxnIsolation,
    IdentifierCase,
    IdentifierQuoteChar,
    MaxColumnNameLen,
    MaxCursorNameLen,
    MaxSchemaNameLen,
    MaxCatalogNameLen,
    MaxTableNameLen,
    // ScrollConcurrency (43) is deprecated in ODBC 3
    TransactionCapable,
    UserName,
    TransactionIsolationProtocol,
    Integrity,
    GetDataExtensions,
    NullCollation,
    AlterTable,
    OrderByColumnsInSelect,
    SpecialCharacters,
    MaxColumnsInGroupBy,
    MaxColumnsInIndex,
    MaxColumnsInOrderBy,
    MaxColumnsInSelect,
    MaxColumnsInTable,
    MaxIndexSize,
    MaxRowSize,
    MaxStatementLen,
    MaxTablesInSelect,
    MaxUserNameLen,
    OuterJoinCapabilities,
    XopenCliYear,
    CursorSensitivity,
    DescribeParameter,
    CatalogName,
    CollationSeq,
    MaxIdentifierLen,
    AsyncMode,
    MaxAsyncConcurrentStatements,
    AsyncDbcFunctions,
    DriverAwarePoolingSupported,
    AsyncNotification,
}

impl InfoType {
    /// The information type's code, a 16-bit unsigned integer.
    pub open spec fn spec_value(self) -> u16 {
        match self {
            InfoType::MaxDriverConnectinos => 0,
            InfoType::MaxConcurrentActivities => 1,
            InfoType::DataSourceName => 2,
            InfoType::ServerName => 13,
            InfoType::SearchPatternEscape => 14,
            InfoType::DbmsName => 17,
            InfoType::DbmsVer => 18,
            InfoType::AccessibleTables => 19,
            InfoType::AccessibleProcedures => 20,
            InfoType::CursorCommitBehaviour => 23,
            InfoType::DataSourceReadOnly => 25,
            InfoType::DefaultTxnIsolation => 26,
            InfoType::IdentifierCase => 28,
            InfoType::IdentifierQuoteChar => 29,
            InfoType::MaxColumnNameLen => 30,
            InfoType::MaxCursorNameLen => 31,
            InfoType::MaxSchemaNameLen => 32,
            InfoType::MaxCatalogNameLen => 34,
            InfoType::MaxTableNameLen => 35,
            InfoType::TransactionCapable => 46,
            InfoType::UserName => 47,
            InfoType::TransactionIsolationProtocol => 72,
            InfoType::Integrity => 73,
            InfoType::GetDataExtensions => 81,
            InfoType::NullCollation => 85,
            InfoType::AlterTable => 86,
            InfoType::OrderByColumnsInSelect => 90,
            InfoType::SpecialCharacters => 94,
            InfoType::MaxColumnsInGroupBy => 97,
            InfoType::MaxColumnsInIndex => 98,
            InfoType::MaxColumnsInOrderBy => 99,
            InfoType::MaxColumnsInSelect => 100,
            InfoType::MaxColumnsInTable => 101,
            InfoType::MaxIndexSize => 102,
            InfoType::MaxRowSize => 104,
            InfoType::MaxStatementLen => 105,
            InfoType::MaxTablesInSelect => 106,
            InfoType::MaxUserNameLen => 107,
            InfoType::OuterJoinCapabilities => 115,
            InfoType::XopenCliYear => 10000,
            InfoType::CursorSensitivity => 10001,
            InfoType::DescribeParameter => 10002,
            InfoType::CatalogName => 10003,
            InfoType::CollationSeq => 10004,
            InfoType::MaxIdentifierLen => 10005,
            InfoType::AsyncMode => 10021,
            InfoType::MaxAsyncConcurrentStatements => 10022,
            InfoType::AsyncDbcFunctions => 10023,
            InfoType::DriverAwarePoolingSupported => 10024,
            InfoType::AsyncNotification => 10025,
        }
    }

    /// Returns the code.
    #[verifier::when_used_as_spec(spec_value)]
    pub fn value(self) -> (r: u16)
        ensures
            r == self.spec_value(),
    {
        match self {
            InfoType::MaxDriverConnectinos => 0,
            InfoType::MaxConcurrentActivities => 1,
            InfoType::DataSourceName => 2,
            InfoType::ServerName => 13,
            InfoType::SearchPatternEscape => 14,
            InfoType::DbmsName => 17,
            InfoType::DbmsVer => 18,
            InfoType::AccessibleTables => 19,
            InfoType::AccessibleProcedures => 20,
            InfoType::CursorCommitBehaviour => 23,
            InfoType::DataSourceReadOnly => 25,
            InfoType::DefaultTxnIsolation => 26,
            InfoType::IdentifierCase => 28,
            InfoType::IdentifierQuoteChar => 29,
            InfoType::MaxColumnNameLen => 30,
            InfoType::MaxCursorNameLen => 31,
            InfoType::MaxSchemaNameLen => 32,
            InfoType::MaxCatalogNameLen => 34,
            InfoType::MaxTableNameLen => 35,
            InfoType::TransactionCapable => 46,
            InfoType::UserName => 47,
            InfoType::TransactionIsolationProtocol => 72,
            InfoType::Integrity => 73,
            InfoType::GetDataExtensions => 81,
            InfoType::NullCollation => 85,
            InfoType::AlterTable => 86,
            InfoType::OrderByColumnsInSelect => 90,
            InfoType::SpecialCharacters => 94,
            InfoType::MaxColumnsInGroupBy => 97,
            InfoType::MaxColumnsInIndex => 98,
            InfoType::MaxColumnsInOrderBy => 99,
            InfoType::MaxColumnsInSelect => 100,
            InfoType::MaxColumnsInTable => 101,
            InfoType::MaxIndexSize => 102,
            InfoType::MaxRowSize => 104,
            InfoType::MaxStatementLen => 105,
            InfoType::MaxTablesInSelect => 106,
            InfoType::MaxUserNameLen => 107,
            InfoType::OuterJoinCapabilities => 115,
            InfoType::XopenCliYear => 10000,
            InfoType::CursorSensitivity => 10001,
            InfoType::DescribeParameter => 10002,
            InfoType::CatalogName => 10003,
            InfoType::CollationSeq => 10004,
            InfoType::MaxIdentifierLen => 10005,
            InfoType::AsyncMode => 10021,
            InfoType::MaxAsyncConcurrentStatements => 10022,
            InfoType::AsyncDbcFunctions => 10023,
            InfoType::DriverAwarePoolingSupported => 10024,
            InfoType::AsyncNotification => 10025,
        }
    }

    /// No two members share a code.
    pub proof fn lemma_value_injective(self, other: Self)
        requires
            self.value() == other.value(),
        ensures
            self == other,
    {
    }
}

} // verus!
