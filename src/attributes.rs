//! Attribute codes of environment and statement handles, the values that
//! statement attributes take, and the status and operation codes of bulk
//! operations.
//!
//! Each enumeration maps its members to their codes through `value`, in the
//! integer width that the C calls expect for that category. The symbols that
//! came with ODBC 3.8 and 4 are declared for every build; `available_in`
//! tells whether one belongs to the symbol set of a given target version.
use vstd::prelude::*;
use crate::pointer::SqlPointer;
use vstd::std_specs::convert::FromSpec;

pub use self::EnvironmentAttribute::{
    SQL_ATTR_ODBC_VERSION, SQL_ATTR_CONNECTION_POOLING, SQL_ATTR_CP_MATCH, SQL_ATTR_APPLICATION_KEY,
    SQL_ATTR_OUTPUT_NTS,
};
pub use self::OdbcVersion::{SQL_OV_ODBC2, SQL_OV_ODBC3, SQL_OV_ODBC3_80, SQL_OV_ODBC4};
pub use self::SqlStatementAttribute::{
    SQL_ATTR_QUERY_TIMEOUT, SQL_ATTR_MAX_ROWS, SQL_ATTR_MAX_LENGTH, SQL_ATTR_KEYSET_SIZE,
    SQL_ATTR_ROW_NUMBER, SQL_ATTR_ENABLE_AUTO_IPD, SQL_ATTR_FETCH_BOOKMARK_PTR,
    SQL_ATTR_PARAM_BIND_OFFSET_PTR, SQL_ATTR_PARAM_OPERATION_PTR, SQL_ATTR_PARAM_STATUS_PTR,
    SQL_ATTR_PARAMS_PROCESSED_PTR, SQL_ATTR_PARAMSET_SIZE, SQL_ATTR_ROW_BIND_OFFSET_PTR,
    SQL_ATTR_ROW_OPERATION_PTR, SQL_ATTR_ROW_STATUS_PTR, SQL_ATTR_ROWS_FETCHED_PTR,
    SQL_ATTR_ROW_ARRAY_SIZE, SQL_ATTR_ASYNC_STMT_EVENT, SQL_ATTR_APP_ROW_DESC,
    SQL_ATTR_APP_PARAM_DESC, SQL_ATTR_IMP_ROW_DESC, SQL_ATTR_IMP_PARAM_DESC, SQL_ATTR_METADATA_ID,
};
pub use self::SQL_PARAM_STATUS::{
    SQL_PARAM_SUCCESS, SQL_PARAM_DIAG_UNAVAILABLE, SQL_PARAM_ERROR, SQL_PARAM_SUCCESS_WITH_INFO,
    SQL_PARAM_UNUSED,
};
pub use self::SQL_ROW_STATUS::{
    SQL_ROW_SUCCESS, SQL_ROW_DELETED, SQL_ROW_UPDATED, SQL_ROW_NOROW, SQL_ROW_ADDED, SQL_ROW_ERROR,
    SQL_ROW_SUCCESS_WITH_INFO,
};
pub use self::SQL_PARAM_OPERATION::{SQL_PARAM_PROCEED, SQL_PARAM_IGNORE};
pub use self::SQL_ROW_OPERATION::{SQL_ROW_PROCEED, SQL_ROW_IGNORE};
pub use self::SQL_ATTR_ASYNC_ENABLE::{SQL_ASYNC_ENABLE_OFF, SQL_ASYNC_ENABLE_ON};
pub use self::SQL_ATTR_CONCURRENCY::{
    SQL_CONCUR_READ_ONLY, SQL_CONCUR_LOCK, SQL_CONCUR_ROWVER, SQL_CONCUR_VALUES,
};
pub use self::SQL_ATTR_CURSOR_SCROLLABLE::{SQL_NONSCROLLABLE, SQL_SCROLLABLE};
pub use self::SQL_ATTR_CURSOR_SENSITIVITY::{SQL_UNSPECIFIED, SQL_INSENSITIVE, SQL_SENSITIVE};
pub use self::SQL_ATTR_CURSOR_TYPE::{
    SQL_CURSOR_FORWARD_ONLY, SQL_CURSOR_KEYSET_DRIVEN, SQL_CURSOR_DYNAMIC, SQL_CURSOR_STATIC,
};
pub use self::SQL_ATTR_NOSCAN::{SQL_NOSCAN_OFF, SQL_NOSCAN_ON};
pub use self::SQL_ATTR_PARAM_BIND_TYPE::{SQL_PARAM_BIND_BY_COLUMN};
pub use self::SQL_ATTR_RETRIEVE_DATA::{SQL_RD_OFF, SQL_RD_ON};
pub use self::SQL_ATTR_ROW_BIND_TYPE::{SQL_BIND_BY_COLUMN};
pub use self::SQL_ATTR_SIMULATE_CURSOR::{SQL_SC_NON_UNIQUE, SQL_SC_TRY_UNIQUE, SQL_SC_UNIQUE};
pub use self::SQL_ATTR_USE_BOOKMARKS::{SQL_UB_OFF, SQL_UB_ON, SQL_UB_VARIABLE};

verus! {

/// Environment attributes for `SQLSetEnvAttr`
#[allow(non_camel_case_types)]
#[derive(Debug, Clone, Copy, PartialEq, Eq, Structural)]
pub enum EnvironmentAttribute {
    SQL_ATTR_ODBC_VERSION,
    SQL_ATTR_CONNECTION_POOLING,
    SQL_ATTR_CP_MATCH,
    // For private driver manager
    SQL_ATTR_APPLICATION_KEY,
    SQL_ATTR_OUTPUT_NTS,
}

impl EnvironmentAttribute {
    /// The attribute's code, as `SQLSetEnvAttr` takes it.
    pub open spec fn spec_value(self) -> i32 {
        match self {
            EnvironmentAttribute::SQL_ATTR_ODBC_VERSION => 200,
            EnvironmentAttribute::SQL_ATTR_CONNECTION_POOLING => 201,
            EnvironmentAttribute::SQL_ATTR_CP_MATCH => 202,
            EnvironmentAttribute::SQL_ATTR_APPLICATION_KEY => 203,
            EnvironmentAttribute::SQL_ATTR_OUTPUT_NTS => 10001,
        }
    }

    /// Returns the code.
    #[verifier::when_used_as_spec(spec_value)]
    pub fn value(self) -> (r: i32)
        ensures
            r == self.spec_value(),
    {
        match self {
            EnvironmentAttribute::SQL_ATTR_ODBC_VERSION => 200,
            EnvironmentAttribute::SQL_ATTR_CONNECTION_POOLING => 201,
            EnvironmentAttribute::SQL_ATTR_CP_MATCH => 202,
            EnvironmentAttribute::SQL_ATTR_APPLICATION_KEY => 203,
            EnvironmentAttribute::SQL_ATTR_OUTPUT_NTS => 10001,
        }
    }

    /// No two environment attributes share a code.
    pub proof fn lemma_value_injective(self, other: Self)
        requires
            self.value() == other.value(),
        ensures
            self == other,
    {
    }
}

/// ODBC versions
///
/// Used in conjunction with `SQL_ATTR_ODBC_VERSION` and `SQLSetEnvAttr` to declare the ODBC
/// version used by the application.
#[allow(non_camel_case_types)]
#[derive(Debug, Clone, Copy, PartialEq, Eq, Structural)]
pub enum OdbcVersion {
    SQL_OV_ODBC2,
    SQL_OV_ODBC3,
    SQL_OV_ODBC3_80,
    SQL_OV_ODBC4,
}

impl OdbcVersion {
    /// The version's code, as `SQL_ATTR_ODBC_VERSION` takes it.
    pub open spec fn spec_value(self) -> i32 {
        match self {
            OdbcVersion::SQL_OV_ODBC2 => 2,
            OdbcVersion::SQL_OV_ODBC3 => 3,
            OdbcVersion::SQL_OV_ODBC3_80 => 380,
            OdbcVersion::SQL_OV_ODBC4 => 400,
        }
    }

    /// Returns the code.
    #[verifier::when_used_as_spec(spec_value)]
    pub fn value(self) -> (r: i32)
        ensures
            r == self.spec_value(),
    {
        match self {
            OdbcVersion::SQL_OV_ODBC2 => 2,
            OdbcVersion::SQL_OV_ODBC3 => 3,
            OdbcVersion::SQL_OV_ODBC3_80 => 380,
            OdbcVersion::SQL_OV_ODBC4 => 400,
        }
    }

    /// No two versions share a code.
    pub proof fn lemma_value_injective(self, other: Self)
        requires
            self.value() == other.value(),
        ensures
            self == other,
    {
    }

    /// Whether this version tag is declared when the library targets `target`.
    ///
    /// The tags of ODBC 2 and 3 are always declared; those of ODBC 3.8 and 4
    /// only when the target is at least that version.
    pub open spec fn spec_available_in(self, target: OdbcVersion) -> bool {
        self.value() <= OdbcVersion::SQL_OV_ODBC3.value() || self.value() <= target.value()
    }

    /// Returns whether the symbol is declared for `target`.
    #[verifier::when_used_as_spec(spec_available_in)]
    pub fn available_in(self, target: OdbcVersion) -> (r: bool)
        ensures
            r == self.spec_available_in(target),
    {
        self.value() <= OdbcVersion::SQL_OV_ODBC3.value() || self.value() <= target.value()
    }
}

impl vstd::std_specs::convert::FromSpecImpl<OdbcVersion> for SqlPointer {
    open spec fn obeys_from_spec() -> bool {
        true
    }

    open spec fn from_spec(v: OdbcVersion) -> SqlPointer {
        SqlPointer { addr: v.value() as usize }
    }
}

impl From<OdbcVersion> for SqlPointer {
    fn from(source: OdbcVersion) -> (r: SqlPointer)
        ensures
            r.addr == source.value(),
    {
        SqlPointer { addr: source.value() as usize }
    }
}

/// Statement attributes for `SQLSetStmtAttr`
#[allow(non_camel_case_types)]
#[derive(Debug, Clone, Copy, PartialEq, Eq, Structural)]
pub enum SqlStatementAttribute {
    SQL_ATTR_CURSOR_SCROLLABLE,
    SQL_ATTR_CURSOR_SENSITIVITY,
    SQL_ATTR_QUERY_TIMEOUT,
    SQL_ATTR_MAX_ROWS,
    SQL_ATTR_NOSCAN,
    SQL_ATTR_MAX_LENGTH,
    SQL_ATTR_ASYNC_ENABLE,
    SQL_ATTR_ROW_BIND_TYPE,
    SQL_ATTR_CURSOR_TYPE,
    SQL_ATTR_CONCURRENCY,
    SQL_ATTR_KEYSET_SIZE,
    SQL_ATTR_SIMULATE_CURSOR,
    SQL_ATTR_RETRIEVE_DATA,
    SQL_ATTR_USE_BOOKMARKS,
    SQL_ATTR_ROW_NUMBER,
    SQL_ATTR_ENABLE_AUTO_IPD,
    SQL_ATTR_FETCH_BOOKMARK_PTR,
    SQL_ATTR_PARAM_BIND_OFFSET_PTR,
    SQL_ATTR_PARAM_BIND_TYPE,
    SQL_ATTR_PARAM_OPERATION_PTR,
    SQL_ATTR_PARAM_STATUS_PTR,
    SQL_ATTR_PARAMS_PROCESSED_PTR,
    SQL_ATTR_PARAMSET_SIZE,
    SQL_ATTR_ROW_BIND_OFFSET_PTR,
    SQL_ATTR_ROW_OPERATION_PTR,
    SQL_ATTR_ROW_STATUS_PTR,
    SQL_ATTR_ROWS_FETCHED_PTR,
    SQL_ATTR_ROW_ARRAY_SIZE,
    SQL_ATTR_ASYNC_STMT_EVENT,
    SQL_ATTR_APP_ROW_DESC,
    SQL_ATTR_APP_PARAM_DESC,
    SQL_ATTR_IMP_ROW_DESC,
    SQL_ATTR_IMP_PARAM_DESC,
    SQL_ATTR_METADATA_ID,
}

impl SqlStatementAttribute {
    /// The attribute's code, a 32-bit signed integer.
    pub open spec fn spec_value(self) -> i32 {
        match self {
            SqlStatementAttribute::SQL_ATTR_CURSOR_SCROLLABLE => -1i32,
            SqlStatementAttribute::SQL_ATTR_CURSOR_SENSITIVITY => -2i32,
            SqlStatementAttribute::SQL_ATTR_QUERY_TIMEOUT => 0,
            SqlStatementAttribute::SQL_ATTR_MAX_ROWS => 1,
            SqlStatementAttribute::SQL_ATTR_NOSCAN => 2,
            SqlStatementAttribute::SQL_ATTR_MAX_LENGTH => 3,
            SqlStatementAttribute::SQL_ATTR_ASYNC_ENABLE => 4,
            SqlStatementAttribute::SQL_ATTR_ROW_BIND_TYPE => 5,
            SqlStatementAttribute::SQL_ATTR_CURSOR_TYPE => 6,
            SqlStatementAttribute::SQL_ATTR_CONCURRENCY => 7,
            SqlStatementAttribute::SQL_ATTR_KEYSET_SIZE => 8,
            SqlStatementAttribute::SQL_ATTR_SIMULATE_CURSOR => 10,
            SqlStatementAttribute::SQL_ATTR_RETRIEVE_DATA => 11,
            SqlStatementAttribute::SQL_ATTR_USE_BOOKMARKS => 12,
            SqlStatementAttribute::SQL_ATTR_ROW_NUMBER => 14,
            SqlStatementAttribute::SQL_ATTR_ENABLE_AUTO_IPD => 15,
            SqlStatementAttribute::SQL_ATTR_FETCH_BOOKMARK_PTR => 16,
            SqlStatementAttribute::SQL_ATTR_PARAM_BIND_OFFSET_PTR => 17,
            SqlStatementAttribute::SQL_ATTR_PARAM_BIND_TYPE => 18,
            SqlStatementAttribute::SQL_ATTR_PARAM_OPERATION_PTR => 19,
            SqlStatementAttribute::SQL_ATTR_PARAM_STATUS_PTR => 20,
            SqlStatementAttribute::SQL_ATTR_PARAMS_PROCESSED_PTR => 21,
            SqlStatementAttribute::SQL_ATTR_PARAMSET_SIZE => 22,
            SqlStatementAttribute::SQL_ATTR_ROW_BIND_OFFSET_PTR => 23,
            SqlStatementAttribute::SQL_ATTR_ROW_OPERATION_PTR => 24,
            SqlStatementAttribute::SQL_ATTR_ROW_STATUS_PTR => 25,
            SqlStatementAttribute::SQL_ATTR_ROWS_FETCHED_PTR => 26,
            SqlStatementAttribute::SQL_ATTR_ROW_ARRAY_SIZE => 27,
            SqlStatementAttribute::SQL_ATTR_ASYNC_STMT_EVENT => 29,
            SqlStatementAttribute::SQL_ATTR_APP_ROW_DESC => 10010,
            SqlStatementAttribute::SQL_ATTR_APP_PARAM_DESC => 10011,
            SqlStatementAttribute::SQL_ATTR_IMP_ROW_DESC => 10012,
            SqlStatementAttribute::SQL_ATTR_IMP_PARAM_DESC => 10013,
            SqlStatementAttribute::SQL_ATTR_METADATA_ID => 10014,
        }
    }

    /// Returns the code.
    #[verifier::when_used_as_spec(spec_value)]
    pub fn value(self) -> (r: i32)
        ensures
            r == self.spec_value(),
    {
        match self {
            SqlStatementAttribute::SQL_ATTR_CURSOR_SCROLLABLE => -1i32,
            SqlStatementAttribute::SQL_ATTR_CURSOR_SENSITIVITY => -2i32,
            SqlStatementAttribute::SQL_ATTR_QUERY_TIMEOUT => 0,
            SqlStatementAttribute::SQL_ATTR_MAX_ROWS => 1,
            SqlStatementAttribute::SQL_ATTR_NOSCAN => 2,
            SqlStatementAttribute::SQL_ATTR_MAX_LENGTH => 3,
            SqlStatementAttribute::SQL_ATTR_ASYNC_ENABLE => 4,
            SqlStatementAttribute::SQL_ATTR_ROW_BIND_TYPE => 5,
            SqlStatementAttribute::SQL_ATTR_CURSOR_TYPE => 6,
            SqlStatementAttribute::SQL_ATTR_CONCURRENCY => 7,
            SqlStatementAttribute::SQL_ATTR_KEYSET_SIZE => 8,
            SqlStatementAttribute::SQL_ATTR_SIMULATE_CURSOR => 10,
            SqlStatementAttribute::SQL_ATTR_RETRIEVE_DATA => 11,
            SqlStatementAttribute::SQL_ATTR_USE_BOOKMARKS => 12,
            SqlStatementAttribute::SQL_ATTR_ROW_NUMBER => 14,
            SqlStatementAttribute::SQL_ATTR_ENABLE_AUTO_IPD => 15,
            SqlStatementAttribute::SQL_ATTR_FETCH_BOOKMARK_PTR => 16,
            SqlStatementAttribute::SQL_ATTR_PARAM_BIND_OFFSET_PTR => 17,
            SqlStatementAttribute::SQL_ATTR_PARAM_BIND_TYPE => 18,
            SqlStatementAttribute::SQL_ATTR_PARAM_OPERATION_PTR => 19,
            SqlStatementAttribute::SQL_ATTR_PARAM_STATUS_PTR => 20,
            SqlStatementAttribute::SQL_ATTR_PARAMS_PROCESSED_PTR => 21,
            SqlStatementAttribute::SQL_ATTR_PARAMSET_SIZE => 22,
            SqlStatementAttribute::SQL_ATTR_ROW_BIND_OFFSET_PTR => 23,
            SqlStatementAttribute::SQL_ATTR_ROW_OPERATION_PTR => 24,
            SqlStatementAttribute::SQL_ATTR_ROW_STATUS_PTR => 25,
            SqlStatementAttribute::SQL_ATTR_ROWS_FETCHED_PTR => 26,
            SqlStatementAttribute::SQL_ATTR_ROW_ARRAY_SIZE => 27,
            SqlStatementAttribute::SQL_ATTR_ASYNC_STMT_EVENT => 29,
            SqlStatementAttribute::SQL_ATTR_APP_ROW_DESC => 10010,
            SqlStatementAttribute::SQL_ATTR_APP_PARAM_DESC => 10011,
            SqlStatementAttribute::SQL_ATTR_IMP_ROW_DESC => 10012,
            SqlStatementAttribute::SQL_ATTR_IMP_PARAM_DESC => 10013,
            SqlStatementAttribute::SQL_ATTR_METADATA_ID => 10014,
        }
    }

    /// No two members share a code.
    pub proof fn lemma_value_injective(self, other: Self)
        requires
            self.value() == other.value(),
        ensures
            self == other,
    {
    }
}

/// Possible values for each row of parameter values after a call to `SQLExecute` or
/// `SQLExecDirect`
#[allow(non_camel_case_types)]
#[derive(Debug, Clone, Copy, PartialEq, Eq, Structural)]
pub enum SQL_PARAM_STATUS {
    SQL_PARAM_SUCCESS,
    SQL_PARAM_DIAG_UNAVAILABLE,
    SQL_PARAM_ERROR,
    SQL_PARAM_SUCCESS_WITH_INFO,
    SQL_PARAM_UNUSED,
}

impl SQL_PARAM_STATUS {
    /// The value's code, a 16-bit unsigned integer.
    pub open spec fn spec_value(self) -> u16 {
        match self {
            SQL_PARAM_STATUS::SQL_PARAM_SUCCESS => 0,
            SQL_PARAM_STATUS::SQL_PARAM_DIAG_UNAVAILABLE => 1,
            SQL_PARAM_STATUS::SQL_PARAM_ERROR => 5,
            SQL_PARAM_STATUS::SQL_PARAM_SUCCESS_WITH_INFO => 6,
            SQL_PARAM_STATUS::SQL_PARAM_UNUSED => 7,
        }
    }

    /// Returns the code.
    #[verifier::when_used_as_spec(spec_value)]
    pub fn value(self) -> (r: u16)
        ensures
            r == self.spec_value(),
    {
        match self {
            SQL_PARAM_STATUS::SQL_PARAM_SUCCESS => 0,
            SQL_PARAM_STATUS::SQL_PARAM_DIAG_UNAVAILABLE => 1,
            SQL_PARAM_STATUS::SQL_PARAM_ERROR => 5,
            SQL_PARAM_STATUS::SQL_PARAM_SUCCESS_WITH_INFO => 6,
            SQL_PARAM_STATUS::SQL_PARAM_UNUSED => 7,
        }
    }

    /// No two members share a code.
    pub proof fn lemma_value_injective(self, other: Self)
        requires
            self.value() == other.value(),
        ensures
            self == other,
    {
    }
}

impl vstd::std_specs::convert::FromSpecImpl<SQL_PARAM_STATUS> for SqlPointer {
    open spec fn obeys_from_spec() -> bool {
        true
    }

    open spec fn from_spec(v: SQL_PARAM_STATUS) -> SqlPointer {
        SqlPointer { addr: v.value() as usize }
    }
}

impl From<SQL_PARAM_STATUS> for SqlPointer {
    fn from(source: SQL_PARAM_STATUS) -> (r: SqlPointer)
        ensures
            r.addr == source.value(),
    {
        SqlPointer { addr: source.value() as usize }
    }
}

/// Possible values containing row status values after a call to `SQLFetch` or `SQLFetchScroll`
#[allow(non_camel_case_types)]
#[derive(Debug, Clone, Copy, PartialEq, Eq, Structural)]
pub enum SQL_ROW_STATUS {
    SQL_ROW_SUCCESS,
    SQL_ROW_DELETED,
    SQL_ROW_UPDATED,
    SQL_ROW_NOROW,
    SQL_ROW_ADDED,
    SQL_ROW_ERROR,
    SQL_ROW_SUCCESS_WITH_INFO,
}

impl SQL_ROW_STATUS {
    /// The value's code, a 16-bit unsigned integer.
    pub open spec fn spec_value(self) -> u16 {
        match self {
            SQL_ROW_STATUS::SQL_ROW_SUCCESS => 0,
            SQL_ROW_STATUS::SQL_ROW_DELETED => 1,
            SQL_ROW_STATUS::SQL_ROW_UPDATED => 2,
            SQL_ROW_STATUS::SQL_ROW_NOROW => 3,
            SQL_ROW_STATUS::SQL_ROW_ADDED => 4,
            SQL_ROW_STATUS::SQL_ROW_ERROR => 5,
            SQL_ROW_STATUS::SQL_ROW_SUCCESS_WITH_INFO => 6,
        }
    }

    /// Returns the code.
    #[verifier::when_used_as_spec(spec_value)]
    pub fn value(self) -> (r: u16)
        ensures
            r == self.spec_value(),
    {
        match self {
            SQL_ROW_STATUS::SQL_ROW_SUCCESS => 0,
            SQL_ROW_STATUS::SQL_ROW_DELETED => 1,
            SQL_ROW_STATUS::SQL_ROW_UPDATED => 2,
            SQL_ROW_STATUS::SQL_ROW_NOROW => 3,
            SQL_ROW_STATUS::SQL_ROW_ADDED => 4,
            SQL_ROW_STATUS::SQL_ROW_ERROR => 5,
            SQL_ROW_STATUS::SQL_ROW_SUCCESS_WITH_INFO => 6,
        }
    }

    /// No two members share a code.
    pub proof fn lemma_value_injective(self, other: Self)
        requires
            self.value() == other.value(),
        ensures
            self == other,
    {
    }
}

impl vstd::std_specs::convert::FromSpecImpl<SQL_ROW_STATUS> for SqlPointer {
    open spec fn obeys_from_spec() -> bool {
        true
    }

    open spec fn from_spec(v: SQL_ROW_STATUS) -> SqlPointer {
        SqlPointer { addr: v.value() as usize }
    }
}

impl From<SQL_ROW_STATUS> for SqlPointer {
    fn from(source: SQL_ROW_STATUS) -> (r: SqlPointer)
        ensures
            r.addr == source.value(),
    {
        SqlPointer { addr: source.value() as usize }
    }
}

/// Possible values used to ignore a parameter during execution of an SQL statement
/// `SQLExecDirect`
#[allow(non_camel_case_types)]
#[derive(Debug, Clone, Copy, PartialEq, Eq, Structural)]
pub enum SQL_PARAM_OPERATION {
    SQL_PARAM_PROCEED,
    SQL_PARAM_IGNORE,
}

impl SQL_PARAM_OPERATION {
    /// The value's code, a 16-bit unsigned integer.
    pub open spec fn spec_value(self) -> u16 {
        match self {
            SQL_PARAM_OPERATION::SQL_PARAM_PROCEED => 0,
            SQL_PARAM_OPERATION::SQL_PARAM_IGNORE => 1,
        }
    }

    /// Returns the code.
    #[verifier::when_used_as_spec(spec_value)]
    pub fn value(self) -> (r: u16)
        ensures
            r == self.spec_value(),
    {
        match self {
            SQL_PARAM_OPERATION::SQL_PARAM_PROCEED => 0,
            SQL_PARAM_OPERATION::SQL_PARAM_IGNORE => 1,
        }
    }

    /// No two members share a code.
    pub proof fn lemma_value_injective(self, other: Self)
        requires
            self.value() == other.value(),
        ensures
            self == other,
    {
    }
}

impl vstd::std_specs::convert::FromSpecImpl<SQL_PARAM_OPERATION> for SqlPointer {
    open spec fn obeys_from_spec() -> bool {
        true
    }

    open spec fn from_spec(v: SQL_PARAM_OPERATION) -> SqlPointer {
        SqlPointer { addr: v.value() as usize }
    }
}

impl From<SQL_PARAM_OPERATION> for SqlPointer {
    fn from(source: SQL_PARAM_OPERATION) -> (r: SqlPointer)
        ensures
            r.addr == source.value(),
    {
        SqlPointer { addr: source.value() as usize }
    }
}

/// Possible values used to ignore a row during a bulk operation using `SQLSetPos`
#[allow(non_camel_case_types)]
#[derive(Debug, Clone, Copy, PartialEq, Eq, Structural)]
pub enum SQL_ROW_OPERATION {
    SQL_ROW_PROCEED,
    SQL_ROW_IGNORE,
}

impl SQL_ROW_OPERATION {
    /// The value's code, a 16-bit unsigned integer.
    pub open spec fn spec_value(self) -> u16 {
        match self {
            SQL_ROW_OPERATION::SQL_ROW_PROCEED => 0,
            SQL_ROW_OPERATION::SQL_ROW_IGNORE => 1,
        }
    }

    /// Returns the code.
    #[verifier::when_used_as_spec(spec_value)]
    pub fn value(self) -> (r: u16)
        ensures
            r == self.spec_value(),
    {
        match self {
            SQL_ROW_OPERATION::SQL_ROW_PROCEED => 0,
            SQL_ROW_OPERATION::SQL_ROW_IGNORE => 1,
        }
    }

    /// No two members share a code.
    pub proof fn lemma_value_injective(self, other: Self)
        requires
            self.value() == other.value(),
        ensures
            self == other,
    {
    }
}

impl vstd::std_specs::convert::FromSpecImpl<SQL_ROW_OPERATION> for SqlPointer {
    open spec fn obeys_from_spec() -> bool {
        true
    }

    open spec fn from_spec(v: SQL_ROW_OPERATION) -> SqlPointer {
        SqlPointer { addr: v.value() as usize }
    }
}

impl From<SQL_ROW_OPERATION> for SqlPointer {
    fn from(source: SQL_ROW_OPERATION) -> (r: SqlPointer)
        ensures
            r.addr == source.value(),
    {
        SqlPointer { addr: source.value() as usize }
    }
}

/// Possible values for `SQL_ATTR_ASYNC_ENABLE` attribute set with `SQLSetStmtAttr` to
/// define whether a function called with the specified statement is executed asynchronously
#[allow(non_camel_case_types)]
#[derive(Debug, Clone, Copy, PartialEq, Eq, Structural)]
pub enum SQL_ATTR_ASYNC_ENABLE {
    SQL_ASYNC_ENABLE_OFF,
    SQL_ASYNC_ENABLE_ON,
}

impl SQL_ATTR_ASYNC_ENABLE {
    /// The value's code, a pointer-sized unsigned integer.
    pub open spec fn spec_value(self) -> usize {
        match self {
            SQL_ATTR_ASYNC_ENABLE::SQL_ASYNC_ENABLE_OFF => 0,
            SQL_ATTR_ASYNC_ENABLE::SQL_ASYNC_ENABLE_ON => 1,
        }
    }

    /// Returns the code.
    #[verifier::when_used_as_spec(spec_value)]
    pub fn value(self) -> (r: usize)
        ensures
            r == self.spec_value(),
    {
        match self {
            SQL_ATTR_ASYNC_ENABLE::SQL_ASYNC_ENABLE_OFF => 0,
            SQL_ATTR_ASYNC_ENABLE::SQL_ASYNC_ENABLE_ON => 1,
        }
    }

    /// No two members share a code.
    pub proof fn lemma_value_injective(self, other: Self)
        requires
            self.value() == other.value(),
        ensures
            self == other,
    {
    }
}

/// Default value for `SQL_ATTR_ASYNC_ENABLE`
pub const SQL_ASYNC_ENABLE_DEFAULT: SQL_ATTR_ASYNC_ENABLE =
    SQL_ATTR_ASYNC_ENABLE::SQL_ASYNC_ENABLE_OFF;

impl vstd::std_specs::convert::FromSpecImpl<SQL_ATTR_ASYNC_ENABLE> for SqlPointer {
    open spec fn obeys_from_spec() -> bool {
        true
    }

    open spec fn from_spec(v: SQL_ATTR_ASYNC_ENABLE) -> SqlPointer {
        SqlPointer { addr: v.value() as usize }
    }
}

impl From<SQL_ATTR_ASYNC_ENABLE> for SqlPointer {
    fn from(source: SQL_ATTR_ASYNC_ENABLE) -> (r: SqlPointer)
        ensures
            r.addr == source.value(),
    {
        SqlPointer { addr: source.value() as usize }
    }
}

/// Possible values for `SQL_ATTR_CONCURRENCY` attribute set with `SQLSetStmtAttr` to
/// define cursor concurrency
#[allow(non_camel_case_types)]
#[derive(Debug, Clone, Copy, PartialEq, Eq, Structural)]
pub enum SQL_ATTR_CONCURRENCY {
    SQL_CONCUR_READ_ONLY,
    SQL_CONCUR_LOCK,
    SQL_CONCUR_ROWVER,
    SQL_CONCUR_VALUES,
}

impl SQL_ATTR_CONCURRENCY {
    /// The value's code, a pointer-sized unsigned integer.
    pub open spec fn spec_value(self) -> usize {
        match self {
            SQL_ATTR_CONCURRENCY::SQL_CONCUR_READ_ONLY => 1,
            SQL_ATTR_CONCURRENCY::SQL_CONCUR_LOCK => 2,
            SQL_ATTR_CONCURRENCY::SQL_CONCUR_ROWVER => 3,
            SQL_ATTR_CONCURRENCY::SQL_CONCUR_VALUES => 4,
        }
    }

    /// Returns the code.
    #[verifier::when_used_as_spec(spec_value)]
    pub fn value(self) -> (r: usize)
        ensures
            r == self.spec_value(),
    {
        match self {
            SQL_ATTR_CONCURRENCY::SQL_CONCUR_READ_ONLY => 1,
            SQL_ATTR_CONCURRENCY::SQL_CONCUR_LOCK => 2,
            SQL_ATTR_CONCURRENCY::SQL_CONCUR_ROWVER => 3,
            SQL_ATTR_CONCURRENCY::SQL_CONCUR_VALUES => 4,
        }
    }

    /// No two members share a code.
    pub proof fn lemma_value_injective(self, other: Self)
        requires
            self.value() == other.value(),
        ensures
            self == other,
    {
    }
}

/// Default value for `SQL_ATTR_CONCURRENCY`
pub const SQL_CONCUR_DEFAULT: SQL_ATTR_CONCURRENCY = SQL_ATTR_CONCURRENCY::SQL_CONCUR_READ_ONLY;

impl vstd::std_specs::convert::FromSpecImpl<SQL_ATTR_CONCURRENCY> for SqlPointer {
    open spec fn obeys_from_spec() -> bool {
        true
    }

    open spec fn from_spec(v: SQL_ATTR_CONCURRENCY) -> SqlPointer {
        SqlPointer { addr: v.value() as usize }
    }
}

impl From<SQL_ATTR_CONCURRENCY> for SqlPointer {
    fn from(source: SQL_ATTR_CONCURRENCY) -> (r: SqlPointer)
        ensures
            r.addr == source.value(),
    {
        SqlPointer { addr: source.value() as usize }
    }
}

/// Possible values for `SQL_ATTR_CURSOR_SCROLLABLE` attribute set with `SQLSetStmtAttr` to
/// define the level of support the application requires
#[allow(non_camel_case_types)]
#[derive(Debug, Clone, Copy, PartialEq, Eq, Structural)]
pub enum SQL_ATTR_CURSOR_SCROLLABLE {
    SQL_NONSCROLLABLE,
    SQL_SCROLLABLE,
}

impl SQL_ATTR_CURSOR_SCROLLABLE {
    /// The value's code, a pointer-sized unsigned integer.
    pub open spec fn spec_value(self) -> usize {
        match self {
            SQL_ATTR_CURSOR_SCROLLABLE::SQL_NONSCROLLABLE => 0,
            SQL_ATTR_CURSOR_SCROLLABLE::SQL_SCROLLABLE => 1,
        }
    }

    /// Returns the code.
    #[verifier::when_used_as_spec(spec_value)]
    pub fn value(self) -> (r: usize)
        ensures
            r == self.spec_value(),
    {
        match self {
            SQL_ATTR_CURSOR_SCROLLABLE::SQL_NONSCROLLABLE => 0,
            SQL_ATTR_CURSOR_SCROLLABLE::SQL_SCROLLABLE => 1,
        }
    }

    /// No two members share a code.
    pub proof fn lemma_value_injective(self, other: Self)
        requires
            self.value() == other.value(),
        ensures
            self == other,
    {
    }
}

impl vstd::std_specs::convert::FromSpecImpl<SQL_ATTR_CURSOR_SCROLLABLE> for SqlPointer {
    open spec fn obeys_from_spec() -> bool {
        true
    }

    open spec fn from_spec(v: SQL_ATTR_CURSOR_SCROLLABLE) -> SqlPointer {
        SqlPointer { addr: v.value() as usize }
    }
}

impl From<SQL_ATTR_CURSOR_SCROLLABLE> for SqlPointer {
    fn from(source: SQL_ATTR_CURSOR_SCROLLABLE) -> (r: SqlPointer)
        ensures
            r.addr == source.value(),
    {
        SqlPointer { addr: source.value() as usize }
    }
}

/// Possible values for `SQL_ATTR_CURSOR_SENSITIVITY` attribute set with `SQLSetStmtAttr` to
/// define whether cursors on the statement handle make visible changes made to result set by
/// another cursor
#[allow(non_camel_case_types)]
#[derive(Debug, Clone, Copy, PartialEq, Eq, Structural)]
pub enum SQL_ATTR_CURSOR_SENSITIVITY {
    SQL_UNSPECIFIED,
    SQL_INSENSITIVE,
    SQL_SENSITIVE,
}

impl SQL_ATTR_CURSOR_SENSITIVITY {
    /// The value's code, a pointer-sized unsigned integer.
    pub open spec fn spec_value(self) -> usize {
        match self {
            SQL_ATTR_CURSOR_SENSITIVITY::SQL_UNSPECIFIED => 0,
            SQL_ATTR_CURSOR_SENSITIVITY::SQL_INSENSITIVE => 1,
            SQL_ATTR_CURSOR_SENSITIVITY::SQL_SENSITIVE => 2,
        }
    }

    /// Returns the code.
    #[verifier::when_used_as_spec(spec_value)]
    pub fn value(self) -> (r: usize)
        ensures
            r == self.spec_value(),
    {
        match self {
            SQL_ATTR_CURSOR_SENSITIVITY::SQL_UNSPECIFIED => 0,
            SQL_ATTR_CURSOR_SENSITIVITY::SQL_INSENSITIVE => 1,
            SQL_ATTR_CURSOR_SENSITIVITY::SQL_SENSITIVE => 2,
        }
    }

    /// No two members share a code.
    pub proof fn lemma_value_injective(self, other: Self)
        requires
            self.value() == other.value(),
        ensures
            self == other,
    {
    }
}

impl vstd::std_specs::convert::FromSpecImpl<SQL_ATTR_CURSOR_SENSITIVITY> for SqlPointer {
    open spec fn obeys_from_spec() -> bool {
        true
    }

    open spec fn from_spec(v: SQL_ATTR_CURSOR_SENSITIVITY) -> SqlPointer {
        SqlPointer { addr: v.value() as usize }
    }
}

impl From<SQL_ATTR_CURSOR_SENSITIVITY> for SqlPointer {
    fn from(source: SQL_ATTR_CURSOR_SENSITIVITY) -> (r: SqlPointer)
        ensures
            r.addr == source.value(),
    {
        SqlPointer { addr: source.value() as usize }
    }
}

/// Possible values for `SQL_ATTR_CURSOR_TYPE` attribute set with `SQLSetStmtAttr` to
/// define the cursor type
#[allow(non_camel_case_types)]
#[derive(Debug, Clone, Copy, PartialEq, Eq, Structural)]
pub enum SQL_ATTR_CURSOR_TYPE {
    SQL_CURSOR_FORWARD_ONLY,
    SQL_CURSOR_KEYSET_DRIVEN,
    SQL_CURSOR_DYNAMIC,
    SQL_CURSOR_STATIC,
}

impl SQL_ATTR_CURSOR_TYPE {
    /// The value's code, a pointer-sized unsigned integer.
    pub open spec fn spec_value(self) -> usize {
        match self {
            SQL_ATTR_CURSOR_TYPE::SQL_CURSOR_FORWARD_ONLY => 0,
            SQL_ATTR_CURSOR_TYPE::SQL_CURSOR_KEYSET_DRIVEN => 1,
            SQL_ATTR_CURSOR_TYPE::SQL_CURSOR_DYNAMIC => 2,
            SQL_ATTR_CURSOR_TYPE::SQL_CURSOR_STATIC => 3,
        }
    }

    /// Returns the code.
    #[verifier::when_used_as_spec(spec_value)]
    pub fn value(self) -> (r: usize)
        ensures
            r == self.spec_value(),
    {
        match self {
            SQL_ATTR_CURSOR_TYPE::SQL_CURSOR_FORWARD_ONLY => 0,
            SQL_ATTR_CURSOR_TYPE::SQL_CURSOR_KEYSET_DRIVEN => 1,
            SQL_ATTR_CURSOR_TYPE::SQL_CURSOR_DYNAMIC => 2,
            SQL_ATTR_CURSOR_TYPE::SQL_CURSOR_STATIC => 3,
        }
    }

    /// No two members share a code.
    pub proof fn lemma_value_injective(self, other: Self)
        requires
            self.value() == other.value(),
        ensures
            self == other,
    {
    }
}

/// Default value(0) for `SQL_ATTR_CURSOR_TYPE`
pub const SQL_CURSOR_TYPE_DEFAULT: SQL_ATTR_CURSOR_TYPE =
    SQL_ATTR_CURSOR_TYPE::SQL_CURSOR_FORWARD_ONLY;

impl vstd::std_specs::convert::FromSpecImpl<SQL_ATTR_CURSOR_TYPE> for SqlPointer {
    open spec fn obeys_from_spec() -> bool {
        true
    }

    open spec fn from_spec(v: SQL_ATTR_CURSOR_TYPE) -> SqlPointer {
        SqlPointer { addr: v.value() as usize }
    }
}

impl From<SQL_ATTR_CURSOR_TYPE> for SqlPointer {
    fn from(source: SQL_ATTR_CURSOR_TYPE) -> (r: SqlPointer)
        ensures
            r.addr == source.value(),
    {
        SqlPointer { addr: source.value() as usize }
    }
}

/// Possible values for `SQL_ATTR_NOSCAN` attribute set with `SQLSetStmtAttr` to define
/// whether the driver should scan SQL strings for escape sequences
#[allow(non_camel_case_types)]
#[derive(Debug, Clone, Copy, PartialEq, Eq, Structural)]
pub enum SQL_ATTR_NOSCAN {
    SQL_NOSCAN_OFF,
    SQL_NOSCAN_ON,
}

impl SQL_ATTR_NOSCAN {
    /// The value's code, a pointer-sized unsigned integer.
    pub open spec fn spec_value(self) -> usize {
        match self {
            SQL_ATTR_NOSCAN::SQL_NOSCAN_OFF => 0,
            SQL_ATTR_NOSCAN::SQL_NOSCAN_ON => 1,
        }
    }

    /// Returns the code.
    #[verifier::when_used_as_spec(spec_value)]
    pub fn value(self) -> (r: usize)
        ensures
            r == self.spec_value(),
    {
        match self {
            SQL_ATTR_NOSCAN::SQL_NOSCAN_OFF => 0,
            SQL_ATTR_NOSCAN::SQL_NOSCAN_ON => 1,
        }
    }

    /// No two members share a code.
    pub proof fn lemma_value_injective(self, other: Self)
        requires
            self.value() == other.value(),
        ensures
            self == other,
    {
    }
}

/// Default value for `SQL_ATTR_NOSCAN`
pub const SQL_NOSCAN_DEFAULT: SQL_ATTR_NOSCAN = SQL_ATTR_NOSCAN::SQL_NOSCAN_OFF;

impl vstd::std_specs::convert::FromSpecImpl<SQL_ATTR_NOSCAN> for SqlPointer {
    open spec fn obeys_from_spec() -> bool {
        true
    }

    open spec fn from_spec(v: SQL_ATTR_NOSCAN) -> SqlPointer {
        SqlPointer { addr: v.value() as usize }
    }
}

impl From<SQL_ATTR_NOSCAN> for SqlPointer {
    fn from(source: SQL_ATTR_NOSCAN) -> (r: SqlPointer)
        ensures
            r.addr == source.value(),
    {
        SqlPointer { addr: source.value() as usize }
    }
}

/// Possible values for `SQL_ATTR_PARAM_BIND_TYPE` attribute set with `SQLSetStmtAttr` to define
/// the binding orientation to be used for dynamic parameters
#[allow(non_camel_case_types)]
#[derive(Debug, Clone, Copy, PartialEq, Eq, Structural)]
pub enum SQL_ATTR_PARAM_BIND_TYPE {
    SQL_PARAM_BIND_BY_COLUMN,
}

impl SQL_ATTR_PARAM_BIND_TYPE {
    /// The value's code, a pointer-sized unsigned integer.
    pub open spec fn spec_value(self) -> usize {
        match self {
            SQL_ATTR_PARAM_BIND_TYPE::SQL_PARAM_BIND_BY_COLUMN => 0,
        }
    }

    /// Returns the code.
    #[verifier::when_used_as_spec(spec_value)]
    pub fn value(self) -> (r: usize)
        ensures
            r == self.spec_value(),
    {
        match self {
            SQL_ATTR_PARAM_BIND_TYPE::SQL_PARAM_BIND_BY_COLUMN => 0,
        }
    }
}

/// Default value for `SQL_ATTR_PARAM_BIND_TYPE`
pub const SQL_PARAM_BIND_TYPE_DEFAULT: SQL_ATTR_PARAM_BIND_TYPE =
    SQL_ATTR_PARAM_BIND_TYPE::SQL_PARAM_BIND_BY_COLUMN;

impl vstd::std_specs::convert::FromSpecImpl<SQL_ATTR_PARAM_BIND_TYPE> for SqlPointer {
    open spec fn obeys_from_spec() -> bool {
        true
    }

    open spec fn from_spec(v: SQL_ATTR_PARAM_BIND_TYPE) -> SqlPointer {
        SqlPointer { addr: v.value() as usize }
    }
}

impl From<SQL_ATTR_PARAM_BIND_TYPE> for SqlPointer {
    fn from(source: SQL_ATTR_PARAM_BIND_TYPE) -> (r: SqlPointer)
        ensures
            r.addr == source.value(),
    {
        SqlPointer { addr: source.value() as usize }
    }
}

/// Possible values for `SQL_ATTR_RETRIEVE_DATA` attribute set with `SQLSetStmtAttr`
#[allow(non_camel_case_types)]
#[derive(Debug, Clone, Copy, PartialEq, Eq, Structural)]
pub enum SQL_ATTR_RETRIEVE_DATA {
    SQL_RD_OFF,
    SQL_RD_ON,
}

impl SQL_ATTR_RETRIEVE_DATA {
    /// The value's code, a pointer-sized unsigned integer.
    pub open spec fn spec_value(self) -> usize {
        match self {
            SQL_ATTR_RETRIEVE_DATA::SQL_RD_OFF => 0,
            SQL_ATTR_RETRIEVE_DATA::SQL_RD_ON => 1,
        }
    }

    /// Returns the code.
    #[verifier::when_used_as_spec(spec_value)]
    pub fn value(self) -> (r: usize)
        ensures
            r == self.spec_value(),
    {
        match self {
            SQL_ATTR_RETRIEVE_DATA::SQL_RD_OFF => 0,
            SQL_ATTR_RETRIEVE_DATA::SQL_RD_ON => 1,
        }
    }

    /// No two members share a code.
    pub proof fn lemma_value_injective(self, other: Self)
        requires
            self.value() == other.value(),
        ensures
            self == other,
    {
    }
}

/// Default value for `SQL_ATTR_RETRIEVE_DATA`
pub const SQL_RD_DEFAULT: SQL_ATTR_RETRIEVE_DATA = SQL_ATTR_RETRIEVE_DATA::SQL_RD_ON;

impl vstd::std_specs::convert::FromSpecImpl<SQL_ATTR_RETRIEVE_DATA> for SqlPointer {
    open spec fn obeys_from_spec() -> bool {
        true
    }

    open spec fn from_spec(v: SQL_ATTR_RETRIEVE_DATA) -> SqlPointer {
        SqlPointer { addr: v.value() as usize }
    }
}

impl From<SQL_ATTR_RETRIEVE_DATA> for SqlPointer {
    fn from(source: SQL_ATTR_RETRIEVE_DATA) -> (r: SqlPointer)
        ensures
            r.addr == source.value(),
    {
        SqlPointer { addr: source.value() as usize }
    }
}

/// Possible values for `SQL_ATTR_ROW_BIND_TYPE` attribute set with `SQLSetStmtAttr` to define the
/// binding orientation to be used when `SQLFetch` or `SQLFetchScroll` is called
///
/// Row-wise binding is selected by setting the attribute to the length of the structure, or of
/// the buffer, into which result columns are bound; that length is not a member here.
#[allow(non_camel_case_types)]
#[derive(Debug, Clone, Copy, PartialEq, Eq, Structural)]
pub enum SQL_ATTR_ROW_BIND_TYPE {
    SQL_BIND_BY_COLUMN,
}

impl SQL_ATTR_ROW_BIND_TYPE {
    /// The value's code, a pointer-sized unsigned integer.
    pub open spec fn spec_value(self) -> usize {
        match self {
            SQL_ATTR_ROW_BIND_TYPE::SQL_BIND_BY_COLUMN => 0,
        }
    }

    /// Returns the code.
    #[verifier::when_used_as_spec(spec_value)]
    pub fn value(self) -> (r: usize)
        ensures
            r == self.spec_value(),
    {
        match self {
            SQL_ATTR_ROW_BIND_TYPE::SQL_BIND_BY_COLUMN => 0,
        }
    }
}

/// Default value for `SQL_ATTR_ROW_BIND_TYPE`
pub const SQL_BIND_TYPE_DEFAULT: SQL_ATTR_ROW_BIND_TYPE =
    SQL_ATTR_ROW_BIND_TYPE::SQL_BIND_BY_COLUMN;

impl vstd::std_specs::convert::FromSpecImpl<SQL_ATTR_ROW_BIND_TYPE> for SqlPointer {
    open spec fn obeys_from_spec() -> bool {
        true
    }

    open spec fn from_spec(v: SQL_ATTR_ROW_BIND_TYPE) -> SqlPointer {
        SqlPointer { addr: v.value() as usize }
    }
}

impl From<SQL_ATTR_ROW_BIND_TYPE> for SqlPointer {
    fn from(source: SQL_ATTR_ROW_BIND_TYPE) -> (r: SqlPointer)
        ensures
            r.addr == source.value(),
    {
        SqlPointer { addr: source.value() as usize }
    }
}

/// Possible values for `SQL_ATTR_SIMULATE_CURSOR` attribute set with `SQLSetStmtAttr` to define
/// whether drivers that simulate positioned update and delete statements guarantee that such
/// statements affect only one single row.
#[allow(non_camel_case_types)]
#[derive(Debug, Clone, Copy, PartialEq, Eq, Structural)]
pub enum SQL_ATTR_SIMULATE_CURSOR {
    SQL_SC_NON_UNIQUE,
    SQL_SC_TRY_UNIQUE,
    SQL_SC_UNIQUE,
}

impl SQL_ATTR_SIMULATE_CURSOR {
    /// The value's code, a pointer-sized unsigned integer.
    pub open spec fn spec_value(self) -> usize {
        match self {
            SQL_ATTR_SIMULATE_CURSOR::SQL_SC_NON_UNIQUE => 0,
            SQL_ATTR_SIMULATE_CURSOR::SQL_SC_TRY_UNIQUE => 1,
            SQL_ATTR_SIMULATE_CURSOR::SQL_SC_UNIQUE => 2,
        }
    }

    /// Returns the code.
    #[verifier::when_used_as_spec(spec_value)]
    pub fn value(self) -> (r: usize)
        ensures
            r == self.spec_value(),
    {
        match self {
            SQL_ATTR_SIMULATE_CURSOR::SQL_SC_NON_UNIQUE => 0,
            SQL_ATTR_SIMULATE_CURSOR::SQL_SC_TRY_UNIQUE => 1,
            SQL_ATTR_SIMULATE_CURSOR::SQL_SC_UNIQUE => 2,
        }
    }

    /// No two members share a code.
    pub proof fn lemma_value_injective(self, other: Self)
        requires
            self.value() == other.value(),
        ensures
            self == other,
    {
    }
}

impl vstd::std_specs::convert::FromSpecImpl<SQL_ATTR_SIMULATE_CURSOR> for SqlPointer {
    open spec fn obeys_from_spec() -> bool {
        true
    }

    open spec fn from_spec(v: SQL_ATTR_SIMULATE_CURSOR) -> SqlPointer {
        SqlPointer { addr: v.value() as usize }
    }
}

impl From<SQL_ATTR_SIMULATE_CURSOR> for SqlPointer {
    fn from(source: SQL_ATTR_SIMULATE_CURSOR) -> (r: SqlPointer)
        ensures
            r.addr == source.value(),
    {
        SqlPointer { addr: source.value() as usize }
    }
}

/// Possible values for `SQL_ATTR_USE_BOOKMARKS` attribute set with `SQLSetStmtAttr` to define
/// whether an application will use bookmarks with a cursor
#[allow(non_camel_case_types)]
#[derive(Debug, Clone, Copy, PartialEq, Eq, Structural)]
pub enum SQL_ATTR_USE_BOOKMARKS {
    SQL_UB_OFF,
    SQL_UB_ON,
    SQL_UB_VARIABLE,
}

impl SQL_ATTR_USE_BOOKMARKS {
    /// The value's code, a pointer-sized unsigned integer.
    pub open spec fn spec_value(self) -> usize {
        match self {
            SQL_ATTR_USE_BOOKMARKS::SQL_UB_OFF => 0,
            SQL_ATTR_USE_BOOKMARKS::SQL_UB_ON => 1,
            SQL_ATTR_USE_BOOKMARKS::SQL_UB_VARIABLE => 2,
        }
    }

    /// Returns the code.
    #[verifier::when_used_as_spec(spec_value)]
    pub fn value(self) -> (r: usize)
        ensures
            r == self.spec_value(),
    {
        match self {
            SQL_ATTR_USE_BOOKMARKS::SQL_UB_OFF => 0,
            SQL_ATTR_USE_BOOKMARKS::SQL_UB_ON => 1,
            SQL_ATTR_USE_BOOKMARKS::SQL_UB_VARIABLE => 2,
        }
    }

    /// No two members share a code.
    pub proof fn lemma_value_injective(self, other: Self)
        requires
            self.value() == other.value(),
        ensures
            self == other,
    {
    }
}

/// Default value for `SQL_ATTR_USE_BOOKMARKS`
pub const SQL_UB_DEFAULT: SQL_ATTR_USE_BOOKMARKS = SQL_ATTR_USE_BOOKMARKS::SQL_UB_OFF;

impl vstd::std_specs::convert::FromSpecImpl<SQL_ATTR_USE_BOOKMARKS> for SqlPointer {
    open spec fn obeys_from_spec() -> bool {
        true
    }

    open spec fn from_spec(v: SQL_ATTR_USE_BOOKMARKS) -> SqlPointer {
        SqlPointer { addr: v.value() as usize }
    }
}

impl From<SQL_ATTR_USE_BOOKMARKS> for SqlPointer {
    fn from(source: SQL_ATTR_USE_BOOKMARKS) -> (r: SqlPointer)
        ensures
            r.addr == source.value(),
    {
        SqlPointer { addr: source.value() as usize }
    }
}

impl SqlStatementAttribute {
    /// Whether this attribute is declared when the library targets `target`.
    ///
    /// `SQL_ATTR_ASYNC_STMT_EVENT` came with ODBC 3.8; every other attribute
    /// is always declared.
    pub open spec fn spec_available_in(self, target: OdbcVersion) -> bool {
        self != SqlStatementAttribute::SQL_ATTR_ASYNC_STMT_EVENT
            || OdbcVersion::SQL_OV_ODBC3_80.value() <= target.value()
    }

    /// Returns whether the symbol is declared for `target`.
    #[verifier::when_used_as_spec(spec_available_in)]
    pub fn available_in(self, target: OdbcVersion) -> (r: bool)
        ensures
            r == self.spec_available_in(target),
    {
        match self {
            SqlStatementAttribute::SQL_ATTR_ASYNC_STMT_EVENT => OdbcVersion::SQL_OV_ODBC3_80.value()
                <= target.value(),
            _ => true,
        }
    }
}

/// Default value for `SQL_ATTR_QUERY_TIMEOUT` which defines query timeout (no timeout)
pub const SQL_QUERY_TIMEOUT_DEFAULT: usize = 0;

/// Default value(0) for `SQL_ATTR_KEYSET_SIZE` attribute which defines the number of rows in the
/// keyset for a keyset-driven cursor
pub const SQL_KEYSET_SIZE_DEFAULT: usize = 0;

/// Default value(0) for `SQL_ATTR_MAX_LENGTH` attribute which defines the maximum amount of data
/// that the driver returns from a character of binary column
pub const SQL_MAX_LENGTH_DEFAULT: usize = 0;

/// Default value(0) for `SQL_ATTR_MAX_ROWS` attribute which defines the maximum number of rows to
/// return to the application for a SELECT statement
pub const SQL_MAX_ROWS_DEFAULT: usize = 0;

/// Null value for `SQL_ATTR_APP_PARAM_DESC` and `SQL_ATTR_APP_ROW_DESC` attribute
/// set with `SQLSetStmtAttr` to use null descriptor
pub const SQL_NULL_DESC: usize = 0;

/// Every default names exactly one member of its enumeration: the one the
/// standard prescribes, whose code it therefore carries.
pub proof fn lemma_defaults_are_members()
    ensures
        SQL_ASYNC_ENABLE_DEFAULT == SQL_ATTR_ASYNC_ENABLE::SQL_ASYNC_ENABLE_OFF,
        SQL_ASYNC_ENABLE_DEFAULT.value() == 0,
        forall|x: SQL_ATTR_ASYNC_ENABLE|
            #[trigger] x.value() == SQL_ASYNC_ENABLE_DEFAULT.value()
                <==> x == SQL_ATTR_ASYNC_ENABLE::SQL_ASYNC_ENABLE_OFF,
        SQL_CONCUR_DEFAULT == SQL_ATTR_CONCURRENCY::SQL_CONCUR_READ_ONLY,
        SQL_CONCUR_DEFAULT.value() == 1,
        forall|x: SQL_ATTR_CONCURRENCY|
            #[trigger] x.value() == SQL_CONCUR_DEFAULT.value()
                <==> x == SQL_ATTR_CONCURRENCY::SQL_CONCUR_READ_ONLY,
        SQL_CURSOR_TYPE_DEFAULT == SQL_ATTR_CURSOR_TYPE::SQL_CURSOR_FORWARD_ONLY,
        SQL_CURSOR_TYPE_DEFAULT.value() == 0,
        forall|x: SQL_ATTR_CURSOR_TYPE|
            #[trigger] x.value() == SQL_CURSOR_TYPE_DEFAULT.value()
                <==> x == SQL_ATTR_CURSOR_TYPE::SQL_CURSOR_FORWARD_ONLY,
        SQL_NOSCAN_DEFAULT == SQL_ATTR_NOSCAN::SQL_NOSCAN_OFF,
        SQL_NOSCAN_DEFAULT.value() == 0,
        forall|x: SQL_ATTR_NOSCAN|
            #[trigger] x.value() == SQL_NOSCAN_DEFAULT.value()
                <==> x == SQL_ATTR_NOSCAN::SQL_NOSCAN_OFF,
        SQL_PARAM_BIND_TYPE_DEFAULT == SQL_ATTR_PARAM_BIND_TYPE::SQL_PARAM_BIND_BY_COLUMN,
        SQL_PARAM_BIND_TYPE_DEFAULT.value() == 0,
        forall|x: SQL_ATTR_PARAM_BIND_TYPE|
            #[trigger] x.value() == SQL_PARAM_BIND_TYPE_DEFAULT.value()
                <==> x == SQL_ATTR_PARAM_BIND_TYPE::SQL_PARAM_BIND_BY_COLUMN,
        SQL_RD_DEFAULT == SQL_ATTR_RETRIEVE_DATA::SQL_RD_ON,
        SQL_RD_DEFAULT.value() == 1,
        forall|x: SQL_ATTR_RETRIEVE_DATA|
            #[trigger] x.value() == SQL_RD_DEFAULT.value()
                <==> x == SQL_ATTR_RETRIEVE_DATA::SQL_RD_ON,
        SQL_BIND_TYPE_DEFAULT == SQL_ATTR_ROW_BIND_TYPE::SQL_BIND_BY_COLUMN,
        SQL_BIND_TYPE_DEFAULT.value() == 0,
        forall|x: SQL_ATTR_ROW_BIND_TYPE|
            #[trigger] x.value() == SQL_BIND_TYPE_DEFAULT.value()
                <==> x == SQL_ATTR_ROW_BIND_TYPE::SQL_BIND_BY_COLUMN,
        SQL_UB_DEFAULT == SQL_ATTR_USE_BOOKMARKS::SQL_UB_OFF,
        SQL_UB_DEFAULT.value() == 0,
        forall|x: SQL_ATTR_USE_BOOKMARKS|
            #[trigger] x.value() == SQL_UB_DEFAULT.value()
                <==> x == SQL_ATTR_USE_BOOKMARKS::SQL_UB_OFF,
{
}

/// Converting a member into the pointer-sized argument and reading that
/// argument back as an integer gives the member's code unchanged.
pub proof fn lemma_pointer_round_trip()
    ensures
        forall|x: OdbcVersion| (#[trigger] SqlPointer::from_spec(x)).addr == x.value(),
        forall|x: SQL_PARAM_STATUS| (#[trigger] SqlPointer::from_spec(x)).addr == x.value(),
        forall|x: SQL_ROW_STATUS| (#[trigger] SqlPointer::from_spec(x)).addr == x.value(),
        forall|x: SQL_PARAM_OPERATION| (#[trigger] SqlPointer::from_spec(x)).addr == x.value(),
        forall|x: SQL_ROW_OPERATION| (#[trigger] SqlPointer::from_spec(x)).addr == x.value(),
        forall|x: SQL_ATTR_ASYNC_ENABLE| (#[trigger] SqlPointer::from_spec(x)).addr == x.value(),
        forall|x: SQL_ATTR_CONCURRENCY| (#[trigger] SqlPointer::from_spec(x)).addr == x.value(),
        forall|x: SQL_ATTR_CURSOR_SCROLLABLE| (#[trigger] SqlPointer::from_spec(x)).addr == x.value(),
        forall|x: SQL_ATTR_CURSOR_SENSITIVITY| (#[trigger] SqlPointer::from_spec(x)).addr == x.value(),
        forall|x: SQL_ATTR_CURSOR_TYPE| (#[trigger] SqlPointer::from_spec(x)).addr == x.value(),
        forall|x: SQL_ATTR_NOSCAN| (#[trigger] SqlPointer::from_spec(x)).addr == x.value(),
        forall|x: SQL_ATTR_PARAM_BIND_TYPE| (#[trigger] SqlPointer::from_spec(x)).addr == x.value(),
        forall|x: SQL_ATTR_RETRIEVE_DATA| (#[trigger] SqlPointer::from_spec(x)).addr == x.value(),
        forall|x: SQL_ATTR_ROW_BIND_TYPE| (#[trigger] SqlPointer::from_spec(x)).addr == x.value(),
        forall|x: SQL_ATTR_SIMULATE_CURSOR| (#[trigger] SqlPointer::from_spec(x)).addr == x.value(),
        forall|x: SQL_ATTR_USE_BOOKMARKS| (#[trigger] SqlPointer::from_spec(x)).addr == x.value(),
{
}

/// The symbols that came with ODBC 3.8 and 4 are declared exactly when the
/// target version is at least the one that brought them; every other symbol is
/// declared for every target.
pub proof fn lemma_version_gating(target: OdbcVersion)
    ensures
        OdbcVersion::SQL_OV_ODBC3_80.available_in(target) <==> (target
            == OdbcVersion::SQL_OV_ODBC3_80 || target == OdbcVersion::SQL_OV_ODBC4),
        OdbcVersion::SQL_OV_ODBC4.available_in(target) <==> target == OdbcVersion::SQL_OV_ODBC4,
        OdbcVersion::SQL_OV_ODBC2.available_in(target),
        OdbcVersion::SQL_OV_ODBC3.available_in(target),
        SqlStatementAttribute::SQL_ATTR_ASYNC_STMT_EVENT.available_in(target) <==> (target
            == OdbcVersion::SQL_OV_ODBC3_80 || target == OdbcVersion::SQL_OV_ODBC4),
        forall|a: SqlStatementAttribute|
            a != SqlStatementAttribute::SQL_ATTR_ASYNC_STMT_EVENT ==> #[trigger] a.available_in(
                target,
            ),
{
}

} // verus!
