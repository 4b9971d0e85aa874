//! Named ODBC attribute, status and information codes, each with the exact
//! value that the ODBC standard gives it, and their conversion into the
//! pointer-sized argument of the attribute-setting calls.

pub mod attributes;
pub mod info_type;
pub mod pointer;

pub use attributes::{
    EnvironmentAttribute, OdbcVersion, SqlStatementAttribute, SQL_ATTR_ASYNC_ENABLE,
    SQL_ATTR_CONCURRENCY, SQL_ATTR_CURSOR_SCROLLABLE, SQL_ATTR_CURSOR_SENSITIVITY,
    SQL_ATTR_CURSOR_TYPE, SQL_ATTR_NOSCAN, SQL_ATTR_PARAM_BIND_TYPE, SQL_ATTR_RETRIEVE_DATA,
    SQL_ATTR_ROW_BIND_TYPE, SQL_ATTR_SIMULATE_CURSOR, SQL_ATTR_USE_BOOKMARKS, SQL_PARAM_OPERATION,
    SQL_PARAM_STATUS, SQL_ROW_OPERATION, SQL_ROW_STATUS,
};
pub use info_type::InfoType;
pub use pointer::SqlPointer;
