use odbc_ffi::attributes::{
    SQL_ASYNC_ENABLE_DEFAULT, SQL_ASYNC_ENABLE_ON, SQL_ATTR_ODBC_VERSION, SQL_BIND_TYPE_DEFAULT,
    SQL_CONCUR_DEFAULT, SQL_CURSOR_TYPE_DEFAULT, SQL_KEYSET_SIZE_DEFAULT, SQL_MAX_LENGTH_DEFAULT,
    SQL_MAX_ROWS_DEFAULT, SQL_NOSCAN_DEFAULT, SQL_NULL_DESC, SQL_OV_ODBC2, SQL_OV_ODBC3,
    SQL_OV_ODBC3_80, SQL_OV_ODBC4, SQL_PARAM_BIND_TYPE_DEFAULT, SQL_QUERY_TIMEOUT_DEFAULT,
    SQL_RD_DEFAULT, SQL_UB_DEFAULT,
};
use odbc_ffi::{
    InfoType, SqlPointer, SqlStatementAttribute, SQL_ATTR_ASYNC_ENABLE, SQL_ATTR_CONCURRENCY,
    SQL_ATTR_CURSOR_TYPE, SQL_ATTR_NOSCAN, SQL_ATTR_PARAM_BIND_TYPE, SQL_ATTR_RETRIEVE_DATA,
    SQL_ATTR_ROW_BIND_TYPE, SQL_ATTR_USE_BOOKMARKS,
};

#[test]
fn named_examples() {
    assert_eq!(SQL_ATTR_ODBC_VERSION.value(), 200);
    assert_eq!(SQL_OV_ODBC3.value(), 3);
    assert_eq!(InfoType::DbmsName.value(), 17);
}

#[test]
fn concurrency_default_is_read_only() {
    assert_eq!(SQL_CONCUR_DEFAULT, SQL_ATTR_CONCURRENCY::SQL_CONCUR_READ_ONLY);
    assert_eq!(SQL_CONCUR_DEFAULT.value(), 1);
}

#[test]
fn defaults_match_their_members() {
    assert_eq!(SQL_ASYNC_ENABLE_DEFAULT, SQL_ATTR_ASYNC_ENABLE::SQL_ASYNC_ENABLE_OFF);
    assert_eq!(SQL_ASYNC_ENABLE_DEFAULT.value(), 0);
    assert_eq!(SQL_CURSOR_TYPE_DEFAULT, SQL_ATTR_CURSOR_TYPE::SQL_CURSOR_FORWARD_ONLY);
    assert_eq!(SQL_CURSOR_TYPE_DEFAULT.value(), 0);
    assert_eq!(SQL_NOSCAN_DEFAULT, SQL_ATTR_NOSCAN::SQL_NOSCAN_OFF);
    assert_eq!(SQL_NOSCAN_DEFAULT.value(), 0);
    assert_eq!(SQL_PARAM_BIND_TYPE_DEFAULT, SQL_ATTR_PARAM_BIND_TYPE::SQL_PARAM_BIND_BY_COLUMN);
    assert_eq!(SQL_PARAM_BIND_TYPE_DEFAULT.value(), 0);
    assert_eq!(SQL_RD_DEFAULT, SQL_ATTR_RETRIEVE_DATA::SQL_RD_ON);
    assert_eq!(SQL_RD_DEFAULT.value(), 1);
    assert_eq!(SQL_BIND_TYPE_DEFAULT, SQL_ATTR_ROW_BIND_TYPE::SQL_BIND_BY_COLUMN);
    assert_eq!(SQL_BIND_TYPE_DEFAULT.value(), 0);
    assert_eq!(SQL_UB_DEFAULT, SQL_ATTR_USE_BOOKMARKS::SQL_UB_OFF);
    assert_eq!(SQL_UB_DEFAULT.value(), 0);
}

#[test]
fn retrieve_data_default_names_one_member_only() {
    let matching: Vec<SQL_ATTR_RETRIEVE_DATA> =
        vec![SQL_ATTR_RETRIEVE_DATA::SQL_RD_OFF, SQL_ATTR_RETRIEVE_DATA::SQL_RD_ON]
            .into_iter()
            .filter(|m| m.value() == SQL_RD_DEFAULT.value())
            .collect();
    assert_eq!(matching, vec![SQL_ATTR_RETRIEVE_DATA::SQL_RD_ON]);
}

#[test]
fn plain_defaults_are_zero() {
    assert_eq!(SQL_QUERY_TIMEOUT_DEFAULT, 0);
    assert_eq!(SQL_KEYSET_SIZE_DEFAULT, 0);
    assert_eq!(SQL_MAX_LENGTH_DEFAULT, 0);
    assert_eq!(SQL_MAX_ROWS_DEFAULT, 0);
    assert_eq!(SQL_NULL_DESC, 0);
}

#[test]
fn async_enable_on_round_trips_through_pointer() {
    let p: SqlPointer = SQL_ASYNC_ENABLE_ON.into();
    assert_eq!(p.as_ulen(), 1);
    assert_eq!(p, SqlPointer { addr: 1 });
}

#[test]
fn odbc_version_into_pointer_carries_code() {
    let p: SqlPointer = SQL_OV_ODBC3.into();
    assert_eq!(p.as_ulen(), 3);
    let p: SqlPointer = SQL_OV_ODBC3_80.into();
    assert_eq!(p.as_ulen(), 380);
}

#[test]
fn version_tags_by_target() {
    for target in [SQL_OV_ODBC2, SQL_OV_ODBC3, SQL_OV_ODBC3_80, SQL_OV_ODBC4] {
        assert!(SQL_OV_ODBC2.available_in(target));
        assert!(SQL_OV_ODBC3.available_in(target));
    }
    assert!(!SQL_OV_ODBC3_80.available_in(SQL_OV_ODBC2));
    assert!(!SQL_OV_ODBC3_80.available_in(SQL_OV_ODBC3));
    assert!(SQL_OV_ODBC3_80.available_in(SQL_OV_ODBC3_80));
    assert!(SQL_OV_ODBC3_80.available_in(SQL_OV_ODBC4));
    assert!(!SQL_OV_ODBC4.available_in(SQL_OV_ODBC3));
    assert!(!SQL_OV_ODBC4.available_in(SQL_OV_ODBC3_80));
    assert!(SQL_OV_ODBC4.available_in(SQL_OV_ODBC4));
}

#[test]
fn async_statement_event_needs_odbc_3_80() {
    let event = SqlStatementAttribute::SQL_ATTR_ASYNC_STMT_EVENT;
    assert!(!event.available_in(SQL_OV_ODBC2));
    assert!(!event.available_in(SQL_OV_ODBC3));
    assert!(event.available_in(SQL_OV_ODBC3_80));
    assert!(event.available_in(SQL_OV_ODBC4));
    assert_eq!(event.value(), 29);
}

#[test]
fn other_statement_attributes_always_declared() {
    for a in [
        SqlStatementAttribute::SQL_ATTR_CURSOR_SCROLLABLE,
        SqlStatementAttribute::SQL_ATTR_QUERY_TIMEOUT,
        SqlStatementAttribute::SQL_ATTR_ROW_ARRAY_SIZE,
        SqlStatementAttribute::SQL_ATTR_METADATA_ID,
    ] {
        assert!(a.available_in(SQL_OV_ODBC2));
        assert!(a.available_in(SQL_OV_ODBC4));
    }
}
