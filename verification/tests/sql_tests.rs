use tmsadm::args::TmsOperation;
use tmsadm::args::TmsResource;
use tmsadm::sql::build_sql_statement;
use tmsadm::sql::sql_prefix;
use tmsadm::sql::u32_to_decimal;

#[test]
fn six_prefixes_exact() {
    assert_eq!(sql_prefix(TmsOperation::LIST, TmsResource::pubkey), "SELECT * FROM pubkeys ");
    assert_eq!(sql_prefix(TmsOperation::LIST, TmsResource::client), "SELECT * FROM clients ");
    assert_eq!(
        sql_prefix(TmsOperation::LIST, TmsResource::delegation),
        "SELECT * FROM delegations "
    );
    assert_eq!(sql_prefix(TmsOperation::DELETE, TmsResource::pubkey), "DELETE FROM pubkeys ");
    assert_eq!(sql_prefix(TmsOperation::DELETE, TmsResource::client), "DELETE FROM clients ");
    assert_eq!(
        sql_prefix(TmsOperation::DELETE, TmsResource::delegation),
        "DELETE FROM delegations "
    );
}

#[test]
fn limit_zero_appends_nothing() {
    let sql = build_sql_statement("SELECT * FROM pubkeys ", &None, 0);
    assert_eq!(sql, "SELECT * FROM pubkeys ");
}

#[test]
fn limit_negative_appends_nothing() {
    let sql = build_sql_statement("SELECT * FROM clients ", &None, -3);
    assert_eq!(sql, "SELECT * FROM clients ");
}

#[test]
fn limit_positive_appends_decimal() {
    let sql = build_sql_statement("SELECT * FROM pubkeys ", &None, 5);
    assert_eq!(sql, "SELECT * FROM pubkeys  LIMIT 5");
    let sql = build_sql_statement("SELECT * FROM pubkeys ", &None, 2147483647);
    assert_eq!(sql, "SELECT * FROM pubkeys  LIMIT 2147483647");
}

#[test]
fn where_clause_sits_between_prefix_and_limit() {
    let wh = Some("WHERE host = 'x'".to_string());
    let sql = build_sql_statement("DELETE FROM clients ", &wh, 2);
    assert_eq!(sql, "DELETE FROM clients WHERE host = 'x' LIMIT 2");
}

#[test]
fn where_clause_appended_verbatim_without_limit() {
    let wh = Some("WHERE tms_user_id = 'bud' and host = 'example.com'".to_string());
    let sql = build_sql_statement("SELECT * FROM delegations ", &wh, 0);
    assert_eq!(sql, "SELECT * FROM delegations WHERE tms_user_id = 'bud' and host = 'example.com'");
}

#[test]
fn decimal_rendering_exact() {
    assert_eq!(u32_to_decimal(0), "0");
    assert_eq!(u32_to_decimal(7), "7");
    assert_eq!(u32_to_decimal(10), "10");
    assert_eq!(u32_to_decimal(42), "42");
    assert_eq!(u32_to_decimal(1000), "1000");
    assert_eq!(u32_to_decimal(1234567890), "1234567890");
    assert_eq!(u32_to_decimal(4294967295), "4294967295");
}
