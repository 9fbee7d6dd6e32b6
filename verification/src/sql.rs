//! The SQL statement builder: a pure function from (operation, resource,
//! optional WHERE clause, limit) to a single statement string. The WHERE
//! clause is appended verbatim — the operator is trusted, and no escaping or
//! validation is performed anywhere; that is a deliberate trust boundary of
//! this tool, not an oversight.

use vstd::prelude::*;

use crate::args::TmsOperation;
use crate::args::TmsResource;

verus! {

/// The character for a single decimal digit.
pub open spec fn spec_digit_char(d: int) -> char {
    if d == 0 { '0' } else if d == 1 { '1' } else if d == 2 { '2' } else if d == 3 { '3' }
    else if d == 4 { '4' } else if d == 5 { '5' } else if d == 6 { '6' } else if d == 7 { '7' }
    else if d == 8 { '8' } else { '9' }
}

/// The numeric value of a single decimal digit character.
pub open spec fn spec_digit_value(c: char) -> int {
    if c == '0' { 0 } else if c == '1' { 1 } else if c == '2' { 2 } else if c == '3' { 3 }
    else if c == '4' { 4 } else if c == '5' { 5 } else if c == '6' { 6 } else if c == '7' { 7 }
    else if c == '8' { 8 } else { 9 }
}

/// `c` is a decimal digit character.
pub open spec fn spec_is_digit(c: char) -> bool {
    c == '0' || c == '1' || c == '2' || c == '3' || c == '4' || c == '5' || c == '6'
        || c == '7' || c == '8' || c == '9'
}

/// The decimal representation of `n`: most significant digit first.
pub open spec fn spec_decimal(n: nat) -> Seq<char>
    decreases n,
{
    if n < 10 {
        seq![spec_digit_char(n as int)]
    } else {
        spec_decimal(n / 10).push(spec_digit_char((n % 10) as int))
    }
}

/// The number a digit sequence denotes, most significant digit first.
pub open spec fn spec_decimal_value(s: Seq<char>) -> int
    decreases s.len(),
{
    if s.len() == 0 {
        0
    } else {
        spec_decimal_value(s.drop_last()) * 10 + spec_digit_value(s.last())
    }
}

/// The decimal representation is nonempty, consists of digit characters
/// only, and has no leading zero unless it denotes zero itself.
pub proof fn lemma_decimal_shape(n: nat)
    ensures
        spec_decimal(n).len() >= 1,
        forall|i: int| 0 <= i < spec_decimal(n).len() ==> spec_is_digit(#[trigger] spec_decimal(n)[i]),
        n > 0 ==> spec_decimal(n)[0] != '0',
    decreases n,
{
    if n >= 10 {
        lemma_decimal_shape(n / 10);
    }
}

/// Law: reading the decimal representation back as a number gives the
/// number itself — the digits written are exactly the decimal digits of `n`.
pub proof fn lemma_decimal_value_round_trip(n: nat)
    ensures
        spec_decimal_value(spec_decimal(n)) == n,
    decreases n,
{
    if n < 10 {
        assert(spec_decimal(n) == seq![spec_digit_char(n as int)]);
        assert(spec_decimal(n).drop_last() =~= Seq::<char>::empty());
        assert(spec_decimal(n).last() == spec_digit_char(n as int));
        assert(spec_decimal_value(Seq::<char>::empty()) == 0);
        assert(spec_decimal_value(spec_decimal(n)) == spec_digit_value(spec_digit_char(n as int)));
    } else {
        lemma_decimal_value_round_trip(n / 10);
        assert(spec_decimal(n) == spec_decimal(n / 10).push(spec_digit_char((n % 10) as int)));
        assert(spec_decimal(n).drop_last() =~= spec_decimal(n / 10));
        assert(spec_decimal(n).last() == spec_digit_char((n % 10) as int));
        assert(spec_decimal(n).len() > 0);
        assert(spec_decimal_value(spec_decimal(n)) == spec_decimal_value(spec_decimal(n / 10)) * 10
            + spec_digit_value(spec_digit_char((n % 10) as int)));
        assert(spec_digit_value(spec_digit_char((n % 10) as int)) == n % 10);
        assert(n / 10 * 10 + n % 10 == n) by (nonlinear_arith);
    }
}

/// The one-character string for a decimal digit.
fn digit_str(d: u32) -> (r: &'static str)
    requires
        d < 10,
    ensures
        r@ == seq![spec_digit_char(d as int)],
{
    let r: &'static str = match d {
        0 => "0",
        1 => "1",
        2 => "2",
        3 => "3",
        4 => "4",
        5 => "5",
        6 => "6",
        7 => "7",
        8 => "8",
        _ => "9",
    };
    proof {
        reveal_strlit("0");
        reveal_strlit("1");
        reveal_strlit("2");
        reveal_strlit("3");
        reveal_strlit("4");
        reveal_strlit("5");
        reveal_strlit("6");
        reveal_strlit("7");
        reveal_strlit("8");
        reveal_strlit("9");
        assert(r@ =~= seq![spec_digit_char(d as int)]);
    }
    r
}

/// Render `n` in decimal, most significant digit first.
pub fn u32_to_decimal(n: u32) -> (r: String)
    ensures
        r@ == spec_decimal(n as nat),
    decreases n,
{
    if n < 10 {
        let s = digit_str(n);
        s.to_owned()
    } else {
        let mut prefix = u32_to_decimal(n / 10);
        let d = digit_str(n % 10);
        prefix.append(d);
        proof {
            assert(prefix@ =~= spec_decimal((n / 10) as nat).push(spec_digit_char((n % 10) as int)));
        }
        prefix
    }
}

/// The fixed statement prefix for each (operation, resource) pair.
pub open spec fn spec_sql_prefix(op: TmsOperation, res: TmsResource) -> Seq<char> {
    match (op, res) {
        (TmsOperation::LIST, TmsResource::pubkey) => "SELECT * FROM pubkeys "@,
        (TmsOperation::LIST, TmsResource::client) => "SELECT * FROM clients "@,
        (TmsOperation::LIST, TmsResource::delegation) => "SELECT * FROM delegations "@,
        (TmsOperation::DELETE, TmsResource::pubkey) => "DELETE FROM pubkeys "@,
        (TmsOperation::DELETE, TmsResource::client) => "DELETE FROM clients "@,
        (TmsOperation::DELETE, TmsResource::delegation) => "DELETE FROM delegations "@,
    }
}

/// The fixed statement prefix for each (operation, resource) pair.
pub fn sql_prefix(op: TmsOperation, res: TmsResource) -> (r: &'static str)
    ensures
        r@ == spec_sql_prefix(op, res),
{
    match (op, res) {
        (TmsOperation::LIST, TmsResource::pubkey) => "SELECT * FROM pubkeys ",
        (TmsOperation::LIST, TmsResource::client) => "SELECT * FROM clients ",
        (TmsOperation::LIST, TmsResource::delegation) => "SELECT * FROM delegations ",
        (TmsOperation::DELETE, TmsResource::pubkey) => "DELETE FROM pubkeys ",
        (TmsOperation::DELETE, TmsResource::client) => "DELETE FROM clients ",
        (TmsOperation::DELETE, TmsResource::delegation) => "DELETE FROM delegations ",
    }
}

/// The text a WHERE-clause option contributes: the clause verbatim, or
/// nothing.
pub open spec fn spec_where_text(wh: Option<Seq<char>>) -> Seq<char> {
    match wh {
        Some(w) => w,
        None => Seq::empty(),
    }
}

/// The text a limit contributes: ` LIMIT ` and the decimal digits when the
/// limit is positive, nothing otherwise.
pub open spec fn spec_limit_suffix(limit: int) -> Seq<char> {
    if limit > 0 {
        " LIMIT "@ + spec_decimal(limit as nat)
    } else {
        Seq::empty()
    }
}

/// The complete statement: prefix, then the WHERE clause verbatim, then the
/// LIMIT suffix.
pub open spec fn spec_sql_statement(prefix: Seq<char>, wh: Option<Seq<char>>, limit: int) -> Seq<char> {
    prefix + spec_where_text(wh) + spec_limit_suffix(limit)
}

/// The view of an optional owned string.
pub open spec fn spec_opt_text(o: Option<String>) -> Option<Seq<char>> {
    match o {
        Some(s) => Some(s@),
        None => None,
    }
}

/// Build the statement string from a prefix, an optional WHERE clause and a
/// limit. The clause is appended verbatim; a limit is appended only when
/// positive, so a limit of zero (the "no limit" default) never renders as
/// `LIMIT 0`.
pub fn build_sql_statement(prefix: &str, sqlwhere: &Option<String>, limit: i32) -> (r: String)
    ensures
        r@ == spec_sql_statement(prefix@, spec_opt_text(*sqlwhere), limit as int),
{
    let mut sql = prefix.to_owned();
    match sqlwhere {
        Some(wh) => {
            sql.append(wh.as_str());
        },
        None => {},
    }
    if limit > 0 {
        sql.append(" LIMIT ");
        let digits = u32_to_decimal(limit as u32);
        sql.append(digits.as_str());
    }
    proof {
        assert(sql@ =~= spec_sql_statement(prefix@, spec_opt_text(*sqlwhere), limit as int));
    }
    sql
}

/// Law: with no WHERE clause and no positive limit, the built statement is
/// exactly the fixed prefix, character for character.
pub proof fn lemma_bare_statement_is_prefix(op: TmsOperation, res: TmsResource, limit: int)
    requires
        limit <= 0,
    ensures
        spec_sql_statement(spec_sql_prefix(op, res), None, limit) == spec_sql_prefix(op, res),
{
    assert(spec_sql_statement(spec_sql_prefix(op, res), None, limit) =~= spec_sql_prefix(op, res));
}

/// Law: a supplied WHERE clause stands immediately after the prefix, with no
/// added separator beyond the prefix's own trailing space, and immediately
/// before any LIMIT suffix.
pub proof fn lemma_where_clause_placement(prefix: Seq<char>, w: Seq<char>, limit: int)
    ensures
        spec_sql_statement(prefix, Some(w), limit) == prefix + w + spec_limit_suffix(limit),
        spec_sql_statement(prefix, Some(w), limit).subrange(
            prefix.len() as int,
            prefix.len() + w.len() as int,
        ) =~= w,
{
    assert(spec_sql_statement(prefix, Some(w), limit) =~= prefix + w + spec_limit_suffix(limit));
}

/// Law: a non-positive limit appends no LIMIT clause at all, and a positive
/// limit makes the statement end with ` LIMIT ` followed by exactly the
/// decimal digits of the limit.
pub proof fn lemma_limit_clause(prefix: Seq<char>, wh: Option<Seq<char>>, limit: int)
    ensures
        limit <= 0 ==> spec_sql_statement(prefix, wh, limit) == prefix + spec_where_text(wh),
        limit > 0 ==> spec_sql_statement(prefix, wh, limit).skip(
            prefix.len() + spec_where_text(wh).len() as int,
        ) =~= " LIMIT "@ + spec_decimal(limit as nat),
        limit > 0 ==> spec_sql_statement(prefix, wh, limit).take(
            prefix.len() + spec_where_text(wh).len() as int,
        ) =~= prefix + spec_where_text(wh),
{
    if limit <= 0 {
        assert(spec_sql_statement(prefix, wh, limit) =~= prefix + spec_where_text(wh));
    }
}

} // verus!
