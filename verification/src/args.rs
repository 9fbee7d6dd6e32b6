//! The argument model: the two closed enumerations, the immutable
//! configuration value, and case-insensitive parsing of the enumeration
//! names as they appear on the command line.

use vstd::prelude::*;

verus! {

/// The class of SQL action to perform.
#[allow(non_camel_case_types)]
#[derive(Debug, PartialEq, Eq, Structural, Clone, Copy)]
pub enum TmsOperation {
    LIST,
    DELETE,
}

/// The target table of an operation.
#[allow(non_camel_case_types)]
#[derive(Debug, PartialEq, Eq, Structural, Clone, Copy)]
pub enum TmsResource {
    pubkey,
    client,
    delegation,
}

/// The parsed command-line arguments: created once at process start,
/// immutable thereafter. The three `*_off` switches are inverted: each
/// defaults to `false`, meaning the corresponding sqlite3 flag is passed.
#[derive(Debug)]
pub struct TmsadmArgs {
    pub operation: TmsOperation,
    pub resource: TmsResource,
    pub dbpath: String,
    pub json_off: bool,
    pub echo_off: bool,
    pub header_off: bool,
    pub limit: i32,
    pub confirm_delete_off: bool,
    pub sqlwhere: Option<String>,
}

/// The default database path, used when no `--dbpath` is given.
pub open spec fn spec_default_dbpath() -> Seq<char> {
    "~/.tms/database/tms.db"@
}

/// `s` spells `LIST`, each letter in either case.
pub open spec fn spec_names_list(s: Seq<char>) -> bool {
    s.len() == 4 && (s[0] == 'L' || s[0] == 'l') && (s[1] == 'I' || s[1] == 'i')
        && (s[2] == 'S' || s[2] == 's') && (s[3] == 'T' || s[3] == 't')
}

/// `s` spells `DELETE`, each letter in either case.
pub open spec fn spec_names_delete(s: Seq<char>) -> bool {
    s.len() == 6 && (s[0] == 'D' || s[0] == 'd') && (s[1] == 'E' || s[1] == 'e')
        && (s[2] == 'L' || s[2] == 'l') && (s[3] == 'E' || s[3] == 'e')
        && (s[4] == 'T' || s[4] == 't') && (s[5] == 'E' || s[5] == 'e')
}

/// `s` spells `pubkey`, each letter in either case.
pub open spec fn spec_names_pubkey(s: Seq<char>) -> bool {
    s.len() == 6 && (s[0] == 'P' || s[0] == 'p') && (s[1] == 'U' || s[1] == 'u')
        && (s[2] == 'B' || s[2] == 'b') && (s[3] == 'K' || s[3] == 'k')
        && (s[4] == 'E' || s[4] == 'e') && (s[5] == 'Y' || s[5] == 'y')
}

/// `s` spells `client`, each letter in either case.
pub open spec fn spec_names_client(s: Seq<char>) -> bool {
    s.len() == 6 && (s[0] == 'C' || s[0] == 'c') && (s[1] == 'L' || s[1] == 'l')
        && (s[2] == 'I' || s[2] == 'i') && (s[3] == 'E' || s[3] == 'e')
        && (s[4] == 'N' || s[4] == 'n') && (s[5] == 'T' || s[5] == 't')
}

/// `s` spells `delegation`, each letter in either case.
pub open spec fn spec_names_delegation(s: Seq<char>) -> bool {
    s.len() == 10 && (s[0] == 'D' || s[0] == 'd') && (s[1] == 'E' || s[1] == 'e')
        && (s[2] == 'L' || s[2] == 'l') && (s[3] == 'E' || s[3] == 'e')
        && (s[4] == 'G' || s[4] == 'g') && (s[5] == 'A' || s[5] == 'a')
        && (s[6] == 'T' || s[6] == 't') && (s[7] == 'I' || s[7] == 'i')
        && (s[8] == 'O' || s[8] == 'o') && (s[9] == 'N' || s[9] == 'n')
}

/// Parse an operation name case-insensitively; any other string is rejected.
pub fn parse_operation(s: &str) -> (r: Option<TmsOperation>)
    ensures
        r == Some(TmsOperation::LIST) <==> spec_names_list(s@),
        r == Some(TmsOperation::DELETE) <==> spec_names_delete(s@),
        r is None <==> !spec_names_list(s@) && !spec_names_delete(s@),
{
    let n = s.unicode_len();
    if n == 4 {
        let c0 = s.get_char(0);
        let c1 = s.get_char(1);
        let c2 = s.get_char(2);
        let c3 = s.get_char(3);
        if (c0 == 'L' || c0 == 'l') && (c1 == 'I' || c1 == 'i') && (c2 == 'S' || c2 == 's')
            && (c3 == 'T' || c3 == 't') {
            Some(TmsOperation::LIST)
        } else {
            None
        }
    } else if n == 6 {
        let c0 = s.get_char(0);
        let c1 = s.get_char(1);
        let c2 = s.get_char(2);
        let c3 = s.get_char(3);
        let c4 = s.get_char(4);
        let c5 = s.get_char(5);
        if (c0 == 'D' || c0 == 'd') && (c1 == 'E' || c1 == 'e') && (c2 == 'L' || c2 == 'l')
            && (c3 == 'E' || c3 == 'e') && (c4 == 'T' || c4 == 't') && (c5 == 'E' || c5 == 'e') {
            Some(TmsOperation::DELETE)
        } else {
            None
        }
    } else {
        None
    }
}

/// Parse a resource name case-insensitively; any other string is rejected.
pub fn parse_resource(s: &str) -> (r: Option<TmsResource>)
    ensures
        r == Some(TmsResource::pubkey) <==> spec_names_pubkey(s@),
        r == Some(TmsResource::client) <==> spec_names_client(s@),
        r == Some(TmsResource::delegation) <==> spec_names_delegation(s@),
        r is None <==> !spec_names_pubkey(s@) && !spec_names_client(s@)
            && !spec_names_delegation(s@),
{
    let n = s.unicode_len();
    if n == 6 {
        let c0 = s.get_char(0);
        let c1 = s.get_char(1);
        let c2 = s.get_char(2);
        let c3 = s.get_char(3);
        let c4 = s.get_char(4);
        let c5 = s.get_char(5);
        if (c0 == 'P' || c0 == 'p') && (c1 == 'U' || c1 == 'u') && (c2 == 'B' || c2 == 'b')
            && (c3 == 'K' || c3 == 'k') && (c4 == 'E' || c4 == 'e') && (c5 == 'Y' || c5 == 'y') {
            Some(TmsResource::pubkey)
        } else if (c0 == 'C' || c0 == 'c') && (c1 == 'L' || c1 == 'l') && (c2 == 'I' || c2 == 'i')
            && (c3 == 'E' || c3 == 'e') && (c4 == 'N' || c4 == 'n') && (c5 == 'T' || c5 == 't') {
            Some(TmsResource::client)
        } else {
            None
        }
    } else if n == 10 {
        let c0 = s.get_char(0);
        let c1 = s.get_char(1);
        let c2 = s.get_char(2);
        let c3 = s.get_char(3);
        let c4 = s.get_char(4);
        let c5 = s.get_char(5);
        let c6 = s.get_char(6);
        let c7 = s.get_char(7);
        let c8 = s.get_char(8);
        let c9 = s.get_char(9);
        if (c0 == 'D' || c0 == 'd') && (c1 == 'E' || c1 == 'e') && (c2 == 'L' || c2 == 'l')
            && (c3 == 'E' || c3 == 'e') && (c4 == 'G' || c4 == 'g') && (c5 == 'A' || c5 == 'a')
            && (c6 == 'T' || c6 == 't') && (c7 == 'I' || c7 == 'i') && (c8 == 'O' || c8 == 'o')
            && (c9 == 'N' || c9 == 'n') {
            Some(TmsResource::delegation)
        } else {
            None
        }
    } else {
        None
    }
}

/// Assemble the configuration value from parsed flag values, filling in the
/// default database path when none was given.
pub fn init_tmsadm_args(
    operation: TmsOperation,
    resource: TmsResource,
    dbpath: Option<String>,
    json_off: bool,
    echo_off: bool,
    header_off: bool,
    limit: i32,
    confirm_delete_off: bool,
    sqlwhere: Option<String>,
) -> (r: TmsadmArgs)
    ensures
        r.operation == operation,
        r.resource == resource,
        dbpath matches Some(p) ==> r.dbpath@ == p@,
        dbpath is None ==> r.dbpath@ == spec_default_dbpath(),
        r.json_off == json_off,
        r.echo_off == echo_off,
        r.header_off == header_off,
        r.limit == limit,
        r.confirm_delete_off == confirm_delete_off,
        r.sqlwhere == sqlwhere,
{
    let dbpath_value = match dbpath {
        Some(p) => p,
        None => "~/.tms/database/tms.db".to_owned(),
    };
    TmsadmArgs {
        operation,
        resource,
        dbpath: dbpath_value,
        json_off,
        echo_off,
        header_off,
        limit,
        confirm_delete_off,
        sqlwhere,
    }
}

} // verus!
