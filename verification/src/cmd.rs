//! Planning the external `sqlite3` invocation: the executable name, the
//! ordered option flags (each present unless switched off), the resolved
//! database path, and the SQL statement as final argument; and, for DELETE
//! operations, the confirmation plan — show the matching LIST first, then
//! delete only on an affirmative answer, unless confirmation is off.

use vstd::prelude::*;

use crate::args::TmsOperation;
use crate::args::TmsResource;
use crate::args::TmsadmArgs;
use crate::pathres::get_absolute_path;
use crate::pathres::spec_is_absolute;
use crate::pathres::spec_is_normal_absolute;
use crate::pathres::spec_no_expansion_refs;
use crate::sql::build_sql_statement;
use crate::sql::spec_opt_text;
use crate::sql::spec_sql_prefix;
use crate::sql::spec_sql_statement;
use crate::sql::sql_prefix;

verus! {

/// One external command: the program to start and its arguments in order.
pub struct CmdInvocation {
    pub program: String,
    pub args: Vec<String>,
}

/// The option flags the invocation carries, in their fixed order: `-json`,
/// `-header`, `-echo`, each present exactly when its `*_off` switch is
/// false.
pub open spec fn spec_flag_texts(json_off: bool, header_off: bool, echo_off: bool) -> Seq<
    Seq<char>,
> {
    (if !json_off {
        seq!["-json"@]
    } else {
        Seq::<Seq<char>>::empty()
    }) + (if !header_off {
        seq!["-header"@]
    } else {
        Seq::<Seq<char>>::empty()
    }) + (if !echo_off {
        seq!["-echo"@]
    } else {
        Seq::<Seq<char>>::empty()
    })
}

/// What path resolution promises of the database-path argument, relative
/// to the path the configuration holds: for every path, the argument is
/// that path itself (the resolver's fallback) or an absolute path.
pub open spec fn spec_resolved_path_ok(original: Seq<char>, resolved: Seq<char>) -> bool {
    &&& (spec_no_expansion_refs(original) && spec_is_normal_absolute(original)) ==> resolved
        == original
    &&& (spec_no_expansion_refs(original) && spec_is_absolute(original)) ==> (
    spec_is_normal_absolute(resolved) && spec_no_expansion_refs(resolved))
    &&& resolved == original || spec_is_absolute(resolved)
}

/// The invocation is the correct one for this configuration and
/// (operation, resource) pair: program `sqlite3`, then the selected flags,
/// then the resolved database path, then the built statement, and nothing
/// else.
pub open spec fn spec_invocation_ok(
    cfg: TmsadmArgs,
    op: TmsOperation,
    res: TmsResource,
    inv: CmdInvocation,
) -> bool {
    let argv = inv.args.deep_view();
    let flags = spec_flag_texts(cfg.json_off, cfg.header_off, cfg.echo_off);
    &&& inv.program@ == "sqlite3"@
    &&& argv.len() == flags.len() + 2
    &&& argv.take(flags.len() as int) == flags
    &&& argv[argv.len() - 1] == spec_sql_statement(
        spec_sql_prefix(op, res),
        spec_opt_text(cfg.sqlwhere),
        cfg.limit as int,
    )
    &&& spec_resolved_path_ok(cfg.dbpath@, argv[argv.len() - 2])
}

/// Append one argument to an argument vector.
fn push_arg(args: &mut Vec<String>, text: String)
    ensures
        final(args).deep_view() == old(args).deep_view().push(text@),
{
    let ghost t = text@;
    args.push(text);
    proof {
        assert(args.deep_view() =~= old(args).deep_view().push(t));
    }
}

/// Build the `sqlite3` invocation for one statement prefix: assemble the
/// statement from the configured WHERE clause and limit, pick the flags the
/// configuration has not switched off, and resolve the database path.
pub fn make_sqlite3_cmd(cfg: &TmsadmArgs, sql_stmt: &str) -> (r: CmdInvocation)
    ensures
        r.program@ == "sqlite3"@,
        r.args.deep_view().len() == spec_flag_texts(cfg.json_off, cfg.header_off, cfg.echo_off).len()
            + 2,
        r.args.deep_view().take(
            spec_flag_texts(cfg.json_off, cfg.header_off, cfg.echo_off).len() as int,
        ) == spec_flag_texts(cfg.json_off, cfg.header_off, cfg.echo_off),
        r.args.deep_view()[r.args.deep_view().len() - 1] == spec_sql_statement(
            sql_stmt@,
            spec_opt_text(cfg.sqlwhere),
            cfg.limit as int,
        ),
        spec_resolved_path_ok(cfg.dbpath@, r.args.deep_view()[r.args.deep_view().len() - 2]),
{
    let sql = build_sql_statement(sql_stmt, &cfg.sqlwhere, cfg.limit);
    let ghost sql_text = sql@;
    let mut args: Vec<String> = Vec::new();
    if !cfg.json_off {
        push_arg(&mut args, "-json".to_owned());
    }
    if !cfg.header_off {
        push_arg(&mut args, "-header".to_owned());
    }
    if !cfg.echo_off {
        push_arg(&mut args, "-echo".to_owned());
    }
    proof {
        assert(args.deep_view() =~= spec_flag_texts(cfg.json_off, cfg.header_off, cfg.echo_off));
    }
    let ghost flags = args.deep_view();
    let resolved = get_absolute_path(cfg.dbpath.as_str());
    let ghost resolved_text = resolved@;
    push_arg(&mut args, resolved);
    push_arg(&mut args, sql);
    proof {
        let argv = args.deep_view();
        assert(argv == flags.push(resolved_text).push(sql_text));
        assert(argv.take(flags.len() as int) =~= flags);
        assert(argv[argv.len() - 1] == sql_text);
        assert(argv[argv.len() - 2] == resolved_text);
    }
    CmdInvocation { program: "sqlite3".to_owned(), args }
}

/// The task name that prefixes error messages for each (operation,
/// resource) pair.
pub open spec fn spec_task_label(op: TmsOperation, res: TmsResource) -> Seq<char> {
    match (op, res) {
        (TmsOperation::LIST, TmsResource::pubkey) => "LIST pubkeys"@,
        (TmsOperation::LIST, TmsResource::client) => "LIST clients"@,
        (TmsOperation::LIST, TmsResource::delegation) => "LIST delegations"@,
        (TmsOperation::DELETE, TmsResource::pubkey) => "DELETE pubkeys"@,
        (TmsOperation::DELETE, TmsResource::client) => "DELETE clients"@,
        (TmsOperation::DELETE, TmsResource::delegation) => "DELETE delegations"@,
    }
}

/// The task name that prefixes error messages for each (operation,
/// resource) pair.
pub fn task_label(op: TmsOperation, res: TmsResource) -> (r: &'static str)
    ensures
        r@ == spec_task_label(op, res),
{
    match (op, res) {
        (TmsOperation::LIST, TmsResource::pubkey) => "LIST pubkeys",
        (TmsOperation::LIST, TmsResource::client) => "LIST clients",
        (TmsOperation::LIST, TmsResource::delegation) => "LIST delegations",
        (TmsOperation::DELETE, TmsResource::pubkey) => "DELETE pubkeys",
        (TmsOperation::DELETE, TmsResource::client) => "DELETE clients",
        (TmsOperation::DELETE, TmsResource::delegation) => "DELETE delegations",
    }
}

/// How a DELETE proceeds: directly, or only after the matching LIST has
/// been shown and the operator has answered the confirmation prompt.
pub enum DeletePlan {
    Direct { delete: CmdInvocation },
    ConfirmThen { list: CmdInvocation, delete: CmdInvocation },
}

/// The whole run, planned from the configuration: one invocation for a
/// LIST operation, or the delete plan for a DELETE operation.
pub enum RunPlan {
    List { list: CmdInvocation },
    Delete { plan: DeletePlan },
}

/// Build the LIST invocation for the pubkeys table.
pub fn process_list_pubkey(cfg: &TmsadmArgs) -> (r: CmdInvocation)
    ensures
        spec_invocation_ok(*cfg, TmsOperation::LIST, TmsResource::pubkey, r),
{
    make_sqlite3_cmd(cfg, sql_prefix(TmsOperation::LIST, TmsResource::pubkey))
}

/// Build the LIST invocation for the clients table.
pub fn process_list_client(cfg: &TmsadmArgs) -> (r: CmdInvocation)
    ensures
        spec_invocation_ok(*cfg, TmsOperation::LIST, TmsResource::client, r),
{
    make_sqlite3_cmd(cfg, sql_prefix(TmsOperation::LIST, TmsResource::client))
}

/// Build the LIST invocation for the delegations table.
pub fn process_list_delegation(cfg: &TmsadmArgs) -> (r: CmdInvocation)
    ensures
        spec_invocation_ok(*cfg, TmsOperation::LIST, TmsResource::delegation, r),
{
    make_sqlite3_cmd(cfg, sql_prefix(TmsOperation::LIST, TmsResource::delegation))
}

/// Plan the DELETE on the pubkeys table: with confirmation off the delete
/// runs directly and no LIST-then-prompt sequence ever happens; otherwise
/// the matching LIST is shown first and the delete waits on the prompt.
pub fn process_delete_pubkey(cfg: &TmsadmArgs) -> (r: DeletePlan)
    ensures
        cfg.confirm_delete_off ==> (r matches DeletePlan::Direct { delete }
            && spec_invocation_ok(*cfg, TmsOperation::DELETE, TmsResource::pubkey, delete)),
        !cfg.confirm_delete_off ==> (r matches DeletePlan::ConfirmThen { list, delete }
            && spec_invocation_ok(*cfg, TmsOperation::LIST, TmsResource::pubkey, list)
            && spec_invocation_ok(*cfg, TmsOperation::DELETE, TmsResource::pubkey, delete)),
{
    let delete = make_sqlite3_cmd(cfg, sql_prefix(TmsOperation::DELETE, TmsResource::pubkey));
    if cfg.confirm_delete_off {
        DeletePlan::Direct { delete }
    } else {
        let list = process_list_pubkey(cfg);
        DeletePlan::ConfirmThen { list, delete }
    }
}

/// Plan the DELETE on the clients table: with confirmation off the delete
/// runs directly and no LIST-then-prompt sequence ever happens; otherwise
/// the matching LIST is shown first and the delete waits on the prompt.
pub fn process_delete_client(cfg: &TmsadmArgs) -> (r: DeletePlan)
    ensures
        cfg.confirm_delete_off ==> (r matches DeletePlan::Direct { delete }
            && spec_invocation_ok(*cfg, TmsOperation::DELETE, TmsResource::client, delete)),
        !cfg.confirm_delete_off ==> (r matches DeletePlan::ConfirmThen { list, delete }
            && spec_invocation_ok(*cfg, TmsOperation::LIST, TmsResource::client, list)
            && spec_invocation_ok(*cfg, TmsOperation::DELETE, TmsResource::client, delete)),
{
    let delete = make_sqlite3_cmd(cfg, sql_prefix(TmsOperation::DELETE, TmsResource::client));
    if cfg.confirm_delete_off {
        DeletePlan::Direct { delete }
    } else {
        let list = process_list_client(cfg);
        DeletePlan::ConfirmThen { list, delete }
    }
}

/// Plan the DELETE on the delegations table: with confirmation off the
/// delete runs directly and no LIST-then-prompt sequence ever happens;
/// otherwise the matching LIST is shown first and the delete waits on the
/// prompt.
pub fn process_delete_delegation(cfg: &TmsadmArgs) -> (r: DeletePlan)
    ensures
        cfg.confirm_delete_off ==> (r matches DeletePlan::Direct { delete }
            && spec_invocation_ok(*cfg, TmsOperation::DELETE, TmsResource::delegation, delete)),
        !cfg.confirm_delete_off ==> (r matches DeletePlan::ConfirmThen { list, delete }
            && spec_invocation_ok(*cfg, TmsOperation::LIST, TmsResource::delegation, list)
            && spec_invocation_ok(*cfg, TmsOperation::DELETE, TmsResource::delegation, delete)),
{
    let delete = make_sqlite3_cmd(cfg, sql_prefix(TmsOperation::DELETE, TmsResource::delegation));
    if cfg.confirm_delete_off {
        DeletePlan::Direct { delete }
    } else {
        let list = process_list_delegation(cfg);
        DeletePlan::ConfirmThen { list, delete }
    }
}

/// Plan the whole run from the configuration: dispatch on the
/// (operation, resource) pair to the matching LIST invocation or DELETE
/// plan. This is the program's one routing decision.
pub fn process_command(cfg: &TmsadmArgs) -> (r: RunPlan)
    ensures
        cfg.operation == TmsOperation::LIST ==> (r matches RunPlan::List { list }
            && spec_invocation_ok(*cfg, TmsOperation::LIST, cfg.resource, list)),
        (cfg.operation == TmsOperation::DELETE && cfg.confirm_delete_off) ==> (r matches
            RunPlan::Delete { plan } && plan matches DeletePlan::Direct { delete }
            && spec_invocation_ok(*cfg, TmsOperation::DELETE, cfg.resource, delete)),
        (cfg.operation == TmsOperation::DELETE && !cfg.confirm_delete_off) ==> (r matches
            RunPlan::Delete { plan } && plan matches DeletePlan::ConfirmThen { list, delete }
            && spec_invocation_ok(*cfg, TmsOperation::LIST, cfg.resource, list)
            && spec_invocation_ok(*cfg, TmsOperation::DELETE, cfg.resource, delete)),
{
    match (cfg.operation, cfg.resource) {
        (TmsOperation::LIST, TmsResource::pubkey) => RunPlan::List {
            list: process_list_pubkey(cfg),
        },
        (TmsOperation::LIST, TmsResource::client) => RunPlan::List {
            list: process_list_client(cfg),
        },
        (TmsOperation::LIST, TmsResource::delegation) => RunPlan::List {
            list: process_list_delegation(cfg),
        },
        (TmsOperation::DELETE, TmsResource::pubkey) => RunPlan::Delete {
            plan: process_delete_pubkey(cfg),
        },
        (TmsOperation::DELETE, TmsResource::client) => RunPlan::Delete {
            plan: process_delete_client(cfg),
        },
        (TmsOperation::DELETE, TmsResource::delegation) => RunPlan::Delete {
            plan: process_delete_delegation(cfg),
        },
    }
}

} // verus!
