//! Audit exports: CSV escaping and rows, the export format choice, and the
//! record assembled for a principal's action.

use vstd::prelude::*;
use crate::auth::types::{AuthPrincipal, PrincipalType};
use crate::error::{ApiError, ErrorCode};
use crate::json::{Json, JsonV, deep_clone};
use crate::text::{append_chars, append_str, chars_of, has_char, lemma_first_index_of, own, split_on, str_eq, string_from_chars};

verus! {

/// A CSV field: quoted (inner quotes doubled) when it holds a comma, a
/// quote or a newline; otherwise as is.
pub open spec fn csv_field(s: Seq<char>) -> Seq<char> {
    if has_char(s, ',') || has_char(s, '"') || has_char(s, '\n') {
        seq!['"'] + crate::auth::gateway::escape_with(s, |c: char| if c == '"' { seq!['"', '"'] } else { seq![c] })
            + seq!['"']
    } else {
        s
    }
}

pub fn csv_escape(s: &str) -> (r: String)
    ensures
        r@ == csv_field(s@),
{
    let cs = chars_of(s);
    if !(crate::text::contains_char(cs.as_slice(), ',') || crate::text::contains_char(cs.as_slice(), '"')
        || crate::text::contains_char(cs.as_slice(), '\n')) {
        return own(s);
    }
    let mut out: Vec<char> = Vec::new();
    out.push('"');
    let mut i: usize = 0;
    while i < cs.len()
        invariant
            i <= cs@.len(),
            cs@ == s@,
            out@ == seq!['"'] + crate::auth::gateway::escape_with(
                cs@.take(i as int),
                |c: char| if c == '"' { seq!['"', '"'] } else { seq![c] },
            ),
        decreases cs@.len() - i,
    {
        let c = cs[i];
        let ghost before = out@;
        if c == '"' {
            out.push('"');
            out.push('"');
        } else {
            out.push(c);
        }
        assert(cs@.take(i + 1).drop_last() =~= cs@.take(i as int));
        assert(out@ =~= before + (if c == '"' { seq!['"', '"'] } else { seq![c] }));
        i = i + 1;
    }
    assert(cs@.take(cs@.len() as int) =~= cs@);
    out.push('"');
    string_from_chars(out.as_slice())
}

/// A field without separators, quotes or newlines is written as is.
pub proof fn lemma_plain_field_unchanged(s: Seq<char>)
    requires
        !has_char(s, ','),
        !has_char(s, '"'),
        !has_char(s, '\n'),
    ensures
        csv_field(s) == s,
{
}

#[derive(Debug)]
/// One audit event, with every column already in its text form.
pub struct AuditRow {
    pub id: String,
    pub occurred_at: String,
    pub principal_type: String,
    /// Empty for root.
    pub actor_user_id: String,
    pub action: String,
    pub resource_type: String,
    pub resource_id: String,
    pub result: String,
    pub error_code: String,
    pub request_id: String,
    pub command_id: String,
    pub ip: String,
}

/// The CSV header line.
pub open spec fn csv_header() -> Seq<char> {
    "id,occurred_at,principal_type,actor_user_id,action,resource_type,resource_id,result,error_code,request_id,command_id,ip\n"@
}

/// One CSV line: identifiers and the result as is, free text escaped.
pub open spec fn csv_line(r: AuditRow) -> Seq<char> {
    r.id@ + ","@ + r.occurred_at@ + ","@ + r.principal_type@ + ","@ + r.actor_user_id@ + ","@ + csv_field(r.action@)
        + ","@ + csv_field(r.resource_type@) + ","@ + csv_field(r.resource_id@) + ","@ + r.result@ + ","@
        + csv_field(r.error_code@) + ","@ + csv_field(r.request_id@) + ","@ + csv_field(r.command_id@) + ","@
        + csv_field(r.ip@) + "\n"@
}

pub open spec fn csv_lines(rows: Seq<AuditRow>) -> Seq<char>
    decreases rows.len(),
{
    if rows.len() == 0 {
        Seq::empty()
    } else {
        csv_lines(rows.drop_last()) + csv_line(rows.last())
    }
}

/// A CSV field that needs no quoting: no comma, quote or newline.
pub open spec fn plain_field(s: Seq<char>) -> bool {
    !has_char(s, ',') && !has_char(s, '"') && !has_char(s, '\n')
}

proof fn lemma_split_no_comma(a: Seq<char>)
    requires
        !has_char(a, ','),
    ensures
        split_on(a, ',') == seq![a],
{
    lemma_first_index_of(a, ',', a.len() as int);
}

proof fn lemma_split_after_field(a: Seq<char>, rest: Seq<char>)
    requires
        !has_char(a, ','),
    ensures
        split_on(a + seq![','] + rest, ',') == seq![a] + split_on(rest, ','),
{
    let t = a + seq![','] + rest;
    assert forall|k: int| 0 <= k < a.len() implies t[k] != ',' by {
        assert(t[k] == a[k]);
    }
    lemma_first_index_of(t, ',', a.len() as int);
    assert(t.take(a.len() as int) =~= a);
    assert(t.skip(a.len() as int + 1) =~= rest);
}

/// The CSV header names the columns, in this order: id, occurred_at,
/// principal_type, actor_user_id, action, resource_type, resource_id,
/// result, error_code, request_id, command_id, ip; and a row's line, for
/// fields that need no quoting, holds those columns of the row in the same
/// order, one per comma-separated field, ending in a newline.
pub proof fn lemma_csv_line_follows_header(r: AuditRow)
    requires
        plain_field(r.id@),
        plain_field(r.occurred_at@),
        plain_field(r.principal_type@),
        plain_field(r.actor_user_id@),
        plain_field(r.action@),
        plain_field(r.resource_type@),
        plain_field(r.resource_id@),
        plain_field(r.result@),
        plain_field(r.error_code@),
        plain_field(r.request_id@),
        plain_field(r.command_id@),
        plain_field(r.ip@),
    ensures
        csv_header().last() == '\n',
        split_on(csv_header().drop_last(), ',') == seq![
            "id"@,
            "occurred_at"@,
            "principal_type"@,
            "actor_user_id"@,
            "action"@,
            "resource_type"@,
            "resource_id"@,
            "result"@,
            "error_code"@,
            "request_id"@,
            "command_id"@,
            "ip"@,
        ],
        csv_line(r).last() == '\n',
        split_on(csv_line(r).drop_last(), ',') == seq![
            r.id@,
            r.occurred_at@,
            r.principal_type@,
            r.actor_user_id@,
            r.action@,
            r.resource_type@,
            r.resource_id@,
            r.result@,
            r.error_code@,
            r.request_id@,
            r.command_id@,
            r.ip@,
        ],
{
    lemma_csv_line_split(r);
    lemma_csv_header_split();
}

proof fn lemma_csv_line_split(r: AuditRow)
    requires
        plain_field(r.id@),
        plain_field(r.occurred_at@),
        plain_field(r.principal_type@),
        plain_field(r.actor_user_id@),
        plain_field(r.action@),
        plain_field(r.resource_type@),
        plain_field(r.resource_id@),
        plain_field(r.result@),
        plain_field(r.error_code@),
        plain_field(r.request_id@),
        plain_field(r.command_id@),
        plain_field(r.ip@),
    ensures
        csv_line(r).last() == '\n',
        split_on(csv_line(r).drop_last(), ',') == seq![
            r.id@,
            r.occurred_at@,
            r.principal_type@,
            r.actor_user_id@,
            r.action@,
            r.resource_type@,
            r.resource_id@,
            r.result@,
            r.error_code@,
            r.request_id@,
            r.command_id@,
            r.ip@,
        ],
{
    let c = seq![','];
    reveal_strlit(",");
    reveal_strlit("\n");
    lemma_plain_field_unchanged(r.action@);
    lemma_plain_field_unchanged(r.resource_type@);
    lemma_plain_field_unchanged(r.resource_id@);
    lemma_plain_field_unchanged(r.error_code@);
    lemma_plain_field_unchanged(r.request_id@);
    lemma_plain_field_unchanged(r.command_id@);
    lemma_plain_field_unchanged(r.ip@);
    let t11 = r.ip@;
    let t10 = r.command_id@ + c + t11;
    let t9 = r.request_id@ + c + t10;
    let t8 = r.error_code@ + c + t9;
    let t7 = r.result@ + c + t8;
    let t6 = r.resource_id@ + c + t7;
    let t5 = r.resource_type@ + c + t6;
    let t4 = r.action@ + c + t5;
    let t3 = r.actor_user_id@ + c + t4;
    let t2 = r.principal_type@ + c + t3;
    let t1 = r.occurred_at@ + c + t2;
    let t0 = r.id@ + c + t1;
    assert(csv_line(r) =~= t0 + seq!['\n']);
    assert((t0 + seq!['\n']).drop_last() =~= t0);
    lemma_split_no_comma(t11);
    lemma_split_after_field(r.command_id@, t11);
    lemma_split_after_field(r.request_id@, t10);
    lemma_split_after_field(r.error_code@, t9);
    lemma_split_after_field(r.result@, t8);
    lemma_split_after_field(r.resource_id@, t7);
    lemma_split_after_field(r.resource_type@, t6);
    lemma_split_after_field(r.action@, t5);
    lemma_split_after_field(r.actor_user_id@, t4);
    lemma_split_after_field(r.principal_type@, t3);
    lemma_split_after_field(r.occurred_at@, t2);
    lemma_split_after_field(r.id@, t1);
    assert(split_on(t0, ',') =~= seq![
        r.id@,
        r.occurred_at@,
        r.principal_type@,
        r.actor_user_id@,
        r.action@,
        r.resource_type@,
        r.resource_id@,
        r.result@,
        r.error_code@,
        r.request_id@,
        r.command_id@,
        r.ip@,
    ]);
}

proof fn lemma_csv_header_split()
    ensures
        csv_header().last() == '\n',
        split_on(csv_header().drop_last(), ',') == seq![
            "id"@,
            "occurred_at"@,
            "principal_type"@,
            "actor_user_id"@,
            "action"@,
            "resource_type"@,
            "resource_id"@,
            "result"@,
            "error_code"@,
            "request_id"@,
            "command_id"@,
            "ip"@,
        ],
{
    reveal_strlit("id,occurred_at,principal_type,actor_user_id,action,resource_type,resource_id,result,error_code,request_id,command_id,ip\n");
    reveal_strlit("id");
    reveal_strlit("occurred_at");
    reveal_strlit("principal_type");
    reveal_strlit("actor_user_id");
    reveal_strlit("action");
    reveal_strlit("resource_type");
    reveal_strlit("resource_id");
    reveal_strlit("result");
    reveal_strlit("error_code");
    reveal_strlit("request_id");
    reveal_strlit("command_id");
    reveal_strlit("ip");
    let h = seq![
        "id"@,
        "occurred_at"@,
        "principal_type"@,
        "actor_user_id"@,
        "action"@,
        "resource_type"@,
        "resource_id"@,
        "result"@,
        "error_code"@,
        "request_id"@,
        "command_id"@,
        "ip"@,
    ];
    assert forall|i: int| 0 <= i < h.len() implies !has_char(#[trigger] h[i], ',') by {
        assert forall|k: int| 0 <= k < h[i].len() implies h[i][k] != ',' by {}
    }
    let c = seq![','];
    let t11 = h[11];
    let t10 = h[10] + c + t11;
    let t9 = h[9] + c + t10;
    let t8 = h[8] + c + t9;
    let t7 = h[7] + c + t8;
    let t6 = h[6] + c + t7;
    let t5 = h[5] + c + t6;
    let t4 = h[4] + c + t5;
    let t3 = h[3] + c + t4;
    let t2 = h[2] + c + t3;
    let t1 = h[1] + c + t2;
    let t0 = h[0] + c + t1;
    assert(csv_header().drop_last() =~= t0);
    lemma_split_no_comma(t11);
    lemma_split_after_field(h[10], t11);
    lemma_split_after_field(h[9], t10);
    lemma_split_after_field(h[8], t9);
    lemma_split_after_field(h[7], t8);
    lemma_split_after_field(h[6], t7);
    lemma_split_after_field(h[5], t6);
    lemma_split_after_field(h[4], t5);
    lemma_split_after_field(h[3], t4);
    lemma_split_after_field(h[2], t3);
    lemma_split_after_field(h[1], t2);
    lemma_split_after_field(h[0], t1);
    assert(split_on(t0, ',') =~= h);
}

fn push_escaped(out: &mut String, s: &str)
    ensures
        final(out)@ == old(out)@ + csv_field(s@),
{
    let e = csv_escape(s);
    append_str(out, e.as_str());
}

/// One row's CSV line.
#[verifier::rlimit(30)]
pub fn csv_row(r: &AuditRow) -> (line: String)
    ensures
        line@ == csv_line(*r),
{
    let mut s = own(r.id.as_str());
    append_str(&mut s, ",");
    append_str(&mut s, r.occurred_at.as_str());
    append_str(&mut s, ",");
    append_str(&mut s, r.principal_type.as_str());
    append_str(&mut s, ",");
    append_str(&mut s, r.actor_user_id.as_str());
    append_str(&mut s, ",");
    push_escaped(&mut s, r.action.as_str());
    append_str(&mut s, ",");
    push_escaped(&mut s, r.resource_type.as_str());
    append_str(&mut s, ",");
    push_escaped(&mut s, r.resource_id.as_str());
    append_str(&mut s, ",");
    append_str(&mut s, r.result.as_str());
    append_str(&mut s, ",");
    push_escaped(&mut s, r.error_code.as_str());
    append_str(&mut s, ",");
    push_escaped(&mut s, r.request_id.as_str());
    append_str(&mut s, ",");
    push_escaped(&mut s, r.command_id.as_str());
    append_str(&mut s, ",");
    push_escaped(&mut s, r.ip.as_str());
    append_str(&mut s, "\n");
    assert(s@ =~= csv_line(*r));
    s
}

/// The CSV export of audit rows (header line, then one line per row).
pub fn audit_csv(rows: &Vec<AuditRow>) -> (csv: String)
    ensures
        csv@ == csv_header() + csv_lines(rows@),
{
    let mut csv = own(
        "id,occurred_at,principal_type,actor_user_id,action,resource_type,resource_id,result,error_code,request_id,command_id,ip\n",
    );
    let mut i: usize = 0;
    while i < rows.len()
        invariant
            i <= rows@.len(),
            csv@ == csv_header() + csv_lines(rows@.take(i as int)),
        decreases rows@.len() - i,
    {
        let ghost before = csv@;
        let line = csv_row(&rows[i]);
        append_str(&mut csv, line.as_str());
        assert(csv@ =~= before + csv_line(rows@[i as int]));
        assert(rows@.take(i + 1).drop_last() =~= rows@.take(i as int));
        i = i + 1;
    }
    assert(rows@.take(rows@.len() as int) =~= rows@);
    csv
}

/// Export formats.
#[derive(Clone, Copy, Debug, PartialEq, Eq, Structural)]
pub enum ExportFormat {
    Csv,
    Json,
}

/// The export format asked for: `csv`, or `json` (also when absent).
pub fn export_format(format: Option<&str>) -> (r: Result<ExportFormat, ApiError>)
    ensures
        match format {
            None => r == Ok::<ExportFormat, ApiError>(ExportFormat::Json),
            Some(f) => if f@ == "csv"@ {
                r == Ok::<ExportFormat, ApiError>(ExportFormat::Csv)
            } else if f@ == "json"@ {
                r == Ok::<ExportFormat, ApiError>(ExportFormat::Json)
            } else {
                r matches Err(e) && e.code == ErrorCode::ValidationFailed && e.message@
                    == "format must be csv or json, got "@ + f@
            },
        },
{
    match format {
        None => Ok(ExportFormat::Json),
        Some(f) => {
            if str_eq(f, "csv") {
                Ok(ExportFormat::Csv)
            } else if str_eq(f, "json") {
                Ok(ExportFormat::Json)
            } else {
                let mut m = own("format must be csv or json, got ");
                append_str(&mut m, f);
                Err(ApiError::validation(m.as_str()))
            }
        },
    }
}

/// The permission an export needs.
pub fn export_permission(format: ExportFormat) -> (p: &'static str)
    ensures
        p@ == (if format == ExportFormat::Csv { "audit:export"@ } else { "audit:view"@ }),
{
    match format {
        ExportFormat::Csv => "audit:export",
        ExportFormat::Json => "audit:view",
    }
}

#[derive(Debug)]
/// A new audit event (before the store assigns its id and time).
pub struct NewAuditEvent {
    pub principal_type: String,
    pub actor_user_id: Option<u128>,
    pub actor_session_id: Option<u128>,
    pub action: String,
    pub resource_type: String,
    pub resource_id: String,
    pub parameters_redacted: Json,
    pub result: String,
    pub error_code: String,
    pub request_id: String,
    pub command_id: String,
    pub ip: String,
    pub user_agent: String,
}

/// The redacted audit event of a principal's action; root actions carry no
/// user id.
pub fn principal_event(
    auth: &AuthPrincipal,
    action: &str,
    resource_type: &str,
    resource_id: &str,
    parameters_redacted: &Json,
    result: &str,
    error_code: &str,
    command_id: &str,
    ip: &str,
    user_agent: &str,
) -> (e: NewAuditEvent)
    ensures
        e.principal_type@ == auth.principal_type.text(),
        e.actor_user_id == (if auth.principal_type == PrincipalType::Root {
            None
        } else {
            Some(auth.sub)
        }),
        e.actor_session_id == Some(auth.sid),
        e.action@ == action@,
        e.resource_type@ == resource_type@,
        e.resource_id@ == resource_id@,
        e.parameters_redacted@ == parameters_redacted@,
        e.result@ == result@,
        e.error_code@ == error_code@,
        e.request_id@ == auth.request_id@,
        e.command_id@ == command_id@,
        e.ip@ == ip@,
        e.user_agent@ == user_agent@,
{
    NewAuditEvent {
        principal_type: own(auth.principal_type.as_str()),
        actor_user_id: if auth.is_root() {
            None
        } else {
            Some(auth.sub)
        },
        actor_session_id: Some(auth.sid),
        action: own(action),
        resource_type: own(resource_type),
        resource_id: own(resource_id),
        parameters_redacted: deep_clone(parameters_redacted),
        result: own(result),
        error_code: own(error_code),
        request_id: own(auth.request_id.as_str()),
        command_id: own(command_id),
        ip: own(ip),
        user_agent: own(user_agent),
    }
}

} // verus!
