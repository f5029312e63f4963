//! The PMP config form descriptor: a versioned, flat list of the editable
//! `server_config.yml` fields, and its grouping for the panel's forms.
//! The server never changes PMP's schema; it edits the YAML through these
//! descriptors, snapshots it and reloads PMP.

use vstd::prelude::*;
use crate::error::{ApiError, ErrorCode, params_doc, visible_message};
use crate::text::str_eq;

verus! {

/// One PMP config field as the panel renders it: wire type, widget, risk,
/// permission, reload semantics and sensitivity.
#[derive(Clone, Copy, Debug)]
pub struct ConfigFieldDescriptor {
    pub path: &'static str,
    pub label: &'static str,
    pub description: &'static str,
    /// Wire type: `string | number | boolean`.
    pub value_type: &'static str,
    /// `switch | text | number | select`.
    pub widget: &'static str,
    /// `low | medium | high | critical`.
    pub risk: &'static str,
    pub permission: &'static str,
    /// `hot | restart | rebuild`.
    pub reload_semantics: &'static str,
    pub sensitive: bool,
    pub order: u32,
}

/// Mathematical model of a field descriptor.
pub struct FieldSpec {
    pub path: Seq<char>,
    pub label: Seq<char>,
    pub description: Seq<char>,
    pub value_type: Seq<char>,
    pub widget: Seq<char>,
    pub risk: Seq<char>,
    pub permission: Seq<char>,
    pub reload_semantics: Seq<char>,
    pub sensitive: bool,
    pub order: u32,
}

impl View for ConfigFieldDescriptor {
    type V = FieldSpec;

    open spec fn view(&self) -> FieldSpec {
        FieldSpec {
            path: self.path@,
            label: self.label@,
            description: self.description@,
            value_type: self.value_type@,
            widget: self.widget@,
            risk: self.risk@,
            permission: self.permission@,
            reload_semantics: self.reload_semantics@,
            sensitive: self.sensitive,
            order: self.order,
        }
    }
}

#[derive(Debug)]
/// A named group of related fields.
pub struct ConfigFieldGroup {
    pub key: &'static str,
    pub label: &'static str,
    pub fields: Vec<ConfigFieldDescriptor>,
}

/// Mathematical model of a group.
pub struct GroupSpec {
    pub key: Seq<char>,
    pub label: Seq<char>,
    pub fields: Seq<FieldSpec>,
}

/// The models of a sequence of descriptors.
pub open spec fn fields_view(s: Seq<ConfigFieldDescriptor>) -> Seq<FieldSpec> {
    Seq::new(s.len(), |i: int| s[i]@)
}

/// The models of a sequence of groups.
pub open spec fn groups_view(s: Seq<ConfigFieldGroup>) -> Seq<GroupSpec> {
    Seq::new(s.len(), |i: int| GroupSpec { key: s[i].key@, label: s[i].label@, fields: fields_view(s[i].fields@) })
}

/// The wire type a widget edits: switches are booleans, number inputs
/// numbers, everything else a string.
pub open spec fn widget_type(widget: Seq<char>) -> Seq<char> {
    if widget == "switch"@ {
        "boolean"@
    } else if widget == "number"@ {
        "number"@
    } else {
        "string"@
    }
}

/// The permission a field needs: hot-reloadable fields `config:reload`,
/// the others `config:rollback`.
pub open spec fn reload_permission(reload: Seq<char>) -> Seq<char> {
    if reload == "hot"@ {
        "config:reload"@
    } else {
        "config:rollback"@
    }
}

pub open spec fn spec_field(
    path: Seq<char>,
    label: Seq<char>,
    description: Seq<char>,
    widget: Seq<char>,
    risk: Seq<char>,
    reload: Seq<char>,
    sensitive: bool,
    order: u32,
) -> FieldSpec {
    FieldSpec {
        path,
        label,
        description,
        value_type: widget_type(widget),
        widget,
        risk,
        permission: reload_permission(reload),
        reload_semantics: reload,
        sensitive,
        order,
    }
}

/// The PMP `server_config.yml` fields, in descriptor order.
pub open spec fn pmp_fields() -> Seq<FieldSpec> {
    seq![
        spec_field("server_name"@, "服务器名称"@, "服务器显示名称"@, "text"@, "low"@, "hot"@, false, 1),
        spec_field("welcome"@, "欢迎语"@, "加入房间时的欢迎消息"@, "text"@, "low"@, "hot"@, false, 2),
        spec_field("chat_enabled"@, "启用聊天"@, "是否允许房间聊天"@, "switch"@, "low"@, "hot"@, false, 10),
        spec_field("chat_history_limit"@, "聊天历史条数"@, "房间聊天历史上限"@, "number"@, "low"@, "hot"@, false, 11),
        spec_field("port"@, "TCP 端口"@, "多人游戏 TCP 端口"@, "number"@, "high"@, "restart"@, false, 20),
        spec_field("http_port"@, "HTTP 端口"@, "内部 HTTP/SSE/WS 端口"@, "number"@, "high"@, "restart"@, false, 21),
        spec_field("max_rooms"@, "最大房间数"@, "同时存在的房间上限"@, "number"@, "medium"@, "restart"@, false, 30),
        spec_field("max_users_per_room"@, "每房最大人数"@, "每个房间玩家上限"@, "number"@, "medium"@, "restart"@, false, 31),
        spec_field("room_creation_enabled"@, "允许建房"@, "是否允许创建房间"@, "switch"@, "medium"@, "hot"@, false, 32),
        spec_field("ready_countdown_secs"@, "开始倒计时"@, "准备后开始倒计时秒数"@, "number"@, "low"@, "hot"@, false, 33),
        spec_field("max_sessions"@, "最大会话数"@, "服务器会话上限"@, "number"@, "high"@, "restart"@, false, 40),
        spec_field("graceful_shutdown_timeout_secs"@, "优雅关闭超时"@, "关闭超时秒数"@, "number"@, "low"@, "restart"@, false, 41),
        spec_field("log_retention_days"@, "日志保留天数"@, "日志保留周期"@, "number"@, "low"@, "restart"@, false, 50),
        spec_field("phira_api_endpoint"@, "Phira API 地址"@, "PMP 使用的 Phira API 地址"@, "text"@, "high"@, "restart"@, false, 60),
        spec_field("database_url"@, "数据库连接串"@, "PMP PostgreSQL 连接串"@, "text"@, "critical"@, "restart"@, true, 70),
        spec_field("admin_phira_ids"@, "管理员 Phira ID"@, "PMP 管理员列表"@, "text"@, "high"@, "hot"@, false, 80),
        spec_field("filtered_player_ids"@, "过滤玩家"@, "被过滤的玩家 ID 列表"@, "text"@, "medium"@, "hot"@, false, 90),
        spec_field("openuds.enabled"@, "OpenUDS 启用"@, "是否启用 OpenUDS 管理接口"@, "switch"@, "high"@, "restart"@, false, 100),
        spec_field("openuds.socket_path"@, "OpenUDS 套接字路径"@, "Unix Domain Socket 路径"@, "text"@, "high"@, "restart"@, false, 101),
        spec_field("openuds.auth_token"@, "OpenUDS 令牌"@, "token 认证令牌（留空则按 socket 文件权限直接放行）"@, "text"@, "critical"@, "restart"@, true, 102),
    ]
}

#[allow(clippy::too_many_arguments)]
fn field(
    path: &'static str,
    label: &'static str,
    description: &'static str,
    widget: &'static str,
    risk: &'static str,
    reload: &'static str,
    sensitive: bool,
    order: u32,
) -> (f: ConfigFieldDescriptor)
    ensures
        f@ == spec_field(path@, label@, description@, widget@, risk@, reload@, sensitive, order),
{
    let value_type = if str_eq(widget, "switch") {
        "boolean"
    } else if str_eq(widget, "number") {
        "number"
    } else {
        "string"
    };
    let permission = if str_eq(reload, "hot") {
        "config:reload"
    } else {
        "config:rollback"
    };
    ConfigFieldDescriptor {
        path,
        label,
        description,
        value_type,
        widget,
        risk,
        permission,
        reload_semantics: reload,
        sensitive,
        order,
    }
}

/// The versioned flat descriptor of PMP's `server_config.yml`.
pub fn pmp_config_descriptor() -> (v: Vec<ConfigFieldDescriptor>)
    ensures
        fields_view(v@) == pmp_fields(),
{
    let mut v: Vec<ConfigFieldDescriptor> = Vec::new();
    v.push(field("server_name", "服务器名称", "服务器显示名称", "text", "low", "hot", false, 1));
    v.push(field("welcome", "欢迎语", "加入房间时的欢迎消息", "text", "low", "hot", false, 2));
    v.push(field("chat_enabled", "启用聊天", "是否允许房间聊天", "switch", "low", "hot", false, 10));
    v.push(field("chat_history_limit", "聊天历史条数", "房间聊天历史上限", "number", "low", "hot", false, 11));
    v.push(field("port", "TCP 端口", "多人游戏 TCP 端口", "number", "high", "restart", false, 20));
    v.push(field("http_port", "HTTP 端口", "内部 HTTP/SSE/WS 端口", "number", "high", "restart", false, 21));
    v.push(field("max_rooms", "最大房间数", "同时存在的房间上限", "number", "medium", "restart", false, 30));
    v.push(field("max_users_per_room", "每房最大人数", "每个房间玩家上限", "number", "medium", "restart", false, 31));
    v.push(field("room_creation_enabled", "允许建房", "是否允许创建房间", "switch", "medium", "hot", false, 32));
    v.push(field("ready_countdown_secs", "开始倒计时", "准备后开始倒计时秒数", "number", "low", "hot", false, 33));
    v.push(field("max_sessions", "最大会话数", "服务器会话上限", "number", "high", "restart", false, 40));
    v.push(field("graceful_shutdown_timeout_secs", "优雅关闭超时", "关闭超时秒数", "number", "low", "restart", false, 41));
    v.push(field("log_retention_days", "日志保留天数", "日志保留周期", "number", "low", "restart", false, 50));
    v.push(field("phira_api_endpoint", "Phira API 地址", "PMP 使用的 Phira API 地址", "text", "high", "restart", false, 60));
    v.push(field("database_url", "数据库连接串", "PMP PostgreSQL 连接串", "text", "critical", "restart", true, 70));
    v.push(field("admin_phira_ids", "管理员 Phira ID", "PMP 管理员列表", "text", "high", "hot", false, 80));
    v.push(field("filtered_player_ids", "过滤玩家", "被过滤的玩家 ID 列表", "text", "medium", "hot", false, 90));
    v.push(field("openuds.enabled", "OpenUDS 启用", "是否启用 OpenUDS 管理接口", "switch", "high", "restart", false, 100));
    v.push(field("openuds.socket_path", "OpenUDS 套接字路径", "Unix Domain Socket 路径", "text", "high", "restart", false, 101));
    v.push(field("openuds.auth_token", "OpenUDS 令牌", "token 认证令牌（留空则按 socket 文件权限直接放行）", "text", "critical", "restart", true, 102));
    assert(fields_view(v@) =~= pmp_fields());
    v
}

// ── grouping ──────────────────────────────────────────────────────────

/// The group a field path belongs to.
pub open spec fn group_key(path: Seq<char>) -> Seq<char> {
    if path == "server_name"@ || path == "welcome"@ || path == "graceful_shutdown_timeout_secs"@ {
        "server"@
    } else if path == "chat_enabled"@ || path == "chat_history_limit"@ {
        "chat"@
    } else if path == "port"@ || path == "http_port"@ {
        "network"@
    } else if path == "max_rooms"@ || path == "max_users_per_room"@ || path == "room_creation_enabled"@
        || path == "ready_countdown_secs"@ {
        "room"@
    } else if path == "max_sessions"@ {
        "limit"@
    } else if path == "log_retention_days"@ {
        "log"@
    } else if path == "phira_api_endpoint"@ {
        "phira"@
    } else if path == "database_url"@ {
        "database"@
    } else if path == "admin_phira_ids"@ {
        "admin"@
    } else if path == "filtered_player_ids"@ {
        "moderation"@
    } else {
        "openuds"@
    }
}

/// The display label of a group key.
pub open spec fn group_title(key: Seq<char>) -> Seq<char> {
    if key == "server"@ {
        "服务器"@
    } else if key == "chat"@ {
        "聊天"@
    } else if key == "network"@ {
        "网络"@
    } else if key == "room"@ {
        "房间"@
    } else if key == "limit"@ {
        "限制"@
    } else if key == "log"@ {
        "日志"@
    } else if key == "phira"@ {
        "Phira"@
    } else if key == "database"@ {
        "数据库"@
    } else if key == "admin"@ {
        "管理员"@
    } else if key == "moderation"@ {
        "审核"@
    } else {
        "OpenUDS"@
    }
}

fn group_key_of(f: &ConfigFieldDescriptor) -> (k: &'static str)
    ensures
        k@ == group_key(f.path@),
{
    let p = f.path;
    if str_eq(p, "server_name") || str_eq(p, "welcome") || str_eq(p, "graceful_shutdown_timeout_secs") {
        "server"
    } else if str_eq(p, "chat_enabled") || str_eq(p, "chat_history_limit") {
        "chat"
    } else if str_eq(p, "port") || str_eq(p, "http_port") {
        "network"
    } else if str_eq(p, "max_rooms") || str_eq(p, "max_users_per_room") || str_eq(p, "room_creation_enabled")
        || str_eq(p, "ready_countdown_secs") {
        "room"
    } else if str_eq(p, "max_sessions") {
        "limit"
    } else if str_eq(p, "log_retention_days") {
        "log"
    } else if str_eq(p, "phira_api_endpoint") {
        "phira"
    } else if str_eq(p, "database_url") {
        "database"
    } else if str_eq(p, "admin_phira_ids") {
        "admin"
    } else if str_eq(p, "filtered_player_ids") {
        "moderation"
    } else {
        "openuds"
    }
}

fn group_label(key: &str) -> (l: &'static str)
    ensures
        l@ == group_title(key@),
{
    if str_eq(key, "server") {
        "服务器"
    } else if str_eq(key, "chat") {
        "聊天"
    } else if str_eq(key, "network") {
        "网络"
    } else if str_eq(key, "room") {
        "房间"
    } else if str_eq(key, "limit") {
        "限制"
    } else if str_eq(key, "log") {
        "日志"
    } else if str_eq(key, "phira") {
        "Phira"
    } else if str_eq(key, "database") {
        "数据库"
    } else if str_eq(key, "admin") {
        "管理员"
    } else if str_eq(key, "moderation") {
        "审核"
    } else {
        "OpenUDS"
    }
}

/// The position of the group keyed `key`, if there is one.
pub open spec fn group_index(gs: Seq<GroupSpec>, key: Seq<char>) -> Option<int>
    decreases gs.len(),
{
    if gs.len() == 0 {
        None
    } else if gs.last().key == key {
        Some(gs.len() - 1)
    } else {
        group_index(gs.drop_last(), key)
    }
}

/// Fields grouped by key, groups in order of first appearance, fields of a
/// group in their original order.
pub open spec fn groups_of(fs: Seq<FieldSpec>) -> Seq<GroupSpec>
    decreases fs.len(),
{
    if fs.len() == 0 {
        Seq::empty()
    } else {
        let gs = groups_of(fs.drop_last());
        let f = fs.last();
        let k = group_key(f.path);
        match group_index(gs, k) {
            Some(i) => gs.update(i, GroupSpec { key: gs[i].key, label: gs[i].label, fields: gs[i].fields.push(f) }),
            None => gs.push(GroupSpec { key: k, label: group_title(k), fields: seq![f] }),
        }
    }
}

/// Fields ascend by `order`.
pub open spec fn ascending(fs: Seq<FieldSpec>) -> bool {
    forall|i: int, j: int| 0 <= i < j < fs.len() ==> fs[i].order <= fs[j].order
}

proof fn lemma_group_index(gs: Seq<GroupSpec>, key: Seq<char>)
    ensures
        group_index(gs, key) matches Some(i) ==> 0 <= i < gs.len() && gs[i].key == key,
        group_index(gs, key) is None ==> forall|i: int| 0 <= i < gs.len() ==> (#[trigger] gs[i]).key != key,
    decreases gs.len(),
{
    if gs.len() > 0 {
        lemma_group_index(gs.drop_last(), key);
        if gs.last().key != key {
            if group_index(gs, key) is None {
                assert forall|i: int| 0 <= i < gs.len() implies (#[trigger] gs[i]).key != key by {
                    if i < gs.len() - 1 {
                        assert(gs.drop_last()[i] == gs[i]);
                    }
                }
            }
            if group_index(gs, key) is Some {
                let i = group_index(gs, key)->0;
                assert(gs.drop_last()[i] == gs[i]);
            }
        }
    }
}

/// Every grouped field comes from the input, and with ascending input
/// every group ascends.
proof fn lemma_groups_ascending(fs: Seq<FieldSpec>)
    ensures
        forall|g: int, j: int| 0 <= g < groups_of(fs).len() && 0 <= j < groups_of(fs)[g].fields.len()
            ==> fs.contains(#[trigger] groups_of(fs)[g].fields[j]),
        ascending(fs) ==> forall|g: int| 0 <= g < groups_of(fs).len() ==> ascending(#[trigger] groups_of(fs)[g].fields),
    decreases fs.len(),
{
    if fs.len() > 0 {
        let pre = fs.drop_last();
        lemma_groups_ascending(pre);
        let gs = groups_of(pre);
        let f = fs.last();
        let k = group_key(f.path);
        lemma_group_index(gs, k);
        assert forall|x: FieldSpec| pre.contains(x) implies fs.contains(x) by {
            let i = choose|i: int| 0 <= i < pre.len() && pre[i] == x;
            assert(fs[i] == x);
        }
        assert(fs.contains(f)) by {
            assert(fs[fs.len() - 1] == f);
        }
        if ascending(fs) {
            assert(ascending(pre)) by {
                assert forall|i: int, j: int| 0 <= i < j < pre.len() implies pre[i].order <= pre[j].order by {
                    assert(pre[i] == fs[i] && pre[j] == fs[j]);
                }
            }
            assert forall|x: FieldSpec| pre.contains(x) implies x.order <= f.order by {
                let i = choose|i: int| 0 <= i < pre.len() && pre[i] == x;
                assert(fs[i] == x);
            }
        }
        match group_index(gs, k) {
            Some(i) => {
                let ng = gs.update(i, GroupSpec { key: gs[i].key, label: gs[i].label, fields: gs[i].fields.push(f) });
                assert(groups_of(fs) == ng);
                assert forall|g: int, j: int| 0 <= g < ng.len() && 0 <= j < ng[g].fields.len()
                    implies fs.contains(#[trigger] ng[g].fields[j]) by {
                    if g == i && j == gs[i].fields.len() {
                    } else {
                        assert(pre.contains(gs[g].fields[j]));
                    }
                }
                if ascending(fs) {
                    assert forall|g: int| 0 <= g < ng.len() implies ascending(#[trigger] ng[g].fields) by {
                        if g == i {
                            let a = ng[g].fields;
                            assert forall|p: int, q: int| 0 <= p < q < a.len() implies a[p].order <= a[q].order by {
                                if q == a.len() - 1 {
                                    assert(pre.contains(gs[i].fields[p]));
                                } else {
                                    assert(ascending(gs[i].fields));
                                }
                            }
                        } else {
                            assert(ng[g] == gs[g]);
                        }
                    }
                }
            },
            None => {
                let ng = gs.push(GroupSpec { key: k, label: group_title(k), fields: seq![f] });
                assert(groups_of(fs) == ng);
                assert forall|g: int, j: int| 0 <= g < ng.len() && 0 <= j < ng[g].fields.len()
                    implies fs.contains(#[trigger] ng[g].fields[j]) by {
                    if g < gs.len() {
                        assert(ng[g] == gs[g]);
                        assert(pre.contains(gs[g].fields[j]));
                    }
                }
                if ascending(fs) {
                    assert forall|g: int| 0 <= g < ng.len() implies ascending(#[trigger] ng[g].fields) by {
                        if g < gs.len() {
                            assert(ng[g] == gs[g]);
                        }
                    }
                }
            },
        }
    }
}

/// Position of the group keyed `key` in `groups`.
fn find_group(groups: &Vec<ConfigFieldGroup>, key: &str) -> (r: Option<usize>)
    ensures
        r matches Some(i) ==> group_index(groups_view(groups@), key@) == Some(i as int),
        r is None ==> group_index(groups_view(groups@), key@) is None,
{
    let ghost gv = groups_view(groups@);
    let mut i: usize = groups.len();
    assert(gv.take(i as int) =~= gv);
    while i > 0
        invariant
            i <= groups@.len(),
            gv == groups_view(groups@),
            group_index(gv, key@) == group_index(gv.take(i as int), key@),
        decreases i,
    {
        let ghost t = gv.take(i as int);
        assert(t.last() == gv[i - 1]);
        if str_eq(groups[i - 1].key, key) {
            return Some(i - 1);
        }
        assert(t.drop_last() =~= gv.take(i - 1));
        i = i - 1;
    }
    assert(gv.take(0) =~= Seq::<GroupSpec>::empty());
    None
}

/// Group `fields` by key, in order of first appearance.
fn group_in_order(fields: &Vec<ConfigFieldDescriptor>) -> (r: Vec<ConfigFieldGroup>)
    ensures
        groups_view(r@) == groups_of(fields_view(fields@)),
{
    let ghost fv = fields_view(fields@);
    let mut groups: Vec<ConfigFieldGroup> = Vec::new();
    let mut i: usize = 0;
    while i < fields.len()
        invariant
            i <= fields@.len(),
            fv == fields_view(fields@),
            groups_view(groups@) == groups_of(fv.take(i as int)),
        decreases fields@.len() - i,
    {
        let f = fields[i];
        let ghost pre = fv.take(i as int);
        assert(fv.take(i + 1).drop_last() =~= pre);
        assert(fv.take(i + 1).last() == f@);
        let key = group_key_of(&f);
        let ghost gs = groups_view(groups@);
        proof {
            lemma_group_index(gs, key@);
        }
        match find_group(&groups, key) {
            Some(g) => {
                let ghost old_groups = groups@;
                let mut grp = groups.remove(g);
                let ghost old_fields = grp.fields@;
                grp.fields.push(f);
                let ghost new_grp = grp;
                groups.insert(g, grp);
                proof {
                    assert(groups@ =~= old_groups.update(g as int, new_grp));
                    assert(fields_view(old_fields) == gs[g as int].fields);
                    assert(groups_view(groups@) =~= gs.update(
                        g as int,
                        GroupSpec { key: gs[g as int].key, label: gs[g as int].label, fields: gs[g as int].fields.push(f@) },
                    )) by {
                        assert(fields_view(new_grp.fields@) =~= gs[g as int].fields.push(f@));
                    }
                    let t1 = fv.take(i + 1);
                    assert(t1.len() > 0);
                    assert(groups_of(t1.drop_last()) == gs);
                    assert(group_key(t1.last().path) == key@);
                    assert(group_index(gs, key@) == Some(g as int));
                    assert(groups_view(groups@) == groups_of(fv.take(i + 1)));
                }
            },
            None => {
                let mut fs: Vec<ConfigFieldDescriptor> = Vec::new();
                fs.push(f);
                groups.push(ConfigFieldGroup { key, label: group_label(key), fields: fs });
                proof {
                    assert(fields_view(fs@) =~= seq![f@]);
                    assert(groups_view(groups@) =~= gs.push(GroupSpec { key: key@, label: group_title(key@), fields: seq![f@] }));
                    let t1 = fv.take(i + 1);
                    assert(t1.len() > 0);
                    assert(groups_of(t1.drop_last()) == gs);
                    assert(group_key(t1.last().path) == key@);
                    assert(group_index(gs, key@) is None);
                    assert(groups_view(groups@) == groups_of(fv.take(i + 1)));
                }
            },
        }
        i = i + 1;
    }
    assert(fv.take(fields@.len() as int) =~= fv);
    groups
}

/// A stable sort of fields by `order`: the result ascends, holds the same
/// fields, and an ascending input comes back unchanged.
fn sort_by_order(v: Vec<ConfigFieldDescriptor>) -> (r: Vec<ConfigFieldDescriptor>)
    ensures
        ascending(fields_view(r@)),
        r@.to_multiset() == v@.to_multiset(),
        ascending(fields_view(v@)) ==> r@ == v@,
{
    broadcast use vstd::seq_lib::group_to_multiset_ensures;

    let mut out: Vec<ConfigFieldDescriptor> = Vec::new();
    let mut i: usize = 0;
    while i < v.len()
        invariant
            i <= v@.len(),
            ascending(fields_view(out@)),
            out@.to_multiset() == v@.take(i as int).to_multiset(),
            ascending(fields_view(v@)) ==> out@ == v@.take(i as int),
        decreases v@.len() - i,
    {
        let x = v[i];
        let mut p: usize = out.len();
        while p > 0 && out[p - 1].order > x.order
            invariant
                p <= out@.len(),
                forall|q: int| p <= q < out@.len() ==> (#[trigger] out@[q]).order > x.order,
            decreases p,
        {
            p = p - 1;
        }
        let ghost before = out@;
        proof {
            if ascending(fields_view(v@)) {
                assert(p == out@.len()) by {
                    if p < out@.len() {
                        assert(out@[p as int] == v@[p as int]);
                        assert(fields_view(v@)[p as int].order <= fields_view(v@)[i as int].order);
                    }
                }
            }
        }
        out.insert(p, x);
        proof {
            assert(v@.take(i + 1) =~= v@.take(i as int).push(x));
            vstd::seq_lib::to_multiset_insert(before, p as int, x);
            vstd::seq_lib::to_multiset_build(v@.take(i as int), x);
            assert(out@.to_multiset() == before.to_multiset().insert(x));
            let o = fields_view(out@);
            assert forall|a: int, b: int| 0 <= a < b < o.len() implies o[a].order <= o[b].order by {
                let ob = fields_view(before);
                if b < p {
                    assert(o[a] == ob[a] && o[b] == ob[b]);
                } else if b == p {
                    assert(o[a] == ob[a]);
                    if p > 0 {
                        assert(ob[a].order <= ob[p - 1].order || a == p - 1);
                    }
                } else if a < p {
                    assert(o[a] == ob[a] && o[b] == ob[b - 1]);
                    assert(ob[b - 1].order > x.order || true);
                } else if a == p {
                    assert(o[b] == ob[b - 1]);
                } else {
                    assert(o[a] == ob[a - 1] && o[b] == ob[b - 1]);
                }
            }
            if ascending(fields_view(v@)) {
                assert(out@ =~= v@.take(i + 1));
            }
        }
        i = i + 1;
    }
    assert(v@.take(v@.len() as int) =~= v@);
    out
}

/// The grouped descriptor: groups in order of first appearance, each
/// group's fields by `order`.
pub fn pmp_config_groups() -> (r: Vec<ConfigFieldGroup>)
    ensures
        groups_view(r@) == groups_of(pmp_fields()),
{
    let fields = pmp_config_descriptor();
    let mut groups = group_in_order(&fields);
    proof {
        assert(ascending(pmp_fields()));
        lemma_groups_ascending(pmp_fields());
    }
    let ghost gs = groups_view(groups@);
    let mut out: Vec<ConfigFieldGroup> = Vec::new();
    let n = groups.len();
    let mut i: usize = 0;
    while i < n
        invariant
            n == gs.len(),
            i <= n,
            gs == groups_of(pmp_fields()),
            forall|g: int| 0 <= g < gs.len() ==> ascending(#[trigger] gs[g].fields),
            groups@.len() == n - i,
            forall|g: int| 0 <= g < groups@.len() ==> groups_view(groups@)[g] == #[trigger] gs[g + i],
            groups_view(out@) == gs.take(i as int),
        decreases n - i,
    {
        let ghost og = groups@;
        proof {
            assert(groups_view(og)[0] == gs[0 + i]);
        }
        let g = groups.remove(0);
        let ghost gfields = g.fields@;
        assert(fields_view(gfields) == gs[i as int].fields);
        let sorted = sort_by_order(g.fields);
        assert(sorted@ == gfields);
        let ghost gout = out@;
        assert(gout.len() == i) by {
            assert(groups_view(gout).len() == gout.len());
        }
        out.push(ConfigFieldGroup { key: g.key, label: g.label, fields: sorted });
        proof {
            assert(groups_view(out@)[i as int] == gs[i as int]);
            assert forall|q: int| 0 <= q < i implies groups_view(out@)[q] == gs.take(i + 1)[q] by {
                assert(out@[q] == gout[q]);
                assert(groups_view(gout)[q] == gs.take(i as int)[q]);
            }
            assert(groups_view(out@) =~= gs.take(i + 1));
            assert forall|q: int| 0 <= q < groups@.len() implies groups_view(groups@)[q] == #[trigger] gs[q + (i + 1)] by {
                assert(groups@[q] == og[q + 1]);
                assert(groups_view(og)[q + 1] == gs[(q + 1) + i]);
            }
        }
        i = i + 1;
    }
    assert(gs.take(n as int) =~= gs);
    out
}

// ── config file manager ───────────────────────────────────────────────

#[derive(Debug)]
/// Where PMP's config YAML lives (reading and writing it happens at the
/// server's edge).
pub struct PmpConfigManager {
    config_path: Option<String>,
}

impl PmpConfigManager {
    pub closed spec fn config_path(&self) -> Option<Seq<char>> {
        match self.config_path {
            Some(p) => Some(p@),
            None => None,
        }
    }

    pub fn new(config_path: Option<String>) -> (m: PmpConfigManager)
        ensures
            m.config_path() == (match config_path {
                Some(p) => Some(p@),
                None => None::<Seq<char>>,
            }),
    {
        PmpConfigManager { config_path }
    }

    pub fn configured(&self) -> (b: bool)
        ensures
            b == self.config_path() is Some,
    {
        self.config_path.is_some()
    }

    /// The config path, or `PMP_UNAVAILABLE` when none is configured.
    pub fn path(&self) -> (r: Result<&str, ApiError>)
        ensures
            match self.config_path() {
                Some(p) => r matches Ok(s) && s@ == p,
                None => r matches Err(e) && e.code == ErrorCode::PmpUnavailable && e.message@
                    == "pmp.config_path not configured"@,
            },
    {
        match &self.config_path {
            Some(p) => Ok(p.as_str()),
            None => Err(ApiError::new(ErrorCode::PmpUnavailable, "pmp.config_path not configured")),
        }
    }
}

} // verus!
