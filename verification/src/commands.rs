//! The subcommand surface of the client: one enum per command group, and
//! the request route, method and path, that each remote subcommand resolves
//! to. Request bodies, argument parsing and response rendering live outside
//! the library; the routes here fix where every command goes.

use vstd::prelude::*;
use vstd::string::*;
use crate::pull::{json_map_insert, json_map_new, json_object_value, json_string_value,
    no_entries, object_value_of, string_value_of};
use crate::text::{dec_rep, first_index_of, find_first, push_decimal};

verus! {

/// The key and value of one KEY=VAL argument, split at the first '=';
/// an argument without '=' has none.
pub open spec fn env_var_parts(s: Seq<char>) -> Option<(Seq<char>, Seq<char>)> {
    match first_index_of(s, '=') {
        Some(i) => Some((s.subrange(0, i), s.subrange(i + 1, s.len() as int))),
        None => None,
    }
}

/// Splits one KEY=VAL argument at its first '='.
pub fn split_env_var(s: &str) -> (r: Option<(String, String)>)
    ensures
        match r {
            Some(kv) => env_var_parts(s@) matches Some(p) && kv.0@ == p.0 && kv.1@ == p.1,
            None => env_var_parts(s@) is None,
        },
{
    let len = s.unicode_len();
    match find_first(s, '=') {
        Some(i) => Some(
            (s.substring_char(0, i).to_owned(), s.substring_char(i + 1, len).to_owned()),
        ),
        None => None,
    }
}

/// The entries the env-var arguments produce, in order: each KEY=VAL
/// argument contributes its first-'='-split pair as a string field, later
/// duplicates replacing earlier ones; an argument without '=' contributes
/// nothing.
pub open spec fn env_entries(items: Seq<String>) -> Map<Seq<char>, serde_json::Value>
    decreases items.len(),
{
    if items.len() == 0 {
        no_entries()
    } else {
        let prev = env_entries(items.drop_last());
        match env_var_parts(items.last()@) {
            Some(p) => prev.insert(p.0, string_value_of(p.1)),
            None => prev,
        }
    }
}

/// The env_vars object of a create or update request: the JSON object
/// holding exactly the entries the arguments produce.
pub fn parse_env_vars(env_vars: &Vec<String>) -> (r: serde_json::Value)
    ensures
        r == object_value_of(env_entries(env_vars@)),
{
    let mut map = json_map_new();
    let mut i: usize = 0;
    while i < env_vars.len()
        invariant
            0 <= i <= env_vars@.len(),
            crate::pull::map_entries(map) == env_entries(env_vars@.subrange(0, i as int)),
        decreases env_vars.len() - i,
    {
        let ghost pre = env_vars@.subrange(0, i as int);
        match split_env_var(env_vars[i].as_str()) {
            Some(kv) => {
                json_map_insert(&mut map, kv.0.as_str(), json_string_value(kv.1.as_str()));
            },
            None => {},
        }
        proof {
            assert(env_vars@.subrange(0, i + 1).drop_last() =~= pre);
            assert(env_vars@.subrange(0, i + 1).last() == env_vars@[i as int]);
        }
        i += 1;
    }
    proof {
        assert(env_vars@.subrange(0, env_vars@.len() as int) =~= env_vars@);
    }
    json_object_value(map)
}

/// The HTTP method of a planned request.
#[derive(Clone, Copy, Debug, PartialEq, Eq, Structural)]
pub enum HttpMethod {
    Get,
    Post,
    Patch,
    Put,
    Delete,
}

/// A planned request: its method and its path, query string included.
pub struct RequestRoute {
    pub method: HttpMethod,
    pub path: String,
}

fn cat2(a: &'static str, b: &str) -> (r: String)
    ensures
        r@ == a@ + b@,
{
    let mut out = a.to_owned();
    out.append(b);
    out
}

fn cat3(a: &'static str, b: &str, c: &'static str) -> (r: String)
    ensures
        r@ == a@ + b@ + c@,
{
    let mut out = a.to_owned();
    out.append(b);
    out.append(c);
    out
}

fn cat4(a: &'static str, b: &str, c: &'static str, d: &str) -> (r: String)
    ensures
        r@ == a@ + b@ + c@ + d@,
{
    let mut out = a.to_owned();
    out.append(b);
    out.append(c);
    out.append(d);
    out
}

fn cat5(a: &'static str, b: &str, c: &'static str, d: &str, e: &'static str) -> (r: String)
    ensures
        r@ == a@ + b@ + c@ + d@ + e@,
{
    let mut out = a.to_owned();
    out.append(b);
    out.append(c);
    out.append(d);
    out.append(e);
    out
}

/// A listing path with optional limit and status filters, in that order.
pub open spec fn list_filters(base: Seq<char>, limit: Option<u32>, status: Option<String>) -> Seq<
    char,
> {
    match (limit, status) {
        (None, None) => base,
        (Some(l), None) => base + "?limit="@ + dec_rep(l as int),
        (None, Some(s)) => base + "?status="@ + s@,
        (Some(l), Some(s)) => base + "?limit="@ + dec_rep(l as int) + "&status="@ + s@,
    }
}

fn list_filters_path(base: String, limit: &Option<u32>, status: &Option<String>) -> (r: String)
    ensures
        r@ == list_filters(base@, *limit, *status),
{
    let mut p = base;
    match (limit, status) {
        (None, None) => {},
        (Some(l), None) => {
            p.append("?limit=");
            push_decimal(&mut p, *l as u64);
        },
        (None, Some(s)) => {
            p.append("?status=");
            p.append(s.as_str());
        },
        (Some(l), Some(s)) => {
            p.append("?limit=");
            push_decimal(&mut p, *l as u64);
            p.append("&status=");
            p.append(s.as_str());
        },
    }
    p
}

/// API key management.
pub enum ApiKeysCmd {
    Create { name: String, scopes: Vec<String> },
    List,
    Delete { id: String },
    Update { id: String, name: Option<String>, scopes: Vec<String> },
}

/// The route of an API key subcommand.
pub open spec fn apikeys_route(c: &ApiKeysCmd) -> (HttpMethod, Seq<char>) {
    match c {
        ApiKeysCmd::Create { .. } => (HttpMethod::Post, "/api-keys"@),
        ApiKeysCmd::List => (HttpMethod::Get, "/api-keys"@),
        ApiKeysCmd::Delete { id } => (HttpMethod::Delete, "/api-keys/"@ + id@),
        ApiKeysCmd::Update { id, .. } => (HttpMethod::Patch, "/api-keys/"@ + id@),
    }
}

impl ApiKeysCmd {
    /// The request this subcommand sends.
    pub fn route(&self) -> (r: RequestRoute)
        ensures
            r.method == apikeys_route(self).0,
            r.path@ == apikeys_route(self).1,
    {
        match self {
            ApiKeysCmd::Create { .. } => RequestRoute {
                method: HttpMethod::Post,
                path: "/api-keys".to_owned(),
            },
            ApiKeysCmd::List => RequestRoute {
                method: HttpMethod::Get,
                path: "/api-keys".to_owned(),
            },
            ApiKeysCmd::Delete { id } => RequestRoute {
                method: HttpMethod::Delete,
                path: cat2("/api-keys/", id.as_str()),
            },
            ApiKeysCmd::Update { id, .. } => RequestRoute {
                method: HttpMethod::Patch,
                path: cat2("/api-keys/", id.as_str()),
            },
        }
    }
}

/// Async invocations across all functions.
pub enum GlobalAsyncCmd {
    List { limit: Option<u32>, status: Option<String> },
    Get { id: String },
    Retry { id: String },
}

/// The route of a global async-invocation subcommand.
pub open spec fn global_async_route(c: &GlobalAsyncCmd) -> (HttpMethod, Seq<char>) {
    match c {
        GlobalAsyncCmd::List { limit, status } => (
            HttpMethod::Get,
            list_filters("/async-invocations"@, *limit, *status),
        ),
        GlobalAsyncCmd::Get { id } => (HttpMethod::Get, "/async-invocations/"@ + id@),
        GlobalAsyncCmd::Retry { id } => (
            HttpMethod::Post,
            "/async-invocations/"@ + id@ + "/retry"@,
        ),
    }
}

impl GlobalAsyncCmd {
    /// The request this subcommand sends.
    pub fn route(&self) -> (r: RequestRoute)
        ensures
            r.method == global_async_route(self).0,
            r.path@ == global_async_route(self).1,
    {
        match self {
            GlobalAsyncCmd::List { limit, status } => RequestRoute {
                method: HttpMethod::Get,
                path: list_filters_path("/async-invocations".to_owned(), limit, status),
            },
            GlobalAsyncCmd::Get { id } => RequestRoute {
                method: HttpMethod::Get,
                path: cat2("/async-invocations/", id.as_str()),
            },
            GlobalAsyncCmd::Retry { id } => RequestRoute {
                method: HttpMethod::Post,
                path: cat3("/async-invocations/", id.as_str(), "/retry"),
            },
        }
    }
}

/// Local configuration management; handled locally, no remote route.
pub enum ConfigCmd {
    Get,
    Assign { key: String, value: String },
}

/// Cost reporting.
pub enum CostCmd {
    Summary { window: u64 },
    Function { name: String, window: u64 },
}

/// The route of a cost subcommand.
pub open spec fn cost_route(c: &CostCmd) -> (HttpMethod, Seq<char>) {
    match c {
        CostCmd::Summary { window } => (
            HttpMethod::Get,
            "/cost/summary?window="@ + dec_rep(*window as int),
        ),
        CostCmd::Function { name, window } => (
            HttpMethod::Get,
            "/functions/"@ + name@ + "/cost?window="@ + dec_rep(*window as int),
        ),
    }
}

impl CostCmd {
    /// The request this subcommand sends.
    pub fn route(&self) -> (r: RequestRoute)
        ensures
            r.method == cost_route(self).0,
            r.path@ == cost_route(self).1,
    {
        match self {
            CostCmd::Summary { window } => {
                let mut p = "/cost/summary?window=".to_owned();
                push_decimal(&mut p, *window);
                RequestRoute { method: HttpMethod::Get, path: p }
            },
            CostCmd::Function { name, window } => {
                let mut p = cat3("/functions/", name.as_str(), "/cost?window=");
                push_decimal(&mut p, *window);
                RequestRoute { method: HttpMethod::Get, path: p }
            },
        }
    }
}

/// Event topics.
pub enum TopicsCmd {
    Create { name: String, description: Option<String>, retention_hours: Option<i64> },
    List,
    Get { name: String },
    Delete { name: String },
    Publish { name: String, payload: String, ordering_key: Option<String> },
    Messages { name: String },
    Subscriptions { cmd: TopicSubsCmd },
    Outbox { cmd: OutboxSubCmd },
}

/// Subscriptions of one topic.
pub enum TopicSubsCmd {
    Create {
        topic: String,
        name: String,
        function: String,
        max_attempts: Option<i64>,
        max_inflight: Option<i64>,
    },
    List { topic: String },
}

/// Event subscriptions.
pub enum SubscriptionsCmd {
    Get { id: String },
    Update { id: String, enabled: Option<bool>, max_attempts: Option<i64>, max_inflight: Option<i64> },
    Delete { id: String },
    Deliveries { id: String },
    Replay { id: String, from_sequence: Option<i64>, from_time: Option<String> },
    Seek { id: String, to_sequence: Option<i64>, to_time: Option<String> },
}

/// Event deliveries.
pub enum DeliveriesCmd {
    Get { id: String },
    Retry { id: String },
}

/// Outbox entries of one topic.
pub enum OutboxSubCmd {
    Create { topic: String, payload: String, ordering_key: Option<String> },
    List { topic: String, status: Option<String> },
    Retry { id: String },
}

/// The route of a topic-subscription subcommand.
pub open spec fn topic_subs_route(c: &TopicSubsCmd) -> (HttpMethod, Seq<char>) {
    match c {
        TopicSubsCmd::Create { topic, .. } => (
            HttpMethod::Post,
            "/topics/"@ + topic@ + "/subscriptions"@,
        ),
        TopicSubsCmd::List { topic } => (HttpMethod::Get, "/topics/"@ + topic@ + "/subscriptions"@),
    }
}

impl TopicSubsCmd {
    /// The request this subcommand sends.
    pub fn route(&self) -> (r: RequestRoute)
        ensures
            r.method == topic_subs_route(self).0,
            r.path@ == topic_subs_route(self).1,
    {
        match self {
            TopicSubsCmd::Create { topic, .. } => RequestRoute {
                method: HttpMethod::Post,
                path: cat3("/topics/", topic.as_str(), "/subscriptions"),
            },
            TopicSubsCmd::List { topic } => RequestRoute {
                method: HttpMethod::Get,
                path: cat3("/topics/", topic.as_str(), "/subscriptions"),
            },
        }
    }
}

/// The route of an outbox subcommand.
pub open spec fn outbox_route(c: &OutboxSubCmd) -> (HttpMethod, Seq<char>) {
    match c {
        OutboxSubCmd::Create { topic, .. } => (HttpMethod::Post, "/topics/"@ + topic@ + "/outbox"@),
        OutboxSubCmd::List { topic, status } => (
            HttpMethod::Get,
            match status {
                Some(s) => "/topics/"@ + topic@ + "/outbox"@ + "?status="@ + s@,
                None => "/topics/"@ + topic@ + "/outbox"@,
            },
        ),
        OutboxSubCmd::Retry { id } => (HttpMethod::Post, "/outbox/"@ + id@ + "/retry"@),
    }
}

impl OutboxSubCmd {
    /// The request this subcommand sends.
    pub fn route(&self) -> (r: RequestRoute)
        ensures
            r.method == outbox_route(self).0,
            r.path@ == outbox_route(self).1,
    {
        match self {
            OutboxSubCmd::Create { topic, .. } => RequestRoute {
                method: HttpMethod::Post,
                path: cat3("/topics/", topic.as_str(), "/outbox"),
            },
            OutboxSubCmd::List { topic, status } => {
                let mut p = cat3("/topics/", topic.as_str(), "/outbox");
                match status {
                    Some(s) => {
                        p.append("?status=");
                        p.append(s.as_str());
                    },
                    None => {},
                }
                RequestRoute { method: HttpMethod::Get, path: p }
            },
            OutboxSubCmd::Retry { id } => RequestRoute {
                method: HttpMethod::Post,
                path: cat3("/outbox/", id.as_str(), "/retry"),
            },
        }
    }
}

/// The route of a topics subcommand; nested subscription and outbox
/// subcommands route as their own enums do.
pub open spec fn topics_route(c: &TopicsCmd) -> (HttpMethod, Seq<char>) {
    match c {
        TopicsCmd::Create { .. } => (HttpMethod::Post, "/topics"@),
        TopicsCmd::List => (HttpMethod::Get, "/topics"@),
        TopicsCmd::Get { name } => (HttpMethod::Get, "/topics/"@ + name@),
        TopicsCmd::Delete { name } => (HttpMethod::Delete, "/topics/"@ + name@),
        TopicsCmd::Publish { name, .. } => (HttpMethod::Post, "/topics/"@ + name@ + "/publish"@),
        TopicsCmd::Messages { name } => (HttpMethod::Get, "/topics/"@ + name@ + "/messages"@),
        TopicsCmd::Subscriptions { cmd } => topic_subs_route(cmd),
        TopicsCmd::Outbox { cmd } => outbox_route(cmd),
    }
}

impl TopicsCmd {
    /// The request this subcommand sends.
    pub fn route(&self) -> (r: RequestRoute)
        ensures
            r.method == topics_route(self).0,
            r.path@ == topics_route(self).1,
    {
        match self {
            TopicsCmd::Create { .. } => RequestRoute {
                method: HttpMethod::Post,
                path: "/topics".to_owned(),
            },
            TopicsCmd::List => RequestRoute { method: HttpMethod::Get, path: "/topics".to_owned() },
            TopicsCmd::Get { name } => RequestRoute {
                method: HttpMethod::Get,
                path: cat2("/topics/", name.as_str()),
            },
            TopicsCmd::Delete { name } => RequestRoute {
                method: HttpMethod::Delete,
                path: cat2("/topics/", name.as_str()),
            },
            TopicsCmd::Publish { name, .. } => RequestRoute {
                method: HttpMethod::Post,
                path: cat3("/topics/", name.as_str(), "/publish"),
            },
            TopicsCmd::Messages { name } => RequestRoute {
                method: HttpMethod::Get,
                path: cat3("/topics/", name.as_str(), "/messages"),
            },
            TopicsCmd::Subscriptions { cmd } => cmd.route(),
            TopicsCmd::Outbox { cmd } => cmd.route(),
        }
    }
}

/// The route of a subscriptions subcommand.
pub open spec fn subscriptions_route(c: &SubscriptionsCmd) -> (HttpMethod, Seq<char>) {
    match c {
        SubscriptionsCmd::Get { id } => (HttpMethod::Get, "/subscriptions/"@ + id@),
        SubscriptionsCmd::Update { id, .. } => (HttpMethod::Patch, "/subscriptions/"@ + id@),
        SubscriptionsCmd::Delete { id } => (HttpMethod::Delete, "/subscriptions/"@ + id@),
        SubscriptionsCmd::Deliveries { id } => (
            HttpMethod::Get,
            "/subscriptions/"@ + id@ + "/deliveries"@,
        ),
        SubscriptionsCmd::Replay { id, .. } => (
            HttpMethod::Post,
            "/subscriptions/"@ + id@ + "/replay"@,
        ),
        SubscriptionsCmd::Seek { id, .. } => (HttpMethod::Post, "/subscriptions/"@ + id@ + "/seek"@),
    }
}

impl SubscriptionsCmd {
    /// The request this subcommand sends.
    pub fn route(&self) -> (r: RequestRoute)
        ensures
            r.method == subscriptions_route(self).0,
            r.path@ == subscriptions_route(self).1,
    {
        match self {
            SubscriptionsCmd::Get { id } => RequestRoute {
                method: HttpMethod::Get,
                path: cat2("/subscriptions/", id.as_str()),
            },
            SubscriptionsCmd::Update { id, .. } => RequestRoute {
                method: HttpMethod::Patch,
                path: cat2("/subscriptions/", id.as_str()),
            },
            SubscriptionsCmd::Delete { id } => RequestRoute {
                method: HttpMethod::Delete,
                path: cat2("/subscriptions/", id.as_str()),
            },
            SubscriptionsCmd::Deliveries { id } => RequestRoute {
                method: HttpMethod::Get,
                path: cat3("/subscriptions/", id.as_str(), "/deliveries"),
            },
            SubscriptionsCmd::Replay { id, .. } => RequestRoute {
                method: HttpMethod::Post,
                path: cat3("/subscriptions/", id.as_str(), "/replay"),
            },
            SubscriptionsCmd::Seek { id, .. } => RequestRoute {
                method: HttpMethod::Post,
                path: cat3("/subscriptions/", id.as_str(), "/seek"),
            },
        }
    }
}

/// The route of a deliveries subcommand.
pub open spec fn deliveries_route(c: &DeliveriesCmd) -> (HttpMethod, Seq<char>) {
    match c {
        DeliveriesCmd::Get { id } => (HttpMethod::Get, "/deliveries/"@ + id@),
        DeliveriesCmd::Retry { id } => (HttpMethod::Post, "/deliveries/"@ + id@ + "/retry"@),
    }
}

impl DeliveriesCmd {
    /// The request this subcommand sends.
    pub fn route(&self) -> (r: RequestRoute)
        ensures
            r.method == deliveries_route(self).0,
            r.path@ == deliveries_route(self).1,
    {
        match self {
            DeliveriesCmd::Get { id } => RequestRoute {
                method: HttpMethod::Get,
                path: cat2("/deliveries/", id.as_str()),
            },
            DeliveriesCmd::Retry { id } => RequestRoute {
                method: HttpMethod::Post,
                path: cat3("/deliveries/", id.as_str(), "/retry"),
            },
        }
    }
}

/// Source code of one function.
pub enum CodeSubCmd {
    Get { name: String },
    Update { name: String, code: Option<String>, file: Option<String> },
}

/// The route of a code subcommand.
pub open spec fn code_route(c: &CodeSubCmd) -> (HttpMethod, Seq<char>) {
    match c {
        CodeSubCmd::Get { name } => (HttpMethod::Get, "/functions/"@ + name@ + "/code"@),
        CodeSubCmd::Update { name, .. } => (HttpMethod::Put, "/functions/"@ + name@ + "/code"@),
    }
}

impl CodeSubCmd {
    /// The request this subcommand sends.
    pub fn route(&self) -> (r: RequestRoute)
        ensures
            r.method == code_route(self).0,
            r.path@ == code_route(self).1,
    {
        match self {
            CodeSubCmd::Get { name } => RequestRoute {
                method: HttpMethod::Get,
                path: cat3("/functions/", name.as_str(), "/code"),
            },
            CodeSubCmd::Update { name, .. } => RequestRoute {
                method: HttpMethod::Put,
                path: cat3("/functions/", name.as_str(), "/code"),
            },
        }
    }
}

/// Versions of one function.
pub enum VersionsSubCmd {
    List { name: String },
    Get { name: String, version: u32 },
}

/// The route of a versions subcommand.
pub open spec fn versions_route(c: &VersionsSubCmd) -> (HttpMethod, Seq<char>) {
    match c {
        VersionsSubCmd::List { name } => (HttpMethod::Get, "/functions/"@ + name@ + "/versions"@),
        VersionsSubCmd::Get { name, version } => (
            HttpMethod::Get,
            "/functions/"@ + name@ + "/versions/"@ + dec_rep(*version as int),
        ),
    }
}

impl VersionsSubCmd {
    /// The request this subcommand sends.
    pub fn route(&self) -> (r: RequestRoute)
        ensures
            r.method == versions_route(self).0,
            r.path@ == versions_route(self).1,
    {
        match self {
            VersionsSubCmd::List { name } => RequestRoute {
                method: HttpMethod::Get,
                path: cat3("/functions/", name.as_str(), "/versions"),
            },
            VersionsSubCmd::Get { name, version } => {
                let mut p = cat3("/functions/", name.as_str(), "/versions/");
                push_decimal(&mut p, *version as u64);
                RequestRoute { method: HttpMethod::Get, path: p }
            },
        }
    }
}

/// Async invocations of one function.
pub enum AsyncInvocationsSubCmd {
    List { name: String, limit: Option<u32>, status: Option<String> },
}

/// The route of a per-function async-invocation subcommand.
pub open spec fn fn_async_route(c: &AsyncInvocationsSubCmd) -> (HttpMethod, Seq<char>) {
    match c {
        AsyncInvocationsSubCmd::List { name, limit, status } => (
            HttpMethod::Get,
            list_filters("/functions/"@ + name@ + "/async-invocations"@, *limit, *status),
        ),
    }
}

impl AsyncInvocationsSubCmd {
    /// The request this subcommand sends.
    pub fn route(&self) -> (r: RequestRoute)
        ensures
            r.method == fn_async_route(self).0,
            r.path@ == fn_async_route(self).1,
    {
        match self {
            AsyncInvocationsSubCmd::List { name, limit, status } => RequestRoute {
                method: HttpMethod::Get,
                path: list_filters_path(
                    cat3("/functions/", name.as_str(), "/async-invocations"),
                    limit,
                    status,
                ),
            },
        }
    }
}

/// Capacity policy of one function.
pub enum CapacitySubCmd {
    Get { name: String },
    Assign {
        name: String,
        max_inflight: Option<i64>,
        max_queue_depth: Option<i64>,
        max_queue_wait_ms: Option<i64>,
        shed_status_code: Option<i64>,
    },
    Delete { name: String },
}

/// The route of a capacity subcommand.
pub open spec fn capacity_route(c: &CapacitySubCmd) -> (HttpMethod, Seq<char>) {
    match c {
        CapacitySubCmd::Get { name } => (HttpMethod::Get, "/functions/"@ + name@ + "/capacity"@),
        CapacitySubCmd::Assign { name, .. } => (HttpMethod::Put, "/functions/"@ + name@ + "/capacity"@),
        CapacitySubCmd::Delete { name } => (
            HttpMethod::Delete,
            "/functions/"@ + name@ + "/capacity"@,
        ),
    }
}

impl CapacitySubCmd {
    /// The request this subcommand sends.
    pub fn route(&self) -> (r: RequestRoute)
        ensures
            r.method == capacity_route(self).0,
            r.path@ == capacity_route(self).1,
    {
        match self {
            CapacitySubCmd::Get { name } => RequestRoute {
                method: HttpMethod::Get,
                path: cat3("/functions/", name.as_str(), "/capacity"),
            },
            CapacitySubCmd::Assign { name, .. } => RequestRoute {
                method: HttpMethod::Put,
                path: cat3("/functions/", name.as_str(), "/capacity"),
            },
            CapacitySubCmd::Delete { name } => RequestRoute {
                method: HttpMethod::Delete,
                path: cat3("/functions/", name.as_str(), "/capacity"),
            },
        }
    }
}

/// Schedules of one function.
pub enum SchedulesSubCmd {
    Create { name: String, cron: String, input: Option<String> },
    List { name: String },
    Delete { name: String, id: String },
    Update { name: String, id: String, enabled: Option<bool> },
}

/// The route of a schedules subcommand.
pub open spec fn schedules_route(c: &SchedulesSubCmd) -> (HttpMethod, Seq<char>) {
    match c {
        SchedulesSubCmd::Create { name, .. } => (
            HttpMethod::Post,
            "/functions/"@ + name@ + "/schedules"@,
        ),
        SchedulesSubCmd::List { name } => (HttpMethod::Get, "/functions/"@ + name@ + "/schedules"@),
        SchedulesSubCmd::Delete { name, id } => (
            HttpMethod::Delete,
            "/functions/"@ + name@ + "/schedules/"@ + id@,
        ),
        SchedulesSubCmd::Update { name, id, .. } => (
            HttpMethod::Patch,
            "/functions/"@ + name@ + "/schedules/"@ + id@,
        ),
    }
}

impl SchedulesSubCmd {
    /// The request this subcommand sends.
    pub fn route(&self) -> (r: RequestRoute)
        ensures
            r.method == schedules_route(self).0,
            r.path@ == schedules_route(self).1,
    {
        match self {
            SchedulesSubCmd::Create { name, .. } => RequestRoute {
                method: HttpMethod::Post,
                path: cat3("/functions/", name.as_str(), "/schedules"),
            },
            SchedulesSubCmd::List { name } => RequestRoute {
                method: HttpMethod::Get,
                path: cat3("/functions/", name.as_str(), "/schedules"),
            },
            SchedulesSubCmd::Delete { name, id } => RequestRoute {
                method: HttpMethod::Delete,
                path: cat4("/functions/", name.as_str(), "/schedules/", id.as_str()),
            },
            SchedulesSubCmd::Update { name, id, .. } => RequestRoute {
                method: HttpMethod::Patch,
                path: cat4("/functions/", name.as_str(), "/schedules/", id.as_str()),
            },
        }
    }
}

/// Snapshot of one function.
pub enum SnapshotSubCmd {
    Create { name: String },
    Delete { name: String },
}

/// The route of a per-function snapshot subcommand.
pub open spec fn snapshot_route(c: &SnapshotSubCmd) -> (HttpMethod, Seq<char>) {
    match c {
        SnapshotSubCmd::Create { name } => (HttpMethod::Post, "/functions/"@ + name@ + "/snapshot"@),
        SnapshotSubCmd::Delete { name } => (
            HttpMethod::Delete,
            "/functions/"@ + name@ + "/snapshot"@,
        ),
    }
}

impl SnapshotSubCmd {
    /// The request this subcommand sends.
    pub fn route(&self) -> (r: RequestRoute)
        ensures
            r.method == snapshot_route(self).0,
            r.path@ == snapshot_route(self).1,
    {
        match self {
            SnapshotSubCmd::Create { name } => RequestRoute {
                method: HttpMethod::Post,
                path: cat3("/functions/", name.as_str(), "/snapshot"),
            },
            SnapshotSubCmd::Delete { name } => RequestRoute {
                method: HttpMethod::Delete,
                path: cat3("/functions/", name.as_str(), "/snapshot"),
            },
        }
    }
}

/// Layers of one function.
pub enum FnLayersSubCmd {
    Assign { name: String, layers: Vec<String> },
    Get { name: String },
}

/// The route of a per-function layers subcommand.
pub open spec fn fn_layers_route(c: &FnLayersSubCmd) -> (HttpMethod, Seq<char>) {
    match c {
        FnLayersSubCmd::Assign { name, .. } => (HttpMethod::Put, "/functions/"@ + name@ + "/layers"@),
        FnLayersSubCmd::Get { name } => (HttpMethod::Get, "/functions/"@ + name@ + "/layers"@),
    }
}

impl FnLayersSubCmd {
    /// The request this subcommand sends.
    pub fn route(&self) -> (r: RequestRoute)
        ensures
            r.method == fn_layers_route(self).0,
            r.path@ == fn_layers_route(self).1,
    {
        match self {
            FnLayersSubCmd::Assign { name, .. } => RequestRoute {
                method: HttpMethod::Put,
                path: cat3("/functions/", name.as_str(), "/layers"),
            },
            FnLayersSubCmd::Get { name } => RequestRoute {
                method: HttpMethod::Get,
                path: cat3("/functions/", name.as_str(), "/layers"),
            },
        }
    }
}

/// The API gateway.
pub enum GatewayCmd {
    Routes { cmd: RoutesCmd },
}

/// Gateway routes.
pub enum RoutesCmd {
    Create { domain: String, path: String, function: String, methods: Vec<String>, auth: Option<String> },
    List,
    Get { id: String },
    Update {
        id: String,
        domain: Option<String>,
        path: Option<String>,
        function: Option<String>,
        enabled: Option<bool>,
    },
    Delete { id: String },
}

/// The route of a gateway-routes subcommand.
pub open spec fn routes_route(c: &RoutesCmd) -> (HttpMethod, Seq<char>) {
    match c {
        RoutesCmd::Create { .. } => (HttpMethod::Post, "/gateway/routes"@),
        RoutesCmd::List => (HttpMethod::Get, "/gateway/routes"@),
        RoutesCmd::Get { id } => (HttpMethod::Get, "/gateway/routes/"@ + id@),
        RoutesCmd::Update { id, .. } => (HttpMethod::Patch, "/gateway/routes/"@ + id@),
        RoutesCmd::Delete { id } => (HttpMethod::Delete, "/gateway/routes/"@ + id@),
    }
}

impl RoutesCmd {
    /// The request this subcommand sends.
    pub fn route(&self) -> (r: RequestRoute)
        ensures
            r.method == routes_route(self).0,
            r.path@ == routes_route(self).1,
    {
        match self {
            RoutesCmd::Create { .. } => RequestRoute {
                method: HttpMethod::Post,
                path: "/gateway/routes".to_owned(),
            },
            RoutesCmd::List => RequestRoute {
                method: HttpMethod::Get,
                path: "/gateway/routes".to_owned(),
            },
            RoutesCmd::Get { id } => RequestRoute {
                method: HttpMethod::Get,
                path: cat2("/gateway/routes/", id.as_str()),
            },
            RoutesCmd::Update { id, .. } => RequestRoute {
                method: HttpMethod::Patch,
                path: cat2("/gateway/routes/", id.as_str()),
            },
            RoutesCmd::Delete { id } => RequestRoute {
                method: HttpMethod::Delete,
                path: cat2("/gateway/routes/", id.as_str()),
            },
        }
    }
}

/// The route of a gateway subcommand.
pub open spec fn gateway_route(c: &GatewayCmd) -> (HttpMethod, Seq<char>) {
    match c {
        GatewayCmd::Routes { cmd } => routes_route(cmd),
    }
}

impl GatewayCmd {
    /// The request this subcommand sends.
    pub fn route(&self) -> (r: RequestRoute)
        ensures
            r.method == gateway_route(self).0,
            r.path@ == gateway_route(self).1,
    {
        match self {
            GatewayCmd::Routes { cmd } => cmd.route(),
        }
    }
}

/// Health probes.
pub enum HealthCmd {
    Status,
    Live,
    Ready,
    Startup,
}

/// The route of a health subcommand.
pub open spec fn health_route(c: &HealthCmd) -> (HttpMethod, Seq<char>) {
    match c {
        HealthCmd::Status => (HttpMethod::Get, "/health"@),
        HealthCmd::Live => (HttpMethod::Get, "/health/live"@),
        HealthCmd::Ready => (HttpMethod::Get, "/health/ready"@),
        HealthCmd::Startup => (HttpMethod::Get, "/health/startup"@),
    }
}

impl HealthCmd {
    /// The request this subcommand sends.
    pub fn route(&self) -> (r: RequestRoute)
        ensures
            r.method == health_route(self).0,
            r.path@ == health_route(self).1,
    {
        match self {
            HealthCmd::Status => RequestRoute {
                method: HttpMethod::Get,
                path: "/health".to_owned(),
            },
            HealthCmd::Live => RequestRoute {
                method: HttpMethod::Get,
                path: "/health/live".to_owned(),
            },
            HealthCmd::Ready => RequestRoute {
                method: HttpMethod::Get,
                path: "/health/ready".to_owned(),
            },
            HealthCmd::Startup => RequestRoute {
                method: HttpMethod::Get,
                path: "/health/startup".to_owned(),
            },
        }
    }
}

/// Shared layers.
pub enum LayersCmd {
    Create { name: String, runtime: String, version: Option<String> },
    List,
    Get { name: String },
    Delete { name: String },
}

/// The route of a layers subcommand.
pub open spec fn layers_route(c: &LayersCmd) -> (HttpMethod, Seq<char>) {
    match c {
        LayersCmd::Create { .. } => (HttpMethod::Post, "/layers"@),
        LayersCmd::List => (HttpMethod::Get, "/layers"@),
        LayersCmd::Get { name } => (HttpMethod::Get, "/layers/"@ + name@),
        LayersCmd::Delete { name } => (HttpMethod::Delete, "/layers/"@ + name@),
    }
}

impl LayersCmd {
    /// The request this subcommand sends.
    pub fn route(&self) -> (r: RequestRoute)
        ensures
            r.method == layers_route(self).0,
            r.path@ == layers_route(self).1,
    {
        match self {
            LayersCmd::Create { .. } => RequestRoute {
                method: HttpMethod::Post,
                path: "/layers".to_owned(),
            },
            LayersCmd::List => RequestRoute { method: HttpMethod::Get, path: "/layers".to_owned() },
            LayersCmd::Get { name } => RequestRoute {
                method: HttpMethod::Get,
                path: cat2("/layers/", name.as_str()),
            },
            LayersCmd::Delete { name } => RequestRoute {
                method: HttpMethod::Delete,
                path: cat2("/layers/", name.as_str()),
            },
        }
    }
}

/// Global metrics.
pub enum MetricsCmd {
    Json,
    Prometheus,
    Timeseries { range: String },
    Heatmap { weeks: u32 },
}

/// The route of a metrics subcommand.
pub open spec fn metrics_route(c: &MetricsCmd) -> (HttpMethod, Seq<char>) {
    match c {
        MetricsCmd::Json => (HttpMethod::Get, "/metrics"@),
        MetricsCmd::Prometheus => (HttpMethod::Get, "/metrics/prometheus"@),
        MetricsCmd::Timeseries { range } => (HttpMethod::Get, "/metrics/timeseries?range="@ + range@),
        MetricsCmd::Heatmap { weeks } => (
            HttpMethod::Get,
            "/metrics/heatmap?weeks="@ + dec_rep(*weeks as int),
        ),
    }
}

impl MetricsCmd {
    /// The request this subcommand sends.
    pub fn route(&self) -> (r: RequestRoute)
        ensures
            r.method == metrics_route(self).0,
            r.path@ == metrics_route(self).1,
    {
        match self {
            MetricsCmd::Json => RequestRoute {
                method: HttpMethod::Get,
                path: "/metrics".to_owned(),
            },
            MetricsCmd::Prometheus => RequestRoute {
                method: HttpMethod::Get,
                path: "/metrics/prometheus".to_owned(),
            },
            MetricsCmd::Timeseries { range } => RequestRoute {
                method: HttpMethod::Get,
                path: cat2("/metrics/timeseries?range=", range.as_str()),
            },
            MetricsCmd::Heatmap { weeks } => {
                let mut p = "/metrics/heatmap?weeks=".to_owned();
                push_decimal(&mut p, *weeks as u64);
                RequestRoute { method: HttpMethod::Get, path: p }
            },
        }
    }
}

/// Runtimes.
pub enum RuntimesCmd {
    List,
    Create { name: String, image: Option<String>, command: Option<String> },
    Upload { id: String, image: String },
    Delete { id: String },
}

/// The route of a runtimes subcommand. An upload posts to the fixed upload
/// endpoint; the runtime id travels in the body.
pub open spec fn runtimes_route(c: &RuntimesCmd) -> (HttpMethod, Seq<char>) {
    match c {
        RuntimesCmd::List => (HttpMethod::Get, "/runtimes"@),
        RuntimesCmd::Create { .. } => (HttpMethod::Post, "/runtimes"@),
        RuntimesCmd::Upload { .. } => (HttpMethod::Post, "/runtimes/upload"@),
        RuntimesCmd::Delete { id } => (HttpMethod::Delete, "/runtimes/"@ + id@),
    }
}

impl RuntimesCmd {
    /// The request this subcommand sends.
    pub fn route(&self) -> (r: RequestRoute)
        ensures
            r.method == runtimes_route(self).0,
            r.path@ == runtimes_route(self).1,
    {
        match self {
            RuntimesCmd::List => RequestRoute {
                method: HttpMethod::Get,
                path: "/runtimes".to_owned(),
            },
            RuntimesCmd::Create { .. } => RequestRoute {
                method: HttpMethod::Post,
                path: "/runtimes".to_owned(),
            },
            RuntimesCmd::Upload { .. } => RequestRoute {
                method: HttpMethod::Post,
                path: "/runtimes/upload".to_owned(),
            },
            RuntimesCmd::Delete { id } => RequestRoute {
                method: HttpMethod::Delete,
                path: cat2("/runtimes/", id.as_str()),
            },
        }
    }
}

/// Secrets.
pub enum SecretsCmd {
    Create { name: String, value: String },
    List,
    Delete { name: String },
}

/// The route of a secrets subcommand.
pub open spec fn secrets_route(c: &SecretsCmd) -> (HttpMethod, Seq<char>) {
    match c {
        SecretsCmd::Create { .. } => (HttpMethod::Post, "/secrets"@),
        SecretsCmd::List => (HttpMethod::Get, "/secrets"@),
        SecretsCmd::Delete { name } => (HttpMethod::Delete, "/secrets/"@ + name@),
    }
}

impl SecretsCmd {
    /// The request this subcommand sends.
    pub fn route(&self) -> (r: RequestRoute)
        ensures
            r.method == secrets_route(self).0,
            r.path@ == secrets_route(self).1,
    {
        match self {
            SecretsCmd::Create { .. } => RequestRoute {
                method: HttpMethod::Post,
                path: "/secrets".to_owned(),
            },
            SecretsCmd::List => RequestRoute {
                method: HttpMethod::Get,
                path: "/secrets".to_owned(),
            },
            SecretsCmd::Delete { name } => RequestRoute {
                method: HttpMethod::Delete,
                path: cat2("/secrets/", name.as_str()),
            },
        }
    }
}

/// All snapshots.
pub enum SnapshotsCmd {
    List,
}

/// The route of a snapshots subcommand.
pub open spec fn snapshots_route(c: &SnapshotsCmd) -> (HttpMethod, Seq<char>) {
    match c {
        SnapshotsCmd::List => (HttpMethod::Get, "/snapshots"@),
    }
}

impl SnapshotsCmd {
    /// The request this subcommand sends.
    pub fn route(&self) -> (r: RequestRoute)
        ensures
            r.method == snapshots_route(self).0,
            r.path@ == snapshots_route(self).1,
    {
        match self {
            SnapshotsCmd::List => RequestRoute {
                method: HttpMethod::Get,
                path: "/snapshots".to_owned(),
            },
        }
    }
}

/// Tenants.
pub enum TenantsCmd {
    List,
    Create { name: String, tier: Option<String> },
    Update { id: String, name: Option<String>, status: Option<String>, tier: Option<String> },
    Delete { id: String },
    Namespaces { cmd: NamespacesSubCmd },
    Quotas { cmd: QuotasSubCmd },
    Usage { id: String },
}

/// Namespaces of one tenant.
pub enum NamespacesSubCmd {
    List { tenant_id: String },
    Create { tenant_id: String, name: String },
    Update { tenant_id: String, namespace: String, name: Option<String> },
    Delete { tenant_id: String, namespace: String },
}

/// Quotas of one tenant.
pub enum QuotasSubCmd {
    List { tenant_id: String },
    Assign { tenant_id: String, dimension: String, limit: i64, window: Option<String> },
    Delete { tenant_id: String, dimension: String },
}

/// The route of a namespaces subcommand.
pub open spec fn namespaces_route(c: &NamespacesSubCmd) -> (HttpMethod, Seq<char>) {
    match c {
        NamespacesSubCmd::List { tenant_id } => (
            HttpMethod::Get,
            "/tenants/"@ + tenant_id@ + "/namespaces"@,
        ),
        NamespacesSubCmd::Create { tenant_id, .. } => (
            HttpMethod::Post,
            "/tenants/"@ + tenant_id@ + "/namespaces"@,
        ),
        NamespacesSubCmd::Update { tenant_id, namespace, .. } => (
            HttpMethod::Patch,
            "/tenants/"@ + tenant_id@ + "/namespaces/"@ + namespace@,
        ),
        NamespacesSubCmd::Delete { tenant_id, namespace } => (
            HttpMethod::Delete,
            "/tenants/"@ + tenant_id@ + "/namespaces/"@ + namespace@,
        ),
    }
}

impl NamespacesSubCmd {
    /// The request this subcommand sends.
    pub fn route(&self) -> (r: RequestRoute)
        ensures
            r.method == namespaces_route(self).0,
            r.path@ == namespaces_route(self).1,
    {
        match self {
            NamespacesSubCmd::List { tenant_id } => RequestRoute {
                method: HttpMethod::Get,
                path: cat3("/tenants/", tenant_id.as_str(), "/namespaces"),
            },
            NamespacesSubCmd::Create { tenant_id, .. } => RequestRoute {
                method: HttpMethod::Post,
                path: cat3("/tenants/", tenant_id.as_str(), "/namespaces"),
            },
            NamespacesSubCmd::Update { tenant_id, namespace, .. } => RequestRoute {
                method: HttpMethod::Patch,
                path: cat4("/tenants/", tenant_id.as_str(), "/namespaces/", namespace.as_str()),
            },
            NamespacesSubCmd::Delete { tenant_id, namespace } => RequestRoute {
                method: HttpMethod::Delete,
                path: cat4("/tenants/", tenant_id.as_str(), "/namespaces/", namespace.as_str()),
            },
        }
    }
}

/// The route of a quotas subcommand.
pub open spec fn quotas_route(c: &QuotasSubCmd) -> (HttpMethod, Seq<char>) {
    match c {
        QuotasSubCmd::List { tenant_id } => (HttpMethod::Get, "/tenants/"@ + tenant_id@ + "/quotas"@),
        QuotasSubCmd::Assign { tenant_id, dimension, .. } => (
            HttpMethod::Put,
            "/tenants/"@ + tenant_id@ + "/quotas/"@ + dimension@,
        ),
        QuotasSubCmd::Delete { tenant_id, dimension } => (
            HttpMethod::Delete,
            "/tenants/"@ + tenant_id@ + "/quotas/"@ + dimension@,
        ),
    }
}

impl QuotasSubCmd {
    /// The request this subcommand sends.
    pub fn route(&self) -> (r: RequestRoute)
        ensures
            r.method == quotas_route(self).0,
            r.path@ == quotas_route(self).1,
    {
        match self {
            QuotasSubCmd::List { tenant_id } => RequestRoute {
                method: HttpMethod::Get,
                path: cat3("/tenants/", tenant_id.as_str(), "/quotas"),
            },
            QuotasSubCmd::Assign { tenant_id, dimension, .. } => RequestRoute {
                method: HttpMethod::Put,
                path: cat4("/tenants/", tenant_id.as_str(), "/quotas/", dimension.as_str()),
            },
            QuotasSubCmd::Delete { tenant_id, dimension } => RequestRoute {
                method: HttpMethod::Delete,
                path: cat4("/tenants/", tenant_id.as_str(), "/quotas/", dimension.as_str()),
            },
        }
    }
}

/// The route of a tenants subcommand; nested namespace and quota
/// subcommands route as their own enums do.
pub open spec fn tenants_route(c: &TenantsCmd) -> (HttpMethod, Seq<char>) {
    match c {
        TenantsCmd::List => (HttpMethod::Get, "/tenants"@),
        TenantsCmd::Create { .. } => (HttpMethod::Post, "/tenants"@),
        TenantsCmd::Update { id, .. } => (HttpMethod::Patch, "/tenants/"@ + id@),
        TenantsCmd::Delete { id } => (HttpMethod::Delete, "/tenants/"@ + id@),
        TenantsCmd::Namespaces { cmd } => namespaces_route(cmd),
        TenantsCmd::Quotas { cmd } => quotas_route(cmd),
        TenantsCmd::Usage { id } => (HttpMethod::Get, "/tenants/"@ + id@ + "/usage"@),
    }
}

impl TenantsCmd {
    /// The request this subcommand sends.
    pub fn route(&self) -> (r: RequestRoute)
        ensures
            r.method == tenants_route(self).0,
            r.path@ == tenants_route(self).1,
    {
        match self {
            TenantsCmd::List => RequestRoute { method: HttpMethod::Get, path: "/tenants".to_owned() },
            TenantsCmd::Create { .. } => RequestRoute {
                method: HttpMethod::Post,
                path: "/tenants".to_owned(),
            },
            TenantsCmd::Update { id, .. } => RequestRoute {
                method: HttpMethod::Patch,
                path: cat2("/tenants/", id.as_str()),
            },
            TenantsCmd::Delete { id } => RequestRoute {
                method: HttpMethod::Delete,
                path: cat2("/tenants/", id.as_str()),
            },
            TenantsCmd::Namespaces { cmd } => cmd.route(),
            TenantsCmd::Quotas { cmd } => cmd.route(),
            TenantsCmd::Usage { id } => RequestRoute {
                method: HttpMethod::Get,
                path: cat3("/tenants/", id.as_str(), "/usage"),
            },
        }
    }
}

/// Workflows.
pub enum WorkflowsCmd {
    Create {
        name: String,
        description: Option<String>,
        definition: Option<String>,
        definition_file: Option<String>,
    },
    List,
    Get { name: String },
    Update {
        name: String,
        description: Option<String>,
        definition: Option<String>,
        definition_file: Option<String>,
    },
    Delete { name: String },
    Versions { cmd: WfVersionsCmd },
    Run { name: String, input: Option<String> },
    Runs { cmd: WfRunsCmd },
}

/// Versions of one workflow.
pub enum WfVersionsCmd {
    Publish { name: String, definition: Option<String>, definition_file: Option<String> },
    List { name: String },
    Get { name: String, version: u32 },
}

/// Runs of one workflow.
pub enum WfRunsCmd {
    List { name: String },
    Get { name: String, id: String },
    Cancel { name: String, id: String },
}

/// The route of a workflow-versions subcommand.
pub open spec fn wf_versions_route(c: &WfVersionsCmd) -> (HttpMethod, Seq<char>) {
    match c {
        WfVersionsCmd::Publish { name, .. } => (
            HttpMethod::Post,
            "/workflows/"@ + name@ + "/versions"@,
        ),
        WfVersionsCmd::List { name } => (HttpMethod::Get, "/workflows/"@ + name@ + "/versions"@),
        WfVersionsCmd::Get { name, version } => (
            HttpMethod::Get,
            "/workflows/"@ + name@ + "/versions/"@ + dec_rep(*version as int),
        ),
    }
}

impl WfVersionsCmd {
    /// The request this subcommand sends.
    pub fn route(&self) -> (r: RequestRoute)
        ensures
            r.method == wf_versions_route(self).0,
            r.path@ == wf_versions_route(self).1,
    {
        match self {
            WfVersionsCmd::Publish { name, .. } => RequestRoute {
                method: HttpMethod::Post,
                path: cat3("/workflows/", name.as_str(), "/versions"),
            },
            WfVersionsCmd::List { name } => RequestRoute {
                method: HttpMethod::Get,
                path: cat3("/workflows/", name.as_str(), "/versions"),
            },
            WfVersionsCmd::Get { name, version } => {
                let mut p = cat3("/workflows/", name.as_str(), "/versions/");
                push_decimal(&mut p, *version as u64);
                RequestRoute { method: HttpMethod::Get, path: p }
            },
        }
    }
}

/// The route of a workflow-runs subcommand.
pub open spec fn wf_runs_route(c: &WfRunsCmd) -> (HttpMethod, Seq<char>) {
    match c {
        WfRunsCmd::List { name } => (HttpMethod::Get, "/workflows/"@ + name@ + "/runs"@),
        WfRunsCmd::Get { name, id } => (HttpMethod::Get, "/workflows/"@ + name@ + "/runs/"@ + id@),
        WfRunsCmd::Cancel { name, id } => (
            HttpMethod::Post,
            "/workflows/"@ + name@ + "/runs/"@ + id@ + "/cancel"@,
        ),
    }
}

impl WfRunsCmd {
    /// The request this subcommand sends.
    pub fn route(&self) -> (r: RequestRoute)
        ensures
            r.method == wf_runs_route(self).0,
            r.path@ == wf_runs_route(self).1,
    {
        match self {
            WfRunsCmd::List { name } => RequestRoute {
                method: HttpMethod::Get,
                path: cat3("/workflows/", name.as_str(), "/runs"),
            },
            WfRunsCmd::Get { name, id } => RequestRoute {
                method: HttpMethod::Get,
                path: cat4("/workflows/", name.as_str(), "/runs/", id.as_str()),
            },
            WfRunsCmd::Cancel { name, id } => RequestRoute {
                method: HttpMethod::Post,
                path: cat5("/workflows/", name.as_str(), "/runs/", id.as_str(), "/cancel"),
            },
        }
    }
}

/// The route of a workflows subcommand; nested version and run subcommands
/// route as their own enums do.
pub open spec fn workflows_route(c: &WorkflowsCmd) -> (HttpMethod, Seq<char>) {
    match c {
        WorkflowsCmd::Create { .. } => (HttpMethod::Post, "/workflows"@),
        WorkflowsCmd::List => (HttpMethod::Get, "/workflows"@),
        WorkflowsCmd::Get { name } => (HttpMethod::Get, "/workflows/"@ + name@),
        WorkflowsCmd::Update { name, .. } => (HttpMethod::Put, "/workflows/"@ + name@),
        WorkflowsCmd::Delete { name } => (HttpMethod::Delete, "/workflows/"@ + name@),
        WorkflowsCmd::Versions { cmd } => wf_versions_route(cmd),
        WorkflowsCmd::Run { name, .. } => (HttpMethod::Post, "/workflows/"@ + name@ + "/run"@),
        WorkflowsCmd::Runs { cmd } => wf_runs_route(cmd),
    }
}

impl WorkflowsCmd {
    /// The request this subcommand sends.
    pub fn route(&self) -> (r: RequestRoute)
        ensures
            r.method == workflows_route(self).0,
            r.path@ == workflows_route(self).1,
    {
        match self {
            WorkflowsCmd::Create { .. } => RequestRoute {
                method: HttpMethod::Post,
                path: "/workflows".to_owned(),
            },
            WorkflowsCmd::List => RequestRoute {
                method: HttpMethod::Get,
                path: "/workflows".to_owned(),
            },
            WorkflowsCmd::Get { name } => RequestRoute {
                method: HttpMethod::Get,
                path: cat2("/workflows/", name.as_str()),
            },
            WorkflowsCmd::Update { name, .. } => RequestRoute {
                method: HttpMethod::Put,
                path: cat2("/workflows/", name.as_str()),
            },
            WorkflowsCmd::Delete { name } => RequestRoute {
                method: HttpMethod::Delete,
                path: cat2("/workflows/", name.as_str()),
            },
            WorkflowsCmd::Versions { cmd } => cmd.route(),
            WorkflowsCmd::Run { name, .. } => RequestRoute {
                method: HttpMethod::Post,
                path: cat3("/workflows/", name.as_str(), "/run"),
            },
            WorkflowsCmd::Runs { cmd } => cmd.route(),
        }
    }
}

} // verus!
