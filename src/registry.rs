use crate::json::{
    json_map_entries, json_object_entries, prompt_arguments, tool_call_arguments,
    wrapped_arguments, JsonObject,
};
use crate::logs::{bounded_push, LogBuffer, McpLogEntry};
use crate::types::{
    McpError, McpPrompt, McpPromptGetRequest, McpResource, McpResourceReadRequest,
    McpServerConfig, McpTool, McpToolCallRequest,
};
use vstd::prelude::*;
use vstd::string::StringExecFns;

verus! {

/// The runtime record of one connected server. `C` is the live connection, owned by the
/// record: dropping the record closes the connection.
pub struct ServerInfo<C> {
    pub config: McpServerConfig,
    pub tools: Vec<McpTool>,
    pub resources: Vec<McpResource>,
    pub prompts: Vec<McpPrompt>,
    pub is_connected: bool,
    pub service: C,
    pub logs: LogBuffer,
}

impl<C> ServerInfo<C> {
    /// The record of a server that has just connected: no log lines yet.
    pub fn new(
        config: McpServerConfig,
        tools: Vec<McpTool>,
        resources: Vec<McpResource>,
        prompts: Vec<McpPrompt>,
        service: C,
    ) -> (r: Self)
        ensures
            r.config == config,
            r.tools == tools,
            r.resources == resources,
            r.prompts == prompts,
            r.service == service,
            r.is_connected,
            r.logs@.len() == 0,
    {
        ServerInfo { config, tools, resources, prompts, is_connected: true, service, logs: LogBuffer::new() }
    }
}

/// The registry as a sequence of (server id, record) pairs, in registration order.
pub type Entries<C> = Seq<(String, ServerInfo<C>)>;

/// The server ids of `s`, in order.
pub open spec fn ids_of<C>(s: Entries<C>) -> Seq<Seq<char>> {
    s.map_values(|p: (String, ServerInfo<C>)| p.0@)
}

/// No two entries of `s` share an id.
pub open spec fn unique_ids<C>(s: Entries<C>) -> bool {
    forall|i: int, j: int| 0 <= i < s.len() && 0 <= j < s.len() && i != j ==> s[i].0@ != s[j].0@
}

/// Some entry of `s` is registered under `id`.
pub open spec fn has_id<C>(s: Entries<C>, id: Seq<char>) -> bool {
    exists|i: int| 0 <= i < s.len() && s[i].0@ == id
}

/// The position of the entry registered under `id` (meaningful when `has_id(s, id)`).
pub open spec fn index_of<C>(s: Entries<C>, id: Seq<char>) -> int {
    choose|i: int| 0 <= i < s.len() && s[i].0@ == id
}

/// Holds of the entries not registered under `id`.
pub open spec fn id_is_not<C>(id: Seq<char>) -> spec_fn((String, ServerInfo<C>)) -> bool {
    |p: (String, ServerInfo<C>)| p.0@ != id
}

/// `s` without the entry registered under `id`.
pub open spec fn without<C>(s: Entries<C>, id: Seq<char>) -> Entries<C> {
    s.filter(id_is_not(id))
}

/// An entry is registered under `id` and its connection is up.
pub open spec fn is_available<C>(s: Entries<C>, id: Seq<char>) -> bool {
    has_id(s, id) && s[index_of(s, id)].1.is_connected
}

/// `e` is the error for an invocation against `id` when `id` is not available: the bare id
/// when nothing is registered under it, a sentence when its connection is down.
pub open spec fn is_lookup_error<C>(s: Entries<C>, id: Seq<char>, e: McpError) -> bool {
    if !has_id(s, id) {
        e matches McpError::ServerNotFound(d) && d@ == id
    } else {
        e matches McpError::ServerNotFound(d) && d@ == "Server "@ + id + " is not connected"@
    }
}

/// The tools of the connected entries of `s`, entry by entry.
pub open spec fn connected_tools<C>(s: Entries<C>) -> Seq<McpTool>
    decreases s.len(),
{
    if s.len() == 0 {
        Seq::empty()
    } else if s.last().1.is_connected {
        connected_tools(s.drop_last()) + s.last().1.tools@
    } else {
        connected_tools(s.drop_last())
    }
}

/// The resources of the connected entries of `s`, entry by entry.
pub open spec fn connected_resources<C>(s: Entries<C>) -> Seq<McpResource>
    decreases s.len(),
{
    if s.len() == 0 {
        Seq::empty()
    } else if s.last().1.is_connected {
        connected_resources(s.drop_last()) + s.last().1.resources@
    } else {
        connected_resources(s.drop_last())
    }
}

/// The views of the prompts `ps`, in order.
pub open spec fn prompt_views(ps: Seq<McpPrompt>) -> Seq<<McpPrompt as View>::V> {
    ps.map_values(|p: McpPrompt| p@)
}

/// The prompts of the connected entries of `s`, entry by entry.
pub open spec fn connected_prompts<C>(s: Entries<C>) -> Seq<<McpPrompt as View>::V>
    decreases s.len(),
{
    if s.len() == 0 {
        Seq::empty()
    } else if s.last().1.is_connected {
        connected_prompts(s.drop_last()) + prompt_views(s.last().1.prompts@)
    } else {
        connected_prompts(s.drop_last())
    }
}

/// `t` is `s` with `e` appended to the log of the entry at `i`, everything else unchanged.
pub open spec fn log_appended<C>(s: Entries<C>, t: Entries<C>, i: int, e: McpLogEntry) -> bool {
    &&& t.len() == s.len()
    &&& forall|j: int| 0 <= j < s.len() && j != i ==> t[j] == s[j]
    &&& t[i].0 == s[i].0
    &&& t[i].1.config == s[i].1.config
    &&& t[i].1.tools == s[i].1.tools
    &&& t[i].1.resources == s[i].1.resources
    &&& t[i].1.prompts == s[i].1.prompts
    &&& t[i].1.is_connected == s[i].1.is_connected
    &&& t[i].1.service == s[i].1.service
    &&& t[i].1.logs@ == bounded_push(s[i].1.logs@, e)
}

/// Stopping a server id that is not registered is a no-op: the registry is unchanged.
pub proof fn lemma_stop_unregistered_is_noop<C>(s: Entries<C>, id: Seq<char>)
    requires
        !has_id(s, id),
    ensures
        without(s, id) == s,
    decreases s.len(),
{
    reveal(Seq::filter);
    if s.len() > 0 {
        assert(!has_id(s.drop_last(), id)) by {
            if has_id(s.drop_last(), id) {
                let i = choose|i: int| 0 <= i < s.drop_last().len() && s.drop_last()[i].0@ == id;
                assert(s[i].0@ == id);
            }
        }
        lemma_stop_unregistered_is_noop(s.drop_last(), id);
        assert(s.last().0@ != id) by {
            assert(s[s.len() - 1].0@ != id);
        }
        assert(s.drop_last().push(s.last()) =~= s);
    } else {
        assert(without(s, id) =~= s);
    }
}

/// A registered id stays listed until it is stopped, and is never listed after: it is
/// listed once registered; stopping or registering any other id keeps it listed; stopping
/// it unlists it.
pub proof fn lemma_listed_until_stopped<C>(s: Entries<C>, server_id: String, info: ServerInfo<C>, other: String, other_info: ServerInfo<C>)
    ensures
        ids_of(without(s, server_id@).push((server_id, info))).contains(server_id@),
        ids_of(s).contains(server_id@) && other@ != server_id@ ==> ids_of(without(s, other@)).contains(server_id@),
        ids_of(s).contains(server_id@) && other@ != server_id@ ==> ids_of(without(s, other@).push((other, other_info))).contains(server_id@),
        !ids_of(without(s, server_id@)).contains(server_id@),
{
    let id = server_id@;
    let t = without(s, id).push((server_id, info));
    assert(ids_of(t)[t.len() - 1] == id);
    if ids_of(s).contains(id) && other@ != id {
        let i = choose|i: int| 0 <= i < ids_of(s).len() && ids_of(s)[i] == id;
        assert(s[i].0@ == id);
        s.lemma_filter_contains(id_is_not::<C>(other@), i);
        let u = without(s, other@);
        let k = choose|k: int| 0 <= k < u.len() && u[k] == s[i];
        assert(ids_of(u)[k] == id);
        let v = u.push((other, other_info));
        assert(ids_of(v)[k] == id);
    }
    let w = without(s, id);
    if ids_of(w).contains(id) {
        let k = choose|k: int| 0 <= k < ids_of(w).len() && ids_of(w)[k] == id;
        s.lemma_filter_pred(id_is_not::<C>(id), k);
    }
}

proof fn lemma_without_single<C>(s: Entries<C>, id: Seq<char>, i: int)
    requires
        unique_ids(s),
        0 <= i < s.len(),
        s[i].0@ == id,
    ensures
        without(s, id) == s.remove(i),
{
    let pred = id_is_not::<C>(id);
    let a = s.subrange(0, i);
    let b = seq![s[i]];
    let c = s.subrange(i + 1, s.len() as int);
    assert(s == a + b + c) by {
        assert(s =~= a + b + c);
    }
    assert(!has_id(a, id)) by {
        if has_id(a, id) {
            let j = choose|j: int| 0 <= j < a.len() && a[j].0@ == id;
            assert(a[j] == s[j]);
        }
    }
    assert(!has_id(c, id)) by {
        if has_id(c, id) {
            let j = choose|j: int| 0 <= j < c.len() && c[j].0@ == id;
            assert(c[j] == s[i + 1 + j]);
        }
    }
    lemma_stop_unregistered_is_noop(a, id);
    lemma_stop_unregistered_is_noop(c, id);
    assert(a.filter(pred) == a);
    assert(c.filter(pred) == c);
    Seq::filter_distributes_over_add(a + b, c, pred);
    Seq::filter_distributes_over_add(a, b, pred);
    assert(b.filter(pred) == Seq::<(String, ServerInfo<C>)>::empty()) by {
        reveal_with_fuel(Seq::filter, 2);
        assert(b.drop_last() =~= Seq::<(String, ServerInfo<C>)>::empty());
        assert(b.filter(pred) =~= Seq::<(String, ServerInfo<C>)>::empty());
    }
    assert(s.filter(pred) =~= a + c);
    assert(s.remove(i) =~= a + c);
}

proof fn lemma_unique_after_remove<C>(s: Entries<C>, i: int)
    requires
        unique_ids(s),
        0 <= i < s.len(),
    ensures
        unique_ids(s.remove(i)),
        !has_id(s.remove(i), s[i].0@),
{
    let t = s.remove(i);
    assert forall|a: int, b: int| 0 <= a < t.len() && 0 <= b < t.len() && a != b implies t[a].0@
        != t[b].0@ by {
        let a2 = if a < i { a } else { a + 1 };
        let b2 = if b < i { b } else { b + 1 };
        assert(t[a] == s[a2]);
        assert(t[b] == s[b2]);
    }
    if has_id(t, s[i].0@) {
        let j = choose|j: int| 0 <= j < t.len() && t[j].0@ == s[i].0@;
        let j2 = if j < i { j } else { j + 1 };
        assert(t[j] == s[j2]);
    }
}

/// The connection registry: server id to runtime record, one record per id.
pub struct McpManager<C> {
    servers: Vec<(String, ServerInfo<C>)>,
}

impl<C> View for McpManager<C> {
    type V = Entries<C>;

    closed spec fn view(&self) -> Entries<C> {
        self.servers@
    }
}

/// What an accepted tool call hands to the connection.
pub struct ToolCall {
    pub tool_name: String,
    pub arguments: Option<JsonObject>,
}

/// What an accepted prompt request hands to the connection.
pub struct PromptCall {
    pub name: String,
    pub arguments: Option<JsonObject>,
}

impl<C> McpManager<C> {
    #[verifier::type_invariant]
    spec fn ids_are_unique(self) -> bool {
        unique_ids(self.servers@)
    }

    /// An empty registry.
    pub fn new() -> (r: Self)
        ensures
            r@ == Entries::<C>::empty(),
    {
        McpManager { servers: Vec::new() }
    }

    /// The position of the entry registered under `server_id`.
    fn position(&self, server_id: &str) -> (r: Option<usize>)
        ensures
            unique_ids(self@),
            match r {
                Some(i) => i < self@.len() && self@[i as int].0@ == server_id@ && index_of(
                    self@,
                    server_id@,
                ) == i && has_id(self@, server_id@),
                None => !has_id(self@, server_id@),
            },
    {
        proof {
            use_type_invariant(self);
        }
        let key = String::from_str(server_id);
        let mut i: usize = 0;
        while i < self.servers.len()
            invariant
                i <= self.servers@.len(),
                key@ == server_id@,
                unique_ids(self.servers@),
                forall|j: int| 0 <= j < i ==> self.servers@[j].0@ != server_id@,
            decreases self.servers@.len() - i,
        {
            if self.servers[i].0 == key {
                proof {
                    let k = index_of(self@, server_id@);
                    assert(0 <= k < self@.len() && self@[k].0@ == server_id@);
                }
                return Some(i);
            }
            i = i + 1;
        }
        None
    }

    /// Removes the entry registered under `server_id`, if any, and hands it back so that
    /// dropping it closes its connection. An id that is not registered is no error: the
    /// registry is left as it was.
    pub fn stop_server(&mut self, server_id: &str) -> (removed: Option<ServerInfo<C>>)
        ensures
            final(self)@ == without(old(self)@, server_id@),
            unique_ids(final(self)@),
            !has_id(final(self)@, server_id@),
            match removed {
                Some(info) => has_id(old(self)@, server_id@) && info == old(self)@[index_of(
                    old(self)@,
                    server_id@,
                )].1,
                None => !has_id(old(self)@, server_id@),
            },
    {
        match self.position(server_id) {
            None => {
                proof {
                    lemma_stop_unregistered_is_noop(self@, server_id@);
                }
                None
            },
            Some(i) => {
                let mut servers = Vec::new();
                std::mem::swap(&mut servers, &mut self.servers);
                let (_, info) = servers.remove(i);
                proof {
                    lemma_without_single(old(self)@, server_id@, i as int);
                    lemma_unique_after_remove(old(self)@, i as int);
                }
                self.servers = servers;
                Some(info)
            },
        }
    }

    /// Registers `info` under `server_id`. A record already registered under that id is
    /// stopped first and handed back: the new record takes its place at the end.
    pub fn insert_server(&mut self, server_id: String, info: ServerInfo<C>) -> (replaced: Option<
        ServerInfo<C>,
    >)
        ensures
            final(self)@ == without(old(self)@, server_id@).push((server_id, info)),
            unique_ids(final(self)@),
            has_id(final(self)@, server_id@),
            match replaced {
                Some(prev) => has_id(old(self)@, server_id@) && prev == old(self)@[index_of(
                    old(self)@,
                    server_id@,
                )].1,
                None => !has_id(old(self)@, server_id@),
            },
    {
        let replaced = self.stop_server(server_id.as_str());
        let ghost mid = self@;
        let mut servers = Vec::new();
        std::mem::swap(&mut servers, &mut self.servers);
        servers.push((server_id, info));
        proof {
            let t = servers@;
            assert forall|a: int, b: int| 0 <= a < t.len() && 0 <= b < t.len() && a != b implies t[a].0@
                != t[b].0@ by {
                if a == t.len() - 1 {
                    assert(!(0 <= b < mid.len() && mid[b].0@ == server_id@));
                } else if b == t.len() - 1 {
                    assert(!(0 <= a < mid.len() && mid[a].0@ == server_id@));
                }
            }
            assert(t[t.len() - 1].0@ == server_id@);
        }
        self.servers = servers;
        replaced
    }

    /// Removes every entry, handing back their ids in registry order.
    pub fn stop_all(&mut self) -> (ids: Vec<String>)
        ensures
            final(self)@ == Entries::<C>::empty(),
            ids@ == old(self)@.map_values(|p: (String, ServerInfo<C>)| p.0),
    {
        let ids = self.list_servers();
        self.servers = Vec::new();
        ids
    }

    /// The registered server ids, in registry order.
    pub fn list_servers(&self) -> (ids: Vec<String>)
        ensures
            ids@ == self@.map_values(|p: (String, ServerInfo<C>)| p.0),
            ids@.map_values(|s: String| s@) == ids_of(self@),
    {
        let mut ids: Vec<String> = Vec::new();
        let mut i: usize = 0;
        while i < self.servers.len()
            invariant
                i <= self.servers@.len(),
                ids@ == self.servers@.subrange(0, i as int).map_values(
                    |p: (String, ServerInfo<C>)| p.0,
                ),
            decreases self.servers@.len() - i,
        {
            ids.push(self.servers[i].0.clone());
            i = i + 1;
            assert(ids@ =~= self.servers@.subrange(0, i as int).map_values(
                |p: (String, ServerInfo<C>)| p.0,
            ));
        }
        assert(self.servers@.subrange(0, i as int) =~= self.servers@);
        assert(ids@.map_values(|s: String| s@) =~= ids_of(self@));
        ids
    }

    /// Every tool of every connected server, server by server in registry order.
    pub fn list_tools(&self) -> (r: Vec<McpTool>)
        ensures
            r@ == connected_tools(self@),
    {
        let mut r: Vec<McpTool> = Vec::new();
        let mut i: usize = 0;
        while i < self.servers.len()
            invariant
                i <= self.servers@.len(),
                r@ == connected_tools(self.servers@.subrange(0, i as int)),
            decreases self.servers@.len() - i,
        {
            let info = &self.servers[i].1;
            if info.is_connected {
                let mut j: usize = 0;
                let ghost start = r@;
                while j < info.tools.len()
                    invariant
                        j <= info.tools@.len(),
                        r@ == start + info.tools@.subrange(0, j as int),
                    decreases info.tools@.len() - j,
                {
                    r.push(info.tools[j].clone());
                    j = j + 1;
                    assert(r@ =~= start + info.tools@.subrange(0, j as int));
                }
                assert(info.tools@.subrange(0, j as int) =~= info.tools@);
            }
            i = i + 1;
            assert(self.servers@.subrange(0, i as int).drop_last() =~= self.servers@.subrange(
                0,
                i - 1,
            ));
        }
        assert(self.servers@.subrange(0, i as int) =~= self.servers@);
        r
    }

    /// Every resource of every connected server, server by server in registry order.
    pub fn list_resources(&self) -> (r: Vec<McpResource>)
        ensures
            r@ == connected_resources(self@),
    {
        let mut r: Vec<McpResource> = Vec::new();
        let mut i: usize = 0;
        while i < self.servers.len()
            invariant
                i <= self.servers@.len(),
                r@ == connected_resources(self.servers@.subrange(0, i as int)),
            decreases self.servers@.len() - i,
        {
            let info = &self.servers[i].1;
            if info.is_connected {
                let mut j: usize = 0;
                let ghost start = r@;
                while j < info.resources.len()
                    invariant
                        j <= info.resources@.len(),
                        r@ == start + info.resources@.subrange(0, j as int),
                    decreases info.resources@.len() - j,
                {
                    r.push(info.resources[j].clone());
                    j = j + 1;
                    assert(r@ =~= start + info.resources@.subrange(0, j as int));
                }
                assert(info.resources@.subrange(0, j as int) =~= info.resources@);
            }
            i = i + 1;
            assert(self.servers@.subrange(0, i as int).drop_last() =~= self.servers@.subrange(
                0,
                i - 1,
            ));
        }
        assert(self.servers@.subrange(0, i as int) =~= self.servers@);
        r
    }

    /// Every prompt of every connected server, server by server in registry order.
    pub fn list_prompts(&self) -> (r: Vec<McpPrompt>)
        ensures
            prompt_views(r@) == connected_prompts(self@),
    {
        let mut r: Vec<McpPrompt> = Vec::new();
        let mut i: usize = 0;
        while i < self.servers.len()
            invariant
                i <= self.servers@.len(),
                prompt_views(r@) == connected_prompts(self.servers@.subrange(0, i as int)),
            decreases self.servers@.len() - i,
        {
            let info = &self.servers[i].1;
            if info.is_connected {
                let mut j: usize = 0;
                let ghost start = prompt_views(r@);
                while j < info.prompts.len()
                    invariant
                        j <= info.prompts@.len(),
                        prompt_views(r@) == start + prompt_views(
                            info.prompts@.subrange(0, j as int),
                        ),
                    decreases info.prompts@.len() - j,
                {
                    let p = info.prompts[j].clone();
                    let ghost before = r@;
                    r.push(p);
                    j = j + 1;
                    assert(prompt_views(r@) =~= prompt_views(before) + seq![p@]);
                    assert(prompt_views(r@) =~= start + prompt_views(
                        info.prompts@.subrange(0, j as int),
                    ));
                }
                assert(info.prompts@.subrange(0, j as int) =~= info.prompts@);
            }
            i = i + 1;
            assert(self.servers@.subrange(0, i as int).drop_last() =~= self.servers@.subrange(
                0,
                i - 1,
            ));
        }
        assert(self.servers@.subrange(0, i as int) =~= self.servers@);
        r
    }

    /// A copy of the log of `server_id`, oldest entry first.
    pub fn get_server_logs(&self, server_id: &str) -> (r: Result<Vec<McpLogEntry>, McpError>)
        ensures
            r is Ok <==> has_id(self@, server_id@),
            match r {
                Ok(logs) => logs@ == self@[index_of(self@, server_id@)].1.logs@,
                Err(e) => e matches McpError::ServerNotFound(d) && d@ == server_id@,
            },
    {
        match self.position(server_id) {
            Some(i) => Ok(self.servers[i].1.logs.snapshot()),
            None => Err(McpError::ServerNotFound(String::from_str(server_id))),
        }
    }

    /// Appends `entry` to the log of `server_id`, evicting its oldest entry when the log is
    /// full. Returns whether the server was registered; if not, nothing changes.
    pub fn add_log_entry(&mut self, server_id: &str, entry: McpLogEntry) -> (appended: bool)
        ensures
            appended == has_id(old(self)@, server_id@),
            ids_of(final(self)@) == ids_of(old(self)@),
            appended ==> log_appended(
                old(self)@,
                final(self)@,
                index_of(old(self)@, server_id@),
                entry,
            ),
            !appended ==> final(self)@ == old(self)@,
    {
        match self.position(server_id) {
            None => false,
            Some(i) => {
                let mut servers = Vec::new();
                std::mem::swap(&mut servers, &mut self.servers);
                let mut pair = servers.remove(i);
                pair.1.logs.push(entry);
                servers.insert(i, pair);
                proof {
                    let s = old(self)@;
                    let t = servers@;
                    assert(t =~= s.remove(i as int).insert(i as int, pair));
                    assert forall|a: int, b: int| 0 <= a < t.len() && 0 <= b < t.len() && a
                        != b implies t[a].0@ != t[b].0@ by {
                        assert(t[a].0@ == s[a].0@);
                        assert(t[b].0@ == s[b].0@);
                    }
                    assert(ids_of(t) =~= ids_of(s));
                }
                self.servers = servers;
                true
            },
        }
    }

    /// The connection of `server_id`, provided that it is registered and connected.
    fn available(&self, server_id: &str) -> (r: Result<&C, McpError>)
        ensures
            r is Ok <==> is_available(self@, server_id@),
            match r {
                Ok(c) => *c == self@[index_of(self@, server_id@)].1.service,
                Err(e) => is_lookup_error(self@, server_id@, e),
            },
    {
        match self.position(server_id) {
            None => Err(McpError::ServerNotFound(String::from_str(server_id))),
            Some(i) => {
                if self.servers[i].1.is_connected {
                    Ok(&self.servers[i].1.service)
                } else {
                    let mut d = String::from_str("Server ");
                    d.append(server_id);
                    d.append(" is not connected");
                    Err(McpError::ServerNotFound(d))
                }
            },
        }
    }

    /// Accepts a tool call: finds the connection of the server named in `request` and
    /// shapes the arguments to transmit (an object as it is, a bare value wrapped under
    /// `"value"`).
    pub fn prepare_call_tool(&self, request: McpToolCallRequest) -> (r: Result<(&C, ToolCall), McpError>)
        ensures
            r is Ok <==> is_available(self@, request.server_id@),
            match r {
                Ok((c, call)) => {
                    &&& *c == self@[index_of(self@, request.server_id@)].1.service
                    &&& call.tool_name == request.tool_name
                    &&& (call.arguments is None <==> request.arguments is None)
                    &&& (request.arguments matches Some(v) ==> json_map_entries(call.arguments.unwrap()) == wrapped_arguments(v))
                },
                Err(e) => is_lookup_error(self@, request.server_id@, e),
            },
    {
        let c = self.available(request.server_id.as_str())?;
        let arguments = tool_call_arguments(request.arguments);
        Ok((c, ToolCall { tool_name: request.tool_name, arguments }))
    }

    /// Accepts a resource read: finds the connection of the server named in `request`.
    pub fn prepare_read_resource(&self, request: McpResourceReadRequest) -> (r: Result<(&C, String), McpError>)
        ensures
            r is Ok <==> is_available(self@, request.server_id@),
            match r {
                Ok((c, uri)) => *c == self@[index_of(self@, request.server_id@)].1.service && uri == request.uri,
                Err(e) => is_lookup_error(self@, request.server_id@, e),
            },
    {
        let c = self.available(request.server_id.as_str())?;
        Ok((c, request.uri))
    }

    /// Accepts a prompt request: finds the connection of the server named in `request`;
    /// arguments are passed on only when they form an object.
    pub fn prepare_get_prompt(&self, request: McpPromptGetRequest) -> (r: Result<(&C, PromptCall), McpError>)
        ensures
            r is Ok <==> is_available(self@, request.server_id@),
            match r {
                Ok((c, call)) => {
                    &&& *c == self@[index_of(self@, request.server_id@)].1.service
                    &&& call.name == request.name
                    &&& match request.arguments {
                        Some(v) => match json_object_entries(v) {
                            Some(entries) => call.arguments is Some && json_map_entries(call.arguments.unwrap()) == entries,
                            None => call.arguments is None,
                        },
                        None => call.arguments is None,
                    }
                },
                Err(e) => is_lookup_error(self@, request.server_id@, e),
            },
    {
        let c = self.available(request.server_id.as_str())?;
        let arguments = prompt_arguments(request.arguments);
        Ok((c, PromptCall { name: request.name, arguments }))
    }
}

} // verus!
