//! Which connections a core keeps to its peripheries.

use vstd::prelude::*;
use crate::address::fix_ws_address;
use crate::address;
use crate::text;
use crate::text_map::TextMap;

verus! {

/// How a server is to be connected.
pub struct ServerConfig {
    pub enabled: bool,
    /// The address of the periphery. Empty where the periphery connects to the
    /// core.
    pub address: String,
    /// The private key of the core for this server. Empty for the default.
    pub private_key: String,
    /// The public key expected of the periphery. Empty for the default.
    pub public_key: String,
}

/// A server.
pub struct Server {
    pub id: String,
    pub name: String,
    pub config: ServerConfig,
}

/// Which servers specify a connection.
#[derive(Debug, Clone, Copy, PartialEq, Eq, Structural)]
pub enum SpecFilter {
    /// Those that are enabled.
    Enabled,
    /// Those that have an address.
    HasAddress,
}

/// Whether `server` specifies a connection.
pub open spec fn is_spec(server: Server, filter: SpecFilter) -> bool {
    match filter {
        SpecFilter::Enabled => server.config.enabled,
        SpecFilter::HasAddress => server.config.address@.len() > 0,
    }
}

/// Whether server number `i` is the one that specifies the connection of its
/// id: the last of those that do.
pub open spec fn specifies(servers: Seq<Server>, filter: SpecFilter, i: int) -> bool {
    &&& 0 <= i < servers.len()
    &&& is_spec(servers[i], filter)
    &&& forall|j: int| i < j < servers.len() && is_spec(#[trigger] servers[j], filter) ==> servers[j].id@ != servers[i].id@
}

/// Whether a server specifies the connection of `id`.
pub open spec fn is_specced(servers: Seq<Server>, filter: SpecFilter, id: Seq<char>) -> bool {
    exists|i: int| 0 <= i < servers.len() && is_spec(#[trigger] servers[i], filter) && servers[i].id@ == id
}

/// What is done about the connection of a server.
#[derive(Debug, Clone, Copy, PartialEq, Eq, Structural)]
pub enum Outcome {
    /// Nothing.
    Keep,
    /// The connection is cancelled.
    Cancel,
    /// A connection is spawned.
    Spawn,
}

/// The addresses of connections, by server id. Inbound connections have none.
pub open spec fn addresses(connections: Map<Seq<char>, Option<String>>) -> Map<Seq<char>, Option<Seq<char>>> {
    connections.map_values(|address: Option<String>| text::optional_view(address))
}

/// What is done about the connection of `server`.
pub open spec fn outcome(server: Server, connections: Map<Seq<char>, Option<Seq<char>>>) -> Outcome {
    let id = server.id@;
    let address = server.config.address@;
    if address.len() == 0 {
        // Periphery -> Core connections
        if connections.contains_key(id) && connections[id] is Some {
            Outcome::Cancel
        } else {
            Outcome::Keep
        }
    } else if connections.contains_key(id) && connections[id] == Some(address::ws_address(address)) {
        Outcome::Keep
    } else {
        Outcome::Spawn
    }
}

/// What a connection is spawned from.
pub struct SpawnSpec {
    pub name: String,
    pub server_id: String,
    pub address: String,
    pub private_key: String,
    /// None where the server has none.
    pub expected_public_key: Option<String>,
}

/// Whether `spec` is what the connection of `server` is spawned from.
pub open spec fn is_spawn_of(server: Server, spec: SpawnSpec) -> bool {
    &&& spec.name@ == server.name@
    &&& spec.server_id@ == server.id@
    &&& spec.address@ == address::ws_address(server.config.address@)
    &&& spec.private_key@ == server.config.private_key@
    &&& match spec.expected_public_key {
        Some(key) => key@ == server.config.public_key@ && key@.len() > 0,
        None => server.config.public_key@.len() == 0,
    }
}

/// The numbers of those of the first `n` servers that specify a connection about
/// which `wanted` is done.
pub open spec fn chosen(
    servers: Seq<Server>,
    filter: SpecFilter,
    connections: Map<Seq<char>, Option<Seq<char>>>,
    wanted: Outcome,
    n: int,
) -> Seq<int>
    decreases n,
{
    if n <= 0 {
        Seq::empty()
    } else {
        let before = chosen(servers, filter, connections, wanted, n - 1);
        if specifies(servers, filter, n - 1) && outcome(servers[n - 1], connections) == wanted {
            before.push(n - 1)
        } else {
            before
        }
    }
}

/// What is done about the connections of a core.
pub struct ConnectionPlan {
    /// The ids of the connections to cancel, and to remove with their channels.
    pub remove: Vec<String>,
    /// The ids of the connections to cancel.
    pub cancel: Vec<String>,
    /// The connections to spawn.
    pub spawn: Vec<SpawnSpec>,
}

/// Whether `plan` is what is to be done.
pub open spec fn is_plan(
    servers: Seq<Server>,
    filter: SpecFilter,
    connections: Map<Seq<char>, Option<String>>,
    plan: ConnectionPlan,
) -> bool {
    let known = addresses(connections);
    let cancelled = chosen(servers, filter, known, Outcome::Cancel, servers.len() as int);
    let spawned = chosen(servers, filter, known, Outcome::Spawn, servers.len() as int);
    &&& text::texts(plan.remove@).no_duplicates()
    &&& forall|id: Seq<char>|
        text::texts(plan.remove@).contains(id) <==> #[trigger] connections.contains_key(id) && !is_specced(
            servers,
            filter,
            id,
        )
    &&& plan.cancel@.len() == cancelled.len()
    &&& forall|k: int| 0 <= k < cancelled.len() ==> (#[trigger] plan.cancel@[k])@ == servers[cancelled[k]].id@
    &&& plan.spawn@.len() == spawned.len()
    &&& forall|k: int| 0 <= k < spawned.len() ==> is_spawn_of(servers[spawned[k]], #[trigger] plan.spawn@[k])
}

/// A text, unless it is empty.
pub fn optional_string(s: &str) -> (r: Option<String>)
    ensures
        match r {
            Some(text) => text@ == s@ && s@.len() > 0,
            None => s@.len() == 0,
        },
{
    if text::is_empty(s) {
        None
    } else {
        Some(s.to_owned())
    }
}

impl Server {
    fn is_spec(&self, filter: SpecFilter) -> (r: bool)
        ensures
            r == is_spec(*self, filter),
    {
        match filter {
            SpecFilter::Enabled => self.config.enabled,
            SpecFilter::HasAddress => !text::is_empty(self.config.address.as_str()),
        }
    }

    fn outcome(&self, connections: &TextMap<Option<String>>) -> (r: Outcome)
        requires
            connections.wf(),
        ensures
            r == outcome(*self, addresses(connections@)),
    {
        if text::is_empty(self.config.address.as_str()) {
            match connections.get(self.id.as_str()) {
                Some(Some(_)) => Outcome::Cancel,
                _ => Outcome::Keep,
            }
        } else {
            let address: String = fix_ws_address(self.config.address.as_str());
            match connections.get(self.id.as_str()) {
                Some(Some(existing)) => {
                    if text::same(existing.as_str(), address.as_str()) {
                        Outcome::Keep
                    } else {
                        Outcome::Spawn
                    }
                },
                _ => Outcome::Spawn,
            }
        }
    }

    fn spawn_spec(&self) -> (r: SpawnSpec)
        ensures
            is_spawn_of(*self, r),
    {
        SpawnSpec {
            name: self.name.as_str().to_owned(),
            server_id: self.id.as_str().to_owned(),
            address: fix_ws_address(self.config.address.as_str()),
            private_key: self.config.private_key.as_str().to_owned(),
            expected_public_key: optional_string(self.config.public_key.as_str()),
        }
    }
}

/// Whether a server specifies the connection of `id`.
fn specced(servers: &Vec<Server>, filter: SpecFilter, id: &str) -> (r: bool)
    ensures
        r == is_specced(servers@, filter, id@),
{
    let mut i: usize = 0;
    while i < servers.len()
        invariant
            i <= servers@.len(),
            forall|j: int| 0 <= j < i ==> !(is_spec(#[trigger] servers@[j], filter) && servers@[j].id@ == id@),
        decreases servers@.len() - i,
    {
        if servers[i].is_spec(filter) && text::same(servers[i].id.as_str(), id) {
            return true;
        }
        i = i + 1;
    }
    false
}

/// Whether server number `i` is the one that specifies the connection of its id.
fn is_last_spec(servers: &Vec<Server>, filter: SpecFilter, i: usize) -> (r: bool)
    requires
        i < servers@.len(),
    ensures
        r == specifies(servers@, filter, i as int),
{
    if !servers[i].is_spec(filter) {
        return false;
    }
    let len: usize = servers.len();
    let mut j: usize = i + 1;
    while j < len
        invariant
            i < j <= len,
            len == servers@.len(),
            is_spec(servers@[i as int], filter),
            forall|k: int|
                i < k < j && is_spec(#[trigger] servers@[k], filter) ==> servers@[k].id@ != servers@[i as int].id@,
        decreases len - j,
    {
        if servers[j].is_spec(filter) && text::same(servers[j].id.as_str(), servers[i].id.as_str()) {
            return false;
        }
        j = j + 1;
    }
    true
}

/// The ids of the connections that no server specifies.
fn removals(servers: &Vec<Server>, filter: SpecFilter, connections: &TextMap<Option<String>>) -> (r: Vec<String>)
    requires
        connections.wf(),
    ensures
        text::texts(r@).no_duplicates(),
        forall|id: Seq<char>|
            text::texts(r@).contains(id) <==> #[trigger] connections@.contains_key(id) && !is_specced(
                servers@,
                filter,
                id,
            ),
{
    let keys: Vec<String> = connections.get_keys();
    let ghost all = text::texts(keys@);
    let mut r: Vec<String> = Vec::new();
    let mut i: usize = 0;
    while i < keys.len()
        invariant
            i <= keys@.len(),
            all == text::texts(keys@),
            all.no_duplicates(),
            text::texts(r@).no_duplicates(),
            forall|id: Seq<char>| #[trigger]
                text::texts(r@).contains(id) <==> (exists|k: int| 0 <= k < i && #[trigger] all[k] == id && !is_specced(
                    servers@,
                    filter,
                    id,
                )),
        decreases keys@.len() - i,
    {
        let ghost before = text::texts(r@);
        let ghost id = all[i as int];
        assert(id == keys@[i as int]@);
        if !specced(servers, filter, keys[i].as_str()) {
            r.push(keys[i].as_str().to_owned());
            proof {
                let after = text::texts(r@);
                assert(after =~= before.push(id));
                assert(!before.contains(id)) by {
                    if before.contains(id) {
                        let k = choose|k: int| 0 <= k < i && #[trigger] all[k] == id && !is_specced(servers@, filter, id);
                        assert(all[k] == all[i as int]);
                    }
                }
                assert forall|other: Seq<char>| #[trigger]
                    after.contains(other) <==> (exists|k: int|
                        0 <= k < i + 1 && #[trigger] all[k] == other && !is_specced(servers@, filter, other)) by {
                    if after.contains(other) {
                        if other == id {
                            assert(all[i as int] == other);
                        } else {
                            let at = choose|at: int| 0 <= at < after.len() && after[at] == other;
                            assert(before[at] == other);
                            assert(before.contains(other));
                        }
                    }
                    if exists|k: int| 0 <= k < i + 1 && #[trigger] all[k] == other && !is_specced(servers@, filter, other) {
                        let k = choose|k: int|
                            0 <= k < i + 1 && #[trigger] all[k] == other && !is_specced(servers@, filter, other);
                        if k == i {
                            assert(after[before.len() as int] == other);
                        } else {
                            assert(before.contains(other));
                            let at = choose|at: int| 0 <= at < before.len() && before[at] == other;
                            assert(after[at] == other);
                        }
                    }
                }
            }
        }
        i = i + 1;
    }
    proof {
        assert forall|id: Seq<char>|
            text::texts(r@).contains(id) <==> #[trigger] connections@.contains_key(id) && !is_specced(
                servers@,
                filter,
                id,
            ) by {
            if connections@.contains_key(id) && !is_specced(servers@, filter, id) {
                assert(all.contains(id));
                let k = choose|k: int| 0 <= k < all.len() && all[k] == id;
                assert(all[k] == id);
            }
            if text::texts(r@).contains(id) {
                let k = choose|k: int| 0 <= k < keys@.len() && #[trigger] all[k] == id && !is_specced(servers@, filter, id);
                assert(all.contains(id));
            }
        }
    }
    r
}

/// What is to be done about the connections of a core, so that it manages
/// exactly those that the servers specify.
fn plan(servers: &Vec<Server>, filter: SpecFilter, connections: &TextMap<Option<String>>) -> (r: ConnectionPlan)
    requires
        connections.wf(),
    ensures
        is_plan(servers@, filter, connections@, r),
{
    let remove: Vec<String> = removals(servers, filter, connections);
    let ghost known = addresses(connections@);
    let mut cancel: Vec<String> = Vec::new();
    let mut spawn: Vec<SpawnSpec> = Vec::new();
    let mut i: usize = 0;
    while i < servers.len()
        invariant
            connections.wf(),
            i <= servers@.len(),
            known == addresses(connections@),
            cancel@.len() == chosen(servers@, filter, known, Outcome::Cancel, i as int).len(),
            spawn@.len() == chosen(servers@, filter, known, Outcome::Spawn, i as int).len(),
            forall|k: int| 0 <= k < cancel@.len() ==> (#[trigger] cancel@[k])@ == servers@[chosen(
                servers@,
                filter,
                known,
                Outcome::Cancel,
                i as int,
            )[k]].id@,
            forall|k: int| 0 <= k < spawn@.len() ==> is_spawn_of(
                servers@[chosen(servers@, filter, known, Outcome::Spawn, i as int)[k]],
                #[trigger] spawn@[k],
            ),
        decreases servers@.len() - i,
    {
        if is_last_spec(servers, filter, i) {
            match servers[i].outcome(connections) {
                Outcome::Keep => {},
                Outcome::Cancel => {
                    cancel.push(servers[i].id.as_str().to_owned());
                },
                Outcome::Spawn => {
                    spawn.push(servers[i].spawn_spec());
                },
            }
        }
        i = i + 1;
    }
    ConnectionPlan { remove, cancel, spawn }
}

/// Managed connections to exactly those specified by the servers that are
/// enabled.
pub fn manage_client_connections(servers: &Vec<Server>, connections: &TextMap<Option<String>>) -> (r: ConnectionPlan)
    requires
        connections.wf(),
    ensures
        is_plan(servers@, SpecFilter::Enabled, connections@, r),
{
    plan(servers, SpecFilter::Enabled, connections)
}

/// Managed connections to exactly those specified by the servers that have an
/// address.
pub fn manage_outbound_connections(servers: &Vec<Server>, connections: &TextMap<Option<String>>) -> (r: ConnectionPlan)
    requires
        connections.wf(),
    ensures
        is_plan(servers@, SpecFilter::HasAddress, connections@, r),
{
    plan(servers, SpecFilter::HasAddress, connections)
}

/// The number of the server that specifies the connection of `id`.
pub open spec fn specifier(servers: Seq<Server>, filter: SpecFilter, id: Seq<char>) -> int {
    choose|i: int| #[trigger] specifies(servers, filter, i) && servers[i].id@ == id
}

/// Of the servers with an id, one specifies its connection, wherever any does.
pub proof fn law_one_server_specifies(servers: Seq<Server>, filter: SpecFilter, id: Seq<char>)
    requires
        is_specced(servers, filter, id),
    ensures
        specifies(servers, filter, specifier(servers, filter, id)),
        servers[specifier(servers, filter, id)].id@ == id,
        forall|i: int| #[trigger]
            specifies(servers, filter, i) && servers[i].id@ == id ==> i == specifier(servers, filter, id),
{
    let i = choose|i: int| 0 <= i < servers.len() && is_spec(#[trigger] servers[i], filter) && servers[i].id@ == id;
    let last = lemma_last_spec(servers, filter, id, i);
    assert(specifies(servers, filter, last) && servers[last].id@ == id);
    let s = specifier(servers, filter, id);
    assert forall|k: int| #[trigger] specifies(servers, filter, k) && servers[k].id@ == id implies k == s by {
        assert(specifies(servers, filter, s));
        if k < s {
            assert(is_spec(servers[s], filter));
        } else if s < k {
            assert(is_spec(servers[k], filter));
        }
    }
}

/// The last server that specifies the connection of `id`, from number `i` on.
proof fn lemma_last_spec(servers: Seq<Server>, filter: SpecFilter, id: Seq<char>, i: int) -> (last: int)
    requires
        0 <= i < servers.len(),
        is_spec(servers[i], filter),
        servers[i].id@ == id,
    ensures
        specifies(servers, filter, last),
        servers[last].id@ == id,
    decreases servers.len() - i,
{
    if specifies(servers, filter, i) {
        i
    } else {
        let j = choose|j: int|
            i < j < servers.len() && is_spec(#[trigger] servers[j], filter) && servers[j].id@ == servers[i].id@;
        lemma_last_spec(servers, filter, id, j)
    }
}

/// Whether a connection to `address` can be spawned: to a server that specifies
/// one because it is enabled, only where the address has a host.
pub open spec fn can_spawn(filter: SpecFilter, address: Seq<char>) -> bool {
    match filter {
        SpecFilter::Enabled => address::has_host(address),
        SpecFilter::HasAddress => true,
    }
}

/// Whether a connection of `server` is spawned, and its address lets it start.
pub open spec fn spawns(
    server: Server,
    filter: SpecFilter,
    connections: Map<Seq<char>, Option<Seq<char>>>,
) -> bool {
    &&& outcome(server, connections) == Outcome::Spawn
    &&& can_spawn(filter, address::ws_address(server.config.address@))
}

/// The connections that a core has when it manages `connections`: those that no
/// server specifies are gone, and those that can be spawned are there. Where
/// one cannot, what was there before stays.
pub open spec fn applied(
    servers: Seq<Server>,
    filter: SpecFilter,
    connections: Map<Seq<char>, Option<Seq<char>>>,
) -> Map<Seq<char>, Option<Seq<char>>> {
    let spawned = |id: Seq<char>| spawns(servers[specifier(servers, filter, id)], filter, connections);
    Map::new(
        |id: Seq<char>| is_specced(servers, filter, id) && (connections.contains_key(id) || spawned(id)),
        |id: Seq<char>|
            if spawned(id) {
                Some(address::ws_address(servers[specifier(servers, filter, id)].config.address@))
            } else {
                connections[id]
            },
    )
}

/// The connections after those of the first `n` of `specs` were spawned.
pub open spec fn spawned_onto(
    connections: Map<Seq<char>, Option<Seq<char>>>,
    filter: SpecFilter,
    specs: Seq<SpawnSpec>,
    n: int,
) -> Map<Seq<char>, Option<Seq<char>>>
    decreases n,
{
    if n <= 0 {
        connections
    } else {
        let before = spawned_onto(connections, filter, specs, n - 1);
        let spec = specs[n - 1];
        if can_spawn(filter, spec.address@) {
            before.insert(spec.server_id@, Some(spec.address@))
        } else {
            before
        }
    }
}

/// The connections after `plan` was carried out. A connection that is only
/// cancelled keeps its place.
pub open spec fn carried_out(
    connections: Map<Seq<char>, Option<Seq<char>>>,
    filter: SpecFilter,
    plan: ConnectionPlan,
) -> Map<Seq<char>, Option<Seq<char>>> {
    let kept = connections.remove_keys(text::texts(plan.remove@).to_set());
    spawned_onto(kept, filter, plan.spawn@, plan.spawn@.len() as int)
}

/// Carrying out the plan of a core gives the connections that its servers
/// specify.
pub proof fn law_plan_gives_the_connections_specified(
    servers: Seq<Server>,
    filter: SpecFilter,
    connections: Map<Seq<char>, Option<String>>,
    plan: ConnectionPlan,
)
    requires
        is_plan(servers, filter, connections, plan),
    ensures
        carried_out(addresses(connections), filter, plan) == applied(servers, filter, addresses(connections)),
{
    let known = addresses(connections);
    let kept = known.remove_keys(text::texts(plan.remove@).to_set());
    let n = servers.len() as int;
    let spawned = chosen(servers, filter, known, Outcome::Spawn, n);
    let after = carried_out(known, filter, plan);
    let wanted = applied(servers, filter, known);
    lemma_chosen(servers, filter, known, Outcome::Spawn, n);
    assert forall|id: Seq<char>|
        #![trigger after.contains_key(id)]
        #![trigger wanted.contains_key(id)]
        after.contains_key(id) == wanted.contains_key(id) && (wanted.contains_key(id) ==> after[id] == wanted[id]) by {
        assert(text::texts(plan.remove@).contains(id) <==> connections.contains_key(id) && !is_specced(
            servers,
            filter,
            id,
        ));
        lemma_spawned_onto(servers, filter, known, kept, plan.spawn@, spawned, id, spawned.len() as int);
        if is_specced(servers, filter, id) {
            law_one_server_specifies(servers, filter, id);
            let s = specifier(servers, filter, id);
            if spawns(servers[s], filter, known) {
                assert(spawned.contains(s));
                let k = choose|k: int| 0 <= k < spawned.len() && spawned[k] == s;
                assert(is_spawn_of(servers[spawned[k]], plan.spawn@[k]));
            }
        }
    }
    assert(after =~= wanted);
}

/// Which servers are chosen: those that specify a connection about which
/// `wanted` is done.
proof fn lemma_chosen(
    servers: Seq<Server>,
    filter: SpecFilter,
    connections: Map<Seq<char>, Option<Seq<char>>>,
    wanted: Outcome,
    n: int,
)
    requires
        0 <= n <= servers.len(),
    ensures
        forall|i: int| #[trigger]
            chosen(servers, filter, connections, wanted, n).contains(i) <==> 0 <= i < n && specifies(servers, filter, i)
                && outcome(servers[i], connections) == wanted,
    decreases n,
{
    if n > 0 {
        lemma_chosen(servers, filter, connections, wanted, n - 1);
        let before = chosen(servers, filter, connections, wanted, n - 1);
        let after = chosen(servers, filter, connections, wanted, n);
        assert forall|i: int| #[trigger]
            after.contains(i) <==> 0 <= i < n && specifies(servers, filter, i) && outcome(servers[i], connections)
                == wanted by {
            if before.contains(i) {
                let k = choose|k: int| 0 <= k < before.len() && before[k] == i;
                assert(after[k] == i);
            }
            if after.len() > before.len() {
                assert(after[before.len() as int] == n - 1);
                if after.contains(i) && i != n - 1 {
                    let k = choose|k: int| 0 <= k < after.len() && after[k] == i;
                    assert(before[k] == i);
                }
            }
        }
    }
}

/// What spawning the connections of the first `n` of the servers `chosen` makes
/// of the connection of `id`.
proof fn lemma_spawned_onto(
    servers: Seq<Server>,
    filter: SpecFilter,
    known: Map<Seq<char>, Option<Seq<char>>>,
    kept: Map<Seq<char>, Option<Seq<char>>>,
    specs: Seq<SpawnSpec>,
    spawned: Seq<int>,
    id: Seq<char>,
    n: int,
)
    requires
        0 <= n <= specs.len(),
        specs.len() == spawned.len(),
        forall|k: int| 0 <= k < spawned.len() ==> is_spawn_of(servers[spawned[k]], #[trigger] specs[k]),
        forall|i: int| #[trigger]
            spawned.contains(i) ==> specifies(servers, filter, i) && outcome(servers[i], known) == Outcome::Spawn,
    ensures
        spawned_onto(kept, filter, specs, n).contains_key(id) <==> kept.contains_key(id) || exists|k: int|
            0 <= k < n && (#[trigger] specs[k]).server_id@ == id && can_spawn(filter, specs[k].address@),
        spawned_onto(kept, filter, specs, n).contains_key(id) ==> spawned_onto(kept, filter, specs, n)[id] == (if exists|
            k: int,
        |
            0 <= k < n && (#[trigger] specs[k]).server_id@ == id && can_spawn(filter, specs[k].address@) {
            Some(address::ws_address(servers[specifier(servers, filter, id)].config.address@))
        } else {
            kept[id]
        }),
        (exists|k: int|
            0 <= k < n && (#[trigger] specs[k]).server_id@ == id && can_spawn(filter, specs[k].address@))
            ==> is_specced(servers, filter, id) && spawns(
            servers[specifier(servers, filter, id)],
            filter,
            known,
        ),
    decreases n,
{
    if n > 0 {
        lemma_spawned_onto(servers, filter, known, kept, specs, spawned, id, n - 1);
        let spec = specs[n - 1];
        let i = spawned[n - 1];
        assert(spawned.contains(i));
        if spec.server_id@ == id && can_spawn(filter, spec.address@) {
            assert(is_spec(servers[i], filter) && servers[i].id@ == id);
            law_one_server_specifies(servers, filter, id);
            assert(specifies(servers, filter, i));
        }
    }
}

/// A core manages exactly the connections that its servers specify: each
/// connection that it then has is one that a server specifies; each server that
/// specifies one with an address to which it can be spawned has one to that
/// address; and a server with an address to which none can be spawned has what
/// it had before.
pub proof fn law_connections_are_those_specified(
    servers: Seq<Server>,
    filter: SpecFilter,
    connections: Map<Seq<char>, Option<Seq<char>>>,
)
    ensures
        forall|id: Seq<char>| #[trigger]
            applied(servers, filter, connections).contains_key(id) ==> is_specced(servers, filter, id),
        forall|i: int| #[trigger]
            specifies(servers, filter, i) && servers[i].config.address@.len() > 0 && can_spawn(
                filter,
                address::ws_address(servers[i].config.address@),
            ) ==> applied(servers, filter, connections).contains_key(servers[i].id@) && applied(
                servers,
                filter,
                connections,
            )[servers[i].id@] == Some(address::ws_address(servers[i].config.address@)),
        forall|i: int| #[trigger]
            specifies(servers, filter, i) && !can_spawn(filter, address::ws_address(servers[i].config.address@))
                ==> applied(servers, filter, connections).contains_key(servers[i].id@) == connections.contains_key(
                servers[i].id@,
            ) && (connections.contains_key(servers[i].id@) ==> applied(servers, filter, connections)[servers[i].id@]
                == connections[servers[i].id@]),
{
    let after = applied(servers, filter, connections);
    assert forall|i: int| #[trigger] specifies(servers, filter, i) implies {
        let id = servers[i].id@;
        let address = address::ws_address(servers[i].config.address@);
        if !can_spawn(filter, address) {
            after.contains_key(id) == connections.contains_key(id) && (connections.contains_key(id) ==> after[id]
                == connections[id])
        } else {
            servers[i].config.address@.len() > 0 ==> after.contains_key(id) && after[id] == Some(address)
        }
    } by {
        assert(is_spec(servers[i], filter));
        law_one_server_specifies(servers, filter, servers[i].id@);
    }
}

/// Managing the connections again changes nothing: the connections stay as they
/// are, none is spawned that can be, and what was kept or spawned is kept.
pub proof fn law_managing_again_changes_nothing(
    servers: Seq<Server>,
    filter: SpecFilter,
    connections: Map<Seq<char>, Option<Seq<char>>>,
)
    ensures
        applied(servers, filter, applied(servers, filter, connections)) == applied(servers, filter, connections),
        forall|i: int| #[trigger]
            specifies(servers, filter, i) ==> !spawns(servers[i], filter, applied(servers, filter, connections)),
        forall|i: int| #[trigger]
            specifies(servers, filter, i) && (outcome(servers[i], connections) == Outcome::Keep || spawns(
                servers[i],
                filter,
                connections,
            )) ==> outcome(servers[i], applied(servers, filter, connections)) == Outcome::Keep,
{
    let after = applied(servers, filter, connections);
    assert forall|i: int| #[trigger] specifies(servers, filter, i) implies !spawns(servers[i], filter, after) && (outcome(
        servers[i],
        connections,
    ) == Outcome::Keep || spawns(servers[i], filter, connections) ==> outcome(servers[i], after) == Outcome::Keep) by {
        assert(is_spec(servers[i], filter));
        law_one_server_specifies(servers, filter, servers[i].id@);
    }
    assert forall|id: Seq<char>| #[trigger] after.contains_key(id) implies !spawns(
        servers[specifier(servers, filter, id)],
        filter,
        after,
    ) by {
        law_one_server_specifies(servers, filter, id);
        assert(specifies(servers, filter, specifier(servers, filter, id)));
    }
    assert forall|id: Seq<char>| applied(servers, filter, after).contains_key(id) implies #[trigger] after.contains_key(
        id,
    ) by {
        law_one_server_specifies(servers, filter, id);
        assert(specifies(servers, filter, specifier(servers, filter, id)));
    }
    assert(applied(servers, filter, after) =~= after);
}

/// The private key of the core for a server: its own, or the default.
pub fn private_key_for<'a>(private_key: &'a str, default: &'a str) -> (r: &'a str)
    ensures
        r@ == (if private_key@.len() == 0 {
            default@
        } else {
            private_key@
        }),
{
    if text::is_empty(private_key) {
        default
    } else {
        private_key
    }
}

/// The public key that a core expects of the periphery that it connects to: that
/// of the server, or the default, if there is one.
pub fn expected_public_key_for<'a>(public_key: Option<&'a str>, default: Option<&'a str>) -> (r: Option<&'a str>)
    ensures
        r == (if public_key is Some {
            public_key
        } else {
            default
        }),
{
    match public_key {
        Some(key) => Some(key),
        None => default,
    }
}

/// The server that an entry of `plan.spawn` comes from.
proof fn lemma_spawned_server(
    servers: Seq<Server>,
    filter: SpecFilter,
    connections: Map<Seq<char>, Option<String>>,
    plan: ConnectionPlan,
    k: int,
) -> (i: int)
    requires
        is_plan(servers, filter, connections, plan),
        0 <= k < plan.spawn@.len(),
    ensures
        specifies(servers, filter, i),
        outcome(servers[i], addresses(connections)) == Outcome::Spawn,
        is_spawn_of(servers[i], plan.spawn@[k]),
{
    let n = servers.len() as int;
    let spawned = chosen(servers, filter, addresses(connections), Outcome::Spawn, n);
    lemma_chosen(servers, filter, addresses(connections), Outcome::Spawn, n);
    assert(spawned.contains(spawned[k]));
    assert(is_spawn_of(servers[spawned[k]], plan.spawn@[k]));
    spawned[k]
}

/// The server that an entry of `plan.cancel` comes from.
proof fn lemma_cancelled_server(
    servers: Seq<Server>,
    filter: SpecFilter,
    connections: Map<Seq<char>, Option<String>>,
    plan: ConnectionPlan,
    k: int,
) -> (i: int)
    requires
        is_plan(servers, filter, connections, plan),
        0 <= k < plan.cancel@.len(),
    ensures
        specifies(servers, filter, i),
        outcome(servers[i], addresses(connections)) == Outcome::Cancel,
        plan.cancel@[k]@ == servers[i].id@,
{
    let n = servers.len() as int;
    let cancelled = chosen(servers, filter, addresses(connections), Outcome::Cancel, n);
    lemma_chosen(servers, filter, addresses(connections), Outcome::Cancel, n);
    assert(cancelled.contains(cancelled[k]));
    assert(plan.cancel@[k]@ == servers[cancelled[k]].id@);
    cancelled[k]
}

/// What a plan does about the connection of server number `i`, where that
/// server specifies it.
proof fn lemma_specifying_server_decides(
    servers: Seq<Server>,
    filter: SpecFilter,
    connections: Map<Seq<char>, Option<String>>,
    plan: ConnectionPlan,
    i: int,
)
    requires
        is_plan(servers, filter, connections, plan),
        specifies(servers, filter, i),
    ensures
        outcome(servers[i], addresses(connections)) == Outcome::Spawn <==> exists|k: int|
            0 <= k < plan.spawn@.len() && (#[trigger] plan.spawn@[k]).server_id@ == servers[i].id@,
        forall|k: int|
            0 <= k < plan.spawn@.len() && (#[trigger] plan.spawn@[k]).server_id@ == servers[i].id@ ==> is_spawn_of(
                servers[i],
                plan.spawn@[k],
            ),
        outcome(servers[i], addresses(connections)) == Outcome::Cancel <==> exists|k: int|
            0 <= k < plan.cancel@.len() && (#[trigger] plan.cancel@[k])@ == servers[i].id@,
{
    let known = addresses(connections);
    let n = servers.len() as int;
    let id = servers[i].id@;
    let spawned = chosen(servers, filter, known, Outcome::Spawn, n);
    let cancelled = chosen(servers, filter, known, Outcome::Cancel, n);
    lemma_chosen(servers, filter, known, Outcome::Spawn, n);
    lemma_chosen(servers, filter, known, Outcome::Cancel, n);
    assert(is_spec(servers[i], filter));
    law_one_server_specifies(servers, filter, id);
    assert forall|k: int| 0 <= k < plan.spawn@.len() && (#[trigger] plan.spawn@[k]).server_id@ == id implies is_spawn_of(
        servers[i],
        plan.spawn@[k],
    ) && outcome(servers[i], known) == Outcome::Spawn by {
        let other = lemma_spawned_server(servers, filter, connections, plan, k);
        assert(other == i);
    }
    assert forall|k: int| 0 <= k < plan.cancel@.len() && (#[trigger] plan.cancel@[k])@ == id implies outcome(
        servers[i],
        known,
    ) == Outcome::Cancel by {
        let other = lemma_cancelled_server(servers, filter, connections, plan, k);
        assert(other == i);
    }
    if outcome(servers[i], known) == Outcome::Spawn {
        assert(spawned.contains(i));
        let k = choose|k: int| 0 <= k < spawned.len() && spawned[k] == i;
        assert(is_spawn_of(servers[spawned[k]], plan.spawn@[k]));
        assert(plan.spawn@[k].server_id@ == id);
    }
    if outcome(servers[i], known) == Outcome::Cancel {
        assert(cancelled.contains(i));
        let k = choose|k: int| 0 <= k < cancelled.len() && cancelled[k] == i;
        assert(plan.cancel@[k]@ == servers[cancelled[k]].id@);
    }
}

/// Which connections a plan removes.
proof fn lemma_removed(
    servers: Seq<Server>,
    filter: SpecFilter,
    connections: Map<Seq<char>, Option<String>>,
    plan: ConnectionPlan,
    id: Seq<char>,
)
    requires
        is_plan(servers, filter, connections, plan),
    ensures
        (exists|k: int| 0 <= k < plan.remove@.len() && (#[trigger] plan.remove@[k])@ == id) <==> connections.contains_key(
            id,
        ) && !is_specced(servers, filter, id),
{
    let removed = text::texts(plan.remove@);
    assert(removed.contains(id) <==> #[trigger] connections.contains_key(id) && !is_specced(servers, filter, id));
    assert forall|k: int| 0 <= k < plan.remove@.len() && (#[trigger] plan.remove@[k])@ == id implies removed.contains(
        id,
    ) by {
        assert(removed[k] == id);
    }
    if removed.contains(id) {
        let k = choose|k: int| 0 <= k < removed.len() && removed[k] == id;
        assert(plan.remove@[k]@ == id);
    }
}

/// A core connects to every enabled server that has an address, whatever keys
/// the server has. The connection of an enabled server is not removed. Where
/// server number `i` is the last enabled one of its id, its connection is
/// spawned where it has an address to which there is no connection yet, and
/// only there; and it is cancelled where it has no address and there is a
/// connection to one, and only there.
pub proof fn law_enabled_servers_are_connected(
    servers: Seq<Server>,
    connections: Map<Seq<char>, Option<String>>,
    plan: ConnectionPlan,
    i: int,
)
    requires
        is_plan(servers, SpecFilter::Enabled, connections, plan),
        0 <= i < servers.len(),
        servers[i].config.enabled,
    ensures
        forall|k: int| 0 <= k < plan.remove@.len() ==> (#[trigger] plan.remove@[k])@ != servers[i].id@,
        (forall|j: int|
            i < j < servers.len() && (#[trigger] servers[j]).config.enabled ==> servers[j].id@ != servers[i].id@) ==> {
            let server = servers[i];
            let id = servers[i].id@;
            let wanted = address::ws_address(server.config.address@);
            let there = connections.contains_key(id) && connections[id] is Some;
            &&& server.config.address@.len() > 0 && !(there && connections[id]->0@ == wanted) <==> exists|k: int|
                0 <= k < plan.spawn@.len() && (#[trigger] plan.spawn@[k]).server_id@ == id
            &&& server.config.address@.len() == 0 && there <==> exists|k: int|
                0 <= k < plan.cancel@.len() && (#[trigger] plan.cancel@[k])@ == id
            &&& forall|k: int|
                0 <= k < plan.spawn@.len() && (#[trigger] plan.spawn@[k]).server_id@ == id ==> {
                    &&& plan.spawn@[k].address@ == wanted
                    &&& plan.spawn@[k].name@ == server.name@
                    &&& plan.spawn@[k].private_key@ == server.config.private_key@
                    &&& plan.spawn@[k].expected_public_key is None <==> server.config.public_key@.len() == 0
                    &&& plan.spawn@[k].expected_public_key is Some ==> plan.spawn@[k].expected_public_key->0@
                        == server.config.public_key@
                }
        },
{
    let id = servers[i].id@;
    assert(is_spec(servers[i], SpecFilter::Enabled));
    lemma_removed(servers, SpecFilter::Enabled, connections, plan, id);
    if forall|j: int| i < j < servers.len() && (#[trigger] servers[j]).config.enabled ==> servers[j].id@ != id {
        assert(specifies(servers, SpecFilter::Enabled, i));
        lemma_specifying_server_decides(servers, SpecFilter::Enabled, connections, plan, i);
    }
}

/// A core keeps no connection to a server that is not enabled: the connection of
/// an id that no enabled server has is removed, and none is spawned.
pub proof fn law_other_servers_are_not_connected(
    servers: Seq<Server>,
    connections: Map<Seq<char>, Option<String>>,
    plan: ConnectionPlan,
    id: Seq<char>,
)
    requires
        is_plan(servers, SpecFilter::Enabled, connections, plan),
        forall|i: int| 0 <= i < servers.len() && (#[trigger] servers[i]).config.enabled ==> servers[i].id@ != id,
    ensures
        connections.contains_key(id) ==> exists|k: int|
            0 <= k < plan.remove@.len() && (#[trigger] plan.remove@[k])@ == id,
        forall|k: int| 0 <= k < plan.spawn@.len() ==> (#[trigger] plan.spawn@[k]).server_id@ != id,
        forall|k: int| 0 <= k < plan.cancel@.len() ==> (#[trigger] plan.cancel@[k])@ != id,
{
    lemma_removed(servers, SpecFilter::Enabled, connections, plan, id);
    assert forall|k: int| 0 <= k < plan.spawn@.len() implies (#[trigger] plan.spawn@[k]).server_id@ != id by {
        let i = lemma_spawned_server(servers, SpecFilter::Enabled, connections, plan, k);
        assert(is_spec(servers[i], SpecFilter::Enabled));
    }
    assert forall|k: int| 0 <= k < plan.cancel@.len() implies (#[trigger] plan.cancel@[k])@ != id by {
        let i = lemma_cancelled_server(servers, SpecFilter::Enabled, connections, plan, k);
        assert(is_spec(servers[i], SpecFilter::Enabled));
    }
}

/// Where the servers with an address specify the connections, enabled or not,
/// none of them loses its connection; and where server number `i` is the last
/// with an address of its id, its connection is spawned where there is none to
/// that address yet, and only there.
pub proof fn law_servers_with_an_address_are_connected(
    servers: Seq<Server>,
    connections: Map<Seq<char>, Option<String>>,
    plan: ConnectionPlan,
    i: int,
)
    requires
        is_plan(servers, SpecFilter::HasAddress, connections, plan),
        0 <= i < servers.len(),
        servers[i].config.address@.len() > 0,
    ensures
        forall|k: int| 0 <= k < plan.remove@.len() ==> (#[trigger] plan.remove@[k])@ != servers[i].id@,
        (forall|j: int|
            i < j < servers.len() && (#[trigger] servers[j]).config.address@.len() > 0 ==> servers[j].id@
                != servers[i].id@) ==> {
            let id = servers[i].id@;
            let wanted = address::ws_address(servers[i].config.address@);
            &&& !(connections.contains_key(id) && connections[id] is Some && connections[id]->0@ == wanted)
                <==> exists|k: int| 0 <= k < plan.spawn@.len() && (#[trigger] plan.spawn@[k]).server_id@ == id
            &&& forall|k: int|
                0 <= k < plan.spawn@.len() && (#[trigger] plan.spawn@[k]).server_id@ == id ==> plan.spawn@[k].address@
                    == wanted
        },
{
    let id = servers[i].id@;
    assert(is_spec(servers[i], SpecFilter::HasAddress));
    lemma_removed(servers, SpecFilter::HasAddress, connections, plan, id);
    if forall|j: int| i < j < servers.len() && (#[trigger] servers[j]).config.address@.len() > 0 ==> servers[j].id@ != id {
        assert(specifies(servers, SpecFilter::HasAddress, i));
        lemma_specifying_server_decides(servers, SpecFilter::HasAddress, connections, plan, i);
    }
}

/// Where the servers with an address specify the connections, the connection of
/// an id that no server with an address has is removed, none is spawned for it,
/// and no connection is only cancelled.
pub proof fn law_servers_without_an_address_are_not_connected(
    servers: Seq<Server>,
    connections: Map<Seq<char>, Option<String>>,
    plan: ConnectionPlan,
    id: Seq<char>,
)
    requires
        is_plan(servers, SpecFilter::HasAddress, connections, plan),
        forall|i: int|
            0 <= i < servers.len() && (#[trigger] servers[i]).config.address@.len() > 0 ==> servers[i].id@ != id,
    ensures
        connections.contains_key(id) ==> exists|k: int|
            0 <= k < plan.remove@.len() && (#[trigger] plan.remove@[k])@ == id,
        forall|k: int| 0 <= k < plan.spawn@.len() ==> (#[trigger] plan.spawn@[k]).server_id@ != id,
        plan.cancel@.len() == 0,
{
    lemma_removed(servers, SpecFilter::HasAddress, connections, plan, id);
    assert forall|k: int| 0 <= k < plan.spawn@.len() implies (#[trigger] plan.spawn@[k]).server_id@ != id by {
        let i = lemma_spawned_server(servers, SpecFilter::HasAddress, connections, plan, k);
        assert(is_spec(servers[i], SpecFilter::HasAddress));
    }
    if plan.cancel@.len() > 0 {
        let i = lemma_cancelled_server(servers, SpecFilter::HasAddress, connections, plan, 0);
        assert(is_spec(servers[i], SpecFilter::HasAddress));
    }
}

/// A plan names an id at most once: no connection is spawned twice, none is
/// cancelled twice, and none that is removed is spawned.
pub proof fn law_plan_names_an_id_once(
    servers: Seq<Server>,
    filter: SpecFilter,
    connections: Map<Seq<char>, Option<String>>,
    plan: ConnectionPlan,
    k: int,
    l: int,
)
    requires
        is_plan(servers, filter, connections, plan),
        0 <= k,
    ensures
        k < l < plan.spawn@.len() ==> plan.spawn@[k].server_id@ != plan.spawn@[l].server_id@,
        k < l < plan.cancel@.len() ==> plan.cancel@[k]@ != plan.cancel@[l]@,
        k < l < plan.remove@.len() ==> plan.remove@[k]@ != plan.remove@[l]@,
        k < plan.spawn@.len() && 0 <= l < plan.remove@.len() ==> plan.spawn@[k].server_id@ != plan.remove@[l]@,
{
    let known = addresses(connections);
    let n = servers.len() as int;
    let spawned = chosen(servers, filter, known, Outcome::Spawn, n);
    let cancelled = chosen(servers, filter, known, Outcome::Cancel, n);
    lemma_chosen(servers, filter, known, Outcome::Spawn, n);
    lemma_chosen(servers, filter, known, Outcome::Cancel, n);
    if k < l < plan.spawn@.len() {
        lemma_chosen_ascends(servers, filter, known, Outcome::Spawn, n, k, l);
        assert(spawned.contains(spawned[k]) && spawned.contains(spawned[l]));
        assert(is_spawn_of(servers[spawned[k]], plan.spawn@[k]) && is_spawn_of(servers[spawned[l]], plan.spawn@[l]));
        assert(is_spec(servers[spawned[l]], filter));
    }
    if k < l < plan.cancel@.len() {
        lemma_chosen_ascends(servers, filter, known, Outcome::Cancel, n, k, l);
        assert(cancelled.contains(cancelled[k]) && cancelled.contains(cancelled[l]));
        assert(plan.cancel@[k]@ == servers[cancelled[k]].id@ && plan.cancel@[l]@ == servers[cancelled[l]].id@);
        assert(is_spec(servers[cancelled[l]], filter));
    }
    let removed = text::texts(plan.remove@);
    if k < l < plan.remove@.len() {
        assert(removed[k] != removed[l]);
    }
    if k < plan.spawn@.len() && 0 <= l < plan.remove@.len() {
        let id = plan.remove@[l]@;
        lemma_removed(servers, filter, connections, plan, id);
        let i = lemma_spawned_server(servers, filter, connections, plan, k);
        assert(is_spec(servers[i], filter));
    }
}

/// The chosen servers come in order.
proof fn lemma_chosen_ascends(
    servers: Seq<Server>,
    filter: SpecFilter,
    connections: Map<Seq<char>, Option<Seq<char>>>,
    wanted: Outcome,
    n: int,
    k: int,
    l: int,
)
    requires
        0 <= k < l < chosen(servers, filter, connections, wanted, n).len(),
        0 <= n <= servers.len(),
    ensures
        chosen(servers, filter, connections, wanted, n)[k] < chosen(servers, filter, connections, wanted, n)[l],
    decreases n,
{
    let before = chosen(servers, filter, connections, wanted, n - 1);
    lemma_chosen(servers, filter, connections, wanted, n - 1);
    if l < before.len() {
        lemma_chosen_ascends(servers, filter, connections, wanted, n - 1, k, l);
    } else {
        assert(before.contains(before[k]));
    }
}

} // verus!
