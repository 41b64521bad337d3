//! The registry of plugins: discovery, the route index, and the lifecycle of
//! each plugin by its id.

use crate::config::SupervisorConfig;
use crate::lifecycle::{
    lemma_step_keeps_invariants, run_after, Action, EventKind, LifecycleEvent,
    LifecycleEventView, PluginProcess, PluginProcessView, PluginState,
};
use crate::lifecycle::state_has_child;
use crate::discovery::{candidates_view, Candidate, CandidateView, Handshake};
use crate::routing::{below_route, strip_route, RouteTarget};
use crate::settings::{
    enabled_in, lemma_persisted_in_turn, lemma_persisted_nothing, lemma_persisted_once,
    persisted_after, PluginsConfig,
};
use crate::textmap::TextMap;
use crate::types::PluginMetadataView;
use vstd::prelude::*;

verus! {

/// Something the supervisor has to do for one plugin.
#[derive(Debug, PartialEq, Eq)]
pub struct Directive {
    pub plugin_id: String,
    pub action: Action,
}

pub struct DirectiveView {
    pub plugin_id: Seq<char>,
    pub action: Action,
}

impl View for Directive {
    type V = DirectiveView;

    open spec fn view(&self) -> DirectiveView {
        DirectiveView { plugin_id: self.plugin_id@, action: self.action }
    }
}

/// The views of a list of directives.
pub open spec fn directives_view(directives: Seq<Directive>) -> Seq<DirectiveView> {
    directives.map_values(|d: Directive| d@)
}

/// The registry as a value: the ids in the order of their discovery, and
/// the record of each.
pub struct RegistryView {
    pub ids: Seq<Seq<char>>,
    pub plugins: Map<Seq<char>, PluginProcessView>,
}

impl RegistryView {
    /// The record that a newly discovered plugin enters the registry with:
    /// on its way to running if it is enabled, switched off if not.
    pub open spec fn entered(
        id: Seq<char>,
        metadata: PluginMetadataView,
        enabled: bool,
        config: SupervisorConfig,
    ) -> PluginProcessView {
        let record = PluginProcessView::discovered(id, Some(metadata), enabled);
        if enabled {
            record.next(LifecycleEventView::Enable, config)
        } else {
            record
        }
    }

    /// Whether a candidate enters the registry: its handshake succeeded and
    /// its id is not taken.
    pub open spec fn accepts(self, candidate: CandidateView) -> bool {
        candidate.handshake is Declared && !self.plugins.contains_key(candidate.id)
    }

    /// The registry after one candidate was looked at.
    pub open spec fn consider(
        self,
        candidate: CandidateView,
        flags: Map<Seq<char>, bool>,
        config: SupervisorConfig,
    ) -> RegistryView {
        if self.accepts(candidate) {
            RegistryView {
                ids: self.ids.push(candidate.id),
                plugins: self.plugins.insert(
                    candidate.id,
                    Self::entered(
                        candidate.id,
                        candidate.handshake->Declared_0,
                        enabled_in(flags, candidate.id),
                        config,
                    ),
                ),
            }
        } else {
            self
        }
    }

    /// What looking at one candidate asks of the supervisor.
    pub open spec fn directives_for(self, candidate: CandidateView, flags: Map<Seq<char>, bool>)
        -> Seq<DirectiveView> {
        if candidate.handshake is Failed {
            seq![
                DirectiveView {
                    plugin_id: candidate.id,
                    action: Action::Record { event: EventKind::MetadataFailed },
                },
            ]
        } else if self.accepts(candidate) && enabled_in(flags, candidate.id) {
            seq![
                DirectiveView {
                    plugin_id: candidate.id,
                    action: Action::Spawn { run: run_after(0) },
                },
            ]
        } else {
            seq![]
        }
    }

    /// The registry after a sweep over `candidates`, in order.
    pub open spec fn discover(
        self,
        candidates: Seq<CandidateView>,
        flags: Map<Seq<char>, bool>,
        config: SupervisorConfig,
    ) -> RegistryView
        decreases candidates.len(),
    {
        if candidates.len() == 0 {
            self
        } else {
            self.consider(candidates[0], flags, config).discover(
                candidates.drop_first(),
                flags,
                config,
            )
        }
    }

    /// What a sweep over `candidates` asks of the supervisor, in order.
    pub open spec fn discovery_directives(
        self,
        candidates: Seq<CandidateView>,
        flags: Map<Seq<char>, bool>,
        config: SupervisorConfig,
    ) -> Seq<DirectiveView>
        decreases candidates.len(),
    {
        if candidates.len() == 0 {
            seq![]
        } else {
            self.directives_for(candidates[0], flags) + self.consider(
                candidates[0],
                flags,
                config,
            ).discovery_directives(candidates.drop_first(), flags, config)
        }
    }

    /// The registry after `event` happened to the plugin `id`.
    pub open spec fn apply(self, id: Seq<char>, event: LifecycleEventView, config: SupervisorConfig)
        -> RegistryView {
        if self.plugins.contains_key(id) {
            RegistryView {
                plugins: self.plugins.insert(id, self.plugins[id].next(event, config)),
                ..self
            }
        } else {
            self
        }
    }

    /// Whether the plugin `id` is running and serves `route`.
    pub open spec fn serves(self, id: Seq<char>, route: Seq<char>) -> bool {
        &&& self.plugins.contains_key(id)
        &&& self.plugins[id].state is Running
        &&& self.plugins[id].metadata matches Some(metadata)
        &&& metadata.route == route
    }

    /// What is left of `path` behind the route of the plugin `id`, where
    /// that plugin is running and the path lies under its route.
    pub open spec fn reach(self, id: Seq<char>, path: Seq<char>) -> Option<Seq<char>> {
        if self.plugins.contains_key(id) && self.plugins[id].state is Running
            && self.plugins[id].metadata is Some {
            below_route(self.plugins[id].metadata->Some_0.route, path)
        } else {
            None
        }
    }

    /// Whether the persisted flags say of every plugin of the registry what
    /// its record says: the plugin is enabled exactly if its flag is set.
    pub open spec fn agrees_with(self, flags: Map<Seq<char>, bool>) -> bool {
        forall|id: Seq<char>| #[trigger]
            self.plugins.contains_key(id) ==> self.plugins[id].enabled == enabled_in(flags, id)
    }

    /// The invariants of the registry: the ids list the plugins, each once;
    /// every record is filed under its own id and is well-formed.
    pub open spec fn wf(self) -> bool {
        &&& forall|id: Seq<char>|
            #![trigger self.plugins.contains_key(id)]
            #![trigger self.ids.contains(id)]
            self.plugins.contains_key(id) <==> self.ids.contains(id)
        &&& forall|i: int, j: int|
            0 <= i < self.ids.len() && 0 <= j < self.ids.len() && i != j ==> (#[trigger] self.ids[i])
                != (#[trigger] self.ids[j])
        &&& forall|id: Seq<char>| #[trigger]
            self.plugins.contains_key(id) ==> self.plugins[id].id == id && self.plugins[id].wf()
    }
}

/// The same items, last first.
fn reversed<T>(items: Vec<T>) -> (r: Vec<T>)
    ensures
        r@.len() == items@.len(),
        forall|k: int| 0 <= k < r@.len() ==> r@[k] == items@[items@.len() - 1 - k],
{
    let mut items = items;
    let ghost all = items@;
    let mut out: Vec<T> = Vec::new();
    while items.len() > 0
        invariant
            items@.len() + out@.len() == all.len(),
            items@ == all.take(items@.len() as int),
            forall|k: int| 0 <= k < out@.len() ==> out@[k] == all[all.len() - 1 - k],
        decreases items@.len(),
    {
        let item = items.pop().unwrap();
        out.push(item);
        assert(items@ =~= all.take(items@.len() as int));
    }
    out
}

/// The supervisor's registry of plugins.
pub struct Supervisor {
    plugins_dir: String,
    config: SupervisorConfig,
    plugins: TextMap<PluginProcess>,
}

impl View for Supervisor {
    type V = RegistryView;

    closed spec fn view(&self) -> RegistryView {
        RegistryView {
            ids: self.plugins.keys(),
            plugins: self.plugins@.map_values(|p: PluginProcess| p@),
        }
    }
}

impl Supervisor {
    /// The registry is well-formed.
    pub closed spec fn wf(&self) -> bool {
        &&& self.plugins.wf()
        &&& self@.wf()
    }

    /// A well-formed supervisor holds a well-formed registry: its ids list
    /// its plugins, each once, and every record keeps the invariants of a
    /// plugin record. In particular a plugin that is not enabled is switched
    /// off, and a plugin has a pid exactly while it runs.
    pub proof fn lemma_wf_registry(&self)
        requires
            self.wf(),
        ensures
            self@.wf(),
    {
    }

    /// The configuration the supervisor runs with.
    pub closed spec fn config(&self) -> SupervisorConfig {
        self.config
    }

    /// The directory the plugins live in.
    pub closed spec fn plugins_dir(&self) -> Seq<char> {
        self.plugins_dir@
    }

    /// A supervisor that knows no plugin yet.
    pub fn new(plugins_dir: String, config: SupervisorConfig) -> (supervisor: Self)
        ensures
            supervisor.wf(),
            supervisor@.wf(),
            supervisor.config() == config,
            supervisor.plugins_dir() == plugins_dir@,
            supervisor@.ids == Seq::<Seq<char>>::empty(),
            supervisor@.plugins == Map::<Seq<char>, PluginProcessView>::empty(),
    {
        let supervisor = Supervisor { plugins_dir, config, plugins: TextMap::new() };
        assert(supervisor@.plugins =~= Map::<Seq<char>, PluginProcessView>::empty());
        supervisor
    }

    /// The directory the plugins live in.
    pub fn get_plugins_dir(&self) -> (dir: &String)
        ensures
            dir@ == self.plugins_dir(),
    {
        &self.plugins_dir
    }

    /// The configuration the supervisor runs with.
    pub fn get_config(&self) -> (config: SupervisorConfig)
        ensures
            config == self.config(),
    {
        self.config
    }

    /// The number of plugins in the registry.
    pub fn plugin_count(&self) -> (n: usize)
        ensures
            n == self@.ids.len(),
    {
        self.plugins.len()
    }

    /// The record of the plugin `id`, if there is such a plugin.
    pub fn get_plugin_status(&self, id: &str) -> (record: Option<&PluginProcess>)
        requires
            self.wf(),
        ensures
            record is Some <==> self@.plugins.contains_key(id@),
            record is Some ==> record->Some_0@ == self@.plugins[id@],
    {
        self.plugins.get(id)
    }

    /// The record at position `i` of the discovery order.
    pub fn plugin_at(&self, i: usize) -> (process: &PluginProcess)
        requires
            self.wf(),
            i < self@.ids.len(),
        ensures
            self@.plugins.contains_key(self@.ids[i as int]),
            process@ == self@.plugins[self@.ids[i as int]],
    {
        self.plugins.value_at(i)
    }

    /// Snapshots of all plugins, in the order of their discovery.
    pub fn get_all_plugins(&self) -> (records: Vec<PluginProcess>)
        requires
            self.wf(),
        ensures
            records@.len() == self@.ids.len(),
            forall|i: int|
                0 <= i < records@.len() ==> self@.plugins.contains_key(self@.ids[i]) && (
                #[trigger] records@[i])@ == self@.plugins[self@.ids[i]],
    {
        let mut records: Vec<PluginProcess> = Vec::new();
        let n = self.plugins.len();
        let mut i: usize = 0;
        while i < n
            invariant
                i <= n,
                n == self@.ids.len(),
                self.wf(),
                records@.len() == i,
                forall|j: int|
                    0 <= j < i ==> self@.plugins.contains_key(self@.ids[j]) && (
                    #[trigger] records@[j])@ == self@.plugins[self@.ids[j]],
            decreases n - i,
        {
            let record = self.plugin_at(i).clone();
            let ghost earlier = records@;
            records.push(record);
            assert forall|j: int| 0 <= j < i + 1 implies self@.plugins.contains_key(self@.ids[j])
                && (#[trigger] records@[j])@ == self@.plugins[self@.ids[j]] by {
                if j < i {
                    assert(records@[j] == earlier[j]);
                }
            }
            i = i + 1;
        }
        records
    }

    /// Looks at one candidate of a discovery sweep.
    fn consider(&mut self, candidate: Candidate, flags: &PluginsConfig) -> (directives: Vec<Directive>)
        requires
            old(self).wf(),
            flags.wf(),
        ensures
            final(self).wf(),
            final(self)@.wf(),
            final(self).config() == old(self).config(),
            final(self).plugins_dir() == old(self).plugins_dir(),
            final(self)@ == old(self)@.consider(candidate@, flags@, old(self).config()),
            directives_view(directives@) == old(self)@.directives_for(candidate@, flags@),
    {
        let mut directives: Vec<Directive> = Vec::new();
        let Candidate { id, handshake } = candidate;
        match handshake {
            Handshake::Failed { reason: _ } => {
                directives.push(
                    Directive {
                        plugin_id: id,
                        action: Action::Record { event: EventKind::MetadataFailed },
                    },
                );
            },
            Handshake::Declared(metadata) => {
                if !self.plugins.contains_key(id.as_str()) {
                    let enabled = flags.is_enabled(id.as_str());
                    let mut record = PluginProcess::new(id.clone(), Some(metadata), enabled);
                    if enabled {
                        let _ = record.step(LifecycleEvent::Enable, &self.config);
                        directives.push(
                            Directive {
                                plugin_id: id.clone(),
                                action: Action::Spawn { run: record.run },
                            },
                        );
                    }
                    proof {
                        old(self).plugins.lemma_keys();
                        lemma_step_keeps_invariants(
                            PluginProcessView::discovered(id@, Some(metadata@), enabled),
                            LifecycleEventView::Enable,
                            self.config,
                        );
                    }
                    self.plugins.insert(id, record);
                    proof {
                        self.plugins.lemma_keys();
                        assert(self@.plugins =~= old(self)@.consider(
                            candidate@,
                            flags@,
                            old(self).config(),
                        ).plugins);
                    }
                }
            },
        }
        assert(directives_view(directives@) =~= old(self)@.directives_for(candidate@, flags@));
        directives
    }

    /// Takes in the candidates of a sweep over the plugins directory.
    ///
    /// A candidate whose handshake failed is recorded as such and left out;
    /// it does not touch what the other candidates get. A candidate whose
    /// id is already in the registry is left as it is. Every other candidate
    /// enters the registry with its persisted `enabled` flag (not enabled if
    /// it has none), and is started at once if it is enabled.
    pub fn discover(&mut self, candidates: Vec<Candidate>, flags: &PluginsConfig) -> (directives:
        Vec<Directive>)
        requires
            old(self).wf(),
            flags.wf(),
        ensures
            final(self).wf(),
            final(self)@.wf(),
            final(self).config() == old(self).config(),
            final(self).plugins_dir() == old(self).plugins_dir(),
            final(self)@ == old(self)@.discover(
                candidates_view(candidates@),
                flags@,
                old(self).config(),
            ),
            directives_view(directives@) == old(self)@.discovery_directives(
                candidates_view(candidates@),
                flags@,
                old(self).config(),
            ),
    {
        let ghost all = candidates_view(candidates@);
        let ghost config = self.config();
        let mut directives: Vec<Directive> = Vec::new();
        let mut rest = reversed(candidates);
        let ghost mut done: int = 0;
        assert(all.skip(0) =~= all);
        while rest.len() > 0
            invariant
                self.wf(),
                flags.wf(),
                self.config() == config,
                self.plugins_dir() == old(self).plugins_dir(),
                0 <= done <= all.len(),
                rest@.len() == all.len() - done,
                forall|k: int|
                    0 <= k < rest@.len() ==> (#[trigger] rest@[k])@ == all[all.len() - 1 - k],
                old(self)@.discover(all, flags@, config) == self@.discover(
                    all.skip(done),
                    flags@,
                    config,
                ),
                old(self)@.discovery_directives(all, flags@, config) == directives_view(
                    directives@,
                ) + self@.discovery_directives(all.skip(done), flags@, config),
            decreases rest@.len(),
        {
            let candidate = rest.pop().unwrap();
            proof {
                assert(candidate@ == all[done]);
                assert(all.skip(done)[0] == all[done]);
                assert(all.skip(done).drop_first() =~= all.skip(done + 1));
            }
            let ghost before = directives_view(directives@);
            let ghost registry = self@;
            let mut more = self.consider(candidate, flags);
            let ghost added = directives_view(more@);
            directives.append(&mut more);
            proof {
                assert(directives_view(directives@) =~= before + added);
                assert(before + (added + self@.discovery_directives(
                    all.skip(done + 1),
                    flags@,
                    config,
                )) =~= (before + added) + self@.discovery_directives(
                    all.skip(done + 1),
                    flags@,
                    config,
                ));
                done = done + 1;
            }
        }
        proof {
            assert(all.skip(done) =~= Seq::<CandidateView>::empty());
            assert(directives_view(directives@) + Seq::<DirectiveView>::empty()
                =~= directives_view(directives@));
        }
        directives
    }

    /// Lets `event` happen to the plugin `id`.
    ///
    /// Returns what the supervisor has to do now, or `None` if no plugin has
    /// that id.
    pub fn apply(&mut self, id: &str, event: LifecycleEvent) -> (actions: Option<Vec<Action>>)
        requires
            old(self).wf(),
        ensures
            final(self).wf(),
            final(self)@.wf(),
            final(self).config() == old(self).config(),
            final(self).plugins_dir() == old(self).plugins_dir(),
            final(self)@ == old(self)@.apply(id@, event@, old(self).config()),
            actions is Some <==> old(self)@.plugins.contains_key(id@),
            actions is Some ==> actions->Some_0@ == old(self)@.plugins[id@].actions(
                event@,
                old(self).config(),
            ),
    {
        let mut record = match self.plugins.get(id) {
            Some(record) => record.clone(),
            None => {
                return None;
            },
        };
        let ghost before = record@;
        let actions = record.step(event, &self.config);
        proof {
            assert(old(self)@.plugins.contains_key(id@));
            assert(old(self)@.plugins[id@] == before);
            lemma_step_keeps_invariants(before, event@, self.config);
        }
        self.plugins.insert(id.to_string(), record);
        proof {
            let goal = old(self)@.apply(id@, event@, old(self).config());
            assert(self@.plugins =~= goal.plugins);
            assert(self@.ids == goal.ids);
            assert forall|k: Seq<char>| #[trigger]
                self@.plugins.contains_key(k) implies self@.plugins[k].id == k
                && self@.plugins[k].wf() by {
                assert(old(self)@.plugins.contains_key(k));
            }
            assert forall|k: Seq<char>|
                #![trigger self@.plugins.contains_key(k)]
                #![trigger self@.ids.contains(k)]
                self@.plugins.contains_key(k) <==> self@.ids.contains(k) by {
                assert(old(self)@.plugins.contains_key(k) <==> old(self)@.ids.contains(k));
            }
        }
        Some(actions)
    }

    /// Enables the plugin `id`: the plugin takes the `Enable` event.
    ///
    /// Returns what the supervisor has to do now, or `None` if no plugin has
    /// that id.
    pub fn enable_plugin(&mut self, id: &str) -> (actions: Option<Vec<Action>>)
        requires
            old(self).wf(),
        ensures
            final(self).wf(),
            final(self)@.wf(),
            final(self).config() == old(self).config(),
            final(self).plugins_dir() == old(self).plugins_dir(),
            final(self)@ == old(self)@.apply(id@, LifecycleEventView::Enable, old(self).config()),
            actions is Some <==> old(self)@.plugins.contains_key(id@),
            actions is Some ==> actions->Some_0@ == old(self)@.plugins[id@].actions(
                LifecycleEventView::Enable,
                old(self).config(),
            ),
    {
        self.apply(id, LifecycleEvent::Enable)
    }

    /// Disables the plugin `id`: the plugin takes the `Disable` event.
    ///
    /// Returns what the supervisor has to do now, or `None` if no plugin has
    /// that id.
    pub fn disable_plugin(&mut self, id: &str) -> (actions: Option<Vec<Action>>)
        requires
            old(self).wf(),
        ensures
            final(self).wf(),
            final(self)@.wf(),
            final(self).config() == old(self).config(),
            final(self).plugins_dir() == old(self).plugins_dir(),
            final(self)@ == old(self)@.apply(id@, LifecycleEventView::Disable, old(self).config()),
            actions is Some <==> old(self)@.plugins.contains_key(id@),
            actions is Some ==> actions->Some_0@ == old(self)@.plugins[id@].actions(
                LifecycleEventView::Disable,
                old(self).config(),
            ),
    {
        self.apply(id, LifecycleEvent::Disable)
    }

    /// The plugin that serves `route`, for the router in front of the host.
    ///
    /// Only running plugins serve routes: a route is found from the moment
    /// its plugin starts running until the moment it stops. `None` means
    /// that no running plugin declares `route`. Where several running
    /// plugins declare the same route, one of them is returned.
    pub fn get_plugin_for_route(&self, route: &str) -> (owner: Option<String>)
        requires
            self.wf(),
        ensures
            owner is Some ==> self@.serves(owner->Some_0@, route@),
            owner is None ==> forall|id: Seq<char>| !self@.serves(id, route@),
    {
        let wanted = route.to_string();
        let n = self.plugins.len();
        let mut i: usize = 0;
        while i < n
            invariant
                i <= n,
                n == self@.ids.len(),
                self.wf(),
                wanted@ == route@,
                forall|j: int| 0 <= j < i ==> !self@.serves(#[trigger] self@.ids[j], route@),
            decreases n - i,
        {
            let record = self.plugin_at(i);
            let found = match (&record.state, &record.metadata) {
                (PluginState::Running, Some(metadata)) => metadata.route == wanted,
                _ => false,
            };
            if found {
                return Some(record.id.clone());
            }
            i = i + 1;
        }
        proof {
            assert forall|id: Seq<char>| !self@.serves(id, route@) by {
                if self@.plugins.contains_key(id) {
                    assert(self@.ids.contains(id));
                    let j = choose|j: int| 0 <= j < self@.ids.len() && self@.ids[j] == id;
                    assert(!self@.serves(self@.ids[j], route@));
                }
            }
        }
        None
    }

    /// Finds the plugin to forward a request to `path` to, and the path to
    /// hand to it.
    ///
    /// `None` means that the path lies under the route of no running
    /// plugin; the router answers that with `404`. Where it lies under the
    /// routes of several, one of them is returned.
    pub fn route_request(&self, path: &str) -> (target: Option<RouteTarget>)
        requires
            self.wf(),
        ensures
            target is Some ==> self@.reach(target->Some_0.plugin_id@, path@) == Some(
                target->Some_0.path@,
            ),
            target is None ==> forall|id: Seq<char>| self@.reach(id, path@) is None,
    {
        let n = self.plugins.len();
        let mut i: usize = 0;
        while i < n
            invariant
                i <= n,
                n == self@.ids.len(),
                self.wf(),
                forall|j: int| 0 <= j < i ==> self@.reach(#[trigger] self@.ids[j], path@) is None,
            decreases n - i,
        {
            let record = self.plugin_at(i);
            let inner = match (&record.state, &record.metadata) {
                (PluginState::Running, Some(metadata)) => strip_route(
                    metadata.route.as_str(),
                    path,
                ),
                _ => None,
            };
            if let Some(inner) = inner {
                return Some(RouteTarget { plugin_id: record.id.clone(), path: inner });
            }
            i = i + 1;
        }
        proof {
            assert forall|id: Seq<char>| self@.reach(id, path@) is None by {
                if self@.plugins.contains_key(id) {
                    assert(self@.ids.contains(id));
                    let j = choose|j: int| 0 <= j < self@.ids.len() && self@.ids[j] == id;
                    assert(self@.reach(self@.ids[j], path@) is None);
                }
            }
        }
        None
    }
}

/// A candidate whose handshake fails leaves no trace in the registry: a
/// sweep gives every other candidate exactly what it would have got had the
/// failing candidate not been there.
pub proof fn lemma_failed_candidate_is_skipped(
    registry: RegistryView,
    candidates: Seq<CandidateView>,
    failing: int,
    flags: Map<Seq<char>, bool>,
    config: SupervisorConfig,
)
    requires
        0 <= failing < candidates.len(),
        candidates[failing].handshake is Failed,
    ensures
        registry.discover(candidates, flags, config) == registry.discover(
            candidates.remove(failing),
            flags,
            config,
        ),
    decreases candidates.len(),
{
    if failing == 0 {
        assert(candidates.remove(0) =~= candidates.drop_first());
    } else {
        let rest = candidates.drop_first();
        assert(rest[failing - 1] == candidates[failing]);
        lemma_failed_candidate_is_skipped(
            registry.consider(candidates[0], flags, config),
            rest,
            failing - 1,
            flags,
            config,
        );
        let without = candidates.remove(failing);
        assert(without[0] == candidates[0]);
        assert(without.drop_first() =~= rest.remove(failing - 1));
    }
}

/// Filing a record under a new id keeps the ids in step with the records.
proof fn lemma_push_keeps_listing(registry: RegistryView, next: RegistryView, id: Seq<char>)
    requires
        registry.wf(),
        !registry.plugins.contains_key(id),
        next.ids == registry.ids.push(id),
        next.plugins.dom() == registry.plugins.dom().insert(id),
    ensures
        forall|k: Seq<char>|
            #![trigger next.plugins.contains_key(k)]
            #![trigger next.ids.contains(k)]
            next.plugins.contains_key(k) <==> next.ids.contains(k),
        forall|i: int, j: int|
            0 <= i < next.ids.len() && 0 <= j < next.ids.len() && i != j ==> (#[trigger] next.ids[i])
                != (#[trigger] next.ids[j]),
{
    assert forall|k: Seq<char>|
        #![trigger next.plugins.contains_key(k)]
        #![trigger next.ids.contains(k)]
        next.plugins.contains_key(k) <==> next.ids.contains(k) by {
        if next.ids.contains(k) {
            let i = choose|i: int| 0 <= i < next.ids.len() && next.ids[i] == k;
            if i < registry.ids.len() {
                assert(registry.ids[i] == k);
                assert(registry.ids.contains(k));
            }
        }
        if registry.plugins.contains_key(k) {
            assert(registry.ids.contains(k));
            let i = choose|i: int| 0 <= i < registry.ids.len() && registry.ids[i] == k;
            assert(next.ids[i] == k);
        }
        if k == id {
            assert(next.ids[registry.ids.len() as int] == k);
        }
    }
    assert forall|i: int, j: int|
        0 <= i < next.ids.len() && 0 <= j < next.ids.len() && i != j implies (
    #[trigger] next.ids[i]) != (#[trigger] next.ids[j]) by {
        if i < registry.ids.len() && j < registry.ids.len() {
            assert(registry.ids[i] != registry.ids[j]);
        } else if i < registry.ids.len() {
            assert(registry.ids.contains(registry.ids[i]));
        } else {
            assert(registry.ids.contains(registry.ids[j]));
        }
    }
}

/// No event breaks the invariants of the registry.
pub proof fn lemma_apply_keeps_invariants(
    registry: RegistryView,
    id: Seq<char>,
    event: LifecycleEventView,
    config: SupervisorConfig,
)
    requires
        registry.wf(),
    ensures
        registry.apply(id, event, config).wf(),
{
    if registry.plugins.contains_key(id) {
        lemma_step_keeps_invariants(registry.plugins[id], event, config);
        let next = registry.apply(id, event, config);
        assert forall|k: Seq<char>|
            #![trigger next.plugins.contains_key(k)]
            #![trigger next.ids.contains(k)]
            next.plugins.contains_key(k) <==> next.ids.contains(k) by {
            assert(registry.plugins.contains_key(k) <==> registry.ids.contains(k));
        }
        assert forall|k: Seq<char>| #[trigger] next.plugins.contains_key(k) implies next.plugins[k].id
            == k && next.plugins[k].wf() by {
            assert(registry.plugins.contains_key(k));
        }
    }
}

/// In a well-formed registry every plugin that is not enabled is switched
/// off: it is in the state `Disabled`, it has no pid and no child, and it
/// serves no route.
pub proof fn lemma_disabled_plugins_are_off(registry: RegistryView, id: Seq<char>)
    requires
        registry.wf(),
        registry.plugins.contains_key(id),
        !registry.plugins[id].enabled,
    ensures
        registry.plugins[id].state is Disabled,
        registry.plugins[id].pid is None,
        !state_has_child(registry.plugins[id].state),
        forall|route: Seq<char>| !registry.serves(id, route),
        forall|path: Seq<char>| registry.reach(id, path) is None,
{
}

/// A sweep keeps the registry well-formed.
pub proof fn lemma_discover_keeps_invariants(
    registry: RegistryView,
    candidates: Seq<CandidateView>,
    flags: Map<Seq<char>, bool>,
    config: SupervisorConfig,
)
    requires
        registry.wf(),
    ensures
        registry.discover(candidates, flags, config).wf(),
    decreases candidates.len(),
{
    if candidates.len() > 0 {
        let candidate = candidates[0];
        let next = registry.consider(candidate, flags, config);
        if registry.accepts(candidate) {
            let enabled = enabled_in(flags, candidate.id);
            lemma_step_keeps_invariants(
                PluginProcessView::discovered(
                    candidate.id,
                    Some(candidate.handshake->Declared_0),
                    enabled,
                ),
                LifecycleEventView::Enable,
                config,
            );
            lemma_push_keeps_listing(registry, next, candidate.id);
        }
        lemma_discover_keeps_invariants(next, candidates.drop_first(), flags, config);
    }
}

/// The actions of a disable, of the child's exit that follows it, and of
/// the enable after that, in order.
pub open spec fn disable_enable_cycle(
    record: PluginProcessView,
    reason: Seq<char>,
    config: SupervisorConfig,
) -> Seq<Action> {
    let stopping = record.next(LifecycleEventView::Disable, config);
    let exited = LifecycleEventView::ChildExited { run: record.run, reason };
    let stopped = stopping.next(exited, config);
    record.actions(LifecycleEventView::Disable, config) + stopping.actions(exited, config)
        + stopped.actions(LifecycleEventView::Enable, config)
}

/// Disabling a plugin and enabling it again leaves the persisted flags as
/// they were: for a plugin that is enabled, and persisted as such, the
/// flags after a disable, the exit of its child and an enable are the flags
/// before. The plugin is then on its way to running again, with a clean
/// restart count.
pub proof fn lemma_disable_enable_restores_flags(
    record: PluginProcessView,
    flags: Map<Seq<char>, bool>,
    reason: Seq<char>,
    config: SupervisorConfig,
)
    requires
        record.wf(),
        record.enabled,
        enabled_in(flags, record.id),
    ensures
        persisted_after(
            flags,
            record.id,
            disable_enable_cycle(record, reason, config),
        ) == flags,
        record.next(LifecycleEventView::Disable, config).next(
            LifecycleEventView::ChildExited { run: record.run, reason },
            config,
        ).next(LifecycleEventView::Enable, config).state is Starting,
{
    let id = record.id;
    let exited = LifecycleEventView::ChildExited { run: record.run, reason };
    let stopping = record.next(LifecycleEventView::Disable, config);
    let stopped = stopping.next(exited, config);
    let first = record.actions(LifecycleEventView::Disable, config);
    let second = stopping.actions(exited, config);
    let third = stopped.actions(LifecycleEventView::Enable, config);
    assert(stopped.state is Disabled);
    assert(third =~= seq![
        Action::PersistEnabled { enabled: true },
        Action::Spawn { run: run_after(stopped.run) },
    ]);
    reveal_with_fuel(crate::settings::persisted_after, 4);
    let off = flags.insert(id, false);
    assert(third.drop_last() =~= seq![Action::PersistEnabled { enabled: true }]);
    assert(third.drop_last().drop_last() =~= Seq::<Action>::empty());
    assert(persisted_after(off, id, third) == off.insert(id, true));
    assert(off.insert(id, true) =~= flags);
    if record.state is Unloaded {
        assert(first =~= seq![
            Action::PersistEnabled { enabled: false },
            Action::Record { event: EventKind::Stopped },
        ]);
        assert(first.drop_last() =~= seq![Action::PersistEnabled { enabled: false }]);
        assert(first.drop_last().drop_last() =~= Seq::<Action>::empty());
        assert(persisted_after(flags, id, first) == off);
        assert(second =~= Seq::<Action>::empty());
        assert(first + second =~= first);
    } else {
        if record.state is Stopping {
            assert(first =~= Seq::<Action>::empty());
        } else {
            assert(first =~= seq![Action::Stop { grace_ms: config.shutdown_grace_ms }]);
            assert(first.drop_last() =~= Seq::<Action>::empty());
        }
        assert(persisted_after(flags, id, first) == flags);
        assert(second =~= seq![
            Action::PersistEnabled { enabled: false },
            Action::Record { event: EventKind::Stopped },
        ]);
        assert(second.drop_last() =~= seq![Action::PersistEnabled { enabled: false }]);
        assert(second.drop_last().drop_last() =~= Seq::<Action>::empty());
        assert(persisted_after(flags, id, second) == off);
        lemma_persisted_in_turn(flags, id, first, second);
    }
    lemma_persisted_in_turn(flags, id, first + second, third);
}

/// The persisted flag of a plugin follows its record. Where the flag says
/// what the record says before an event, it does so again once the actions
/// of the event are carried out: a plugin is enabled exactly if its
/// persisted flag is set.
pub proof fn lemma_flag_follows_record(
    record: PluginProcessView,
    flags: Map<Seq<char>, bool>,
    event: LifecycleEventView,
    config: SupervisorConfig,
)
    requires
        record.wf(),
        record.enabled == enabled_in(flags, record.id),
    ensures
        record.next(event, config).enabled == enabled_in(
            persisted_after(flags, record.id, record.actions(event, config)),
            record.id,
        ),
{
    let actions = record.actions(event, config);
    let next = record.next(event, config);
    if exists|i: int| 0 <= i < actions.len() && (#[trigger] actions[i]) is PersistEnabled {
        let i = choose|i: int| 0 <= i < actions.len() && (#[trigger] actions[i]) is PersistEnabled;
        let set = actions[i]->enabled;
        assert forall|j: int| 0 <= j < actions.len() && (#[trigger] actions[j]) is PersistEnabled
            implies actions[j] == (Action::PersistEnabled { enabled: set }) by {}
        lemma_persisted_once(flags, record.id, actions, set);
        assert(next.enabled == set);
    } else {
        lemma_persisted_nothing(flags, record.id, actions);
        if next.enabled != record.enabled {
            assert(actions.len() > 0);
            assert(actions[0] is PersistEnabled || (actions.len() > 1 && actions[1]
                is PersistEnabled) || (actions.len() > 2 && actions[2] is PersistEnabled));
        }
    }
}

/// Disabling switches a plugin off, whatever it was doing. After a disable
/// and the exit of the child that it stops, the plugin is not enabled, it
/// is in the state `Disabled`, it has no pid, no socket and no child, and
/// its persisted flag is not set. This holds of a plugin that was switched
/// off already, too.
pub proof fn lemma_disable_switches_off(
    record: PluginProcessView,
    flags: Map<Seq<char>, bool>,
    reason: Seq<char>,
    config: SupervisorConfig,
)
    requires
        record.wf(),
        record.enabled == enabled_in(flags, record.id),
    ensures
        ({
            let stopping = record.next(LifecycleEventView::Disable, config);
            let exited = LifecycleEventView::ChildExited { run: record.run, reason };
            let stopped = stopping.next(exited, config);
            let actions = record.actions(LifecycleEventView::Disable, config) + stopping.actions(
                exited,
                config,
            );
            &&& stopped.wf()
            &&& !stopped.enabled
            &&& stopped.state is Disabled
            &&& stopped.pid is None
            &&& stopped.socket_path.len() == 0
            &&& !state_has_child(stopped.state)
            &&& !enabled_in(persisted_after(flags, record.id, actions), record.id)
        }),
{
    let stopping = record.next(LifecycleEventView::Disable, config);
    let exited = LifecycleEventView::ChildExited { run: record.run, reason };
    let first = record.actions(LifecycleEventView::Disable, config);
    let second = stopping.actions(exited, config);
    lemma_step_keeps_invariants(record, LifecycleEventView::Disable, config);
    lemma_step_keeps_invariants(stopping, exited, config);
    lemma_flag_follows_record(record, flags, LifecycleEventView::Disable, config);
    lemma_flag_follows_record(
        stopping,
        persisted_after(flags, record.id, first),
        exited,
        config,
    );
    lemma_persisted_in_turn(flags, record.id, first, second);
}

/// The actions for one plugin leave the flags of all others as they are.
pub proof fn lemma_other_flags_stay(
    flags: Map<Seq<char>, bool>,
    id: Seq<char>,
    actions: Seq<Action>,
    other: Seq<char>,
)
    requires
        other != id,
    ensures
        enabled_in(persisted_after(flags, id, actions), other) == enabled_in(flags, other),
    decreases actions.len(),
{
    if actions.len() > 0 {
        lemma_other_flags_stay(flags, id, actions.drop_last(), other);
    }
}

/// The persisted flags keep step with the registry through every event:
/// where they agree with the registry before, the flags after the actions
/// of the event agree with the registry after it.
pub proof fn lemma_apply_keeps_flags_in_step(
    registry: RegistryView,
    flags: Map<Seq<char>, bool>,
    id: Seq<char>,
    event: LifecycleEventView,
    config: SupervisorConfig,
)
    requires
        registry.wf(),
        registry.agrees_with(flags),
        registry.plugins.contains_key(id),
    ensures
        registry.apply(id, event, config).agrees_with(
            persisted_after(flags, id, registry.plugins[id].actions(event, config)),
        ),
{
    let actions = registry.plugins[id].actions(event, config);
    let next = registry.apply(id, event, config);
    let after = persisted_after(flags, id, actions);
    lemma_flag_follows_record(registry.plugins[id], flags, event, config);
    assert forall|k: Seq<char>| #[trigger] next.plugins.contains_key(k) implies next.plugins[k].enabled
        == enabled_in(after, k) by {
        assert(registry.plugins.contains_key(k));
        if k != id {
            lemma_other_flags_stay(flags, id, actions, k);
        }
    }
}

/// A sweep takes every plugin in with its persisted flag: where the flags
/// agree with the registry before the sweep, they agree with it after.
pub proof fn lemma_discover_keeps_flags_in_step(
    registry: RegistryView,
    candidates: Seq<CandidateView>,
    flags: Map<Seq<char>, bool>,
    config: SupervisorConfig,
)
    requires
        registry.agrees_with(flags),
    ensures
        registry.discover(candidates, flags, config).agrees_with(flags),
    decreases candidates.len(),
{
    if candidates.len() > 0 {
        let next = registry.consider(candidates[0], flags, config);
        assert forall|k: Seq<char>| #[trigger] next.plugins.contains_key(k) implies next.plugins[k].enabled
            == enabled_in(flags, k) by {
            if !registry.plugins.contains_key(k) {
                assert(k == candidates[0].id);
            }
        }
        lemma_discover_keeps_flags_in_step(next, candidates.drop_first(), flags, config);
    }
}

} // verus!
