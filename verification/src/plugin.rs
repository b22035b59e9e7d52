//! The plugin framework: plugin states, manifests, a registry that owns the
//! plugin factories and instances and drives their lifecycle, and a manager
//! that keeps lifecycle records.

use vstd::prelude::*;
use crate::json::{JsonMap, JsonNumber, JsonValue, Json, NumberModel, StringMap, distinct_keys, lookup, law_insert_lookup};
use crate::text::{str_eq, owned, concat2, concat3, string_views};

verus! {

broadcast use {vstd::std_specs::vec::group_vec_axioms, vstd::string::group_string_axioms};

/// The lifecycle state of a plugin.
#[derive(Debug, Clone, Copy, PartialEq, Eq, Structural, Hash)]
pub enum PluginState {
    Discovered,
    Loaded,
    Activating,
    Active,
    Deactivating,
    Inactive,
    Error,
    Unloaded,
}

impl PluginState {
    /// The name of a plugin state.
    pub open spec fn name(self) -> Seq<char> {
        match self {
            PluginState::Discovered => "discovered"@,
            PluginState::Loaded => "loaded"@,
            PluginState::Activating => "activating"@,
            PluginState::Active => "active"@,
            PluginState::Deactivating => "deactivating"@,
            PluginState::Inactive => "inactive"@,
            PluginState::Error => "error"@,
            PluginState::Unloaded => "unloaded"@,
        }
    }

    /// The name of this state.
    pub fn as_str(&self) -> (r: &'static str)
        ensures
            r@ == self.name(),
    {
        match self {
            PluginState::Discovered => "discovered",
            PluginState::Loaded => "loaded",
            PluginState::Activating => "activating",
            PluginState::Active => "active",
            PluginState::Deactivating => "deactivating",
            PluginState::Inactive => "inactive",
            PluginState::Error => "error",
            PluginState::Unloaded => "unloaded",
        }
    }

    /// The name of this state, owned.
    pub fn to_string(&self) -> (r: String)
        ensures
            r@ == self.name(),
    {
        owned(self.as_str())
    }
}

/// A dependency of a plugin on another plugin.
#[derive(Debug)]
pub struct PluginDependency {
    pub plugin_id: String,
    pub version_range: String,
    pub optional: bool,
}

/// The four kinds of plugin.
#[derive(Debug, Clone, Copy, PartialEq, Eq, Structural)]
pub enum PluginType {
    Agent,
    Tool,
    Hook,
    Skill,
}

impl PluginType {
    /// The name of a plugin kind.
    pub open spec fn name(self) -> Seq<char> {
        match self {
            PluginType::Agent => "agent"@,
            PluginType::Tool => "tool"@,
            PluginType::Hook => "hook"@,
            PluginType::Skill => "skill"@,
        }
    }

    /// The name of this kind.
    pub fn as_str(&self) -> (r: &'static str)
        ensures
            r@ == self.name(),
    {
        match self {
            PluginType::Agent => "agent",
            PluginType::Tool => "tool",
            PluginType::Hook => "hook",
            PluginType::Skill => "skill",
        }
    }

    /// The name of this kind, owned.
    pub fn to_string(&self) -> (r: String)
        ensures
            r@ == self.name(),
    {
        owned(self.as_str())
    }
}

/// A plugin's manifest. The processor share and the timeout are decimal
/// numbers, kept as JSON numbers.
#[derive(Debug)]
pub struct PluginManifest {
    pub plugin_id: String,
    pub name: String,
    pub version: String,
    pub description: String,
    pub author: String,
    pub plugin_type: PluginType,
    pub entry_point: String,
    pub entry_class: String,
    pub dependencies: Vec<PluginDependency>,
    pub capabilities: Vec<String>,
    pub permissions: Vec<String>,
    pub max_memory_mb: i32,
    pub max_cpu_percent: JsonNumber,
    pub max_threads: i32,
    pub timeout_seconds: JsonNumber,
    pub tags: Vec<String>,
}

/// `m` holds the defaults of a new manifest with this id and name, its
/// capabilities aside.
pub open spec fn manifest_defaults(m: PluginManifest, plugin_id: Seq<char>, name: Seq<char>) -> bool {
    &&& m.plugin_id@ == plugin_id
    &&& m.name@ == name
    &&& m.version@ == "1.0.0"@
    &&& m.description@.len() == 0
    &&& m.author@.len() == 0
    &&& m.plugin_type == PluginType::Agent
    &&& m.entry_point@.len() == 0
    &&& m.entry_class@.len() == 0
    &&& m.dependencies@.len() == 0
    &&& m.permissions@.len() == 0
    &&& m.max_memory_mb == 128
    &&& m.max_cpu_percent.model() == NumberModel::Float("50.0"@)
    &&& m.max_threads == 4
    &&& m.timeout_seconds.model() == NumberModel::Float("30.0"@)
    &&& m.tags@.len() == 0
}

impl PluginManifest {
    /// A manifest with this id and name and default settings: version
    /// "1.0.0", an agent plugin, 128 MB of memory, half a processor, four
    /// threads and a timeout of thirty seconds.
    pub fn new(plugin_id: &str, name: &str) -> (r: PluginManifest)
        ensures
            manifest_defaults(r, plugin_id@, name@),
            r.capabilities@.len() == 0,
    {
        PluginManifest {
            plugin_id: owned(plugin_id),
            name: owned(name),
            version: owned("1.0.0"),
            description: String::new(),
            author: String::new(),
            plugin_type: PluginType::Agent,
            entry_point: String::new(),
            entry_class: String::new(),
            dependencies: Vec::new(),
            capabilities: Vec::new(),
            permissions: Vec::new(),
            max_memory_mb: 128,
            max_cpu_percent: JsonNumber::Float(owned("50.0")),
            max_threads: 4,
            timeout_seconds: JsonNumber::Float(owned("30.0")),
            tags: Vec::new(),
        }
    }
}

/// A plugin. Implementations decide what each lifecycle step does; an
/// `Err` reports a failed step.
///
/// The spec functions below name what a plugin reports and what its steps
/// give. Each defaults to `true`, so a plugin that says nothing of itself
/// meets every contract here; one that overrides them states what it does.
/// The lifecycle steps keep the ids a plugin answers to.
pub trait BasePlugin: Send + Sync {
    /// `id` is an id this plugin answers to.
    open spec fn answers_to(&self, id: Seq<char>) -> bool {
        true
    }

    /// `caps` are capabilities this plugin reports.
    open spec fn offers(&self, caps: Seq<Seq<char>>) -> bool {
        true
    }

    /// `r` is what this plugin's load step gives with `context`.
    open spec fn load_gives(&self, context: Seq<(Seq<char>, Json)>, r: Result<(), String>) -> bool {
        true
    }

    /// `r` is what this plugin's activation step gives with `context`.
    open spec fn activate_gives(&self, context: Seq<(Seq<char>, Json)>, r: Result<(), String>) -> bool {
        true
    }

    /// `r` is what this plugin's deactivation step gives.
    open spec fn deactivate_gives(&self, r: Result<(), String>) -> bool {
        true
    }

    /// `r` is what this plugin's unload step gives.
    open spec fn unload_gives(&self, r: Result<(), String>) -> bool {
        true
    }

    fn plugin_id(&self) -> (r: &str)
        ensures
            self.answers_to(r@);

    fn set_plugin_id(&mut self, id: &str)
        ensures
            final(self).answers_to(id@);

    fn on_load(&mut self, context: &JsonMap) -> (r: Result<(), String>)
        ensures
            old(self).load_gives(context.model(), r),
            forall|id: Seq<char>| old(self).answers_to(id) ==> #[trigger] final(self).answers_to(id);

    fn on_activate(&mut self, context: &JsonMap) -> (r: Result<(), String>)
        ensures
            old(self).activate_gives(context.model(), r),
            forall|id: Seq<char>| old(self).answers_to(id) ==> #[trigger] final(self).answers_to(id);

    fn on_deactivate(&mut self) -> (r: Result<(), String>)
        ensures
            old(self).deactivate_gives(r),
            forall|id: Seq<char>| old(self).answers_to(id) ==> #[trigger] final(self).answers_to(id);

    fn on_unload(&mut self) -> (r: Result<(), String>)
        ensures
            old(self).unload_gives(r);

    fn on_error(&mut self, error: &str)
        ensures
            forall|id: Seq<char>| old(self).answers_to(id) ==> #[trigger] final(self).answers_to(id);

    fn get_capabilities(&self) -> (r: Vec<String>)
        ensures
            self.offers(string_views(r@));
}

/// A boxed plugin, as a factory makes it.
pub struct PluginBox(pub Box<dyn BasePlugin>);

impl PluginBox {
    /// Boxes a plugin: the box holds this plugin, as a trait object.
    pub fn new<P: BasePlugin + 'static>(plugin: P) -> (r: PluginBox)
        ensures
            ({
                let boxed: Box<dyn BasePlugin> = Box::new(plugin);
                r.0 == boxed
            }),
    {
        PluginBox(Box::new(plugin))
    }
}

/// Makes fresh instances of one plugin.
pub trait PluginFactory: Send + Sync {
    /// `p` is an instance this factory may make. Defaults to `true`.
    open spec fn creates(&self, p: PluginBox) -> bool {
        true
    }

    fn create(&self) -> (r: PluginBox)
        ensures
            self.creates(r);
}

struct Slot {
    id: String,
    factory: Box<dyn PluginFactory>,
    manifest: PluginManifest,
    state: PluginState,
    instance: Option<PluginBox>,
}

/// What the registry holds for one plugin: its id, manifest and state, and
/// whether an instance of it is loaded.
pub struct SlotView {
    pub id: Seq<char>,
    pub manifest: PluginManifest,
    pub state: PluginState,
    pub loaded: bool,
}

impl Slot {
    spec fn view(&self) -> SlotView {
        SlotView { id: self.id@, manifest: self.manifest, state: self.state, loaded: self.instance is Some }
    }
}

spec fn views(s: Seq<Slot>) -> Seq<SlotView> {
    s.map_values(|t: Slot| t.view())
}

proof fn lemma_views_push(s: Seq<Slot>, x: Slot)
    ensures
        views(s.push(x)) == views(s).push(x.view()),
{
    assert forall|i: int| 0 <= i < s.len() + 1 implies #[trigger] views(s.push(x))[i] == views(s).push(x.view())[i] by {
        if i < s.len() {
            assert(s.push(x)[i] == s[i]);
        } else {
            assert(s.push(x)[i] == x);
        }
    }
    assert(views(s.push(x)) =~= views(s).push(x.view()));
}

proof fn lemma_views_remove(s: Seq<Slot>, k: int)
    requires
        0 <= k < s.len(),
    ensures
        views(s.remove(k)) == views(s).remove(k),
{
    assert forall|i: int| 0 <= i < s.len() - 1 implies #[trigger] views(s.remove(k))[i] == views(s).remove(k)[i] by {
        if i < k {
            assert(s.remove(k)[i] == s[i]);
        } else {
            assert(s.remove(k)[i] == s[i + 1]);
        }
    }
    assert(views(s.remove(k)) =~= views(s).remove(k));
}

proof fn lemma_views_update(s: Seq<Slot>, k: int, x: Slot)
    requires
        0 <= k < s.len(),
    ensures
        views(s.update(k, x)) == views(s).update(k, x.view()),
{
    assert forall|i: int| 0 <= i < s.len() implies #[trigger] views(s.update(k, x))[i] == views(s).update(k, x.view())[i] by {
        if i != k {
            assert(s.update(k, x)[i] == s[i]);
        }
    }
    assert(views(s.update(k, x)) =~= views(s).update(k, x.view()));
}

/// Holds the registered plugins, in the order they were registered.
pub struct PluginRegistry {
    slots: Vec<Slot>,
}

/// A state in which a plugin must have an instance.
pub open spec fn live_state(s: PluginState) -> bool {
    s == PluginState::Loaded || s == PluginState::Active || s == PluginState::Inactive
}

/// Ids occur once, and a plugin that is loaded, active or inactive has an
/// instance.
pub open spec fn registry_wf(ss: Seq<SlotView>) -> bool {
    &&& forall|i: int, j: int| 0 <= i < j < ss.len() ==> #[trigger] ss[i].id != #[trigger] ss[j].id
    &&& forall|i: int| 0 <= i < ss.len() && live_state(#[trigger] ss[i].state) ==> ss[i].loaded
}

/// Whether a plugin with this id is registered.
pub open spec fn registered(ss: Seq<SlotView>, id: Seq<char>) -> bool {
    exists|i: int| 0 <= i < ss.len() && #[trigger] ss[i].id == id
}

/// The position of the plugin with this id.
pub open spec fn index_of(ss: Seq<SlotView>, id: Seq<char>) -> int {
    choose|i: int| 0 <= i < ss.len() && #[trigger] ss[i].id == id
}

impl PluginRegistry {
    /// The registered plugins.
    pub closed spec fn slots(&self) -> Seq<SlotView> {
        views(self.slots@)
    }

    /// The factory the plugin at position `k` was registered with may make
    /// `p`.
    pub closed spec fn factory_creates(&self, k: int, p: PluginBox) -> bool {
        self.slots@[k].factory.creates(p)
    }

    /// The instance held for the plugin at position `k`, if any.
    pub closed spec fn instance_at(&self, k: int) -> Option<PluginBox> {
        self.slots@[k].instance
    }

    /// The registry is well formed.
    pub open spec fn wf(&self) -> bool {
        registry_wf(self.slots())
    }

    /// An empty registry.
    pub fn new() -> (r: PluginRegistry)
        ensures
            r.wf(),
            r.slots() == Seq::<SlotView>::empty(),
    {
        let r = PluginRegistry { slots: Vec::new() };
        assert(r.slots() =~= Seq::<SlotView>::empty());
        r
    }

    /// The position of the plugin with this id, if registered.
    fn find(&self, plugin_id: &str) -> (r: Option<usize>)
        requires
            self.wf(),
        ensures
            r is None <==> !registered(self.slots(), plugin_id@),
            r matches Some(k) ==> k < self.slots().len() && k == index_of(self.slots(), plugin_id@)
                && self.slots()[k as int].id == plugin_id@,
    {
        let mut i: usize = 0;
        while i < self.slots.len()
            invariant
                i <= self.slots.len(),
                self.wf(),
                forall|j: int| 0 <= j < i ==> #[trigger] self.slots()[j].id != plugin_id@,
            decreases self.slots.len() - i,
        {
            if str_eq(self.slots[i].id.as_str(), plugin_id) {
                let ghost ss = self.slots();
                assert(ss[i as int].id == plugin_id@);
                assert(registered(ss, plugin_id@));
                let ghost k = index_of(ss, plugin_id@);
                assert(ss[k].id == plugin_id@);
                assert(k == i) by {
                    if k < i {
                        assert(ss[k].id != ss[i as int].id);
                    } else if k > i {
                        assert(ss[i as int].id != ss[k].id);
                    }
                }
                return Some(i);
            }
            i = i + 1;
        }
        None
    }

    /// The state of a registered plugin.
    pub fn get_state(&self, plugin_id: &str) -> (r: Option<&PluginState>)
        requires
            self.wf(),
        ensures
            match r {
                Some(s) => registered(self.slots(), plugin_id@)
                    && *s == self.slots()[index_of(self.slots(), plugin_id@)].state,
                None => !registered(self.slots(), plugin_id@),
            },
    {
        match self.find(plugin_id) {
            Some(k) => Some(&self.slots[k].state),
            None => None,
        }
    }

    /// The plugin's loaded instance: the one the registry holds for it.
    pub fn get(&self, plugin_id: &str) -> (r: Option<&Box<dyn BasePlugin>>)
        requires
            self.wf(),
        ensures
            r is Some <==> registered(self.slots(), plugin_id@)
                && self.slots()[index_of(self.slots(), plugin_id@)].loaded,
            r matches Some(p) ==> (self.instance_at(index_of(self.slots(), plugin_id@)) matches Some(b)
                && *p == b.0),
    {
        match self.find(plugin_id) {
            Some(k) => match &self.slots[k].instance {
                Some(b) => Some(&b.0),
                None => None,
            },
            None => None,
        }
    }
}


/// The message for an id that is already taken.
pub open spec fn already_registered_msg(id: Seq<char>) -> Seq<char> {
    "plugin '"@ + id + "' already registered"@
}

/// The message for an id that is not registered.
pub open spec fn not_found_msg(id: Seq<char>) -> Seq<char> {
    "plugin '"@ + id + "' not found"@
}

/// The message for a plugin whose load step failed with `e`.
pub open spec fn load_failed_msg(id: Seq<char>, e: Seq<char>) -> Seq<char> {
    "plugin '"@ + id + "' on_load failed: "@ + e
}

/// The id a plugin is registered under: the id its instance reports, or,
/// when that is empty, the manifest's id.
pub open spec fn resolved_id(manifest: Option<PluginManifest>, reported: Seq<char>) -> Option<Seq<char>> {
    if reported.len() > 0 {
        Some(reported)
    } else {
        match manifest {
            Some(m) => Some(m.plugin_id@),
            None => None,
        }
    }
}

/// `out` is `m` with only its id and capabilities possibly changed.
pub open spec fn same_but_id_and_capabilities(out: PluginManifest, m: PluginManifest) -> bool {
    &&& out.name == m.name
    &&& out.version == m.version
    &&& out.description == m.description
    &&& out.author == m.author
    &&& out.plugin_type == m.plugin_type
    &&& out.entry_point == m.entry_point
    &&& out.entry_class == m.entry_class
    &&& out.dependencies == m.dependencies
    &&& out.permissions == m.permissions
    &&& out.max_memory_mb == m.max_memory_mb
    &&& out.max_cpu_percent == m.max_cpu_percent
    &&& out.max_threads == m.max_threads
    &&& out.timeout_seconds == m.timeout_seconds
    &&& out.tags == m.tags
}

/// The manifest kept for a plugin registered under `id` whose instance
/// reports `caps`: the given manifest with an empty id or an empty
/// capability list filled in, or a new manifest named after the id.
pub open spec fn completed_manifest(
    out: PluginManifest,
    manifest: Option<PluginManifest>,
    id: Seq<char>,
    caps: Seq<Seq<char>>,
) -> bool {
    match manifest {
        Some(m) => {
            &&& out.plugin_id@ == (if m.plugin_id@.len() == 0 { id } else { m.plugin_id@ })
            &&& string_views(out.capabilities@) == (if m.capabilities@.len() == 0 {
                caps
            } else {
                string_views(m.capabilities@)
            })
            &&& same_but_id_and_capabilities(out, m)
        },
        None => manifest_defaults(out, id, id) && string_views(out.capabilities@) == caps,
    }
}

/// The outcome of registering a plugin with this manifest whose instance
/// reports the id `rid` and the capabilities `caps`, taking the registry
/// from `pre` to `post` and answering `r`.
pub open spec fn register_outcome(
    pre: Seq<SlotView>,
    post: Seq<SlotView>,
    manifest: Option<PluginManifest>,
    rid: Seq<char>,
    caps: Seq<Seq<char>>,
    r: Result<String, String>,
) -> bool {
    match resolved_id(manifest, rid) {
        None => post == pre && (r matches Err(e) && e@ == "plugin ID cannot be empty"@),
        Some(id) => if registered(pre, id) {
            post == pre && (r matches Err(e) && e@ == already_registered_msg(id))
        } else {
            &&& r matches Ok(s) && s@ == id
            &&& post.len() == pre.len() + 1
            &&& post.take(pre.len() as int) == pre
            &&& post.last().id == id
            &&& post.last().state == PluginState::Discovered
            &&& !post.last().loaded
            &&& completed_manifest(post.last().manifest, manifest, id, caps)
        },
    }
}

/// Whether the manifest lists the capability.
pub open spec fn has_capability(m: PluginManifest, cap: Seq<char>) -> bool {
    exists|j: int| 0 <= j < m.capabilities@.len() && #[trigger] m.capabilities@[j]@ == cap
}

fn manifest_has_capability(m: &PluginManifest, cap: &str) -> (r: bool)
    ensures
        r == has_capability(*m, cap@),
{
    let mut j: usize = 0;
    while j < m.capabilities.len()
        invariant
            j <= m.capabilities.len(),
            forall|i: int| 0 <= i < j ==> #[trigger] m.capabilities@[i]@ != cap@,
        decreases m.capabilities.len() - j,
    {
        if str_eq(m.capabilities[j].as_str(), cap) {
            assert(m.capabilities@[j as int]@ == cap@);
            return true;
        }
        j = j + 1;
    }
    false
}

impl PluginRegistry {
    /// Registers a plugin whose instance reports the id `reported_id` and
    /// the capabilities `reported_caps`. The plugin is registered under the
    /// reported id, or, when that is empty, under the manifest's id; it is
    /// refused when there is no id or the id is taken. The manifest kept is
    /// the given one with an empty id or capability list filled in, or a new
    /// one named after the id.
    pub fn register_reported(
        &mut self,
        factory: Box<dyn PluginFactory>,
        manifest: Option<PluginManifest>,
        reported_id: &str,
        reported_caps: Vec<String>,
    ) -> (r: Result<String, String>)
        requires
            old(self).wf(),
        ensures
            final(self).wf(),
            register_outcome(old(self).slots(), final(self).slots(), manifest, reported_id@,
                string_views(reported_caps@), r),
    {
        let ghost pre = self.slots();
        let ghost caps = string_views(reported_caps@);
        let id: String;
        if !reported_id.is_empty() {
            id = owned(reported_id);
        } else {
            match &manifest {
                Some(m) => {
                    id = owned(m.plugin_id.as_str());
                },
                None => {
                    return Err(owned("plugin ID cannot be empty"));
                },
            }
        }
        assert(resolved_id(manifest, reported_id@) == Some(id@));
        if self.find(id.as_str()).is_some() {
            return Err(concat3("plugin '", id.as_str(), "' already registered"));
        }
        let ghost given = manifest;
        let kept = match manifest {
            Some(m) => {
                let mut m = m;
                if m.plugin_id.as_str().is_empty() {
                    m.plugin_id = owned(id.as_str());
                }
                if m.capabilities.len() == 0 {
                    m.capabilities = reported_caps;
                }
                m
            },
            None => {
                let mut m = PluginManifest::new(id.as_str(), id.as_str());
                m.capabilities = reported_caps;
                m
            },
        };
        assert(completed_manifest(kept, given, id@, caps));
        let answer = owned(id.as_str());
        let slot = Slot { id, factory, manifest: kept, state: PluginState::Discovered, instance: None };
        let ghost sv = slot.view();
        proof {
            lemma_views_push(self.slots@, slot);
        }
        self.slots.push(slot);
        assert(self.slots() =~= pre.push(sv));
        assert(self.slots().take(pre.len() as int) =~= pre);
        Ok(answer)
    }

    /// Registers a plugin made by `factory`: one instance is made with it to
    /// read the id and capabilities it reports, and the plugin is registered
    /// as `register_reported` describes for what that instance reported.
    pub fn register(&mut self, factory: Box<dyn PluginFactory>, manifest: Option<PluginManifest>) -> (r:
        Result<String, String>)
        requires
            old(self).wf(),
        ensures
            final(self).wf(),
            exists|made: PluginBox, rid: Seq<char>, caps: Seq<Seq<char>>|
                #![trigger factory.creates(made), made.0.answers_to(rid), made.0.offers(caps)]
                factory.creates(made) && made.0.answers_to(rid) && made.0.offers(caps)
                    && register_outcome(old(self).slots(), final(self).slots(), manifest, rid, caps, r),
    {
        let ghost given = manifest;
        let probe = factory.create();
        let reported_id = owned(probe.0.plugin_id());
        let reported_caps = probe.0.get_capabilities();
        let ghost caps = string_views(reported_caps@);
        let ghost rid = reported_id@;
        assert(factory.creates(probe) && probe.0.answers_to(rid) && probe.0.offers(caps));
        let r = self.register_reported(factory, manifest, reported_id.as_str(), reported_caps);
        assert(register_outcome(old(self).slots(), self.slots(), given, rid, caps, r));
        r
    }

    /// Removes a plugin, unloading its instance first; false when the id is
    /// not registered.
    pub fn unregister(&mut self, plugin_id: &str) -> (r: bool)
        requires
            old(self).wf(),
        ensures
            final(self).wf(),
            r == registered(old(self).slots(), plugin_id@),
            r ==> final(self).slots() == old(self).slots().remove(index_of(old(self).slots(), plugin_id@)),
            !r ==> final(self).slots() == old(self).slots(),
    {
        let ghost pre = self.slots();
        match self.find(plugin_id) {
            None => false,
            Some(k) => {
                proof {
                    lemma_views_remove(self.slots@, k as int);
                }
                let slot = self.slots.remove(k);
                match slot.instance {
                    Some(mut instance) => {
                        if let Err(e) = instance.0.on_unload() {
                            instance.0.on_error(e.as_str());
                        }
                    },
                    None => {},
                }
                true
            },
        }
    }
}


/// A registry entry with its state and instance flag changed.
pub open spec fn with_state(s: SlotView, state: PluginState, loaded: bool) -> SlotView {
    SlotView { id: s.id, manifest: s.manifest, state, loaded }
}

/// The context the registry hands to a plugin's steps: an empty object.
pub open spec fn empty_context() -> Seq<(Seq<char>, Json)> {
    Seq::empty()
}

impl PluginRegistry {
    /// Makes a fresh instance of a registered plugin with the plugin's own
    /// factory, gives it the plugin's id and runs its load step with an
    /// empty context. When the step succeeds the instance replaces any
    /// earlier one, is handed back, and the plugin is loaded; when it fails
    /// the plugin is in error, the error goes to the new instance, and the
    /// earlier instance, if any, stays.
    pub fn load(&mut self, plugin_id: &str) -> (r: Result<&Box<dyn BasePlugin>, String>)
        requires
            old(self).wf(),
        ensures
            final(self).wf(),
            !registered(old(self).slots(), plugin_id@) ==> final(self).slots() == old(self).slots()
                && (r matches Err(e) && e@ == not_found_msg(plugin_id@)),
            registered(old(self).slots(), plugin_id@) ==> ({
                let k = index_of(old(self).slots(), plugin_id@);
                let s = old(self).slots()[k];
                &&& exists|made: PluginBox| #[trigger] old(self).factory_creates(k, made)
                &&& match r {
                    Ok(p) => {
                        &&& exists|named: PluginBox|
                            #![trigger named.0.load_gives(empty_context(), Ok(()))]
                            named.0.answers_to(plugin_id@) && named.0.load_gives(empty_context(), Ok(()))
                        &&& p.answers_to(plugin_id@)
                        &&& final(self).instance_at(k) matches Some(b) && *p == b.0
                        &&& final(self).slots() == old(self).slots().update(k, with_state(s, PluginState::Loaded, true))
                    },
                    Err(e) => {
                        &&& exists|named: PluginBox, f: String|
                            #![trigger named.0.load_gives(empty_context(), Err(f))]
                            named.0.answers_to(plugin_id@) && named.0.load_gives(empty_context(), Err(f))
                                && e@ == load_failed_msg(plugin_id@, f@)
                        &&& final(self).slots() == old(self).slots().update(k, with_state(s, PluginState::Error, s.loaded))
                    },
                }
            }),
    {
        let k = match self.find(plugin_id) {
            Some(k) => k,
            None => {
                return Err(concat3("plugin '", plugin_id, "' not found"));
            },
        };
        let mut made = self.slots[k].factory.create();
        assert(self.factory_creates(k as int, made));
        made.0.set_plugin_id(plugin_id);
        let ghost named = made;
        let context = JsonMap::new();
        assert(context.model() =~= empty_context());
        let outcome = made.0.on_load(&context);
        let ghost step = outcome;
        assert(named.0.answers_to(plugin_id@) && named.0.load_gives(empty_context(), step));
        assert(made.0.answers_to(plugin_id@));
        let ghost ready = made;
        let settled = self.settle_load(k, made, outcome);
        assert(self.slots@.len() == self.slots().len());
        match settled {
            Ok(()) => {
                proof {
                    assert(self.slots()[k as int] == self.slots@[k as int].view());
                    assert(self.slots()[k as int].loaded);
                    assert(self.instance_at(k as int) == Some(ready));
                    if let Ok(u) = step {
                        assert(u == ());
                        assert(step == Ok::<(), String>(()));
                    }
                    assert(named.0.load_gives(empty_context(), Ok(())));
                }
                match &self.slots[k].instance {
                    Some(b) => {
                        assert(*b == ready);
                        assert(b.0.answers_to(plugin_id@));
                        Ok(&b.0)
                    },
                    None => Err(String::new()),
                }
            },
            Err(msg) => {
                proof {
                    if let Err(f) = step {
                        assert(msg@ == load_failed_msg(plugin_id@, f@));
                        assert(named.0.load_gives(empty_context(), Err(f)));
                    }
                }
                Err(msg)
            },
        }
    }

    /// Records what the load step of the fresh instance `made` of the plugin
    /// at position `k` gave: on `Ok` the instance replaces any earlier one
    /// and the plugin is loaded; on `Err(f)` the error goes to `made`, the
    /// plugin is in error and keeps the instance it had, and the answer is
    /// the load-failure message with `f`.
    fn settle_load(&mut self, k: usize, made: PluginBox, outcome: Result<(), String>) -> (r: Result<(), String>)
        requires
            old(self).wf(),
            k < old(self).slots().len(),
        ensures
            final(self).wf(),
            match outcome {
                Ok(_) => r is Ok && final(self).instance_at(k as int) == Some(made)
                    && final(self).slots() == old(self).slots().update(
                    k as int,
                    with_state(old(self).slots()[k as int], PluginState::Loaded, true),
                ),
                Err(f) => (r matches Err(e) && e@ == load_failed_msg(old(self).slots()[k as int].id, f@))
                    && final(self).slots() == old(self).slots().update(
                    k as int,
                    with_state(old(self).slots()[k as int], PluginState::Error, old(self).slots()[k as int].loaded),
                ),
            },
    {
        let ghost raw = self.slots@;
        match outcome {
            Ok(()) => {
                self.slots[k].instance = Some(made);
                self.slots[k].state = PluginState::Loaded;
                proof {
                    let x = self.slots@[k as int];
                    assert(self.slots@ == raw.update(k as int, x));
                    lemma_views_update(raw, k as int, x);
                    assert(x.view() == with_state(views(raw)[k as int], PluginState::Loaded, true));
                }
                Ok(())
            },
            Err(e) => {
                self.slots[k].state = PluginState::Error;
                proof {
                    let x = self.slots@[k as int];
                    assert(self.slots@ == raw.update(k as int, x));
                    lemma_views_update(raw, k as int, x);
                    assert(x.view() == with_state(views(raw)[k as int], PluginState::Error, views(raw)[k as int].loaded));
                }
                let mut made = made;
                made.0.on_error(e.as_str());
                let head = concat3("plugin '", self.slots[k].id.as_str(), "' on_load failed: ");
                Err(concat2(head.as_str(), e.as_str()))
            },
        }
    }

    /// Records what the activation or deactivation step of the loaded
    /// plugin at position `k` gave: on `Ok` the plugin moves to `success`
    /// and the answer is true; on `Err` the error goes to the instance, the
    /// plugin is in error and the answer is false.
    fn settle_step(&mut self, k: usize, outcome: Result<(), String>, success: PluginState) -> (r: bool)
        requires
            old(self).wf(),
            k < old(self).slots().len(),
            old(self).slots()[k as int].loaded,
        ensures
            final(self).wf(),
            r == outcome is Ok,
            final(self).slots() == old(self).slots().update(
                k as int,
                with_state(old(self).slots()[k as int], if outcome is Ok { success } else { PluginState::Error }, true),
            ),
    {
        let ghost raw = self.slots@;
        let ok = match outcome {
            Ok(()) => true,
            Err(e) => {
                match &mut self.slots[k].instance {
                    Some(instance) => {
                        instance.0.on_error(e.as_str());
                    },
                    None => {},
                }
                false
            },
        };
        let next = if ok { success } else { PluginState::Error };
        self.slots[k].state = next;
        proof {
            let x = self.slots@[k as int];
            assert(self.slots@ == raw.update(k as int, x));
            lemma_views_update(raw, k as int, x);
            assert(x.view() == with_state(views(raw)[k as int], next, true));
        }
        ok
    }
}


/// Whether the plugin is registered, loaded or inactive, and has an
/// instance.
pub open spec fn can_activate(ss: Seq<SlotView>, id: Seq<char>) -> bool {
    registered(ss, id) && {
        let s = ss[index_of(ss, id)];
        (s.state == PluginState::Loaded || s.state == PluginState::Inactive) && s.loaded
    }
}

/// Whether the plugin is registered, active, and has an instance.
pub open spec fn can_deactivate(ss: Seq<SlotView>, id: Seq<char>) -> bool {
    registered(ss, id) && {
        let s = ss[index_of(ss, id)];
        s.state == PluginState::Active && s.loaded
    }
}

impl PluginRegistry {
    /// Unloads a plugin's instance: the unload step of the instance the
    /// registry held runs (a failure goes to the instance), the instance is
    /// dropped and the plugin is unloaded; false when the plugin has no
    /// instance.
    pub fn unload(&mut self, plugin_id: &str) -> (r: bool)
        requires
            old(self).wf(),
        ensures
            final(self).wf(),
            r == (registered(old(self).slots(), plugin_id@)
                && old(self).slots()[index_of(old(self).slots(), plugin_id@)].loaded),
            r ==> ({
                let k = index_of(old(self).slots(), plugin_id@);
                &&& final(self).slots() == old(self).slots().update(k,
                    with_state(old(self).slots()[k], PluginState::Unloaded, false))
                &&& exists|x: Result<(), String>| #[trigger] (old(self).instance_at(k)->0).0.unload_gives(x)
            }),
            !r ==> final(self).slots() == old(self).slots(),
    {
        let k = match self.find(plugin_id) {
            Some(k) => k,
            None => {
                return false;
            },
        };
        if self.slots[k].instance.is_none() {
            return false;
        }
        let ghost raw = self.slots@;
        let taken = self.slots[k].instance.take();
        self.slots[k].state = PluginState::Unloaded;
        proof {
            let x = self.slots@[k as int];
            assert(self.slots@ == raw.update(k as int, x));
            lemma_views_update(raw, k as int, x);
            assert(x.view() == with_state(views(raw)[k as int], PluginState::Unloaded, false));
        }
        assert(taken == raw[k as int].instance);
        match taken {
            Some(mut instance) => {
                let ghost before = instance;
                assert(Some(before) == raw[k as int].instance);
                let unloaded = instance.0.on_unload();
                assert(before.0.unload_gives(unloaded));
                assert((raw[k as int].instance->0).0.unload_gives(unloaded));
                if let Err(e) = unloaded {
                    instance.0.on_error(e.as_str());
                }
            },
            None => {},
        }
        true
    }

    /// Runs the activation step of a loaded or inactive plugin's instance
    /// with an empty context: true, and the plugin active, exactly when the
    /// step gives `Ok`; otherwise the error goes to the instance and the
    /// plugin is in error. False, with nothing changed, when the plugin
    /// cannot be activated.
    pub fn activate(&mut self, plugin_id: &str) -> (r: bool)
        requires
            old(self).wf(),
        ensures
            final(self).wf(),
            !can_activate(old(self).slots(), plugin_id@) ==> !r && final(self).slots() == old(self).slots(),
            can_activate(old(self).slots(), plugin_id@) ==> ({
                let k = index_of(old(self).slots(), plugin_id@);
                let s = old(self).slots()[k];
                let p = old(self).instance_at(k)->0;
                &&& r ==> p.0.activate_gives(empty_context(), Ok(()))
                    && final(self).slots() == old(self).slots().update(k, with_state(s, PluginState::Active, true))
                &&& !r ==> (exists|f: String| #[trigger] p.0.activate_gives(empty_context(), Err(f)))
                    && final(self).slots() == old(self).slots().update(k, with_state(s, PluginState::Error, true))
            }),
    {
        let k = match self.find(plugin_id) {
            Some(k) => k,
            None => {
                return false;
            },
        };
        if !(self.slots[k].state == PluginState::Loaded || self.slots[k].state == PluginState::Inactive) {
            return false;
        }
        if self.slots[k].instance.is_none() {
            return false;
        }
        let ghost raw = self.slots@;
        let context = JsonMap::new();
        assert(context.model() =~= empty_context());
        let outcome = match &mut self.slots[k].instance {
            Some(instance) => instance.0.on_activate(&context),
            None => Err(String::new()),
        };
        assert((raw[k as int].instance->0).0.activate_gives(empty_context(), outcome));
        proof {
            let x = self.slots@[k as int];
            assert(self.slots@ == raw.update(k as int, x));
            lemma_views_update(raw, k as int, x);
            assert(x.view() == views(raw)[k as int]);
            assert(views(raw).update(k as int, views(raw)[k as int]) =~= views(raw));
        }
        let ghost step = outcome;
        let r = self.settle_step(k, outcome, PluginState::Active);
        proof {
            if let Ok(u) = step {
                assert(u == ());
                assert(step == Ok::<(), String>(()));
            }
            if let Err(f) = step {
                assert((raw[k as int].instance->0).0.activate_gives(empty_context(), Err(f)));
            }
        }
        r
    }

    /// Runs the deactivation step of an active plugin's instance: true, and
    /// the plugin inactive, exactly when the step gives `Ok`; otherwise the
    /// error goes to the instance and the plugin is in error. False, with
    /// nothing changed, when the plugin is not active.
    pub fn deactivate(&mut self, plugin_id: &str) -> (r: bool)
        requires
            old(self).wf(),
        ensures
            final(self).wf(),
            !can_deactivate(old(self).slots(), plugin_id@) ==> !r && final(self).slots() == old(self).slots(),
            can_deactivate(old(self).slots(), plugin_id@) ==> ({
                let k = index_of(old(self).slots(), plugin_id@);
                let s = old(self).slots()[k];
                let p = old(self).instance_at(k)->0;
                &&& r ==> p.0.deactivate_gives(Ok(()))
                    && final(self).slots() == old(self).slots().update(k, with_state(s, PluginState::Inactive, true))
                &&& !r ==> (exists|f: String| #[trigger] p.0.deactivate_gives(Err(f)))
                    && final(self).slots() == old(self).slots().update(k, with_state(s, PluginState::Error, true))
            }),
    {
        let k = match self.find(plugin_id) {
            Some(k) => k,
            None => {
                return false;
            },
        };
        if !(self.slots[k].state == PluginState::Active) {
            return false;
        }
        if self.slots[k].instance.is_none() {
            return false;
        }
        let ghost raw = self.slots@;
        let outcome = match &mut self.slots[k].instance {
            Some(instance) => instance.0.on_deactivate(),
            None => Err(String::new()),
        };
        assert((raw[k as int].instance->0).0.deactivate_gives(outcome));
        proof {
            let x = self.slots@[k as int];
            assert(self.slots@ == raw.update(k as int, x));
            lemma_views_update(raw, k as int, x);
            assert(x.view() == views(raw)[k as int]);
            assert(views(raw).update(k as int, views(raw)[k as int]) =~= views(raw));
        }
        let ghost step = outcome;
        let r = self.settle_step(k, outcome, PluginState::Inactive);
        proof {
            if let Ok(u) = step {
                assert(u == ());
                assert(step == Ok::<(), String>(()));
            }
            if let Err(f) = step {
                assert((raw[k as int].instance->0).0.deactivate_gives(Err(f)));
            }
        }
        r
    }

    /// The manifest of a registered plugin.
    pub fn get_manifest(&self, plugin_id: &str) -> (r: Option<&PluginManifest>)
        requires
            self.wf(),
        ensures
            match r {
                Some(m) => registered(self.slots(), plugin_id@)
                    && *m == self.slots()[index_of(self.slots(), plugin_id@)].manifest,
                None => !registered(self.slots(), plugin_id@),
            },
    {
        match self.find(plugin_id) {
            Some(k) => Some(&self.slots[k].manifest),
            None => None,
        }
    }
}


/// The view of an optional string slice.
pub open spec fn opt_view(o: Option<&str>) -> Option<Seq<char>> {
    match o {
        Some(s) => Some(s@),
        None => None,
    }
}

/// Whether a manifest passes an optional capability filter.
pub open spec fn passes_filter(m: PluginManifest, cap: Option<Seq<char>>) -> bool {
    match cap {
        Some(c) => has_capability(m, c),
        None => true,
    }
}

/// The manifests of the plugins that pass the filter, in registration order.
pub open spec fn discovered(ss: Seq<SlotView>, cap: Option<Seq<char>>) -> Seq<PluginManifest>
    decreases ss.len(),
{
    if ss.len() == 0 {
        Seq::empty()
    } else {
        let rest = discovered(ss.drop_last(), cap);
        if passes_filter(ss.last().manifest, cap) {
            rest.push(ss.last().manifest)
        } else {
            rest
        }
    }
}

/// The ids of the plugins whose manifest lists the capability, in
/// registration order.
pub open spec fn ids_with_capability(ss: Seq<SlotView>, cap: Seq<char>) -> Seq<Seq<char>>
    decreases ss.len(),
{
    if ss.len() == 0 {
        Seq::empty()
    } else {
        let rest = ids_with_capability(ss.drop_last(), cap);
        if has_capability(ss.last().manifest, cap) {
            rest.push(ss.last().id)
        } else {
            rest
        }
    }
}

/// The ids of the plugins, in registration order.
pub open spec fn ids(ss: Seq<SlotView>) -> Seq<Seq<char>> {
    ss.map_values(|s: SlotView| s.id)
}

impl PluginRegistry {
    /// The manifests of the registered plugins, or of those that list the
    /// capability when one is given.
    pub fn discover(&self, capability: Option<&str>) -> (r: Vec<&PluginManifest>)
        ensures
            r@.map_values(|m: &PluginManifest| *m) == discovered(self.slots(), opt_view(capability)),
    {
        let ghost cap = opt_view(capability);
        let mut out: Vec<&PluginManifest> = Vec::new();
        let mut i: usize = 0;
        while i < self.slots.len()
            invariant
                i <= self.slots.len(),
                self.slots().len() == self.slots@.len(),
                cap == opt_view(capability),
                out@.map_values(|m: &PluginManifest| *m) == discovered(self.slots().take(i as int), cap),
            decreases self.slots.len() - i,
        {
            let ghost pre = self.slots().take(i as int);
            let ghost next = self.slots().take(i + 1);
            assert(next.drop_last() =~= pre);
            assert(next.last() == self.slots@[i as int].view());
            let keep = match capability {
                Some(c) => manifest_has_capability(&self.slots[i].manifest, c),
                None => true,
            };
            if keep {
                let ghost before = out@;
                out.push(&self.slots[i].manifest);
                assert(out@.map_values(|m: &PluginManifest| *m) =~= before.map_values(|m: &PluginManifest| *m).push(
                    self.slots[i as int].manifest));
            }
            i = i + 1;
        }
        assert(self.slots().take(self.slots().len() as int) =~= self.slots());
        out
    }

    /// The ids of the registered plugins.
    pub fn list_plugins(&self) -> (r: Vec<&str>)
        ensures
            r@.map_values(|s: &str| s@) == ids(self.slots()),
    {
        let mut out: Vec<&str> = Vec::new();
        let mut i: usize = 0;
        while i < self.slots.len()
            invariant
                i <= self.slots.len(),
                self.slots().len() == self.slots@.len(),
                out@.map_values(|s: &str| s@) == ids(self.slots().take(i as int)),
            decreases self.slots.len() - i,
        {
            let ghost before = out@;
            assert(self.slots()[i as int] == self.slots@[i as int].view());
            out.push(self.slots[i].id.as_str());
            assert(out@.map_values(|s: &str| s@) =~= before.map_values(|s: &str| s@).push(self.slots@[i as int].id@));
            assert(ids(self.slots().take(i + 1)) =~= ids(self.slots().take(i as int)).push(self.slots()[i as int].id));
            i = i + 1;
        }
        assert(self.slots().take(self.slots().len() as int) =~= self.slots());
        out
    }

    /// The ids of the plugins whose manifest lists the capability.
    pub fn find_by_capability(&self, capability: &str) -> (r: Vec<&str>)
        ensures
            r@.map_values(|s: &str| s@) == ids_with_capability(self.slots(), capability@),
    {
        let mut out: Vec<&str> = Vec::new();
        let mut i: usize = 0;
        while i < self.slots.len()
            invariant
                i <= self.slots.len(),
                self.slots().len() == self.slots@.len(),
                out@.map_values(|s: &str| s@) == ids_with_capability(self.slots().take(i as int), capability@),
            decreases self.slots.len() - i,
        {
            let ghost pre = self.slots().take(i as int);
            let ghost next = self.slots().take(i + 1);
            assert(next.drop_last() =~= pre);
            assert(next.last() == self.slots@[i as int].view());
            if manifest_has_capability(&self.slots[i].manifest, capability) {
                let ghost before = out@;
                out.push(self.slots[i].id.as_str());
                assert(out@.map_values(|s: &str| s@) =~= before.map_values(|s: &str| s@).push(self.slots[i as int].id@));
            }
            i = i + 1;
        }
        assert(self.slots().take(self.slots().len() as int) =~= self.slots());
        out
    }
}


/// What the manager records of a loaded plugin. The total active time is a
/// decimal number of seconds, kept as a JSON number.
#[derive(Debug)]
pub struct PluginInfo {
    pub manifest: PluginManifest,
    pub state: PluginState,
    pub loaded_at: Option<String>,
    pub activated_at: Option<String>,
    pub error_message: Option<String>,
    pub activation_count: i32,
    pub total_active_time_seconds: JsonNumber,
}

/// Keeps lifecycle records of plugins by id, in the order they were loaded.
pub struct PluginManager {
    plugins: Vec<(String, PluginInfo)>,
    sandbox_enabled: bool,
    auto_discover: bool,
    plugin_directories: Vec<String>,
}

/// Whether a record with this id exists.
pub open spec fn has_record(m: Seq<(Seq<char>, PluginInfo)>, id: Seq<char>) -> bool {
    exists|i: int| 0 <= i < m.len() && #[trigger] m[i].0 == id
}

/// The position of the record with this id.
pub open spec fn record_index(m: Seq<(Seq<char>, PluginInfo)>, id: Seq<char>) -> int {
    choose|i: int| 0 <= i < m.len() && #[trigger] m[i].0 == id
}

/// Ids occur once.
pub open spec fn records_wf(m: Seq<(Seq<char>, PluginInfo)>) -> bool {
    forall|i: int, j: int| 0 <= i < j < m.len() ==> #[trigger] m[i].0 != #[trigger] m[j].0
}

/// A fresh record for a plugin loaded with this manifest.
pub open spec fn fresh_record(info: PluginInfo, manifest: PluginManifest) -> bool {
    &&& info.manifest == manifest
    &&& info.state == PluginState::Loaded
    &&& info.loaded_at is Some
    &&& info.activated_at is None
    &&& info.error_message is None
    &&& info.activation_count == 0
    &&& info.total_active_time_seconds.model() == NumberModel::Float("0.0"@)
}

/// `next` is `prev` in a new state, its other fields kept.
pub open spec fn moved_to(next: PluginInfo, prev: PluginInfo, state: PluginState) -> bool {
    &&& next.manifest == prev.manifest
    &&& next.state == state
    &&& next.loaded_at == prev.loaded_at
    &&& next.error_message == prev.error_message
    &&& next.total_active_time_seconds == prev.total_active_time_seconds
}

/// `next` is `prev` activated: active, with a new activation time and one
/// more activation.
pub open spec fn activated(next: PluginInfo, prev: PluginInfo) -> bool {
    &&& moved_to(next, prev, PluginState::Active)
    &&& next.activated_at is Some
    &&& next.activation_count == prev.activation_count + 1
}

/// `next` is `prev` deactivated: inactive, its activation record kept.
pub open spec fn deactivated(next: PluginInfo, prev: PluginInfo) -> bool {
    &&& moved_to(next, prev, PluginState::Inactive)
    &&& next.activated_at == prev.activated_at
    &&& next.activation_count == prev.activation_count
}

/// The number of records in this state.
pub open spec fn count_in_state(m: Seq<(Seq<char>, PluginInfo)>, name: Seq<char>) -> nat
    decreases m.len(),
{
    if m.len() == 0 {
        0
    } else {
        count_in_state(m.drop_last(), name) + (if m.last().1.state.name() == name { 1nat } else { 0nat })
    }
}

/// The entry the state counts have for a state name: the number of records
/// in that state, absent when there are none.
pub open spec fn state_count_entry(m: Seq<(Seq<char>, PluginInfo)>, name: Seq<char>) -> Option<Json> {
    let c = count_in_state(m, name);
    if c > 0 {
        Some(Json::Number(NumberModel::PosInt(c as u64)))
    } else {
        None
    }
}

proof fn lemma_count_bound(m: Seq<(Seq<char>, PluginInfo)>, name: Seq<char>)
    ensures
        count_in_state(m, name) <= m.len(),
    decreases m.len(),
{
    if m.len() > 0 {
        lemma_count_bound(m.drop_last(), name);
    }
}

impl PluginManager {
    /// The records, by id.
    pub closed spec fn records(&self) -> Seq<(Seq<char>, PluginInfo)> {
        self.plugins@.map_values(|e: (String, PluginInfo)| (e.0@, e.1))
    }

    /// Whether plugins run sandboxed.
    pub closed spec fn sandboxed(&self) -> bool {
        self.sandbox_enabled
    }

    /// Whether plugins are discovered automatically.
    pub closed spec fn discovers(&self) -> bool {
        self.auto_discover
    }

    /// The directories plugins are looked for in.
    pub closed spec fn directories(&self) -> Seq<Seq<char>> {
        string_views(self.plugin_directories@)
    }

    /// The manager is well formed.
    pub open spec fn wf(&self) -> bool {
        records_wf(self.records())
    }

    /// A manager with no records, sandboxing and automatic discovery on and
    /// no directories.
    pub fn new() -> (r: PluginManager)
        ensures
            r.wf(),
            r.records() == Seq::<(Seq<char>, PluginInfo)>::empty(),
            r.sandboxed(),
            r.discovers(),
            r.directories() == Seq::<Seq<char>>::empty(),
    {
        let r = PluginManager {
            plugins: Vec::new(),
            sandbox_enabled: true,
            auto_discover: true,
            plugin_directories: Vec::new(),
        };
        assert(r.records() =~= Seq::<(Seq<char>, PluginInfo)>::empty());
        assert(r.directories() =~= Seq::<Seq<char>>::empty());
        r
    }

    /// This manager with sandboxing off.
    pub fn with_sandbox_disabled(self) -> (r: PluginManager)
        ensures
            r.records() == self.records(),
            !r.sandboxed(),
            r.discovers() == self.discovers(),
            r.directories() == self.directories(),
    {
        let mut m = self;
        m.sandbox_enabled = false;
        m
    }

    /// This manager with these plugin directories.
    pub fn with_plugin_directories(self, dirs: Vec<String>) -> (r: PluginManager)
        ensures
            r.records() == self.records(),
            r.sandboxed() == self.sandboxed(),
            r.discovers() == self.discovers(),
            r.directories() == string_views(dirs@),
    {
        let mut m = self;
        m.plugin_directories = dirs;
        m
    }

    fn find(&self, plugin_id: &str) -> (r: Option<usize>)
        requires
            self.wf(),
        ensures
            r is None <==> !has_record(self.records(), plugin_id@),
            r matches Some(k) ==> k < self.records().len() && k == record_index(self.records(), plugin_id@)
                && self.records()[k as int].0 == plugin_id@,
    {
        let mut i: usize = 0;
        while i < self.plugins.len()
            invariant
                i <= self.plugins.len(),
                self.wf(),
                self.records().len() == self.plugins@.len(),
                forall|j: int| 0 <= j < i ==> #[trigger] self.records()[j].0 != plugin_id@,
            decreases self.plugins.len() - i,
        {
            assert(self.records()[i as int].0 == self.plugins@[i as int].0@);
            if str_eq(self.plugins[i].0.as_str(), plugin_id) {
                let ghost m = self.records();
                assert(m[i as int].0 == plugin_id@);
                assert(has_record(m, plugin_id@));
                let ghost k = record_index(m, plugin_id@);
                assert(m[k].0 == plugin_id@);
                assert(k == i) by {
                    if k < i {
                        assert(m[k].0 != m[i as int].0);
                    } else if k > i {
                        assert(m[i as int].0 != m[k].0);
                    }
                }
                return Some(i);
            }
            i = i + 1;
        }
        None
    }

    /// The record of a plugin.
    pub fn get_plugin_info(&self, plugin_id: &str) -> (r: Option<&PluginInfo>)
        requires
            self.wf(),
        ensures
            match r {
                Some(info) => has_record(self.records(), plugin_id@)
                    && *info == self.records()[record_index(self.records(), plugin_id@)].1,
                None => !has_record(self.records(), plugin_id@),
            },
    {
        match self.find(plugin_id) {
            Some(k) => Some(&self.plugins[k].1),
            None => None,
        }
    }

    /// Records a plugin as loaded with this manifest, stamped with the
    /// current time; a plugin already recorded keeps its record, and the
    /// manifest is dropped.
    pub fn load_plugin(&mut self, plugin_id: &str, manifest: PluginManifest) -> (r: Result<&PluginInfo, String>)
        requires
            old(self).wf(),
        ensures
            final(self).wf(),
            final(self).sandboxed() == old(self).sandboxed(),
            has_record(old(self).records(), plugin_id@) ==> final(self).records() == old(self).records(),
            !has_record(old(self).records(), plugin_id@) ==> ({
                let m = final(self).records();
                &&& m.len() == old(self).records().len() + 1
                &&& m.take(old(self).records().len() as int) == old(self).records()
                &&& m.last().0 == plugin_id@
                &&& fresh_record(m.last().1, manifest)
            }),
            r matches Ok(info) && has_record(final(self).records(), plugin_id@)
                && *info == final(self).records()[record_index(final(self).records(), plugin_id@)].1,
    {
        let ghost pre = self.records();
        if let Some(k) = self.find(plugin_id) {
            return Ok(&self.plugins[k].1);
        }
        let info = PluginInfo {
            manifest,
            state: PluginState::Loaded,
            loaded_at: Some(crate::utils::utc_now_rfc3339()),
            activated_at: None,
            error_message: None,
            activation_count: 0,
            total_active_time_seconds: JsonNumber::Float(owned("0.0")),
        };
        let ghost entry = (plugin_id@, info);
        self.plugins.push((owned(plugin_id), info));
        assert(self.records() =~= pre.push(entry));
        assert(self.records().take(pre.len() as int) =~= pre);
        let k = self.plugins.len() - 1;
        assert(self.records()[k as int].0 == plugin_id@);
        assert(record_index(self.records(), plugin_id@) == k as int) by {
            let m = self.records();
            let j = record_index(m, plugin_id@);
            assert(m[j].0 == plugin_id@);
            if j < k {
                assert(m[j] == pre[j]);
            }
        }
        Ok(&self.plugins[k].1)
    }
}


/// Whether the record of this id can be activated: it is loaded or
/// inactive.
pub open spec fn record_can_activate(m: Seq<(Seq<char>, PluginInfo)>, id: Seq<char>) -> bool {
    has_record(m, id) && {
        let s = m[record_index(m, id)].1.state;
        s == PluginState::Loaded || s == PluginState::Inactive
    }
}

/// Whether the record of this id is active.
pub open spec fn record_is_active(m: Seq<(Seq<char>, PluginInfo)>, id: Seq<char>) -> bool {
    has_record(m, id) && m[record_index(m, id)].1.state == PluginState::Active
}

/// The records that pass an optional state filter, in load order.
pub open spec fn listed(m: Seq<(Seq<char>, PluginInfo)>, filter: Option<PluginState>) -> Seq<PluginInfo>
    decreases m.len(),
{
    if m.len() == 0 {
        Seq::empty()
    } else {
        let rest = listed(m.drop_last(), filter);
        if filter is None || filter == Some(m.last().1.state) {
            rest.push(m.last().1)
        } else {
            rest
        }
    }
}

/// The view of an optional state reference.
pub open spec fn opt_state(o: Option<&PluginState>) -> Option<PluginState> {
    match o {
        Some(s) => Some(*s),
        None => None,
    }
}

impl PluginManager {
    /// Activates a loaded or inactive plugin: it becomes active, stamped with
    /// the current time, and its activation count goes up by one. False when
    /// there is no such record or it is in another state.
    pub fn activate_plugin(&mut self, plugin_id: &str) -> (r: bool)
        requires
            old(self).wf(),
            has_record(old(self).records(), plugin_id@) ==> old(self).records()[record_index(
                old(self).records(),
                plugin_id@,
            )].1.activation_count < i32::MAX,
        ensures
            final(self).wf(),
            final(self).sandboxed() == old(self).sandboxed(),
            r == record_can_activate(old(self).records(), plugin_id@),
            !r ==> final(self).records() == old(self).records(),
            r ==> ({
                let k = record_index(old(self).records(), plugin_id@);
                &&& final(self).records().len() == old(self).records().len()
                &&& forall|i: int| 0 <= i < old(self).records().len() && i != k
                    ==> #[trigger] final(self).records()[i] == old(self).records()[i]
                &&& final(self).records()[k].0 == plugin_id@
                &&& activated(final(self).records()[k].1, old(self).records()[k].1)
            }),
    {
        let k = match self.find(plugin_id) {
            Some(k) => k,
            None => {
                return false;
            },
        };
        if !(self.plugins[k].1.state == PluginState::Loaded || self.plugins[k].1.state == PluginState::Inactive) {
            return false;
        }
        let ghost raw = self.plugins@;
        let now = crate::utils::utc_now_rfc3339();
        self.plugins[k].1.state = PluginState::Active;
        self.plugins[k].1.activated_at = Some(now);
        self.plugins[k].1.activation_count = self.plugins[k].1.activation_count + 1;
        proof {
            let x = self.plugins@[k as int];
            assert(self.plugins@ == raw.update(k as int, x));
            assert forall|i: int| 0 <= i < raw.len() && i != k implies #[trigger] self.records()[i]
                == old(self).records()[i] by {
                assert(self.plugins@[i] == raw[i]);
            }
            assert forall|i: int, j: int| 0 <= i < j < self.records().len() implies #[trigger] self.records()[i].0
                != #[trigger] self.records()[j].0 by {
                assert(self.records()[i].0 == old(self).records()[i].0);
                assert(self.records()[j].0 == old(self).records()[j].0);
            }
        }
        true
    }

    /// Deactivates an active plugin: it becomes inactive. False when there is
    /// no such record or it is not active.
    pub fn deactivate_plugin(&mut self, plugin_id: &str) -> (r: bool)
        requires
            old(self).wf(),
        ensures
            final(self).wf(),
            final(self).sandboxed() == old(self).sandboxed(),
            r == record_is_active(old(self).records(), plugin_id@),
            !r ==> final(self).records() == old(self).records(),
            r ==> ({
                let k = record_index(old(self).records(), plugin_id@);
                &&& final(self).records().len() == old(self).records().len()
                &&& forall|i: int| 0 <= i < old(self).records().len() && i != k
                    ==> #[trigger] final(self).records()[i] == old(self).records()[i]
                &&& final(self).records()[k].0 == plugin_id@
                &&& deactivated(final(self).records()[k].1, old(self).records()[k].1)
            }),
    {
        let k = match self.find(plugin_id) {
            Some(k) => k,
            None => {
                return false;
            },
        };
        if !(self.plugins[k].1.state == PluginState::Active) {
            return false;
        }
        let ghost raw = self.plugins@;
        self.plugins[k].1.state = PluginState::Inactive;
        proof {
            let x = self.plugins@[k as int];
            assert(self.plugins@ == raw.update(k as int, x));
            assert forall|i: int| 0 <= i < raw.len() && i != k implies #[trigger] self.records()[i]
                == old(self).records()[i] by {
                assert(self.plugins@[i] == raw[i]);
            }
            assert forall|i: int, j: int| 0 <= i < j < self.records().len() implies #[trigger] self.records()[i].0
                != #[trigger] self.records()[j].0 by {
                assert(self.records()[i].0 == old(self).records()[i].0);
                assert(self.records()[j].0 == old(self).records()[j].0);
            }
        }
        true
    }

    /// Removes a plugin's record, deactivating it first when it is active;
    /// false when there is no record.
    pub fn unload_plugin(&mut self, plugin_id: &str) -> (r: bool)
        requires
            old(self).wf(),
        ensures
            final(self).wf(),
            final(self).sandboxed() == old(self).sandboxed(),
            r == has_record(old(self).records(), plugin_id@),
            r ==> final(self).records() == old(self).records().remove(record_index(old(self).records(), plugin_id@)),
            !r ==> final(self).records() == old(self).records(),
    {
        let ghost pre = self.records();
        let k = match self.find(plugin_id) {
            Some(k) => k,
            None => {
                return false;
            },
        };
        if self.plugins[k].1.state == PluginState::Active {
            self.deactivate_plugin(plugin_id);
        }
        let ghost mid = self.plugins@;
        let ghost midr = self.records();
        assert(midr.len() == pre.len());
        assert(forall|i: int| 0 <= i < pre.len() && i != k ==> #[trigger] midr[i] == pre[i]);
        self.plugins.remove(k);
        assert forall|i: int| 0 <= i < pre.len() - 1 implies #[trigger] self.records()[i] == pre.remove(k as int)[i] by {
            if i < k {
                assert(self.plugins@[i] == mid[i]);
                assert(self.records()[i] == midr[i]);
                assert(midr[i] == pre[i]);
            } else {
                assert(self.plugins@[i] == mid[i + 1]);
                assert(self.records()[i] == midr[i + 1]);
                assert(midr[i + 1] == pre[i + 1]);
            }
        }
        assert(self.records() =~= pre.remove(k as int));
        true
    }

    /// The records, or those in the given state.
    pub fn list_plugins(&self, state_filter: Option<&PluginState>) -> (r: Vec<&PluginInfo>)
        ensures
            r@.map_values(|p: &PluginInfo| *p) == listed(self.records(), opt_state(state_filter)),
    {
        let ghost filter = opt_state(state_filter);
        let mut out: Vec<&PluginInfo> = Vec::new();
        let mut i: usize = 0;
        while i < self.plugins.len()
            invariant
                i <= self.plugins.len(),
                self.records().len() == self.plugins@.len(),
                filter == opt_state(state_filter),
                out@.map_values(|p: &PluginInfo| *p) == listed(self.records().take(i as int), filter),
            decreases self.plugins.len() - i,
        {
            let ghost pre = self.records().take(i as int);
            let ghost next = self.records().take(i + 1);
            assert(next.drop_last() =~= pre);
            assert(next.last() == self.records()[i as int]);
            assert(self.records()[i as int].1 == self.plugins@[i as int].1);
            let keep = match state_filter {
                Some(st) => *st == self.plugins[i].1.state,
                None => true,
            };
            if keep {
                let ghost before = out@;
                out.push(&self.plugins[i].1);
                assert(out@.map_values(|p: &PluginInfo| *p) =~= before.map_values(|p: &PluginInfo| *p).push(
                    self.plugins@[i as int].1));
            }
            i = i + 1;
        }
        assert(self.records().take(self.records().len() as int) =~= self.records());
        out
    }
}


impl PluginManager {
    fn state_counts(&self) -> (r: JsonMap)
        ensures
            distinct_keys(r.model()),
            forall|name: Seq<char>| #[trigger] lookup(r.model(), name) == state_count_entry(self.records(), name),
    {
        let mut counts = JsonMap::new();
        let mut i: usize = 0;
        while i < self.plugins.len()
            invariant
                i <= self.plugins.len(),
                self.records().len() == self.plugins@.len(),
                distinct_keys(counts.model()),
                forall|name: Seq<char>|
                    #[trigger] lookup(counts.model(), name) == state_count_entry(self.records().take(i as int), name),
            decreases self.plugins.len() - i,
        {
            let ghost pre = self.records().take(i as int);
            let ghost next = self.records().take(i + 1);
            assert(next.drop_last() =~= pre);
            assert(next.last() == self.records()[i as int]);
            assert(self.records()[i as int].1 == self.plugins@[i as int].1);
            let key = self.plugins[i].1.state.as_str();
            proof {
                lemma_count_bound(pre, key@);
            }
            let ghost before = counts.model();
            assert(lookup(before, key@) == state_count_entry(pre, key@));
            let current: u64 = match counts.get(key) {
                Some(v) => match v.as_u64() {
                    Some(c) => c,
                    None => 0,
                },
                None => 0,
            };
            assert(current == count_in_state(pre, key@));
            let ghost value = Json::Number(NumberModel::PosInt((current + 1) as u64));
            counts.insert(owned(key), JsonValue::from_u64(current + 1));
            proof {
                assert forall|name: Seq<char>| #[trigger] lookup(counts.model(), name) == state_count_entry(next, name) by {
                    law_insert_lookup(before, key@, value, name);
                }
                law_insert_lookup(before, key@, value, key@);
            }
            i = i + 1;
        }
        assert(self.records().take(self.records().len() as int) =~= self.records());
        counts
    }

    /// Statistics: the number of records, whether sandboxing is on, and, by
    /// state name, the number of records in each state that occurs.
    pub fn get_stats(&self) -> (r: JsonMap)
        ensures
            r.model().len() == 3,
            r.model()[0] == ("total_plugins"@, Json::Number(NumberModel::PosInt(self.records().len() as u64))),
            r.model()[1] == ("sandbox_enabled"@, Json::Bool(self.sandboxed())),
            r.model()[2].0 == "state_counts"@,
            r.model()[2].1 matches Json::Object(counts) && distinct_keys(counts) && forall|name: Seq<char>|
                #[trigger] lookup(counts, name) == state_count_entry(self.records(), name),
    {
        let counts = self.state_counts();
        let ghost cm = counts.model();
        let mut entries: Vec<(String, JsonValue)> = Vec::new();
        entries.push((owned("total_plugins"), JsonValue::from_u64(self.plugins.len() as u64)));
        entries.push((owned("sandbox_enabled"), JsonValue::Bool(self.sandbox_enabled)));
        entries.push((owned("state_counts"), JsonValue::Object(counts)));
        let r = JsonMap { entries };
        assert(r.model()[2].1 == Json::Object(cm));
        r
    }
}


/// Registering a plugin and then unregistering the id it was registered
/// under gives back the registry as it was.
pub proof fn law_register_unregister_round_trip(
    pre: Seq<SlotView>,
    post: Seq<SlotView>,
    manifest: Option<PluginManifest>,
    rid: Seq<char>,
    caps: Seq<Seq<char>>,
    r: Result<String, String>,
)
    requires
        registry_wf(pre),
        register_outcome(pre, post, manifest, rid, caps, r),
        r is Ok,
    ensures
        registered(post, r->Ok_0@),
        post.remove(index_of(post, r->Ok_0@)) == pre,
{
    let id = r->Ok_0@;
    let last = post.len() - 1;
    assert(post[last].id == id);
    assert(registered(post, id));
    let k = index_of(post, id);
    assert(post[k].id == id);
    if k != last {
        assert(post[k] == pre[k]);
        assert(registered(pre, id));
        assert(resolved_id(manifest, rid) == Some(id));
    }
    assert(post.remove(k) =~= pre);
}

/// In a well-formed registry a plugin that is loaded, active or inactive
/// has an instance.
pub proof fn law_live_plugin_has_instance(ss: Seq<SlotView>, i: int)
    requires
        registry_wf(ss),
        0 <= i < ss.len(),
        live_state(ss[i].state),
    ensures
        ss[i].loaded,
{
}

/// Recording a plugin that had no record and then removing its record gives
/// back the records as they were.
pub proof fn law_manager_load_unload_round_trip(
    pre: Seq<(Seq<char>, PluginInfo)>,
    post: Seq<(Seq<char>, PluginInfo)>,
    id: Seq<char>,
)
    requires
        !has_record(pre, id),
        post.len() == pre.len() + 1,
        post.take(pre.len() as int) == pre,
        post.last().0 == id,
    ensures
        has_record(post, id),
        post.remove(record_index(post, id)) == pre,
{
    let last = post.len() - 1;
    assert(post[last].0 == id);
    assert(has_record(post, id));
    let k = record_index(post, id);
    assert(post[k].0 == id);
    if k != last {
        assert(post[k] == post.take(pre.len() as int)[k]);
        assert(has_record(pre, id));
    }
    assert(post.remove(k) =~= pre);
}

/// A skill's definition.
#[derive(Debug)]
pub struct SkillDefinition {
    pub name: String,
    pub description: String,
    pub version: String,
    pub category: String,
    pub tags: Vec<String>,
    pub input_schema: JsonMap,
    pub output_schema: JsonMap,
    pub examples: Vec<StringMap>,
    pub requires: Vec<String>,
}

impl SkillDefinition {
    /// A definition with this name and description, version "0.1.0", in the
    /// general category, with nothing else.
    pub fn new(name: &str, description: &str) -> (r: SkillDefinition)
        ensures
            r.name@ == name@,
            r.description@ == description@,
            r.version@ == "0.1.0"@,
            r.category@ == "general"@,
            r.tags@.len() == 0,
            r.input_schema.model().len() == 0,
            r.output_schema.model().len() == 0,
            r.examples@.len() == 0,
            r.requires@.len() == 0,
    {
        SkillDefinition {
            name: owned(name),
            description: owned(description),
            version: owned("0.1.0"),
            category: owned("general"),
            tags: Vec::new(),
            input_schema: JsonMap::new(),
            output_schema: JsonMap::new(),
            examples: Vec::new(),
            requires: Vec::new(),
        }
    }
}

/// A skill: a reusable capability an agent applies while it works. By
/// default a skill has no prompt template and no system instructions,
/// accepts every input, executes on a copy of its context and returns its
/// result unchanged.
pub trait SkillPlugin: Send + Sync {
    fn get_definition(&self) -> SkillDefinition;

    fn execute(&mut self, context: &JsonMap) -> Result<JsonValue, String>;

    fn get_prompt_template(&self) -> (r: Option<String>)
        default_ensures
            r is None,
    {
        None
    }

    fn get_system_instructions(&self) -> (r: Option<String>)
        default_ensures
            r is None,
    {
        None
    }

    fn validate_input(&self, context: &JsonMap) -> (r: bool)
        default_ensures
            r,
    {
        true
    }

    fn pre_execute(&mut self, context: &JsonMap) -> (r: JsonMap)
        default_ensures
            r.model() == context.model(),
    {
        context.deep_clone()
    }

    fn post_execute(&mut self, context: &JsonMap, result: JsonValue) -> (r: Result<JsonValue, String>)
        default_ensures
            r == Ok::<JsonValue, String>(result),
    {
        Ok(result)
    }
}

} // verus!
