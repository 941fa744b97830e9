//! What building a module snapshot decides: which written files become modules,
//! which is the main one, and how an import between them is resolved.
use std::collections::HashMap;
use vstd::hash_map::StringHashMap;
use vstd::prelude::*;

use crate::resolution::{resolution_of, resolved, Resolution};
use crate::state::{TSState, WrittenFileView};
use crate::text::{chars_equal, chars_of, ends_with, has_suffix};

verus! {

// ---------------------------------------------------------------------------------
// The module registry.
// ---------------------------------------------------------------------------------

/// The modules created in the runtime for a snapshot, by module name and by id.
pub struct ModuleRegistry {
    ids: StringHashMap<i32>,
    names: HashMap<i32, String>,
    /// The registered module names, each once, in the order they were first
    /// registered.
    order: Vec<String>,
}

/// The registry as two maps: module name to id, and id to module name.
pub struct ModuleRegistryView {
    pub ids: Map<Seq<char>, i32>,
    pub names: Map<i32, Seq<char>>,
}

/// Strings, taken by their characters.
pub open spec fn texts(v: Seq<String>) -> Seq<Seq<char>> {
    v.map_values(|t: String| t@)
}

/// The by-id map, its names taken by their characters.
pub open spec fn id_names(m: Map<i32, String>) -> Map<i32, Seq<char>> {
    m.map_values(|n: String| n@)
}

impl View for ModuleRegistry {
    type V = ModuleRegistryView;

    closed spec fn view(&self) -> ModuleRegistryView {
        ModuleRegistryView { ids: self.ids@, names: id_names(self.names@) }
    }
}

impl ModuleRegistry {
    /// The list of names holds each registered name once.
    pub closed spec fn wf(&self) -> bool {
        &&& texts(self.order@).no_duplicates()
        &&& texts(self.order@).to_set() == self.ids@.dom()
    }

    /// A registry with no modules.
    pub fn new() -> (r: ModuleRegistry)
        ensures
            r.wf(),
            r@.ids == Map::<Seq<char>, i32>::empty(),
            r@.names == Map::<i32, Seq<char>>::empty(),
    {
        let r = ModuleRegistry { ids: StringHashMap::new(), names: HashMap::new(), order: Vec::new() };
        assert(texts(r.order@).to_set() =~= Set::<Seq<char>>::empty());
        assert(r@.names =~= Map::<i32, Seq<char>>::empty());
        r
    }

    /// The id of the module named `name`, if it was registered.
    pub fn id_of(&self, name: &str) -> (r: Option<i32>)
        ensures
            r == (if self@.ids.dom().contains(name@) {
                Some(self@.ids[name@])
            } else {
                None
            }),
    {
        match self.ids.get(name) {
            Some(id) => Some(*id),
            None => None,
        }
    }

    /// The name of the module with id `id`, if it was registered.
    pub fn name_of(&self, id: i32) -> (r: Option<&String>)
        ensures
            match r {
                Some(n) => self@.names.dom().contains(id) && self@.names[id] == n@,
                None => !self@.names.dom().contains(id),
            },
    {
        broadcast use vstd::std_specs::hash::group_hash_axioms;
        self.names.get(&id)
    }

    /// Registers the module `name` under `id`, in both directions, replacing what
    /// either was registered with before.
    pub fn register(&mut self, name: String, id: i32)
        requires
            old(self).wf(),
        ensures
            final(self).wf(),
            final(self)@.ids == old(self)@.ids.insert(name@, id),
            final(self)@.names == old(self)@.names.insert(id, name@),
    {
        let ghost order_before = texts(self.order@);
        if !self.ids.contains_key(name.as_str()) {
            self.order.push(name.clone());
            proof {
                let after = texts(self.order@);
                assert(after =~= order_before.push(name@));
                assert forall|i: int, j: int|
                    0 <= i < after.len() && 0 <= j < after.len() && i != j implies after[i] != after[j] by {
                    if i == order_before.len() {
                        assert(order_before.to_set().contains(after[j]));
                    } else if j == order_before.len() {
                        assert(order_before.to_set().contains(after[i]));
                    }
                }
                assert forall|n: Seq<char>| after.to_set().contains(n) <==> #[trigger] self.ids@.insert(name@, id).dom().contains(n) by {
                    if after.contains(n) && n != name@ {
                        let i = choose|i: int| 0 <= i < after.len() && after[i] == n;
                        assert(order_before[i] == n);
                    }
                    if order_before.contains(n) {
                        let i = choose|i: int| 0 <= i < order_before.len() && order_before[i] == n;
                        assert(after[i] == n);
                    }
                    if n == name@ {
                        assert(after[order_before.len() as int] == n);
                    }
                }
                assert(after.to_set() =~= self.ids@.insert(name@, id).dom());
            }
        } else {
            assert(self.ids@.insert(name@, id).dom() =~= self.ids@.dom());
        }
        self.ids.insert(name.clone(), id);
        proof {
            broadcast use vstd::std_specs::hash::group_hash_axioms;
        }
        let ghost before = self.names@;
        self.names.insert(id, name);
        proof {
            broadcast use vstd::std_specs::hash::group_hash_axioms;
            assert(id_names(self.names@) =~= id_names(before).insert(id, name@));
        }
    }

    /// The ids registered under module names, one for each name.
    pub fn module_ids(&self) -> (r: Vec<i32>)
        requires
            self.wf(),
        ensures
            r@.len() == self@.ids.dom().len(),
            forall|i: int| 0 <= i < r@.len() ==> self@.ids.contains_value(#[trigger] r@[i]),
            forall|n: Seq<char>| #[trigger] self@.ids.dom().contains(n) ==> r@.contains(self@.ids[n]),
    {
        let mut r: Vec<i32> = Vec::new();
        let mut j: usize = 0;
        let ghost e = texts(self.order@);
        while j < self.order.len()
            invariant
                j <= self.order@.len(),
                e == texts(self.order@),
                e.to_set() == self.ids@.dom(),
                r@.len() == j,
                forall|i: int| 0 <= i < j ==> r@[i] == #[trigger] self.ids@[e[i]],
            decreases self.order@.len() - j,
        {
            assert(e.to_set().contains(e[j as int]));
            match self.ids.get(self.order[j].as_str()) {
                Some(id) => r.push(*id),
                None => {
                    proof {
                        assert(false);
                    }
                },
            }
            j = j + 1;
        }
        proof {
            assert forall|i: int| 0 <= i < r@.len() implies self@.ids.contains_value(#[trigger] r@[i]) by {
                assert(e.to_set().contains(e[i]));
                assert(self@.ids.dom().contains(e[i]));
            }
            assert forall|n: Seq<char>| #[trigger] self@.ids.dom().contains(n) implies r@.contains(self@.ids[n]) by {
                assert(e.to_set().contains(n));
                let i = choose|i: int| 0 <= i < e.len() && e[i] == n;
                assert(r@[i] == self@.ids[n]);
            }
            e.unique_seq_to_set();
        }
        r
    }
}

/// Why an import between snapshot modules could not be resolved.
pub enum Unresolved {
    /// The import specifier does not resolve; the message says why.
    Import(String),
    /// The import resolves to this URL, but no module was registered under it.
    NotLoaded(String),
}

impl ModuleRegistry {
    /// The module that the import `specifier` of the module with id `referrer` refers
    /// to, given what the specifier resolved to as an import from that module's name:
    /// the id registered under the resolved URL.
    pub fn resolve(&self, specifier: &str, referrer: i32, resolution: Resolution) -> (r: Result<i32, Unresolved>)
        requires
            self@.names.dom().contains(referrer),
            resolution_of(resolution, specifier@, Some(self@.names[referrer])),
        ensures
            match resolved(resolution) {
                Err(e) => r matches Err(Unresolved::Import(m)) && m@ == e,
                Ok(u) => if self@.ids.dom().contains(u) {
                    r == Ok::<i32, Unresolved>(self@.ids[u])
                } else {
                    r matches Err(Unresolved::NotLoaded(m)) && m@ == u
                },
            },
    {
        match resolution.result {
            Err(message) => Err(Unresolved::Import(message)),
            Ok(url) => match self.id_of(url.as_str()) {
                Some(id) => Ok(id),
                None => Err(Unresolved::NotLoaded(url)),
            },
        }
    }
}

/// A written file to create as a runtime module.
pub struct ModuleLoad {
    /// Its place among the written files.
    pub index: usize,
    /// Whether it is the main module.
    pub is_main: bool,
    /// Whether its source is listed while loading it.
    pub print_source: bool,
}

/// The URL ending of the files that become runtime modules.
pub open spec fn module_suffix() -> Seq<char> {
    ".js"@
}

/// The URL ending of the file whose source is listed while it is loaded.
pub open spec fn listed_suffix() -> Seq<char> {
    "flatbuffers/flatbuffers.js"@
}

/// For each written file whose URL ends in `.js`, in order: its place, whether its
/// module name is `main`, and whether its source is listed.
pub open spec fn module_loads(files: Seq<WrittenFileView>, main: Seq<char>) -> Seq<(nat, bool, bool)>
    decreases files.len(),
{
    if files.len() == 0 {
        seq![]
    } else {
        let before = module_loads(files.drop_last(), main);
        let f = files.last();
        if has_suffix(f.url, module_suffix()) {
            before.push(
                ((files.len() - 1) as nat, f.module_name == main, has_suffix(f.url, listed_suffix())),
            )
        } else {
            before
        }
    }
}

/// A module load, as a plain triple.
pub open spec fn load_view(m: ModuleLoad) -> (nat, bool, bool) {
    (m.index as nat, m.is_main, m.print_source)
}

/// The written files to create as runtime modules when snapshotting a module
/// build, the last written file being the main module.
pub fn modules_to_load(state: &TSState) -> (r: Vec<ModuleLoad>)
    requires
        !state@.bundle,
        state@.written_files.len() > 0,
    ensures
        r@.map_values(|m: ModuleLoad| load_view(m)) == module_loads(
            state@.written_files,
            state@.written_files.last().module_name,
        ),
{
    let main = state.main_module_name();
    let main_chars = chars_of(main.as_str());
    let files = state.written_files();
    let ghost fv = state@.written_files;
    let js = chars_of(".js");
    let listed = chars_of("flatbuffers/flatbuffers.js");
    let mut r: Vec<ModuleLoad> = Vec::new();
    let mut i: usize = 0;
    assert(fv.take(0) =~= Seq::<WrittenFileView>::empty());
    assert(r@.map_values(|m: ModuleLoad| load_view(m)) =~= Seq::<(nat, bool, bool)>::empty());
    while i < files.len()
        invariant
            i <= files@.len(),
            fv == files@.map_values(|f: crate::state::WrittenFile| f@),
            main_chars@ == fv.last().module_name,
            js@ == module_suffix(),
            listed@ == listed_suffix(),
            r@.map_values(|m: ModuleLoad| load_view(m)) == module_loads(fv.take(i as int), fv.last().module_name),
        decreases files@.len() - i,
    {
        let url = chars_of(files[i].url.as_str());
        let ghost t = fv.take(i + 1);
        proof {
            assert(t.drop_last() =~= fv.take(i as int));
            assert(t.last() == files@[i as int]@);
        }
        let ghost before = r@.map_values(|m: ModuleLoad| load_view(m));
        if ends_with(url.as_slice(), js.as_slice()) {
            let name = chars_of(files[i].module_name.as_str());
            let is_main = chars_equal(name.as_slice(), main_chars.as_slice());
            let print_source = ends_with(url.as_slice(), listed.as_slice());
            r.push(ModuleLoad { index: i, is_main, print_source });
            assert(r@.map_values(|m: ModuleLoad| load_view(m)) =~= before.push(
                (i as nat, is_main, print_source),
            ));
        }
        i = i + 1;
    }
    assert(fv.take(i as int) =~= fv);
    r
}

/// Which written files become runtime modules: every entry of the plan is a written
/// `.js` file, taken in the order written, marked main exactly when its module name
/// is the main module name, and listed exactly when its URL ends in
/// `flatbuffers/flatbuffers.js`; and every written `.js` file has an entry.
pub proof fn lemma_module_loads_are_the_js_files(files: Seq<WrittenFileView>, main: Seq<char>)
    ensures
        forall|k: int| 0 <= k < module_loads(files, main).len() ==> {
            &&& #[trigger] module_loads(files, main)[k].0 < files.len()
            &&& has_suffix(files[module_loads(files, main)[k].0 as int].url, ".js"@)
            &&& (module_loads(files, main)[k].1 <==> files[module_loads(files, main)[k].0 as int].module_name == main)
            &&& (module_loads(files, main)[k].2 <==> has_suffix(
                files[module_loads(files, main)[k].0 as int].url,
                "flatbuffers/flatbuffers.js"@,
            ))
        },
        forall|k: int, l: int|
            0 <= k < l < module_loads(files, main).len() ==> #[trigger] module_loads(files, main)[k].0
                < #[trigger] module_loads(files, main)[l].0,
        forall|i: int|
            0 <= i < files.len() && has_suffix(#[trigger] files[i].url, ".js"@) ==> exists|k: int|
                0 <= k < module_loads(files, main).len() && #[trigger] module_loads(files, main)[k].0 == i,
    decreases files.len(),
{
    let ml = module_loads(files, main);
    if files.len() > 0 {
        let p = files.drop_last();
        let before = module_loads(p, main);
        lemma_module_loads_are_the_js_files(p, main);
        assert forall|i: int| 0 <= i < p.len() implies p[i] == files[i] by {}
        assert forall|k: int| 0 <= k < before.len() implies ml[k] == before[k] by {}
        assert forall|i: int|
            0 <= i < files.len() && has_suffix(#[trigger] files[i].url, ".js"@) implies exists|k: int|
                0 <= k < ml.len() && #[trigger] ml[k].0 == i by {
            if i < p.len() {
                assert(p[i] == files[i]);
                let k = choose|k: int| 0 <= k < before.len() && #[trigger] before[k].0 == i;
                assert(ml[k] == before[k]);
            } else {
                assert(ml[before.len() as int].0 == i);
            }
        }
    }
}

/// Reading the registry gives back what was registered last: after registering
/// `name` under `id`, the name finds the id and the id finds the name, and every other
/// name keeps its id.
pub proof fn lemma_registry_read_after_register(r: ModuleRegistryView, name: Seq<char>, id: i32, other: Seq<char>)
    ensures
        r.ids.insert(name, id).dom().contains(name),
        r.ids.insert(name, id)[name] == id,
        r.names.insert(id, name).dom().contains(id),
        r.names.insert(id, name)[id] == name,
        other != name ==> (r.ids.insert(name, id).dom().contains(other) == r.ids.dom().contains(other)
            && r.ids.insert(name, id)[other] == r.ids[other]),
{
}

} // verus!
