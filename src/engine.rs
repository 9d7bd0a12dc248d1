use vstd::prelude::*;
use crate::errors::EngineError;
use crate::manifest::{descriptor_of, parse_events};
use crate::model::{Context, Plugin, PluginV};
use crate::xml_events::{read_events, xml_events};

verus! {

/// The manifest fields of each plugin of a sequence.
pub open spec fn descriptors(s: Seq<Plugin>) -> Seq<PluginV> {
    s.map_values(|p: Plugin| p@)
}

/// The registry after loading one manifest: a manifest that parses is appended, one
/// that fails leaves the registry as it was.
pub open spec fn load_one(reg: Seq<PluginV>, doc: Seq<char>) -> Seq<PluginV> {
    match descriptor_of(xml_events(doc)) {
        Ok(m) => reg.push(m),
        Err(_) => reg,
    }
}

/// The registry after loading each manifest of `docs`, in order.
pub open spec fn load_all(reg: Seq<PluginV>, docs: Seq<Seq<char>>) -> Seq<PluginV>
    decreases docs.len(),
{
    if docs.len() == 0 {
        reg
    } else {
        load_one(load_all(reg, docs.drop_last()), docs.last())
    }
}

/// Whether `p` is the first plugin of `s` whose id is `uid`.
pub open spec fn first_with_id(s: Seq<Plugin>, uid: Seq<char>, i: int) -> bool {
    &&& 0 <= i < s.len()
    &&& s[i].guid@ == uid
    &&& forall|j: int| 0 <= j < i ==> #[trigger] s[j].guid@ != uid
}

/// The loaded plugins, in load order. Ids are not required to be unique.
#[derive(Debug)]
pub struct PluginManager {
    plugins: Vec<Plugin>,
}

impl PluginManager {
    pub closed spec fn items(&self) -> Seq<Plugin> {
        self.plugins@
    }

    pub fn new() -> (r: PluginManager)
        ensures
            r.items() == Seq::<Plugin>::empty(),
    {
        PluginManager { plugins: Vec::new() }
    }

    /// Appends a plugin.
    pub fn add(&mut self, p: Plugin)
        ensures
            final(self).items() == old(self).items().push(p),
    {
        self.plugins.push(p);
    }

    /// Every plugin, in the order they were added.
    pub fn all(&self) -> (r: &Vec<Plugin>)
        ensures
            r@ == self.items(),
    {
        &self.plugins
    }
}

/// The engine: host settings and the registry of loaded plugins.
#[derive(Debug)]
pub struct Engine {
    pub context: Context,
    pub pm: PluginManager,
}

impl Engine {
    /// The plugins loaded so far, in load order.
    pub closed spec fn loaded(&self) -> Seq<Plugin> {
        self.pm.items()
    }

    pub fn new(context: Context) -> (r: Engine)
        ensures
            r.context == context,
            r.loaded() == Seq::<Plugin>::empty(),
    {
        Engine { context, pm: PluginManager::new() }
    }

    /// Every loaded plugin, in load order.
    pub fn list(&self) -> (r: &Vec<Plugin>)
        ensures
            r@ == self.loaded(),
    {
        self.pm.all()
    }

    /// The first loaded plugin whose id is `uid`.
    pub fn find(&self, uid: &str) -> (r: Result<&Plugin, EngineError>)
        ensures
            match r {
                Ok(p) => exists|i: int| first_with_id(self.loaded(), uid@, i) && self.loaded()[i] == *p,
                Err(e) => e == EngineError::NotFound && forall|j: int|
                    0 <= j < self.loaded().len() ==> #[trigger] self.loaded()[j].guid@ != uid@,
            },
    {
        let all = self.pm.all();
        let key = uid.to_owned();
        let mut i: usize = 0;
        while i < all.len()
            invariant
                i <= all@.len(),
                all@ == self.loaded(),
                key@ == uid@,
                forall|j: int| 0 <= j < i ==> #[trigger] all@[j].guid@ != uid@,
            decreases all@.len() - i,
        {
            if all[i].guid == key {
                assert(first_with_id(self.loaded(), uid@, i as int));
                return Ok(&all[i]);
            }
            i = i + 1;
        }
        Err(EngineError::NotFound)
    }

    /// Parses a manifest and registers the plugin it describes, after those loaded
    /// before. A manifest whose version is not an integer is rejected and nothing is
    /// registered.
    pub fn load(&mut self, text: &str) -> (r: Result<(), EngineError>)
        ensures
            descriptors(final(self).loaded()) == load_one(descriptors(old(self).loaded()), text@),
            final(self).context == old(self).context,
            match descriptor_of(xml_events(text@)) {
                Ok(m) => r is Ok && final(self).loaded().len() == old(self).loaded().len() + 1
                    && final(self).loaded().drop_last() == old(self).loaded()
                    && final(self).loaded().last()@ == m
                    && final(self).loaded().last().js@ == Seq::<Seq<char>>::empty(),
                Err(e) => r == Err::<(), EngineError>(e) && final(self).loaded() == old(self).loaded(),
            },
    {
        let events = read_events(text);
        match parse_events(&events) {
            Ok(p) => {
                self.pm.add(p);
                assert(self.loaded().drop_last() == old(self).loaded());
                assert(descriptors(self.loaded()) =~= descriptors(old(self).loaded()).push(p@));
                Ok(())
            },
            Err(e) => Err(e),
        }
    }
}

} // verus!
