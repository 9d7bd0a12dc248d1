use vstd::prelude::*;
use crate::js::Js;
use crate::xml_events::Attribute;

verus! {

/// A dependency script of a plugin: where to fetch it, and its id.
#[derive(Debug)]
pub struct ScriptCode {
    pub url: String,
    pub id: String,
}

pub struct ScriptCodeV {
    pub url: Seq<char>,
    pub id: Seq<char>,
}

impl View for ScriptCode {
    type V = ScriptCodeV;

    open spec fn view(&self) -> ScriptCodeV {
        ScriptCodeV { url: self.url@, id: self.id@ }
    }
}

/// How a plugin fetches its primary content and which routine parses it.
#[derive(Debug)]
pub struct DataConfig {
    pub cache: String,
    pub title: String,
    pub method: String,
    pub parse: String,
    pub url: String,
    pub header: String,
}

pub struct DataConfigV {
    pub cache: Seq<char>,
    pub title: Seq<char>,
    pub method: Seq<char>,
    pub parse: Seq<char>,
    pub url: Seq<char>,
    pub header: Seq<char>,
}

impl View for DataConfig {
    type V = DataConfigV;

    open spec fn view(&self) -> DataConfigV {
        DataConfigV {
            cache: self.cache@,
            title: self.title@,
            method: self.method@,
            parse: self.parse@,
            url: self.url@,
            header: self.header@,
        }
    }
}

/// The attributes a `hots` element needs to describe a configuration, in a fixed order.
pub open spec fn config_attributes(c: DataConfigV) -> Seq<(Seq<char>, Seq<char>)> {
    seq![
        ("cache"@, c.cache),
        ("title"@, c.title),
        ("method"@, c.method),
        ("url"@, c.url),
        ("header"@, c.header),
        ("parse"@, c.parse),
    ]
}

fn attribute(name: &str, value: &String) -> (r: Attribute)
    ensures
        r.name@ == name@,
        r.value@ == value@,
{
    Attribute { name: name.to_owned(), value: value.clone() }
}

impl DataConfig {
    /// The configuration written back as `hots` attributes, for diagnostics.
    pub fn attributes(&self) -> (r: Vec<Attribute>)
        ensures
            r@.len() == 6,
            forall|i: int| 0 <= i < 6 ==> (#[trigger] r@[i].name@, r@[i].value@) == config_attributes(self@)[i],
    {
        let mut r: Vec<Attribute> = Vec::new();
        r.push(attribute("cache", &self.cache));
        r.push(attribute("title", &self.title));
        r.push(attribute("method", &self.method));
        r.push(attribute("url", &self.url));
        r.push(attribute("header", &self.header));
        r.push(attribute("parse", &self.parse));
        r
    }
}

/// A record extracted from remote content.
#[derive(Debug, Clone)]
pub struct Book {
    pub name: String,
    pub logo: String,
    pub url: String,
}

/// Host settings of an engine.
#[derive(Debug)]
pub struct Context {
    pub data_path: String,
}

impl Context {
    pub fn new(data_path: &str) -> (r: Context)
        ensures
            r.data_path@ == data_path@,
    {
        Context { data_path: data_path.to_owned() }
    }
}

/// A loaded plugin: the fields of its manifest, and the sandbox it owns.
#[derive(Debug)]
pub struct Plugin {
    pub js: Js,
    pub ver: i32,
    pub guid: String,
    pub title: String,
    pub code: String,
    pub url: String,
    pub hots: DataConfig,
    pub codes: Vec<ScriptCode>,
}

/// The manifest fields of a plugin.
pub struct PluginV {
    pub ver: int,
    pub guid: Seq<char>,
    pub title: Seq<char>,
    pub code: Seq<char>,
    pub url: Seq<char>,
    pub hots: DataConfigV,
    pub codes: Seq<ScriptCodeV>,
}

impl View for Plugin {
    type V = PluginV;

    open spec fn view(&self) -> PluginV {
        PluginV {
            ver: self.ver as int,
            guid: self.guid@,
            title: self.title@,
            code: self.code@,
            url: self.url@,
            hots: self.hots@,
            codes: self.codes@.map_values(|c: ScriptCode| c@),
        }
    }
}

} // verus!
