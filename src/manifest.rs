use vstd::prelude::*;
use crate::errors::EngineError;
use crate::js::{views_of, Js};
use crate::model::{DataConfig, DataConfigV, Plugin, PluginV, ScriptCode, ScriptCodeV};
use crate::text::{integer_of, parse_i32};
use crate::xml_events::{Attribute, Event};

verus! {

/// The value of the last attribute named `key`, if any.
pub open spec fn last_attr(attrs: Seq<Attribute>, key: Seq<char>) -> Option<Seq<char>>
    decreases attrs.len(),
{
    if attrs.len() == 0 {
        None
    } else if attrs.last().name@ == key {
        Some(attrs.last().value@)
    } else {
        last_attr(attrs.drop_last(), key)
    }
}

/// The value of the last attribute named `key`, or the empty string.
pub open spec fn attr_or_empty(attrs: Seq<Attribute>, key: Seq<char>) -> Seq<char> {
    match last_attr(attrs, key) {
        Some(v) => v,
        None => Seq::empty(),
    }
}

/// The innermost open element, or the empty name outside every element.
pub open spec fn innermost(open: Seq<Seq<char>>) -> Seq<char> {
    if open.len() == 0 {
        Seq::empty()
    } else {
        open.last()
    }
}

/// The fields of a plugin before any manifest event.
pub open spec fn empty_plugin() -> PluginV {
    PluginV {
        ver: 0,
        guid: Seq::empty(),
        title: Seq::empty(),
        code: Seq::empty(),
        url: Seq::empty(),
        hots: DataConfigV {
            cache: Seq::empty(),
            title: Seq::empty(),
            method: Seq::empty(),
            parse: Seq::empty(),
            url: Seq::empty(),
            header: Seq::empty(),
        },
        codes: Seq::empty(),
    }
}

/// The configuration a `hots` element describes.
pub open spec fn config_of(attrs: Seq<Attribute>) -> DataConfigV {
    DataConfigV {
        cache: attr_or_empty(attrs, "cache"@),
        title: attr_or_empty(attrs, "title"@),
        method: attr_or_empty(attrs, "method"@),
        parse: attr_or_empty(attrs, "parse"@),
        url: attr_or_empty(attrs, "url"@),
        header: attr_or_empty(attrs, "header"@),
    }
}

/// A `sited` element: every `ver` attribute must be an integer; the last one is the version.
pub open spec fn apply_sited(p: PluginV, attrs: Seq<Attribute>) -> Result<PluginV, EngineError> {
    if exists|i: int|
        0 <= i < attrs.len() && #[trigger] attrs[i].name@ == "ver"@ && integer_of(attrs[i].value@) is None {
        Err(EngineError::InvalidField)
    } else {
        match last_attr(attrs, "ver"@) {
            Some(v) => Ok(PluginV { ver: integer_of(v)->0, ..p }),
            None => Ok(p),
        }
    }
}

/// A `meta` element: its last `guid` attribute, if any, is the id.
pub open spec fn apply_meta(p: PluginV, attrs: Seq<Attribute>) -> PluginV {
    match last_attr(attrs, "guid"@) {
        Some(g) => PluginV { guid: g, ..p },
        None => p,
    }
}

/// What the parser holds between two events: the plugin so far and the open elements.
pub struct ParseState {
    pub plugin: PluginV,
    pub open: Seq<Seq<char>>,
}

/// The effect of one event.
pub open spec fn step(st: ParseState, e: Event) -> Result<ParseState, EngineError> {
    let p = st.plugin;
    match e {
        Event::Start { name, attributes } => {
            let open = st.open.push(name@);
            let a = attributes@;
            if name@ == "sited"@ {
                match apply_sited(p, a) {
                    Ok(q) => Ok(ParseState { plugin: q, open }),
                    Err(err) => Err(err),
                }
            } else if name@ == "meta"@ {
                Ok(ParseState { plugin: apply_meta(p, a), open })
            } else if name@ == "hots"@ {
                Ok(ParseState { plugin: PluginV { hots: config_of(a), ..p }, open })
            } else if name@ == "item"@ && innermost(st.open) == "require"@ {
                let c = ScriptCodeV { url: attr_or_empty(a, "url"@), id: attr_or_empty(a, "id"@) };
                Ok(ParseState { plugin: PluginV { codes: p.codes.push(c), ..p }, open })
            } else {
                Ok(ParseState { plugin: p, open })
            }
        },
        Event::End => Ok(
            ParseState {
                plugin: p,
                open: if st.open.len() > 0 { st.open.drop_last() } else { st.open },
            },
        ),
        Event::Characters(s) => if innermost(st.open) == "title"@ {
            Ok(ParseState { plugin: PluginV { title: s@, ..p }, open: st.open })
        } else {
            Ok(st)
        },
        Event::CData(s) => if innermost(st.open) == "code"@ {
            Ok(ParseState { plugin: PluginV { code: s@, ..p }, open: st.open })
        } else {
            Ok(st)
        },
        _ => Ok(st),
    }
}

/// The parser's state after a sequence of events; the first failing event ends it.
pub open spec fn state_after(events: Seq<Event>) -> Result<ParseState, EngineError>
    decreases events.len(),
{
    if events.len() == 0 {
        Ok(ParseState { plugin: empty_plugin(), open: Seq::empty() })
    } else {
        match state_after(events.drop_last()) {
            Ok(st) => step(st, events.last()),
            Err(err) => Err(err),
        }
    }
}

/// The plugin a manifest's event stream describes.
pub open spec fn descriptor_of(events: Seq<Event>) -> Result<PluginV, EngineError> {
    match state_after(events) {
        Ok(st) => Ok(st.plugin),
        Err(err) => Err(err),
    }
}

proof fn lemma_failure_persists(events: Seq<Event>, k: int, err: EngineError)
    requires
        0 <= k <= events.len(),
        state_after(events.take(k)) == Err::<ParseState, EngineError>(err),
    ensures
        state_after(events) == Err::<ParseState, EngineError>(err),
    decreases events.len() - k,
{
    if k < events.len() {
        assert(events.take(k + 1).drop_last() == events.take(k));
        lemma_failure_persists(events, k + 1, err);
    } else {
        assert(events.take(k) == events);
    }
}

fn is_named(s: &String, key: &str) -> (r: bool)
    ensures
        r == (s@ == key@),
{
    let k = key.to_owned();
    *s == k
}

fn last_value(attrs: &Vec<Attribute>, key: &str) -> (r: Option<String>)
    ensures
        match r {
            Some(v) => last_attr(attrs@, key@) == Some(v@),
            None => last_attr(attrs@, key@) is None,
        },
{
    let mut r: Option<String> = None;
    let mut i: usize = 0;
    while i < attrs.len()
        invariant
            i <= attrs@.len(),
            match r {
                Some(v) => last_attr(attrs@.take(i as int), key@) == Some(v@),
                None => last_attr(attrs@.take(i as int), key@) is None,
            },
        decreases attrs@.len() - i,
    {
        assert(attrs@.take(i + 1).drop_last() == attrs@.take(i as int));
        if is_named(&attrs[i].name, key) {
            r = Some(attrs[i].value.clone());
        }
        i = i + 1;
    }
    assert(attrs@.take(i as int) == attrs@);
    r
}

fn value_or_empty(attrs: &Vec<Attribute>, key: &str) -> (r: String)
    ensures
        r@ == attr_or_empty(attrs@, key@),
{
    match last_value(attrs, key) {
        Some(v) => v,
        None => String::new(),
    }
}

fn parse_sited(p: &mut Plugin, attributes: &Vec<Attribute>) -> (r: Result<(), EngineError>)
    ensures
        match r {
            Ok(()) => apply_sited(old(p)@, attributes@) == Ok::<PluginV, EngineError>(final(p)@)
                && final(p).js@ == old(p).js@,
            Err(e) => apply_sited(old(p)@, attributes@) == Err::<PluginV, EngineError>(e),
        },
{
    let ghost a = attributes@;
    let mut i: usize = 0;
    while i < attributes.len()
        invariant
            i <= a.len(),
            a == attributes@,
            forall|j: int| 0 <= j < i && #[trigger] a[j].name@ == "ver"@ ==> integer_of(a[j].value@) is Some,
            p.js@ == old(p).js@,
            p@ == (match last_attr(a.take(i as int), "ver"@) {
                Some(v) => PluginV { ver: integer_of(v)->0, ..old(p)@ },
                None => old(p)@,
            }),
        decreases a.len() - i,
    {
        assert(a.take(i + 1).drop_last() == a.take(i as int));
        if is_named(&attributes[i].name, "ver") {
            match parse_i32(attributes[i].value.as_str()) {
                Some(v) => {
                    p.ver = v;
                },
                None => {
                    return Err(EngineError::InvalidField);
                },
            }
        }
        i = i + 1;
    }
    assert(a.take(i as int) == a);
    Ok(())
}

fn parse_meta(p: &mut Plugin, attributes: &Vec<Attribute>)
    ensures
        final(p)@ == apply_meta(old(p)@, attributes@),
        final(p).js@ == old(p).js@,
{
    match last_value(attributes, "guid") {
        Some(g) => {
            p.guid = g;
        },
        None => {},
    }
}

fn parse_hots(p: &mut Plugin, attributes: &Vec<Attribute>)
    ensures
        final(p)@ == (PluginV { hots: config_of(attributes@), ..old(p)@ }),
        final(p).js@ == old(p).js@,
{
    p.hots = DataConfig {
        cache: value_or_empty(attributes, "cache"),
        title: value_or_empty(attributes, "title"),
        method: value_or_empty(attributes, "method"),
        parse: value_or_empty(attributes, "parse"),
        url: value_or_empty(attributes, "url"),
        header: value_or_empty(attributes, "header"),
    };
}

fn parse_require_item(p: &mut Plugin, attributes: &Vec<Attribute>)
    ensures
        final(p)@ == (PluginV {
            codes: old(p)@.codes.push(
                ScriptCodeV { url: attr_or_empty(attributes@, "url"@), id: attr_or_empty(attributes@, "id"@) },
            ),
            ..old(p)@
        }),
        final(p).js@ == old(p).js@,
{
    let c = ScriptCode { url: value_or_empty(attributes, "url"), id: value_or_empty(attributes, "id") };
    p.codes.push(c);
    assert(p@.codes =~= old(p)@.codes.push(c@));
}

fn innermost_is(open: &Vec<String>, key: &str) -> (r: bool)
    ensures
        r == (innermost(views_of(open@)) == key@),
{
    if open.len() == 0 {
        let e = String::new();
        is_named(&e, key)
    } else {
        is_named(&open[open.len() - 1], key)
    }
}

fn apply_event(p: &mut Plugin, open: &mut Vec<String>, e: &Event) -> (r: Result<(), EngineError>)
    ensures
        match r {
            Ok(()) => step(ParseState { plugin: old(p)@, open: views_of(old(open)@) }, *e) == Ok::<
                ParseState,
                EngineError,
            >(ParseState { plugin: final(p)@, open: views_of(final(open)@) }) && final(p).js@ == old(p).js@,
            Err(err) => step(ParseState { plugin: old(p)@, open: views_of(old(open)@) }, *e) == Err::<
                ParseState,
                EngineError,
            >(err),
        },
{
    match e {
        Event::Start { name, attributes } => {
            let inside_require = innermost_is(open, "require");
            open.push(name.clone());
            assert(views_of(open@) =~= views_of(old(open)@).push(name@));
            if is_named(name, "sited") {
                parse_sited(p, attributes)
            } else if is_named(name, "meta") {
                parse_meta(p, attributes);
                Ok(())
            } else if is_named(name, "hots") {
                parse_hots(p, attributes);
                Ok(())
            } else if is_named(name, "item") && inside_require {
                parse_require_item(p, attributes);
                Ok(())
            } else {
                Ok(())
            }
        },
        Event::End => {
            if open.len() > 0 {
                open.pop();
                assert(views_of(open@) =~= views_of(old(open)@).drop_last());
            }
            Ok(())
        },
        Event::Characters(s) => {
            if innermost_is(open, "title") {
                p.title = s.clone();
            }
            Ok(())
        },
        Event::CData(s) => {
            if innermost_is(open, "code") {
                p.code = s.clone();
            }
            Ok(())
        },
        _ => Ok(()),
    }
}

/// A plugin with every manifest field empty and a fresh sandbox.
pub fn empty_plugin_value() -> (r: Plugin)
    ensures
        r@ == empty_plugin(),
        r.js@ == Seq::<Seq<char>>::empty(),
{
    let r = Plugin {
        js: Js::new(),
        ver: 0,
        guid: String::new(),
        title: String::new(),
        code: String::new(),
        url: String::new(),
        hots: DataConfig {
            cache: String::new(),
            title: String::new(),
            method: String::new(),
            parse: String::new(),
            url: String::new(),
            header: String::new(),
        },
        codes: Vec::new(),
    };
    assert(r@.codes =~= Seq::<ScriptCodeV>::empty());
    r
}

/// Builds the plugin that a manifest's event stream describes. Unknown elements and
/// attributes are ignored; a `ver` attribute that is not an integer fails the whole load.
pub fn parse_events(events: &Vec<Event>) -> (r: Result<Plugin, EngineError>)
    ensures
        match r {
            Ok(p) => descriptor_of(events@) == Ok::<PluginV, EngineError>(p@)
                && p.js@ == Seq::<Seq<char>>::empty(),
            Err(e) => descriptor_of(events@) == Err::<PluginV, EngineError>(e),
        },
{
    let mut p = empty_plugin_value();
    let mut open: Vec<String> = Vec::new();
    assert(views_of(open@) =~= Seq::<Seq<char>>::empty());
    let mut i: usize = 0;
    while i < events.len()
        invariant
            i <= events@.len(),
            p.js@ == Seq::<Seq<char>>::empty(),
            state_after(events@.take(i as int)) == Ok::<ParseState, EngineError>(
                ParseState { plugin: p@, open: views_of(open@) },
            ),
        decreases events@.len() - i,
    {
        assert(events@.take(i + 1).drop_last() == events@.take(i as int));
        match apply_event(&mut p, &mut open, &events[i]) {
            Ok(()) => {},
            Err(e) => {
                proof {
                    lemma_failure_persists(events@, i + 1, e);
                }
                return Err(e);
            },
        }
        i = i + 1;
    }
    assert(events@.take(i as int) == events@);
    Ok(p)
}

} // verus!
