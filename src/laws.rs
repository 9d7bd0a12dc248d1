use vstd::prelude::*;
use crate::engine::{load_all, load_one};
use crate::manifest::{config_of, descriptor_of, last_attr};
use crate::model::{config_attributes, PluginV};
use crate::xml_events::{xml_events, Attribute};

verus! {

/// Loading manifests that all parse registers one plugin per manifest, after those
/// already registered, in load order.
pub proof fn lemma_loads_in_order(reg: Seq<PluginV>, docs: Seq<Seq<char>>)
    requires
        forall|i: int| 0 <= i < docs.len() ==> #[trigger] descriptor_of(xml_events(docs[i])) is Ok,
    ensures
        load_all(reg, docs).len() == reg.len() + docs.len(),
        load_all(reg, docs).take(reg.len() as int) == reg,
        forall|i: int|
            0 <= i < docs.len() ==> Ok::<PluginV, crate::errors::EngineError>(
                #[trigger] load_all(reg, docs)[reg.len() + i],
            ) == descriptor_of(xml_events(docs[i])),
    decreases docs.len(),
{
    if docs.len() > 0 {
        let init = docs.drop_last();
        assert forall|i: int| 0 <= i < init.len() implies #[trigger] descriptor_of(xml_events(init[i])) is Ok by {
            assert(init[i] == docs[i]);
        }
        lemma_loads_in_order(reg, init);
        let before = load_all(reg, init);
        assert(descriptor_of(xml_events(docs[docs.len() - 1])) is Ok);
        assert(load_all(reg, docs) == load_one(before, docs.last()));
        assert(load_all(reg, docs).take(reg.len() as int) =~= before.take(reg.len() as int));
        assert forall|i: int|
            0 <= i < docs.len() implies Ok::<PluginV, crate::errors::EngineError>(
                #[trigger] load_all(reg, docs)[reg.len() + i],
            ) == descriptor_of(xml_events(docs[i])) by {
            if i < init.len() {
                assert(init[i] == docs[i]);
                assert(load_all(reg, docs)[reg.len() + i] == before[reg.len() + i]);
            }
        }
    }
}

proof fn lemma_last_attr_of_unique(attrs: Seq<Attribute>, i: int)
    requires
        0 <= i < attrs.len(),
        forall|j: int| 0 <= j < attrs.len() && j != i ==> #[trigger] attrs[j].name@ != attrs[i].name@,
    ensures
        last_attr(attrs, attrs[i].name@) == Some(attrs[i].value@),
    decreases attrs.len(),
{
    if i < attrs.len() - 1 {
        let init = attrs.drop_last();
        assert forall|j: int| 0 <= j < init.len() && j != i implies #[trigger] init[j].name@ != init[i].name@ by {
            assert(init[j] == attrs[j]);
        }
        assert(attrs[attrs.len() - 1].name@ != attrs[i].name@);
        lemma_last_attr_of_unique(init, i);
    }
}

/// Writing back the configuration parsed from a `hots` element gives, for each
/// configuration attribute of the element (names not repeated), that attribute verbatim.
pub proof fn lemma_hots_round_trip(attrs: Seq<Attribute>, i: int)
    requires
        0 <= i < attrs.len(),
        forall|j: int| 0 <= j < attrs.len() && j != i ==> #[trigger] attrs[j].name@ != attrs[i].name@,
        exists|k: int| 0 <= k < 6 && #[trigger] config_attributes(config_of(attrs))[k].0 == attrs[i].name@,
    ensures
        exists|k: int|
            0 <= k < 6 && #[trigger] config_attributes(config_of(attrs))[k] == (attrs[i].name@, attrs[i].value@),
{
    lemma_last_attr_of_unique(attrs, i);
    let k = choose|k: int| 0 <= k < 6 && #[trigger] config_attributes(config_of(attrs))[k].0 == attrs[i].name@;
    assert(config_attributes(config_of(attrs))[k] == (attrs[i].name@, attrs[i].value@));
}

} // verus!
