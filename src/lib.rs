pub mod errors;
pub mod xml_events;
pub mod text;
pub mod js;
pub mod model;
pub mod manifest;
pub mod engine;
pub mod pipeline;
pub mod laws;

use vstd::prelude::*;
use crate::engine::Engine;
use crate::model::Context;

verus! {

/// An engine with no plugin loaded yet.
pub fn init_engine(context: Context) -> (r: Engine)
    ensures
        r.context == context,
        r.loaded() == Seq::<crate::model::Plugin>::empty(),
{
    Engine::new(context)
}

/// Host settings whose data directory is `data_path`.
pub fn init_context(data_path: &str) -> (r: Context)
    ensures
        r.data_path@ == data_path@,
{
    Context::new(data_path)
}

} // verus!
