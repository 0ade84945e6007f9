//! Plugins loaded into the IDA library.
use vstd::prelude::*;

verus! {

/// A plugin that was found or loaded, by name.
#[derive(Debug)]
pub struct JsPlugin {
    pub name: String,
}

impl JsPlugin {
    /// The plugin of the given name.
    pub fn new(name: String) -> (r: JsPlugin)
        ensures
            r.name == name,
    {
        JsPlugin { name }
    }

    pub fn get_name(&self) -> (r: String)
        ensures
            r@ == self.name@,
    {
        self.name.clone()
    }
}

} // verus!
