//! Named addresses.
use vstd::prelude::*;

verus! {

/// Properties of a name.
#[derive(Debug, Clone, Copy, PartialEq, Eq, Structural)]
pub struct JsNameProperties {
    pub is_public: bool,
    pub is_weak: bool,
}

/// A name of the database's list of names, with its index in that list.
#[derive(Debug)]
pub struct JsNameEntry {
    pub index: u32,
    pub address: u64,
    pub name: String,
    pub properties: JsNameProperties,
}

/// The mathematical content of a [`JsNameEntry`].
pub struct NameEntryView {
    pub index: u32,
    pub address: u64,
    pub name: Seq<char>,
    pub properties: JsNameProperties,
}

impl View for JsNameEntry {
    type V = NameEntryView;

    open spec fn view(&self) -> NameEntryView {
        NameEntryView {
            index: self.index,
            address: self.address,
            name: self.name@,
            properties: self.properties,
        }
    }
}

impl JsNameEntry {
    pub fn get_index(&self) -> (r: u32)
        ensures
            r == self.index,
    {
        self.index
    }

    pub fn get_address(&self) -> (r: u64)
        ensures
            r == self.address,
    {
        self.address
    }

    pub fn get_name(&self) -> (r: &str)
        ensures
            r@ == self.name@,
    {
        self.name.as_str()
    }

    pub fn get_properties(&self) -> (r: JsNameProperties)
        ensures
            r == self.properties,
    {
        self.properties
    }
}

} // verus!
