//! String literals found in a database.
use vstd::prelude::*;

verus! {

/// A string literal of the database's string list, with its index in that list.
#[derive(Debug)]
pub struct JsStringEntry {
    pub index: u32,
    pub address: u64,
    pub value: String,
    pub length: u32,
    pub str_type: u32,
}

/// The mathematical content of a [`JsStringEntry`].
pub struct StringEntryView {
    pub index: u32,
    pub address: u64,
    pub value: Seq<char>,
    pub length: u32,
    pub str_type: u32,
}

impl View for JsStringEntry {
    type V = StringEntryView;

    open spec fn view(&self) -> StringEntryView {
        StringEntryView {
            index: self.index,
            address: self.address,
            value: self.value@,
            length: self.length,
            str_type: self.str_type,
        }
    }
}

impl JsStringEntry {
    pub fn get_index(&self) -> (r: u32)
        ensures
            r == self.index,
    {
        self.index
    }

    pub fn get_address(&self) -> (r: u64)
        ensures
            r == self.address,
    {
        self.address
    }

    pub fn get_value(&self) -> (r: &str)
        ensures
            r@ == self.value@,
    {
        self.value.as_str()
    }

    pub fn get_length(&self) -> (r: u32)
        ensures
            r == self.length,
    {
        self.length
    }

    pub fn get_str_type(&self) -> (r: u32)
        ensures
            r == self.str_type,
    {
        self.str_type
    }
}

} // verus!
