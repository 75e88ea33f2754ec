//! A datapack: plans every artifact — function files and tagged JSON
//! documents — as a path plus its full contents, materialized in memory
//! before anything is considered complete.

use vstd::prelude::*;

use crate::command::Function;
use crate::ident::Identifier;
use crate::item_modifier::{modifier_rep, modifier_to_json, ItemModifier};
use crate::json::text_of;
use crate::predicate::{predicate_rep, predicate_to_json, Predicate};

verus! {

/// One finished artifact: where it goes, and its full contents.
pub struct Artifact {
    /// The file path of the artifact, under the datapack's data directory.
    pub path: String,
    /// The complete contents of the artifact.
    pub contents: String,
}

/// A datapack: the data directory every artifact lives under.
pub struct Datapack {
    /// The data directory of the pack.
    pub data: String,
}

/// The contents of the pack.mcmeta file every datapack carries.
pub open spec fn pack_mcmeta_chars() -> Seq<char> {
    "{\n    \"pack\": {\n        \"pack_format\": 7,\n        \"description\": \"Copper datapack\"\n    }\n}\n"@
}

/// The contents of the pack.mcmeta file every datapack carries.
pub fn pack_mcmeta() -> (r: String)
    ensures
        r@ == pack_mcmeta_chars(),
{
    String::from_str(
        "{\n    \"pack\": {\n        \"pack_format\": 7,\n        \"description\": \"Copper datapack\"\n    }\n}\n",
    )
}

impl Datapack {
    /// Plans a datapack rooted at `out`: its data directory is `out/data`.
    pub fn new(out: &str) -> (r: Datapack)
        ensures
            r.data@ == out@ + "/data"@,
    {
        let mut data = out.to_owned();
        data.append("/data");
        Datapack { data }
    }

    /// Opens a function file at the location `location` names.
    pub fn function(&self, location: &Identifier) -> (r: Function)
        ensures
            r.path@ == location.path_chars(self.data@, "functions"@, "mcfunction"@),
            r.prefix@ == Seq::<char>::empty(),
            r.lines@ == Seq::<String>::empty(),
    {
        Function::new(self.data.as_str(), location)
    }

    /// Plans an item modifier artifact: its path under `item_modifiers`,
    /// and the rendered document as its contents.
    pub fn item_modifier(&self, location: &Identifier, item_modifier: &ItemModifier) -> (a:
        Artifact)
        ensures
            a.path@ == location.path_chars(self.data@, "item_modifiers"@, "json"@),
            a.contents@ == text_of(modifier_rep(*item_modifier)),
    {
        let j = modifier_to_json(item_modifier);
        Artifact { path: location.join(self.data.as_str(), "item_modifiers", "json"), contents: j.render() }
    }

    /// Plans a predicate artifact: its path under `predicates`, and the
    /// rendered document as its contents.
    pub fn predicate(&self, location: &Identifier, predicate: &Predicate) -> (a: Artifact)
        ensures
            a.path@ == location.path_chars(self.data@, "predicates"@, "json"@),
            a.contents@ == text_of(predicate_rep(*predicate)),
    {
        let j = predicate_to_json(predicate);
        Artifact { path: location.join(self.data.as_str(), "predicates", "json"), contents: j.render() }
    }
}

} // verus!
