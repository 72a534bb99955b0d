//! The addon manifest: a JSON object whose `addons` array lists entries with
//! a `name` and an `enabled` flag. Every other key, at the top and in each
//! entry, is kept as it is and written back unchanged.
use vstd::prelude::*;
use crate::fields::{
    field, lacks, lemma_append_absent, lemma_single, lemma_without_key, split_field,
    unique_keys, without_key,
};
use crate::json::{
    clone_value, decode_json, encode_json_pretty, json_decode, json_pretty_text, node_of,
    node_of_value, value_of, JsonNode,
};

verus! {

/// One addon entry of a manifest.
pub struct Item {
    pub name: String,
    pub enabled: bool,
    /// The entry's other keys, in their order.
    pub extra: Vec<(String, serde_json::Value)>,
}

/// What an entry holds, for contracts.
pub struct ItemModel {
    pub name: Seq<char>,
    pub enabled: bool,
    pub extra: Seq<(String, serde_json::Value)>,
}

impl View for Item {
    type V = ItemModel;

    open spec fn view(&self) -> ItemModel {
        ItemModel { name: self.name@, enabled: self.enabled, extra: self.extra@ }
    }
}

/// What a manifest holds: its entries and its other top-level keys.
pub struct ManifestModel {
    pub addons: Seq<ItemModel>,
    pub extra: Seq<(String, serde_json::Value)>,
}

/// A discovered addon package: its manifest, where the manifest lives, and
/// the name of the package's directory. Only the manifest is written back.
pub struct AddonsCfg {
    pub addons: Vec<Item>,
    pub config_path: String,
    pub dirname: String,
    pub extra: Vec<(String, serde_json::Value)>,
}

impl AddonsCfg {
    /// The part of the package that the manifest file holds.
    pub open spec fn manifest(&self) -> ManifestModel {
        ManifestModel { addons: self.addons@.map_values(|it: Item| it@), extra: self.extra@ }
    }
}

/// Why manifest bytes could not be read.
#[derive(Debug, Clone, Copy, PartialEq, Eq, Structural)]
pub enum ParseError {
    /// The bytes are not JSON text.
    Syntax,
    /// The JSON is not an object with an `addons` array of entries that each
    /// have a text `name` and a boolean `enabled`.
    Shape,
}

/// The entry that a JSON value holds, if it is one.
pub open spec fn item_of(v: serde_json::Value) -> Option<ItemModel> {
    match node_of_value(v) {
        JsonNode::Object(fs) => {
            let rest = without_key(fs@, "name"@);
            match (field(fs@, "name"@), field(rest, "enabled"@)) {
                (Some(n), Some(e)) => match (node_of_value(n), node_of_value(e)) {
                    (JsonNode::Text(s), JsonNode::Bool(b)) => Some(
                        ItemModel { name: s@, enabled: b, extra: without_key(rest, "enabled"@) },
                    ),
                    _ => None,
                },
                _ => None,
            }
        },
        _ => None,
    }
}

/// Every element of `elems` is an entry.
pub open spec fn all_items(elems: Seq<serde_json::Value>) -> bool {
    forall|i: int| 0 <= i < elems.len() ==> (#[trigger] item_of(elems[i])) is Some
}

/// The manifest that a JSON value holds, if it is one.
pub open spec fn manifest_of(v: serde_json::Value) -> Option<ManifestModel> {
    match node_of_value(v) {
        JsonNode::Object(fs) => match field(fs@, "addons"@) {
            Some(a) => match node_of_value(a) {
                JsonNode::Array(elems) => if all_items(elems@) {
                    Some(
                        ManifestModel {
                            addons: elems@.map_values(|e: serde_json::Value| item_of(e)->Some_0),
                            extra: without_key(fs@, "addons"@),
                        },
                    )
                } else {
                    None
                },
                _ => None,
            },
            None => None,
        },
        _ => None,
    }
}

/// The manifest that a byte string holds, or why it holds none.
pub open spec fn manifest_of_bytes(b: Seq<u8>) -> Result<ManifestModel, ParseError> {
    match json_decode(b) {
        None => Err(ParseError::Syntax),
        Some(v) => match manifest_of(v) {
            Some(m) => Ok(m),
            None => Err(ParseError::Shape),
        },
    }
}

/// An entry that can be written and read back: its other keys are distinct
/// and none of them is `name` or `enabled`.
pub open spec fn item_wf(m: ItemModel) -> bool {
    unique_keys(m.extra) && lacks(m.extra, "name"@) && lacks(m.extra, "enabled"@)
}

/// A manifest that can be written and read back.
pub open spec fn manifest_wf(m: ManifestModel) -> bool {
    &&& unique_keys(m.extra)
    &&& lacks(m.extra, "addons"@)
    &&& forall|i: int| 0 <= i < m.addons.len() ==> item_wf(#[trigger] m.addons[i])
}

/// The key order in which an entry is written: `name`, `enabled`, then the
/// other keys as they are.
pub open spec fn item_layout(fs: Seq<(String, serde_json::Value)>, m: ItemModel) -> bool {
    &&& fs.len() == m.extra.len() + 2
    &&& fs[0].0@ == "name"@
    &&& fs[1].0@ == "enabled"@
    &&& fs.subrange(2, fs.len() as int) == m.extra
}

/// The key order in which a manifest is written: `addons`, then the other
/// top-level keys as they are.
pub open spec fn manifest_layout(fs: Seq<(String, serde_json::Value)>, m: ManifestModel) -> bool {
    &&& fs.len() == m.extra.len() + 1
    &&& fs[0].0@ == "addons"@
    &&& fs.subrange(1, fs.len() as int) == m.extra
}

impl Item {
    /// Reads an entry out of a JSON value.
    pub fn from_value(v: serde_json::Value) -> (r: Option<Item>)
        ensures
            match r {
                Some(it) => item_of(v) == Some(it@),
                None => item_of(v) is None,
            },
            r matches Some(it) ==> item_wf(it@),
    {
        match node_of(v) {
            JsonNode::Object(fs) => {
                let name_key = String::from_str("name");
                let enabled_key = String::from_str("enabled");
                let ghost all = fs@;
                let (n, rest) = split_field(fs, &name_key);
                let (e, extra) = split_field(rest, &enabled_key);
                match (n, e) {
                    (Some(nv), Some(ev)) => match (node_of(nv), node_of(ev)) {
                        (JsonNode::Text(s), JsonNode::Bool(b)) => {
                            proof {
                                lemma_without_key(all, "name"@);
                                let r1 = without_key(all, "name"@);
                                lemma_without_key(r1, "enabled"@);
                                let r2 = without_key(r1, "enabled"@);
                                assert forall|j: int| 0 <= j < r2.len() implies #[trigger] r2[j].0@
                                    != "name"@ by {
                                    let i = choose|i: int| 0 <= i < r1.len() && r2[j] == r1[i];
                                }
                            }
                            Some(Item { name: s, enabled: b, extra })
                        },
                        _ => None,
                    },
                    _ => None,
                }
            },
            _ => None,
        }
    }

    /// The JSON object of this entry: `name`, then `enabled`, then the other
    /// keys in their order.
    pub fn to_value(&self) -> (r: serde_json::Value)
        ensures
            item_wf(self@) ==> item_of(r) == Some(self@),
            item_wf(self@) ==> (node_of_value(r) matches JsonNode::Object(fs) && item_layout(
                fs@,
                self@,
            )),
    {
        let name_e = (String::from_str("name"), value_of(JsonNode::Text(self.name.clone())));
        let enabled_e = (String::from_str("enabled"), value_of(JsonNode::Bool(self.enabled)));
        let ghost head = seq![name_e, enabled_e];
        let mut fs: Vec<(String, serde_json::Value)> = Vec::new();
        fs.push(name_e);
        fs.push(enabled_e);
        let mut i: usize = 0;
        while i < self.extra.len()
            invariant
                i <= self.extra@.len(),
                fs@ == head + self.extra@.take(i as int),
            decreases self.extra@.len() - i,
        {
            let k = self.extra[i].0.clone();
            let v = clone_value(&self.extra[i].1);
            fs.push((k, v));
            proof {
                assert(self.extra@.take(i + 1) =~= self.extra@.take(i as int).push(self.extra@[i as int]));
            }
            i = i + 1;
        }
        proof {
            assert(self.extra@.take(i as int) =~= self.extra@);
            if item_wf(self@) {
                reveal_strlit("name");
                reveal_strlit("enabled");
                let f = fs@;
                let x = self.extra@;
                assert(name_e.0@ == "name"@);
                assert(enabled_e.0@ == "enabled"@);
                assert("enabled"@ != "name"@) by {
                    assert("enabled"@.len() != "name"@.len());
                }
                assert(unique_keys(f)) by {
                    assert forall|a: int, b: int| 0 <= a < b < f.len() implies #[trigger] f[a].0@
                        != #[trigger] f[b].0@ by {
                        if a >= 2 {
                            assert(f[a] == x[a - 2] && f[b] == x[b - 2]);
                        } else if b >= 2 {
                            assert(f[b] == x[b - 2]);
                            assert(f[a] == head[a]);
                        } else {
                            assert(f[a] == name_e && f[b] == enabled_e);
                        }
                    }
                }
                lemma_append_absent(head, x, "name"@);
                assert(head.drop_last() =~= seq![name_e]);
                assert(seq![name_e].drop_last() =~= Seq::<(String, serde_json::Value)>::empty());
                assert(head.last() == enabled_e);
                lemma_single(name_e, "name"@);
                lemma_single(enabled_e, "enabled"@);
                assert(field(head, "name"@) == Some(name_e.1));
                assert(without_key(head, "name"@) =~= seq![enabled_e]);
                lemma_append_absent(seq![enabled_e], x, "enabled"@);
                assert(without_key(seq![enabled_e], "enabled"@) + x =~= x);
                assert(f.subrange(2, f.len() as int) =~= x);
            }
        }
        value_of(JsonNode::Object(fs))
    }
}

impl AddonsCfg {
    /// Reads a package's manifest out of a JSON value, and tags it with where
    /// the manifest lives and the package's directory name.
    pub fn from_value(v: serde_json::Value, config_path: String, dirname: String) -> (r: Result<
        AddonsCfg,
        ParseError,
    >)
        ensures
            r is Err ==> manifest_of(v) is None && r == Err::<AddonsCfg, ParseError>(
                ParseError::Shape,
            ),
            r matches Ok(c) ==> manifest_of(v) == Some(c.manifest()) && c.config_path == config_path
                && c.dirname == dirname && manifest_wf(c.manifest()),
    {
        match node_of(v) {
            JsonNode::Object(fs) => {
                let ghost all = fs@;
                let key = String::from_str("addons");
                let (a, extra) = split_field(fs, &key);
                match a {
                    Some(av) => match node_of(av) {
                        JsonNode::Array(elems) => match items_from_values(&elems) {
                            Some(addons) => {
                                let c = AddonsCfg { addons, config_path, dirname, extra };
                                proof {
                                    lemma_without_key(all, "addons"@);
                                    assert(c.manifest().addons =~= addons@.map_values(
                                        |it: Item| it@,
                                    ));
                                    assert forall|i: int|
                                        0 <= i < c.manifest().addons.len() implies item_wf(
                                        #[trigger] c.manifest().addons[i],
                                    ) by {
                                        assert(c.manifest().addons[i] == addons@[i]@);
                                    }
                                }
                                Ok(c)
                            },
                            None => Err(ParseError::Shape),
                        },
                        _ => Err(ParseError::Shape),
                    },
                    None => Err(ParseError::Shape),
                }
            },
            _ => Err(ParseError::Shape),
        }
    }

    /// Reads a package's manifest out of the bytes of its file.
    pub fn parse(bytes: &[u8], config_path: String, dirname: String) -> (r: Result<
        AddonsCfg,
        ParseError,
    >)
        ensures
            match r {
                Ok(c) => manifest_of_bytes(bytes@) == Ok::<ManifestModel, ParseError>(
                    c.manifest(),
                ) && c.config_path == config_path && c.dirname == dirname && manifest_wf(
                    c.manifest(),
                ),
                Err(e) => manifest_of_bytes(bytes@) == Err::<ManifestModel, ParseError>(e),
            },
    {
        match decode_json(bytes) {
            Ok(v) => AddonsCfg::from_value(v, config_path, dirname),
            Err(_) => Err(ParseError::Syntax),
        }
    }

    /// The JSON object of the manifest: `addons`, then the other top-level
    /// keys in their order.
    pub fn to_value(&self) -> (r: serde_json::Value)
        ensures
            manifest_wf(self.manifest()) ==> manifest_of(r) == Some(self.manifest()),
            manifest_wf(self.manifest()) ==> (node_of_value(r) matches JsonNode::Object(fs)
                && manifest_layout(fs@, self.manifest())),
    {
        let mut vals: Vec<serde_json::Value> = Vec::new();
        let mut i: usize = 0;
        while i < self.addons.len()
            invariant
                i <= self.addons@.len(),
                vals@.len() == i,
                forall|j: int|
                    0 <= j < i ==> (item_wf(self.addons@[j]@) ==> item_of(#[trigger] vals@[j])
                        == Some(self.addons@[j]@)),
            decreases self.addons@.len() - i,
        {
            let v = self.addons[i].to_value();
            vals.push(v);
            i = i + 1;
        }
        let ghost vs = vals@;
        let arr = (String::from_str("addons"), value_of(JsonNode::Array(vals)));
        let mut fs: Vec<(String, serde_json::Value)> = Vec::new();
        fs.push(arr);
        let mut k: usize = 0;
        while k < self.extra.len()
            invariant
                k <= self.extra@.len(),
                fs@ == seq![arr] + self.extra@.take(k as int),
            decreases self.extra@.len() - k,
        {
            let key = self.extra[k].0.clone();
            let v = clone_value(&self.extra[k].1);
            fs.push((key, v));
            proof {
                assert(self.extra@.take(k + 1) =~= self.extra@.take(k as int).push(self.extra@[k as int]));
            }
            k = k + 1;
        }
        proof {
            assert(self.extra@.take(k as int) =~= self.extra@);
            let m = self.manifest();
            if manifest_wf(m) {
                let f = fs@;
                let x = self.extra@;
                assert(arr.0@ == "addons"@);
                assert(unique_keys(f)) by {
                    assert forall|a: int, b: int| 0 <= a < b < f.len() implies #[trigger] f[a].0@
                        != #[trigger] f[b].0@ by {
                        assert(f[b] == x[b - 1]);
                        if a >= 1 {
                            assert(f[a] == x[a - 1]);
                        } else {
                            assert(f[a] == arr);
                        }
                    }
                }
                lemma_single(arr, "addons"@);
                lemma_append_absent(seq![arr], x, "addons"@);
                assert(without_key(seq![arr], "addons"@) + x =~= x);
                assert(f.subrange(1, f.len() as int) =~= x);
                assert(all_items(vs)) by {
                    assert forall|j: int| 0 <= j < vs.len() implies (#[trigger] item_of(vs[j])) is Some by {
                        assert(item_wf(m.addons[j]));
                    }
                }
                assert(vs.map_values(|e: serde_json::Value| item_of(e)->Some_0) =~= m.addons) by {
                    assert forall|j: int| 0 <= j < vs.len() implies vs.map_values(
                        |e: serde_json::Value| item_of(e)->Some_0,
                    )[j] == m.addons[j] by {
                        assert(item_wf(m.addons[j]));
                    }
                }
            }
        }
        value_of(JsonNode::Object(fs))
    }

    /// The bytes to write to the manifest file: its JSON object,
    /// pretty-printed, with `addons` first and then the other top-level keys;
    /// the package's path and directory name are not written.
    pub fn save(&self) -> (r: Vec<u8>)
        ensures
            exists|w: serde_json::Value|
                r@ == #[trigger] json_pretty_text(w) && (manifest_wf(self.manifest()) ==> (
                manifest_of(w) == Some(self.manifest()) && (node_of_value(w) matches JsonNode::Object(
                    fs,
                ) && manifest_layout(fs@, self.manifest())))),
    {
        let w = self.to_value();
        let b = encode_json_pretty(&w).unwrap();
        assert(b@ == json_pretty_text(w));
        b
    }
}

/// Reads the entries of an `addons` array, in their order.
fn items_from_values(elems: &Vec<serde_json::Value>) -> (r: Option<Vec<Item>>)
    ensures
        r is None ==> !all_items(elems@),
        r matches Some(items) ==> all_items(elems@) && items@.map_values(|it: Item| it@)
            == elems@.map_values(|e: serde_json::Value| item_of(e)->Some_0),
        r matches Some(items) ==> forall|j: int|
            0 <= j < items@.len() ==> item_wf(#[trigger] items@[j]@),
{
    let ghost orig = elems@;
    let mut items: Vec<Item> = Vec::new();
    let mut i: usize = 0;
    while i < elems.len()
        invariant
            orig == elems@,
            i <= orig.len(),
            items@.len() == i,
            forall|j: int|
                0 <= j < i ==> item_of(orig[j]) == Some(#[trigger] items@[j]@) && item_wf(
                    items@[j]@,
                ),
        decreases orig.len() - i,
    {
        let v = clone_value(&elems[i]);
        match Item::from_value(v) {
            Some(it) => {
                items.push(it);
            },
            None => {
                assert(item_of(orig[i as int]) is None);
                assert(!all_items(orig));
                return None;
            },
        }
        i = i + 1;
    }
    proof {
        assert(all_items(orig)) by {
            assert forall|j: int| 0 <= j < orig.len() implies (#[trigger] item_of(orig[j])) is Some by {
                assert(item_of(orig[j]) == Some(items@[j]@));
            }
        }
        assert(items@.map_values(|it: Item| it@) =~= orig.map_values(
            |e: serde_json::Value| item_of(e)->Some_0,
        ));
    }
    Some(items)
}

} // verus!
