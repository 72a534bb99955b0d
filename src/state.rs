//! The state of a session: the discovered packages and the settings, with
//! the commands that change them and the decision of what to write back.
use vstd::prelude::*;
use crate::manifest::{item_wf, manifest_wf, AddonsCfg, Item, ItemModel, ManifestModel};
use crate::settings::SettingsCfg;

verus! {

/// The packages found at startup and the loaded settings.
pub struct AppState {
    pub vss: Vec<AddonsCfg>,
    pub settings: SettingsCfg,
}

/// The enabled flags of a package's entries, in order.
pub open spec fn flags_of(c: AddonsCfg) -> Seq<bool> {
    c.addons@.map_values(|it: Item| it.enabled)
}

/// Whether two lists of flags differ at a position that both have.
pub open spec fn flags_differ(a: Seq<bool>, b: Seq<bool>) -> bool {
    exists|i: int| 0 <= i < a.len() && i < b.len() && a[i] != b[i]
}

/// An entry with its flag flipped.
pub open spec fn toggled(m: ItemModel) -> ItemModel {
    ItemModel { enabled: !m.enabled, ..m }
}

/// Whether a package must be written: some entry's enabled flag changed.
/// Nothing else of the entries is compared.
pub fn flags_changed(old: &Vec<bool>, new: &Vec<bool>) -> (r: bool)
    ensures
        r == flags_differ(old@, new@),
{
    let mut i: usize = 0;
    while i < old.len() && i < new.len()
        invariant
            i <= old@.len(),
            forall|j: int| 0 <= j < i ==> old@[j] == new@[j],
        decreases old@.len() - i,
    {
        if old[i] != new[i] {
            return true;
        }
        i = i + 1;
    }
    false
}

impl AddonsCfg {
    /// The enabled flags of the entries, in order.
    pub fn enabled_flags(&self) -> (r: Vec<bool>)
        ensures
            r@ == flags_of(*self),
    {
        let mut r: Vec<bool> = Vec::new();
        let mut i: usize = 0;
        while i < self.addons.len()
            invariant
                i <= self.addons@.len(),
                r@ == flags_of(*self).take(i as int),
            decreases self.addons@.len() - i,
        {
            r.push(self.addons[i].enabled);
            proof {
                assert(flags_of(*self).take(i + 1) =~= flags_of(*self).take(i as int).push(
                    self.addons@[i as int].enabled,
                ));
            }
            i = i + 1;
        }
        assert(flags_of(*self).take(i as int) =~= flags_of(*self));
        r
    }

    /// Flips the enabled flag of entry `i`; nothing else changes.
    pub fn toggle(&mut self, i: usize)
        requires
            i < old(self).addons@.len(),
        ensures
            final(self).manifest() == (ManifestModel {
                addons: old(self).manifest().addons.update(
                    i as int,
                    toggled(old(self).manifest().addons[i as int]),
                ),
                ..old(self).manifest()
            }),
            final(self).config_path == old(self).config_path,
            final(self).dirname == old(self).dirname,
            manifest_wf(old(self).manifest()) ==> manifest_wf(final(self).manifest()),
    {
        let ghost before = self.addons@;
        let mut it = self.addons.remove(i);
        it.enabled = !it.enabled;
        self.addons.insert(i, it);
        proof {
            assert(self.addons@ =~= before.update(i as int, it));
            assert(self.manifest().addons =~= before.map_values(|x: Item| x@).update(
                i as int,
                toggled(before[i as int]@),
            ));
            let m0 = before.map_values(|x: Item| x@);
            assert forall|j: int| 0 <= j < m0.len() && item_wf(#[trigger] m0[j]) implies item_wf(
                self.manifest().addons[j],
            ) by {}
        }
    }
}

impl AppState {
    pub fn new(vss: Vec<AddonsCfg>, settings: SettingsCfg) -> (r: AppState)
        ensures
            r.vss == vss,
            r.settings == settings,
    {
        AppState { vss, settings }
    }

    /// Flips entry `item` of package `pkg`, and names the one package to
    /// write back: the toggled one, whose manifest differs from before in
    /// that entry's flag alone.
    pub fn toggle(&mut self, pkg: usize, item: usize) -> (save: Option<usize>)
        requires
            pkg < old(self).vss@.len(),
            item < old(self).vss@[pkg as int].addons@.len(),
        ensures
            save == Some(pkg),
            final(self).vss@.len() == old(self).vss@.len(),
            forall|q: int|
                0 <= q < old(self).vss@.len() && q != pkg ==> #[trigger] final(self).vss@[q]
                    == old(self).vss@[q],
            final(self).vss@[pkg as int].manifest() == (ManifestModel {
                addons: old(self).vss@[pkg as int].manifest().addons.update(
                    item as int,
                    toggled(old(self).vss@[pkg as int].manifest().addons[item as int]),
                ),
                ..old(self).vss@[pkg as int].manifest()
            }),
            final(self).vss@[pkg as int].config_path == old(self).vss@[pkg as int].config_path,
            final(self).vss@[pkg as int].dirname == old(self).vss@[pkg as int].dirname,
            manifest_wf(old(self).vss@[pkg as int].manifest()) ==> manifest_wf(
                final(self).vss@[pkg as int].manifest(),
            ),
            final(self).settings == old(self).settings,
    {
        let ghost before = self.vss@;
        let mut p = self.vss.remove(pkg);
        let old_flags = p.enabled_flags();
        let ghost untoggled = p;
        p.toggle(item);
        let new_flags = p.enabled_flags();
        proof {
            assert(untoggled.manifest().addons[item as int] == untoggled.addons@[item as int]@);
            assert(p.manifest().addons.len() == untoggled.manifest().addons.len());
            assert(p.manifest().addons[item as int] == p.addons@[item as int]@);
            assert(old_flags@[item as int] != new_flags@[item as int]);
        }
        let changed = flags_changed(&old_flags, &new_flags);
        self.vss.insert(pkg, p);
        proof {
            assert(self.vss@ =~= before.update(pkg as int, p));
        }
        if changed {
            Some(pkg)
        } else {
            None
        }
    }
}

} // verus!
