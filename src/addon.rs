use vstd::prelude::*;

verus! {

/// Which side of a client/server pair an addon is meant for.
#[derive(Clone, Copy, Debug, PartialEq, Eq, Structural)]
pub enum Environment {
    Both,
    Client,
    Server,
}

/// The folder an addon is installed into.
#[derive(Clone, Copy, Debug, PartialEq, Eq, Structural)]
pub enum AddonTarget {
    Mods,
    Plugins,
}

/// Where an addon comes from, with the source-specific reference to it.
#[derive(Clone, Debug)]
pub enum AddonType {
    Url { url: String, filename: Option<String> },
    Modrinth { id: String, version: String },
    Curseforge { id: String, version: String },
    Hangar { id: String, version: String },
    Spigot { id: String, version: String },
}

/// One declared addon.
#[derive(Clone, Debug)]
pub struct Addon {
    pub environment: Option<Environment>,
    pub addon_type: AddonType,
    pub target: AddonTarget,
}

/// The on-disk list of addons, with the legacy `mods` and `plugins` arrays.
#[derive(Clone, Debug)]
pub struct AddonListFile {
    pub addons: Vec<Addon>,
    pub mods: Vec<AddonType>,
    pub plugins: Vec<AddonType>,
}

/// A legacy entry of the given array, as an addon of the implied target.
pub open spec fn legacy_addon(addon_type: AddonType, target: AddonTarget) -> Addon {
    Addon { environment: None, addon_type, target }
}

/// All entries of a legacy array, in order, tagged with the implied target.
pub open spec fn legacy_addons(types: Seq<AddonType>, target: AddonTarget) -> Seq<Addon> {
    types.map_values(|t: AddonType| legacy_addon(t, target))
}

/// The unified list: current entries, then legacy mods, then legacy plugins.
pub open spec fn flattened(f: AddonListFile) -> Seq<Addon> {
    f.addons@ + legacy_addons(f.mods@, AddonTarget::Mods) + legacy_addons(
        f.plugins@,
        AddonTarget::Plugins,
    )
}

/// Moves every entry of `types`, in order, onto the end of `out` as an addon of `target`.
fn append_legacy(out: &mut Vec<Addon>, types: Vec<AddonType>, target: AddonTarget)
    ensures
        final(out)@ == old(out)@ + legacy_addons(types@, target),
{
    let ghost start = out@;
    let ghost all = types@;
    let mut rest = types;
    let total: usize = rest.len();
    let mut taken: usize = 0;
    while rest.len() > 0
        invariant
            all.len() == total,
            taken <= total,
            rest@ == all.skip(taken as int),
            out@ == start + legacy_addons(all.take(taken as int), target),
        decreases rest.len(),
    {
        let addon_type = rest.remove(0);
        out.push(Addon { environment: None, addon_type, target });
        proof {
            assert(all.take(taken as int + 1) == all.take(taken as int).push(all[taken as int]));
            assert(legacy_addons(all.take(taken as int + 1), target) == legacy_addons(
                all.take(taken as int),
                target,
            ).push(legacy_addon(all[taken as int], target)));
            assert(rest@ == all.skip(taken as int + 1));
        }
        taken = taken + 1;
    }
    proof {
        assert(all.take(taken as int) == all);
    }
}

impl AddonListFile {
    /// Merges the legacy arrays into one list of addons, keeping every order.
    pub fn flatten(self) -> (r: Vec<Addon>)
        ensures
            r@ == flattened(self),
    {
        let ghost f = self;
        let mut out = self.addons;
        append_legacy(&mut out, self.mods, AddonTarget::Mods);
        append_legacy(&mut out, self.plugins, AddonTarget::Plugins);
        proof {
            assert(out@ == flattened(f));
        }
        out
    }
}

/// Flattening a list that has already been flattened, with its legacy arrays
/// empty, gives back the same list in the same order.
pub proof fn lemma_flatten_idempotent(f: AddonListFile, g: AddonListFile)
    requires
        g.addons@ == flattened(f),
        g.mods@.len() == 0,
        g.plugins@.len() == 0,
    ensures
        flattened(g) == flattened(f),
{
    assert(legacy_addons(g.mods@, AddonTarget::Mods) =~= Seq::<Addon>::empty());
    assert(legacy_addons(g.plugins@, AddonTarget::Plugins) =~= Seq::<Addon>::empty());
    assert(flattened(g) =~= flattened(f));
}

} // verus!
