//! Discovery of addon packages among the subdirectories of a scan root.
//!
//! The program looks at each subdirectory and reports what it found there;
//! this module decides which of them are packages and reads their manifests.
use vstd::prelude::*;
use crate::manifest::{manifest_of_bytes, manifest_wf, AddonsCfg, ManifestModel};

verus! {

/// The environment variable that may name the directory to scan.
pub const ENV_ADDONS_DIR_PATH: &'static str = "MINIVANEGER_ADDONS_DIR_PATH";

/// The companion executable that a package holds at its root.
pub const ADDON_EXE: &'static str = "vss.exe";

/// The subdirectory of a package that holds its scripts and manifest.
pub const SCRIPTS_DIR: &'static str = "scripts";

/// The manifest's file name inside the scripts directory.
pub const MANIFEST_FILE: &'static str = "ls.json";

/// The directory to scan: the override where it is set, else the directory
/// of the running program.
pub fn scan_root(env_override: Option<String>, exe_dir: String) -> (r: String)
    ensures
        r@ == match env_override {
            Some(p) => p@,
            None => exe_dir@,
        },
{
    match env_override {
        Some(p) => p,
        None => exe_dir,
    }
}

/// What the program found in one subdirectory of the scan root.
pub struct AddonCandidate {
    /// The subdirectory's own name.
    pub dirname: String,
    /// Whether the companion executable is a file at its root.
    pub has_exe: bool,
    /// Whether `scripts` is a directory at its root.
    pub has_scripts: bool,
    /// The canonical path of the manifest file.
    pub manifest_path: String,
    /// The manifest's bytes, where the file could be read.
    pub manifest: Option<Vec<u8>>,
}

/// A package as contracts see it.
pub struct PackageModel {
    pub manifest: ManifestModel,
    pub config_path: Seq<char>,
    pub dirname: Seq<char>,
}

impl AddonsCfg {
    pub open spec fn package(&self) -> PackageModel {
        PackageModel {
            manifest: self.manifest(),
            config_path: self.config_path@,
            dirname: self.dirname@,
        }
    }
}

/// The package that a candidate is, if it is one: it has the executable and
/// the scripts directory, and its manifest could be read and parsed.
pub open spec fn package_of(c: AddonCandidate) -> Option<PackageModel> {
    if c.has_exe && c.has_scripts {
        match c.manifest {
            Some(b) => match manifest_of_bytes(b@) {
                Ok(m) => Some(
                    PackageModel { manifest: m, config_path: c.manifest_path@, dirname: c.dirname@ },
                ),
                Err(_) => None,
            },
            None => None,
        }
    } else {
        None
    }
}

/// The packages among `cs`, in the candidates' order.
pub open spec fn discovered(cs: Seq<AddonCandidate>) -> Seq<PackageModel>
    decreases cs.len(),
{
    if cs.len() == 0 {
        Seq::empty()
    } else {
        match package_of(cs.last()) {
            Some(p) => discovered(cs.drop_last()).push(p),
            None => discovered(cs.drop_last()),
        }
    }
}

/// How many of `cs` are packages.
pub open spec fn count_packages(cs: Seq<AddonCandidate>) -> nat
    decreases cs.len(),
{
    if cs.len() == 0 {
        0
    } else {
        count_packages(cs.drop_last()) + if package_of(cs.last()) is Some {
            1nat
        } else {
            0nat
        }
    }
}

/// Discovery keeps exactly the candidates that are packages: as many
/// packages come out as there are candidates with the executable, the
/// scripts directory and a readable manifest.
pub proof fn lemma_discovery_selectivity(cs: Seq<AddonCandidate>)
    ensures
        discovered(cs).len() == count_packages(cs),
        (forall|i: int| 0 <= i < cs.len() ==> (#[trigger] package_of(cs[i])) is None)
            ==> discovered(cs).len() == 0,
        (forall|i: int| 0 <= i < cs.len() ==> (#[trigger] package_of(cs[i])) is Some)
            ==> discovered(cs).len() == cs.len(),
    decreases cs.len(),
{
    if cs.len() > 0 {
        let init = cs.drop_last();
        lemma_discovery_selectivity(init);
        assert(forall|i: int| 0 <= i < init.len() ==> init[i] == cs[i]);
        assert(cs.last() == cs[cs.len() - 1]);
    }
}

/// Reads the package of one candidate; `None` where it is no package.
pub fn load_addon(c: AddonCandidate) -> (r: Option<AddonsCfg>)
    ensures
        match r {
            Some(cfg) => package_of(c) == Some(cfg.package()),
            None => package_of(c) is None,
        },
        r matches Some(cfg) ==> manifest_wf(cfg.manifest()),
{
    if !c.has_exe || !c.has_scripts {
        return None;
    }
    match c.manifest {
        Some(bytes) => match AddonsCfg::parse(bytes.as_slice(), c.manifest_path, c.dirname) {
            Ok(cfg) => Some(cfg),
            Err(_) => None,
        },
        None => None,
    }
}

/// Reads the packages among the candidates, in their order; a candidate that
/// is no package is skipped and never stops the scan.
pub fn load_addons(cs: Vec<AddonCandidate>) -> (r: Vec<AddonsCfg>)
    ensures
        r@.map_values(|p: AddonsCfg| p.package()) == discovered(cs@),
        r@.len() == count_packages(cs@),
        forall|j: int| 0 <= j < r@.len() ==> manifest_wf(#[trigger] r@[j].manifest()),
{
    let ghost orig = cs@;
    let mut src = cs;
    let mut out: Vec<AddonsCfg> = Vec::new();
    let n: usize = src.len();
    let mut i: usize = 0;
    while src.len() > 0
        invariant
            n == orig.len(),
            i <= orig.len(),
            src@ == orig.subrange(i as int, orig.len() as int),
            out@.map_values(|p: AddonsCfg| p.package()) == discovered(orig.take(i as int)),
            forall|j: int| 0 <= j < out@.len() ==> manifest_wf(#[trigger] out@[j].manifest()),
        decreases src.len(),
    {
        assert(src@.len() == orig.len() - i);
        let c = src.remove(0);
        proof {
            assert(c == orig[i as int]);
            assert(src@ =~= orig.subrange(i + 1, orig.len() as int));
            assert(orig.take(i + 1).drop_last() =~= orig.take(i as int));
            assert(orig.take(i + 1).last() == orig[i as int]);
        }
        let ghost before = out@;
        match load_addon(c) {
            Some(cfg) => {
                out.push(cfg);
                proof {
                    assert(out@.map_values(|p: AddonsCfg| p.package()) =~= before.map_values(
                        |p: AddonsCfg| p.package(),
                    ).push(cfg.package()));
                }
            },
            None => {},
        }
        i = i + 1;
    }
    proof {
        assert(orig.take(i as int) =~= orig);
        lemma_discovery_selectivity(orig);
    }
    out
}

} // verus!
