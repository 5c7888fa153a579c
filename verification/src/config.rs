//! Per-package configuration of the bundler: for now, the name that a
//! package's bundle gets in place of the package's own.

use vstd::prelude::*;
use vstd::string::*;
use crate::text::same_text;

verus! {

/// The configuration of one package.
#[derive(Debug, PartialEq, Eq)]
pub struct PackageConfig {
    /// The human-facing name of the package's bundles.
    pub name: Option<String>,
}

/// The view of an optional owned text.
pub open spec fn name_view(name: Option<String>) -> Option<Seq<char>> {
    match name {
        Some(n) => Some(n@),
        None => None,
    }
}

impl View for PackageConfig {
    type V = Option<Seq<char>>;

    open spec fn view(&self) -> Option<Seq<char>> {
        name_view(self.name)
    }
}

/// A configuration as plain values: package names with their bundle names.
pub type ConfigView = Seq<(Seq<char>, Option<Seq<char>>)>;

/// Whether no package occurs twice.
pub open spec fn distinct_packages(m: ConfigView) -> bool {
    forall|i: int, j: int| 0 <= i < j < m.len() ==> (#[trigger] m[i]).0 != (#[trigger] m[j]).0
}

/// The position, at or after `i`, of the entry of `package`.
pub open spec fn position(m: ConfigView, package: Seq<char>, i: int) -> Option<int>
    decreases m.len() - i,
{
    if i >= m.len() {
        None
    } else if m[i].0 == package {
        Some(i)
    } else {
        position(m, package, i + 1)
    }
}

/// The configuration of `package`, if it has an entry.
pub open spec fn lookup(m: ConfigView, package: Seq<char>) -> Option<Option<Seq<char>>> {
    match position(m, package, 0) {
        Some(k) => Some(m[k].1),
        None => None,
    }
}

/// The configuration with the entry of `package` set to `name`: replaced
/// in its place where there was one, added at the end otherwise.
pub open spec fn with_entry(
    m: ConfigView,
    package: Seq<char>,
    name: Option<Seq<char>>,
) -> ConfigView {
    match position(m, package, 0) {
        Some(k) => m.update(k, (package, name)),
        None => m.push((package, name)),
    }
}

/// The name of the bundle of `package`: the configured name where the
/// configuration exists, has an entry for the package and the entry gives
/// a name; the package's own name in every other case.
pub open spec fn chosen_name(config: Option<ConfigView>, package: Seq<char>) -> Seq<char> {
    match config {
        Some(m) => match lookup(m, package) {
            Some(Some(name)) => name,
            _ => package,
        },
        None => package,
    }
}

/// The packages of a configuration, in the order of their entries.
pub open spec fn packages_of(m: ConfigView) -> Seq<Seq<char>> {
    m.map_values(|e: (Seq<char>, Option<Seq<char>>)| e.0)
}

/// The views of a list of texts.
pub open spec fn texts(v: Seq<String>) -> Seq<Seq<char>> {
    v.map_values(|s: String| s@)
}

/// The position found for a package is that of its first entry; `None`
/// means that it has none.
pub proof fn lemma_position(m: ConfigView, package: Seq<char>, i: int)
    requires
        0 <= i,
    ensures
        match position(m, package, i) {
            Some(k) => i <= k < m.len() && m[k].0 == package && forall|j: int|
                i <= j < k ==> (#[trigger] m[j]).0 != package,
            None => forall|j: int| i <= j < m.len() ==> (#[trigger] m[j]).0 != package,
        },
    decreases m.len() - i,
{
    if i < m.len() && m[i].0 != package {
        lemma_position(m, package, i + 1);
    }
}

/// One entry of a configuration.
struct ConfigEntry {
    package: String,
    config: PackageConfig,
}

/// Additional configuration for creating plugin bundles, by package. No
/// package has more than one entry.
pub struct BundlerConfig {
    entries: Vec<ConfigEntry>,
}

impl View for BundlerConfig {
    type V = ConfigView;

    closed spec fn view(&self) -> ConfigView {
        entries_view(self.entries@)
    }
}

/// The entries as plain values.
spec fn entries_view(entries: Seq<ConfigEntry>) -> ConfigView {
    entries.map_values(|e: ConfigEntry| (e.package@, e.config@))
}

impl BundlerConfig {
    /// What holds of every configuration: no package occurs twice.
    #[verifier::type_invariant]
    spec fn valid(&self) -> bool {
        distinct_packages(entries_view(self.entries@))
    }

    /// Whether no package occurs twice. This holds of every configuration.
    pub open spec fn well_formed(&self) -> bool {
        distinct_packages(self@)
    }

    /// A configuration without entries.
    pub fn new() -> (r: BundlerConfig)
        ensures
            r@ == Seq::<(Seq<char>, Option<Seq<char>>)>::empty(),
            r.well_formed(),
    {
        let r = BundlerConfig { entries: Vec::new() };
        proof {
            assert(r@ =~= Seq::<(Seq<char>, Option<Seq<char>>)>::empty());
        }
        r
    }

    /// The number of entries.
    pub fn len(&self) -> (r: usize)
        ensures
            r == self@.len(),
            self.well_formed(),
    {
        proof {
            use_type_invariant(self);
        }
        self.entries.len()
    }

    /// Finds the entry of `package`.
    fn find(&self, package: &str) -> (r: Option<usize>)
        ensures
            match position(self@, package@, 0) {
                Some(k) => r matches Some(got) && got == k && 0 <= k < self.entries@.len(),
                None => r is None,
            },
    {
        let mut i: usize = 0;
        while i < self.entries.len()
            invariant
                0 <= i <= self.entries@.len(),
                self@.len() == self.entries@.len(),
                position(self@, package@, 0) == position(self@, package@, i as int),
            decreases self.entries@.len() - i,
        {
            if same_text(self.entries[i].package.as_str(), package) {
                return Some(i);
            }
            i += 1;
        }
        None
    }

    /// Sets the configuration of `package`, replacing the one it had.
    pub fn insert(&mut self, package: String, config: PackageConfig)
        ensures
            final(self).well_formed(),
            final(self)@ == with_entry(old(self)@, package@, config@),
    {
        proof {
            use_type_invariant(&*self);
            lemma_position(self@, package@, 0);
        }
        let ghost before = self@;
        let ghost entry = (package@, config@);
        let found = self.find(package.as_str());
        let mut entries: Vec<ConfigEntry> = Vec::new();
        proof {
            assert(entries_view(entries@) =~= Seq::<(Seq<char>, Option<Seq<char>>)>::empty());
        }
        std::mem::swap(&mut entries, &mut self.entries);
        assert(entries_view(entries@) == before);
        match found {
            Some(k) => {
                entries.set(k, ConfigEntry { package, config });
                proof {
                    let after = entries_view(entries@);
                    assert(after =~= before.update(k as int, entry));
                    assert forall|i: int, j: int| 0 <= i < j < after.len() implies (
                    #[trigger] after[i]).0 != (#[trigger] after[j]).0 by {
                        assert(after[i].0 == before[i].0);
                        assert(after[j].0 == before[j].0);
                    }
                }
            },
            None => {
                entries.push(ConfigEntry { package, config });
                proof {
                    let after = entries_view(entries@);
                    assert(after =~= before.push(entry));
                    assert forall|i: int, j: int| 0 <= i < j < after.len() implies (
                    #[trigger] after[i]).0 != (#[trigger] after[j]).0 by {
                        if j < before.len() {
                            assert(after[i].0 == before[i].0);
                            assert(after[j].0 == before[j].0);
                        } else {
                            assert(after[i].0 == before[i].0);
                            assert(before[i].0 != package@);
                        }
                    }
                }
            },
        }
        self.entries = entries;
    }

    /// The configuration of `package`, if it has an entry.
    pub fn get(&self, package: &str) -> (r: Option<&PackageConfig>)
        ensures
            match lookup(self@, package@) {
                Some(name) => r matches Some(config) && config@ == name,
                None => r is None,
            },
    {
        match self.find(package) {
            Some(k) => {
                assert(self@[k as int].1 == self.entries@[k as int].config@);
                Some(&self.entries[k].config)
            },
            None => None,
        }
    }

    /// The packages that have an entry, in the order of their entries.
    pub fn packages(&self) -> (r: Vec<String>)
        ensures
            texts(r@) == packages_of(self@),
    {
        let mut names: Vec<String> = Vec::new();
        let mut i: usize = 0;
        while i < self.entries.len()
            invariant
                0 <= i <= self.entries@.len(),
                self@.len() == self.entries@.len(),
                names@.len() == i,
                forall|j: int| 0 <= j < i ==> (#[trigger] names@[j])@ == self@[j].0,
            decreases self.entries@.len() - i,
        {
            names.push(self.entries[i].package.clone());
            i += 1;
        }
        proof {
            assert(texts(names@) =~= packages_of(self@));
        }
        names
    }
}

/// The view of an optional configuration.
pub open spec fn config_view(config: Option<&BundlerConfig>) -> Option<ConfigView> {
    match config {
        Some(c) => Some(c@),
        None => None,
    }
}

/// The name of the bundle of `package`: the one that the configuration
/// gives it, or else the package's own name.
pub fn bundle_name(config: Option<&BundlerConfig>, package: &str) -> (r: String)
    ensures
        r@ == chosen_name(config_view(config), package@),
{
    match config {
        Some(c) => match c.get(package) {
            Some(found) => match &found.name {
                Some(name) => name.clone(),
                None => String::from_str(package),
            },
            None => String::from_str(package),
        },
        None => String::from_str(package),
    }
}

/// The packages configured, in the order of their entries; none where
/// there is no configuration.
pub fn known_packages(config: Option<&BundlerConfig>) -> (r: Vec<String>)
    ensures
        texts(r@) == match config_view(config) {
            Some(m) => packages_of(m),
            None => Seq::empty(),
        },
{
    match config {
        Some(c) => c.packages(),
        None => {
            let names: Vec<String> = Vec::new();
            proof {
                assert(texts(names@) =~= Seq::<Seq<char>>::empty());
            }
            names
        },
    }
}

} // verus!
