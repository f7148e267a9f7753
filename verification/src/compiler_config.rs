//! The registry of build-tool installations.

use vstd::prelude::*;
use vstd::string::*;
use crate::disk::{append_texts, disks_agree, texts, DiskSnapshot, DiskView};
use crate::ids::{lemma_position_found, lemma_position_of, position_of};
use crate::paths::{join_path, path_join};

verus! {

/// The key under which the compiler of a group project is looked up when
/// its own key is not in the registry.
pub open spec fn fallback_key() -> Seq<char> {
    "12.0"@
}

/// A patch for a compiler configuration: the fields that are given replace
/// those of the configuration.
#[derive(Clone, Debug)]
pub struct PartialCompilerConfiguration {
    pub condition: Option<String>,
    pub product_name: Option<String>,
    pub product_version: Option<usize>,
    pub package_version: Option<usize>,
    pub compiler_version: Option<usize>,
    pub installation_path: Option<String>,
    pub build_arguments: Option<Vec<String>>,
}

/// A named build-tool installation.
#[derive(Debug, PartialEq, Eq)]
pub struct CompilerConfiguration {
    pub condition: String,
    pub product_name: String,
    pub product_version: usize,
    pub package_version: usize,
    pub compiler_version: usize,
    pub installation_path: String,
    pub build_arguments: Vec<String>,
}

/// A compiler configuration as a value.
pub struct CompilerConfigurationView {
    pub condition: Seq<char>,
    pub product_name: Seq<char>,
    pub product_version: usize,
    pub package_version: usize,
    pub compiler_version: usize,
    pub installation_path: Seq<char>,
    pub build_arguments: Seq<Seq<char>>,
}

impl View for CompilerConfiguration {
    type V = CompilerConfigurationView;

    open spec fn view(&self) -> CompilerConfigurationView {
        CompilerConfigurationView {
            condition: self.condition@,
            product_name: self.product_name@,
            product_version: self.product_version,
            package_version: self.package_version,
            compiler_version: self.compiler_version,
            installation_path: self.installation_path@,
            build_arguments: texts(self.build_arguments@),
        }
    }
}

/// What is wrong with one entry of the registry.
#[derive(Clone, Copy, Debug, PartialEq, Eq, Structural)]
pub enum RegistryViolation {
    EmptyKey,
    EmptyCondition,
    EmptyProductName,
    InstallationPathMissing,
    InstallationPathNotDirectory,
    EntryScriptMissing,
}

/// The first violation that a validation found: the place of the entry in
/// the registry, and what is wrong with it.
#[derive(Clone, Copy, Debug, PartialEq, Eq, Structural)]
pub struct RegistryError {
    pub index: usize,
    pub violation: RegistryViolation,
}

impl CompilerConfigurationView {
    /// The configuration with the given fields of the patch put in.
    pub open spec fn updated(
        self,
        condition: Option<Seq<char>>,
        product_name: Option<Seq<char>>,
        product_version: Option<usize>,
        package_version: Option<usize>,
        compiler_version: Option<usize>,
        installation_path: Option<Seq<char>>,
        build_arguments: Option<Seq<Seq<char>>>,
    ) -> CompilerConfigurationView {
        CompilerConfigurationView {
            condition: condition.unwrap_or(self.condition),
            product_name: product_name.unwrap_or(self.product_name),
            product_version: product_version.unwrap_or(self.product_version),
            package_version: package_version.unwrap_or(self.package_version),
            compiler_version: compiler_version.unwrap_or(self.compiler_version),
            installation_path: installation_path.unwrap_or(self.installation_path),
            build_arguments: build_arguments.unwrap_or(self.build_arguments),
        }
    }

    /// The build tool's entry script: `bin/rsvars.bat` under the installation.
    pub open spec fn entry_script(self) -> Seq<char> {
        path_join(path_join(self.installation_path, "bin"@), "rsvars.bat"@)
    }

    /// The formatter: `bin/Formatter.exe` under the installation.
    pub open spec fn formatter(self) -> Seq<char> {
        path_join(path_join(self.installation_path, "bin"@), "Formatter.exe"@)
    }

    /// The paths that validation and the search for a formatter look at:
    /// the installation, its entry script and its formatter.
    pub open spec fn probe_paths(self) -> Seq<Seq<char>> {
        seq![self.installation_path, self.entry_script(), self.formatter()]
    }

    /// The first thing wrong with an entry, if anything is.
    pub open spec fn violation(self, key: Seq<char>, disk: DiskView) -> Option<RegistryViolation> {
        if key.len() == 0 {
            Some(RegistryViolation::EmptyKey)
        } else if self.condition.len() == 0 {
            Some(RegistryViolation::EmptyCondition)
        } else if self.product_name.len() == 0 {
            Some(RegistryViolation::EmptyProductName)
        } else if !disk.has(self.installation_path) {
            Some(RegistryViolation::InstallationPathMissing)
        } else if !disk.is_dir(self.installation_path) {
            Some(RegistryViolation::InstallationPathNotDirectory)
        } else if !disk.has(self.entry_script()) {
            Some(RegistryViolation::EntryScriptMissing)
        } else {
            None
        }
    }
}

/// Checking an installation looks at the disk only through its probe
/// paths: snapshots that agree on them find the same violation and the same
/// formatter.
pub proof fn lemma_check_looks_at_probe_paths(
    compiler: CompilerConfigurationView,
    key: Seq<char>,
    a: DiskView,
    b: DiskView,
)
    requires
        disks_agree(a, b, compiler.probe_paths()),
    ensures
        compiler.violation(key, a) == compiler.violation(key, b),
        a.has(compiler.formatter()) == b.has(compiler.formatter()),
{
}

impl PartialCompilerConfiguration {
    /// The condition that the patch gives.
    pub open spec fn condition_text(&self) -> Option<Seq<char>> {
        match self.condition {
            Some(t) => Some(t@),
            None => None,
        }
    }

    /// The product name that the patch gives.
    pub open spec fn product_name_text(&self) -> Option<Seq<char>> {
        match self.product_name {
            Some(t) => Some(t@),
            None => None,
        }
    }

    /// The installation path that the patch gives.
    pub open spec fn installation_path_text(&self) -> Option<Seq<char>> {
        match self.installation_path {
            Some(t) => Some(t@),
            None => None,
        }
    }

    /// The build arguments that the patch gives.
    pub open spec fn build_argument_texts(&self) -> Option<Seq<Seq<char>>> {
        match self.build_arguments {
            Some(a) => Some(texts(a@)),
            None => None,
        }
    }
}

/// A copy of a list of texts.
pub fn clone_texts(list: &Vec<String>) -> (r: Vec<String>)
    ensures
        texts(r@) == texts(list@),
{
    let mut out: Vec<String> = Vec::new();
    let mut i: usize = 0;
    while i < list.len()
        invariant
            i <= list@.len(),
            out@.len() == i,
            forall|j: int| 0 <= j < i ==> out@[j]@ == list@[j]@,
        decreases list@.len() - i,
    {
        out.push(list[i].clone());
        i += 1;
    }
    out
}

impl Clone for CompilerConfiguration {
    fn clone(&self) -> (r: CompilerConfiguration)
        ensures
            r@ == self@,
    {
        CompilerConfiguration {
            condition: self.condition.clone(),
            product_name: self.product_name.clone(),
            product_version: self.product_version,
            package_version: self.package_version,
            compiler_version: self.compiler_version,
            installation_path: self.installation_path.clone(),
            build_arguments: clone_texts(&self.build_arguments),
        }
    }
}

impl CompilerConfiguration {
    /// Puts the fields that the patch gives into the configuration.
    pub fn update(&mut self, partial: &PartialCompilerConfiguration)
        ensures
            final(self)@ == old(self)@.updated(
                partial.condition_text(),
                partial.product_name_text(),
                partial.product_version,
                partial.package_version,
                partial.compiler_version,
                partial.installation_path_text(),
                partial.build_argument_texts(),
            ),
    {
        if let Some(condition) = &partial.condition {
            self.condition = condition.clone();
        }
        if let Some(product_name) = &partial.product_name {
            self.product_name = product_name.clone();
        }
        if let Some(product_version) = partial.product_version {
            self.product_version = product_version;
        }
        if let Some(package_version) = partial.package_version {
            self.package_version = package_version;
        }
        if let Some(compiler_version) = partial.compiler_version {
            self.compiler_version = compiler_version;
        }
        if let Some(installation_path) = &partial.installation_path {
            self.installation_path = installation_path.clone();
        }
        if let Some(build_arguments) = &partial.build_arguments {
            self.build_arguments = clone_texts(build_arguments);
        }
    }

    /// The paths that have to be looked at on disk before the installation
    /// is checked.
    pub fn probe_paths(&self) -> (r: Vec<String>)
        ensures
            texts(r@) == self@.probe_paths(),
    {
        let mut paths: Vec<String> = Vec::new();
        paths.push(self.installation_path.clone());
        paths.push(self.entry_script_path());
        paths.push(self.formatter_path());
        paths
    }

    /// The path of the build tool's entry script.
    pub fn entry_script_path(&self) -> (r: String)
        ensures
            r@ == self@.entry_script(),
    {
        let bin = join_path(self.installation_path.as_str(), "bin");
        join_path(bin.as_str(), "rsvars.bat")
    }

    /// The path of the formatter.
    pub fn formatter_path(&self) -> (r: String)
        ensures
            r@ == self@.formatter(),
    {
        let bin = join_path(self.installation_path.as_str(), "bin");
        join_path(bin.as_str(), "Formatter.exe")
    }

    /// The first thing wrong with the entry that holds this configuration
    /// under `key`, given what was seen on disk.
    pub fn check(&self, key: &str, disk: &DiskSnapshot) -> (r: Option<RegistryViolation>)
        ensures
            r == self@.violation(key@, disk@),
    {
        if key.is_empty() {
            Some(RegistryViolation::EmptyKey)
        } else if self.condition.as_str().is_empty() {
            Some(RegistryViolation::EmptyCondition)
        } else if self.product_name.as_str().is_empty() {
            Some(RegistryViolation::EmptyProductName)
        } else if !disk.has(self.installation_path.as_str()) {
            Some(RegistryViolation::InstallationPathMissing)
        } else if !disk.is_dir(self.installation_path.as_str()) {
            Some(RegistryViolation::InstallationPathNotDirectory)
        } else {
            let script = self.entry_script_path();
            if !disk.has(script.as_str()) {
                Some(RegistryViolation::EntryScriptMissing)
            } else {
                None
            }
        }
    }
}

/// An entry of the registry as a value: a compiler under its key.
pub struct CompilerEntryView {
    pub key: Seq<char>,
    pub compiler: CompilerConfigurationView,
}

/// The views of a list of compilers.
pub open spec fn compiler_views(s: Seq<CompilerConfiguration>) -> Seq<CompilerConfigurationView> {
    s.map_values(|c: CompilerConfiguration| c@)
}

/// The entries made of keys and compilers side by side.
pub open spec fn paired(keys: Seq<Seq<char>>, compilers: Seq<CompilerConfigurationView>) -> Seq<
    CompilerEntryView,
> {
    Seq::new(keys.len(), |i: int| CompilerEntryView { key: keys[i], compiler: compilers[i] })
}

/// The keys of a list of entries, in order.
pub open spec fn entry_keys(s: Seq<CompilerEntryView>) -> Seq<Seq<char>> {
    s.map_values(|e: CompilerEntryView| e.key)
}
/// The paths that checking the entries looks at, entry by entry.
pub open spec fn entries_probe_paths(entries: Seq<CompilerEntryView>) -> Seq<Seq<char>>
    decreases entries.len(),
{
    if entries.len() == 0 {
        Seq::empty()
    } else {
        entries_probe_paths(entries.drop_last()) + entries.last().compiler.probe_paths()
    }
}

/// Snapshots that agree on the probe paths of all entries agree on those of
/// each entry.
pub proof fn lemma_entries_probe_paths(
    entries: Seq<CompilerEntryView>,
    a: DiskView,
    b: DiskView,
    i: int,
)
    requires
        disks_agree(a, b, entries_probe_paths(entries)),
        0 <= i < entries.len(),
    ensures
        disks_agree(a, b, entries[i].compiler.probe_paths()),
    decreases entries.len(),
{
    crate::disk::lemma_disks_agree_on_parts(
        a,
        b,
        entries_probe_paths(entries.drop_last()),
        entries.last().compiler.probe_paths(),
    );
    if i < entries.len() - 1 {
        lemma_entries_probe_paths(entries.drop_last(), a, b, i);
    }
}

/// Validating a registry and looking for a formatter look at the disk only
/// through the probe paths of the registry: snapshots that agree on them
/// find the same violation and the same formatters.
pub proof fn lemma_registry_looks_at_probe_paths(registry: RegistryView, a: DiskView, b: DiskView)
    requires
        disks_agree(a, b, registry.probe_paths()),
    ensures
        registry.violation(a) == registry.violation(b),
        registry.valid(a) == registry.valid(b),
        forall|i: int| registry.first_formatter_at(a, i) == registry.first_formatter_at(b, i),
{
    assert forall|i: int| 0 <= i < registry.entries.len() implies (
    #[trigger] registry.entries[i]).compiler.violation(registry.entries[i].key, a)
        == registry.entries[i].compiler.violation(registry.entries[i].key, b) && a.has(
        registry.entries[i].compiler.formatter(),
    ) == b.has(registry.entries[i].compiler.formatter()) by {
        lemma_entries_probe_paths(registry.entries, a, b, i);
        lemma_check_looks_at_probe_paths(
            registry.entries[i].compiler,
            registry.entries[i].key,
            a,
            b,
        );
    }
    assert(registry.faulty(a) =~= registry.faulty(b));
}

/// Validation passes exactly on the registries in which nothing is wrong
/// with any entry.
pub proof fn lemma_registry_violation(registry: RegistryView, disk: DiskView)
    ensures
        registry.violation(disk) is None <==> registry.valid(disk),
        registry.violation(disk) matches Some(e) ==> e.index < registry.entries.len(),
{
    let flags = registry.faulty(disk);
    lemma_position_of(flags, true);
    if registry.violation(disk) is None {
        assert forall|i: int| 0 <= i < registry.entries.len() implies (
        #[trigger] registry.entries[i]).compiler.violation(registry.entries[i].key, disk)
            is None by {
            assert(!flags[i]);
        }
    } else {
        let i = position_of(flags, true)->0;
        assert(flags[i]);
    }
}

/// A registry in which no key stands twice behaves as a map: a compiler
/// that is put under a key is the one found there, no other key is
/// touched, and the keys stay distinct.
pub proof fn lemma_insert_is_a_map_update(
    registry: RegistryView,
    key: Seq<char>,
    compiler: CompilerConfigurationView,
    other: Seq<char>,
)
    requires
        registry.keys().no_duplicates(),
    ensures
        registry.insert(key, compiler).keys().no_duplicates(),
        registry.insert(key, compiler).get(key) == Some(compiler),
        other != key ==> registry.insert(key, compiler).get(other) == registry.get(other),
{
    let after = registry.insert(key, compiler);
    let keys = registry.keys();
    if registry.contains_key(key) {
        assert(after.keys() =~= keys);
    } else {
        assert(after.keys() =~= keys.push(key));
        assert(after.keys()[keys.len() as int] == key);
        let i = after.keys().index_of(key);
        assert(i == keys.len());
        if other != key {
            if keys.contains(other) {
                assert(after.keys()[keys.index_of(other)] == other);
            }
        }
    }
}

/// A registry in which no key stands twice behaves as a map: a key that is
/// taken out is gone, no other key is touched, and the keys stay distinct.
pub proof fn lemma_remove_is_a_map_removal(registry: RegistryView, key: Seq<char>, other: Seq<char>)
    requires
        registry.keys().no_duplicates(),
    ensures
        registry.remove(key).keys().no_duplicates(),
        registry.remove(key).get(key) is None,
        other != key ==> registry.remove(key).get(other) == registry.get(other),
{
    let after = registry.remove(key);
    let keys = registry.keys();
    if registry.contains_key(key) {
        let i = registry.index_of(key);
        assert(after.keys() =~= keys.remove(i));
        assert forall|a: int, b: int|
            0 <= a < after.keys().len() && 0 <= b < after.keys().len() && a != b implies after.keys()[a]
            != after.keys()[b] by {
        }
        if other != key {
            if keys.contains(other) {
                let k = keys.index_of(other);
                let k1 = if k < i {
                    k
                } else {
                    k - 1
                };
                assert(after.keys()[k1] == other);
            }
        }
    }
}

/// The registry as a value: its entries in the order in which their keys
/// were first inserted. No key stands twice.
pub struct RegistryView {
    pub entries: Seq<CompilerEntryView>,
}

impl RegistryView {
    /// The keys of the registry, in the order of its entries.
    pub open spec fn keys(self) -> Seq<Seq<char>> {
        entry_keys(self.entries)
    }

    /// Whether the registry has a compiler under the key.
    pub open spec fn contains_key(self, key: Seq<char>) -> bool {
        self.keys().contains(key)
    }

    /// The paths that validation and the search for a formatter look at.
    pub open spec fn probe_paths(self) -> Seq<Seq<char>> {
        entries_probe_paths(self.entries)
    }

    /// The place of the entry with the given key.
    pub open spec fn index_of(self, key: Seq<char>) -> int {
        self.keys().index_of(key)
    }

    /// The compiler under the key.
    pub open spec fn get(self, key: Seq<char>) -> Option<CompilerConfigurationView> {
        if self.contains_key(key) {
            Some(self.entries[self.index_of(key)].compiler)
        } else {
            None
        }
    }

    /// The registry with `compiler` under `key`: in the place of the entry
    /// that had the key, or at the end where none had it.
    pub open spec fn insert(self, key: Seq<char>, compiler: CompilerConfigurationView) -> RegistryView {
        if self.contains_key(key) {
            RegistryView {
                entries: self.entries.update(
                    self.index_of(key),
                    CompilerEntryView { key, compiler },
                ),
            }
        } else {
            RegistryView { entries: self.entries.push(CompilerEntryView { key, compiler }) }
        }
    }

    /// The registry without the entry of the given key.
    pub open spec fn remove(self, key: Seq<char>) -> RegistryView {
        if self.contains_key(key) {
            RegistryView { entries: self.entries.remove(self.index_of(key)) }
        } else {
            self
        }
    }

    /// For each entry, whether something is wrong with it.
    pub open spec fn faulty(self, disk: DiskView) -> Seq<bool> {
        self.entries.map_values(|e: CompilerEntryView| e.compiler.violation(e.key, disk) is Some)
    }

    /// The first violation that a validation finds: the place of the first
    /// entry with something wrong, and the first thing wrong with it.
    pub open spec fn violation(self, disk: DiskView) -> Option<RegistryError> {
        match position_of(self.faulty(disk), true) {
            Some(i) => Some(
                RegistryError {
                    index: i as usize,
                    violation: self.entries[i].compiler.violation(self.entries[i].key, disk)->0,
                },
            ),
            None => None,
        }
    }

    /// Nothing is wrong with any entry.
    pub open spec fn valid(self, disk: DiskView) -> bool {
        forall|i: int|
            0 <= i < self.entries.len() ==> (#[trigger] self.entries[i]).compiler.violation(
                self.entries[i].key,
                disk,
            ) is None
    }

    /// The entry at place `i` is the first whose formatter was seen on disk.
    pub open spec fn first_formatter_at(self, disk: DiskView, i: int) -> bool {
        &&& 0 <= i < self.entries.len()
        &&& disk.has(self.entries[i].compiler.formatter())
        &&& forall|j: int|
            0 <= j < i ==> !disk.has((#[trigger] self.entries[j]).compiler.formatter())
    }
}

/// The keyed collection of compiler configurations: the keys in the order
/// in which they were first inserted, and the compiler of each key at the
/// same place.
#[derive(Debug, PartialEq, Eq)]
pub struct CompilerConfigurations {
    _keys: Vec<String>,
    _compilers: Vec<CompilerConfiguration>,
}

impl View for CompilerConfigurations {
    type V = RegistryView;

    closed spec fn view(&self) -> RegistryView {
        RegistryView { entries: paired(texts(self._keys@), compiler_views(self._compilers@)) }
    }
}

impl CompilerConfigurations {
    #[verifier::type_invariant]
    spec fn keys_are_distinct(&self) -> bool {
        &&& texts(self._keys@).no_duplicates()
        &&& self._keys@.len() == self._compilers@.len()
    }

    /// A registry without entries.
    pub fn empty() -> (r: CompilerConfigurations)
        ensures
            r@.entries.len() == 0,
            r@.keys().no_duplicates(),
    {
        let r = CompilerConfigurations { _keys: Vec::new(), _compilers: Vec::new() };
        r
    }

    /// The registry that was loaded, or the built-in one where none could be.
    pub fn new(loaded: Option<CompilerConfigurations>) -> (r: CompilerConfigurations)
        ensures
            match loaded {
                Some(l) => r == l,
                None => r@ == Self::default_view(),
            },
    {
        match loaded {
            Some(l) => l,
            None => CompilerConfigurations::default(),
        }
    }

    /// What is to be written where the state file does not exist yet: the
    /// built-in registry. An existing file is left alone.
    pub fn initialize(file_exists: bool) -> (r: Option<CompilerConfigurations>)
        ensures
            r is Some <==> !file_exists,
            r matches Some(c) ==> c@ == Self::default_view(),
    {
        if file_exists {
            None
        } else {
            Some(CompilerConfigurations::default())
        }
    }

    /// The built-in registry: one installation under the fallback key.
    pub open spec fn default_view() -> RegistryView {
        RegistryView {
            entries: seq![
                CompilerEntryView {
                    key: fallback_key(),
                    compiler: CompilerConfigurationView {
                        condition: "'$(ProductVersion)'>='23.0'"@,
                        product_name: "Delphi 12"@,
                        product_version: 29,
                        package_version: 290,
                        compiler_version: 36,
                        installation_path: "C:\\Program Files (x86)\\Embarcadero\\Studio\\23.0"@,
                        build_arguments: Seq::empty(),
                    },
                },
            ],
        }
    }

    /// The number of entries. No key stands twice among them.
    pub fn len(&self) -> (r: usize)
        ensures
            r == self@.entries.len(),
            self@.keys().no_duplicates(),
    {
        proof {
            use_type_invariant(self);
        }
        self._keys.len()
    }

    /// The key of the entry at place `index`.
    pub fn key_at(&self, index: usize) -> (r: &String)
        requires
            index < self@.entries.len(),
        ensures
            r@ == self@.entries[index as int].key,
    {
        &self._keys[index]
    }

    /// The compiler of the entry at place `index`.
    pub fn compiler_at(&self, index: usize) -> (r: &CompilerConfiguration)
        requires
            index < self@.entries.len(),
        ensures
            r@ == self@.entries[index as int].compiler,
    {
        proof {
            use_type_invariant(self);
        }
        &self._compilers[index]
    }

    /// Moves the keys and the compilers out and leaves the registry empty.
    fn take_entries(&mut self) -> (r: (Vec<String>, Vec<CompilerConfiguration>))
        ensures
            r.0 == old(self)._keys,
            r.1 == old(self)._compilers,
    {
        let mut taken = CompilerConfigurations::empty();
        core::mem::swap(self, &mut taken);
        (taken._keys, taken._compilers)
    }

    fn find(&self, key: &str) -> (r: Option<usize>)
        ensures
            self@.keys() == texts(self._keys@),
            self@.keys().no_duplicates(),
            self._keys@.len() == self._compilers@.len(),
            match r {
                Some(i) => self@.contains_key(key@) && i == self@.index_of(key@) && i
                    < self@.entries.len(),
                None => !self@.contains_key(key@),
            },
    {
        proof {
            use_type_invariant(self);
        }
        let wanted = String::from_str(key);
        let mut i: usize = 0;
        while i < self._keys.len()
            invariant
                i <= self._keys@.len(),
                wanted@ == key@,
                self@.keys() == texts(self._keys@),
                self@.keys().no_duplicates(),
                self._keys@.len() == self._compilers@.len(),
                forall|j: int| 0 <= j < i ==> self@.keys()[j] != key@,
            decreases self._keys@.len() - i,
        {
            if self._keys[i] == wanted {
                assert(self@.keys()[i as int] == key@);
                return Some(i);
            }
            i += 1;
        }
        None
    }

    /// Replaces the entries of the registry by those of another.
    pub fn overwrite(&mut self, other: CompilerConfigurations)
        ensures
            *final(self) == other,
    {
        *self = other;
    }

    /// Whether the registry has a compiler under the key.
    pub fn contains_key(&self, key: &str) -> (r: bool)
        ensures
            r == self@.contains_key(key@),
    {
        self.find(key).is_some()
    }

    /// The compiler under the key.
    pub fn get(&self, key: &str) -> (r: Option<&CompilerConfiguration>)
        ensures
            match r {
                Some(c) => self@.get(key@) == Some(c@),
                None => self@.get(key@) is None,
            },
    {
        match self.find(key) {
            Some(i) => Some(&self._compilers[i]),
            None => None,
        }
    }

    /// The compiler under the key, to be changed in place.
    pub fn get_mut(&mut self, key: &str) -> (r: Option<&mut CompilerConfiguration>)
        ensures
            match old(self)@.get(key@) {
                Some(c) => r matches Some(m) && m@ == c && final(self)@ == old(self)@.insert(
                    key@,
                    final(m)@,
                ),
                None => r is None && final(self)@ == old(self)@,
            },
    {
        match self.find(key) {
            Some(i) => {
                proof {
                    let keys = texts(self._keys@);
                    let compilers = self._compilers@;
                    assert forall|v: CompilerConfiguration| #[trigger]
                        paired(keys, compiler_views(compilers.update(i as int, v)))
                            == self@.insert(key@, v@).entries by {
                        assert(paired(keys, compiler_views(compilers.update(i as int, v)))
                            =~= self@.insert(key@, v@).entries);
                    }
                }
                Some(&mut self._compilers[i])
            },
            None => None,
        }
    }

    /// Takes the entry of the given key out of the registry.
    pub fn remove(&mut self, key: &str) -> (r: Option<CompilerConfiguration>)
        ensures
            final(self)@ == old(self)@.remove(key@),
            final(self)@.keys().no_duplicates(),
            match r {
                Some(c) => old(self)@.get(key@) == Some(c@),
                None => old(self)@.get(key@) is None,
            },
    {
        match self.find(key) {
            Some(i) => {
                let ghost before = texts(self._keys@);
                let (mut keys, mut compilers) = self.take_entries();
                keys.remove(i);
                let compiler = compilers.remove(i);
                proof {
                    assert(texts(keys@) =~= before.remove(i as int));
                    assert(paired(texts(keys@), compiler_views(compilers@)) =~= old(
                        self,
                    )@.entries.remove(i as int));
                }
                *self = CompilerConfigurations { _keys: keys, _compilers: compilers };
                Some(compiler)
            },
            None => None,
        }
    }

    /// Puts a compiler under a key, in place of the one that was there.
    pub fn insert(&mut self, key: String, compiler: CompilerConfiguration)
        ensures
            final(self)@ == old(self)@.insert(key@, compiler@),
            final(self)@.keys().no_duplicates(),
    {
        let found = self.find(key.as_str());
        let ghost before = texts(self._keys@);
        let ghost entry = CompilerEntryView { key: key@, compiler: compiler@ };
        let (mut keys, mut compilers) = self.take_entries();
        match found {
            Some(i) => {
                compilers.set(i, compiler);
                proof {
                    assert(paired(texts(keys@), compiler_views(compilers@)) =~= old(
                        self,
                    )@.entries.update(i as int, entry));
                }
            },
            None => {
                keys.push(key);
                compilers.push(compiler);
                proof {
                    assert(texts(keys@) =~= before.push(entry.key));
                    assert(paired(texts(keys@), compiler_views(compilers@)) =~= old(
                        self,
                    )@.entries.push(entry));
                }
            },
        }
        *self = CompilerConfigurations { _keys: keys, _compilers: compilers };
    }

    /// The paths that have to be looked at on disk before the registry is
    /// validated or searched for a formatter.
    pub fn probe_paths(&self) -> (r: Vec<String>)
        ensures
            texts(r@) == self@.probe_paths(),
    {
        proof {
            use_type_invariant(self);
        }
        let mut paths: Vec<String> = Vec::new();
        let mut i: usize = 0;
        while i < self._compilers.len()
            invariant
                i <= self._compilers@.len(),
                self._keys@.len() == self._compilers@.len(),
                texts(paths@) == entries_probe_paths(self@.entries.take(i as int)),
            decreases self._compilers@.len() - i,
        {
            proof {
                assert(self@.entries.take(i + 1).drop_last() =~= self@.entries.take(i as int));
            }
            append_texts(&mut paths, self._compilers[i].probe_paths());
            i += 1;
        }
        assert(self@.entries.take(i as int) =~= self@.entries);
        paths
    }

    /// Checks every entry against what was seen on disk, in order, and
    /// reports the first violation.
    pub fn validate(&self, disk: &DiskSnapshot) -> (r: Result<(), RegistryError>)
        ensures
            match r {
                Ok(()) => self@.violation(disk@) is None,
                Err(e) => self@.violation(disk@) == Some(e),
            },
    {
        proof {
            use_type_invariant(self);
        }
        let ghost flags = self@.faulty(disk@);
        let mut i: usize = 0;
        while i < self._compilers.len()
            invariant
                i <= self._compilers@.len(),
                self._keys@.len() == self._compilers@.len(),
                flags == self@.faulty(disk@),
                forall|j: int| 0 <= j < i ==> !flags[j],
            decreases self._compilers@.len() - i,
        {
            assert(self@.entries[i as int].key == self._keys@[i as int]@);
            assert(self@.entries[i as int].compiler == self._compilers@[i as int]@);
            if let Some(violation) = self._compilers[i].check(self._keys[i].as_str(), disk) {
                proof {
                    assert(flags[i as int]);
                    lemma_position_found(flags, true, i as int);
                }
                return Err(RegistryError { index: i, violation });
            }
            i += 1;
        }
        proof {
            lemma_position_of(flags, true);
        }
        Ok(())
    }

    /// The formatter of the first installation that has one on disk.
    pub fn first_available_formatter(&self, disk: &DiskSnapshot) -> (r: Option<String>)
        ensures
            match r {
                Some(path) => exists|i: int| #[trigger]
                    self@.first_formatter_at(disk@, i) && path@
                        == self@.entries[i].compiler.formatter(),
                None => forall|i: int|
                    0 <= i < self@.entries.len() ==> !disk@.has(
                        (#[trigger] self@.entries[i]).compiler.formatter(),
                    ),
            },
    {
        proof {
            use_type_invariant(self);
        }
        let mut i: usize = 0;
        while i < self._compilers.len()
            invariant
                i <= self._compilers@.len(),
                self._keys@.len() == self._compilers@.len(),
                forall|j: int|
                    0 <= j < i ==> !disk@.has((#[trigger] self@.entries[j]).compiler.formatter()),
            decreases self._compilers@.len() - i,
        {
            let path = self._compilers[i].formatter_path();
            if disk.has(path.as_str()) {
                assert(self@.first_formatter_at(disk@, i as int));
                return Some(path);
            }
            i += 1;
        }
        None
    }
}

impl Clone for CompilerConfigurations {
    fn clone(&self) -> (r: CompilerConfigurations)
        ensures
            r@ == self@,
    {
        proof {
            use_type_invariant(self);
        }
        let keys = clone_texts(&self._keys);
        let mut compilers: Vec<CompilerConfiguration> = Vec::new();
        let mut i: usize = 0;
        while i < self._compilers.len()
            invariant
                i <= self._compilers@.len(),
                compilers@.len() == i,
                forall|j: int| 0 <= j < i ==> compilers@[j]@ == self._compilers@[j]@,
            decreases self._compilers@.len() - i,
        {
            compilers.push(self._compilers[i].clone());
            i += 1;
        }
        assert(compiler_views(compilers@) =~= compiler_views(self._compilers@));
        CompilerConfigurations { _keys: keys, _compilers: compilers }
    }
}

impl Default for CompilerConfigurations {
    fn default() -> (r: CompilerConfigurations)
        ensures
            r@ == CompilerConfigurations::default_view(),
    {
        let compiler = CompilerConfiguration {
            condition: String::from_str("'$(ProductVersion)'>='23.0'"),
            product_name: String::from_str("Delphi 12"),
            product_version: 29,
            package_version: 290,
            compiler_version: 36,
            installation_path: String::from_str(
                "C:\\Program Files (x86)\\Embarcadero\\Studio\\23.0",
            ),
            build_arguments: Vec::new(),
        };
        let mut keys: Vec<String> = Vec::new();
        keys.push(String::from_str("12.0"));
        let mut compilers: Vec<CompilerConfiguration> = Vec::new();
        compilers.push(compiler);
        let r = CompilerConfigurations { _keys: keys, _compilers: compilers };
        proof {
            assert(texts(Seq::<String>::empty()) =~= Seq::<Seq<char>>::empty());
            assert(r@.entries =~= CompilerConfigurations::default_view().entries);
        }
        r
    }
}

/// Whether the registry has a compiler under the key.
pub fn compiler_exists(compilers: &CompilerConfigurations, key: &str) -> (r: bool)
    ensures
        r == compilers@.contains_key(key@),
{
    compilers.contains_key(key)
}

} // verus!
