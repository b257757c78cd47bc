//! The module catalogue of the tool installer, and which modules it installs.
use vstd::prelude::*;

verus! {

/// One installable tool, as the catalogue describes it.
#[derive(Debug)]
pub struct ToolModule {
    pub name: String,
    pub description: String,
    pub install_script: String,
    pub dependencies: Vec<String>,
    pub category: String,
    pub enabled: bool,
    pub version: String,
}

/// The installer's catalogue and where it keeps its files.
#[derive(Debug)]
pub struct InstallerConfig {
    pub modules: Vec<ToolModule>,
    pub base_path: String,
    pub log_file: String,
}

/// Why a module cannot be installed.
#[derive(Clone, Copy, Debug, PartialEq, Eq, Structural)]
pub enum InstallError {
    /// No module has the name, or the one that has it is disabled.
    ModuleUnavailable,
}

/// The index of the first module named `name` that satisfies `enabled_only`
/// (every module when it is false, only enabled ones when it is true).
pub open spec fn first_index(
    modules: Seq<ToolModule>,
    name: Seq<char>,
    enabled_only: bool,
) -> Option<int>
    decreases modules.len(),
{
    if modules.len() == 0 {
        None
    } else if modules[0].name@ == name && (modules[0].enabled || !enabled_only) {
        Some(0int)
    } else {
        match first_index(modules.drop_first(), name, enabled_only) {
            Some(i) => Some(i + 1),
            None => None,
        }
    }
}

/// A catalogue of modules, looked up by name.
pub struct ModularInstaller {
    config: InstallerConfig,
}

impl ModularInstaller {
    /// The configuration the installer was made with.
    pub closed spec fn settings(&self) -> InstallerConfig {
        self.config
    }

    /// The modules of the catalogue, in order.
    pub open spec fn modules(&self) -> Seq<ToolModule> {
        self.settings().modules@
    }

    /// An installer over a catalogue that was read and parsed.
    pub fn new(config: InstallerConfig) -> (r: Self)
        ensures
            r.settings() == config,
    {
        ModularInstaller { config }
    }

    /// The configuration the installer was made with.
    pub fn config(&self) -> (r: &InstallerConfig)
        ensures
            *r == self.settings(),
    {
        &self.config
    }

    /// The first module named `name` that satisfies `enabled_only`.
    fn find(&self, name: &str, enabled_only: bool) -> (r: Option<&ToolModule>)
        ensures
            r is None <==> first_index(self.modules(), name@, enabled_only) is None,
            r is Some ==> *r->0 == self.modules()[first_index(self.modules(), name@, enabled_only)->0],
    {
        let wanted = name.to_string();
        let modules = &self.config.modules;
        let mut i: usize = 0;
        assert(self.modules().subrange(0, modules@.len() as int) == self.modules());
        while i < modules.len()
            invariant
                wanted@ == name@,
                i <= modules.len(),
                modules@ == self.modules(),
                first_index(self.modules(), name@, enabled_only) == match first_index(
                    self.modules().subrange(i as int, modules@.len() as int),
                    name@,
                    enabled_only,
                ) {
                    Some(k) => Some(k + i),
                    None => None::<int>,
                },
            decreases modules.len() - i,
        {
            let rest = Ghost(self.modules().subrange(i as int, modules@.len() as int));
            assert(rest@.drop_first() == self.modules().subrange(i + 1, modules@.len() as int));
            assert(rest@[0] == modules@[i as int]);
            if modules[i].name == wanted && (modules[i].enabled || !enabled_only) {
                return Some(&modules[i]);
            }
            i = i + 1;
        }
        None
    }

    /// All modules, in catalogue order.
    pub fn list_modules(&self) -> (r: Vec<&ToolModule>)
        ensures
            r@.len() == self.modules().len(),
            forall|i: int| 0 <= i < r@.len() ==> *#[trigger] r@[i] == self.modules()[i],
    {
        let mut r: Vec<&ToolModule> = Vec::new();
        let mut i: usize = 0;
        while i < self.config.modules.len()
            invariant
                i <= self.config.modules.len(),
                r@.len() == i,
                forall|k: int| 0 <= k < i ==> *#[trigger] r@[k] == self.modules()[k],
            decreases self.config.modules.len() - i,
        {
            r.push(&self.config.modules[i]);
            i = i + 1;
        }
        r
    }

    /// The first module named `name`, enabled or not.
    pub fn get_module(&self, name: &str) -> (r: Option<&ToolModule>)
        ensures
            r is None <==> forall|i: int|
                0 <= i < self.modules().len() ==> #[trigger] self.modules()[i].name@ != name@,
            r is Some ==> r->0.name@ == name@ && exists|i: int|
                0 <= i < self.modules().len() && *r->0 == #[trigger] self.modules()[i]
                && forall|j: int| 0 <= j < i ==> #[trigger] self.modules()[j].name@ != name@,
    {
        proof {
            lemma_first_index_spec(self.modules(), name@, false);
        }
        self.find(name, false)
    }

    /// The module that installing `name` installs: the first enabled module
    /// of that name; `ModuleUnavailable` when there is none.
    pub fn module_to_install(&self, name: &str) -> (r: Result<&ToolModule, InstallError>)
        ensures
            r is Err <==> forall|i: int|
                0 <= i < self.modules().len() ==> !(#[trigger] self.modules()[i].name@ == name@
                    && self.modules()[i].enabled),
            r is Err ==> r == Err::<&ToolModule, InstallError>(InstallError::ModuleUnavailable),
            r is Ok ==> r->Ok_0.name@ == name@ && r->Ok_0.enabled && exists|i: int|
                0 <= i < self.modules().len() && *r->Ok_0 == #[trigger] self.modules()[i]
                && forall|j: int|
                0 <= j < i ==> !(#[trigger] self.modules()[j].name@ == name@
                    && self.modules()[j].enabled),
    {
        proof {
            lemma_first_index_spec(self.modules(), name@, true);
        }
        match self.find(name, true) {
            Some(m) => Ok(m),
            None => Err(InstallError::ModuleUnavailable),
        }
    }

    /// The modules that installing everything installs: the enabled ones, in
    /// catalogue order.
    pub fn enabled_modules(&self) -> (r: Vec<&ToolModule>)
        ensures
            r@.map_values(|m: &ToolModule| *m) == self.modules().filter(|m: ToolModule| m.enabled),
    {
        let mut r: Vec<&ToolModule> = Vec::new();
        let mut i: usize = 0;
        while i < self.config.modules.len()
            invariant
                i <= self.config.modules.len(),
                self.config.modules@ == self.modules(),
                r@.map_values(|m: &ToolModule| *m) == self.modules().subrange(0, i as int).filter(
                    |m: ToolModule| m.enabled,
                ),
            decreases self.config.modules.len() - i,
        {
            let ghost prefix = self.modules().subrange(0, i as int);
            assert(self.modules().subrange(0, i + 1) == prefix.push(self.modules()[i as int]));
            reveal(Seq::filter);
            assert(prefix.push(self.modules()[i as int]).drop_last() == prefix);
            if self.config.modules[i].enabled {
                r.push(&self.config.modules[i]);
            }
            i = i + 1;
        }
        assert(self.modules().subrange(0, self.modules().len() as int) == self.modules());
        r
    }
}

/// `first_index` is the first position whose module has the name and, when
/// `enabled_only`, is enabled.
proof fn lemma_first_index_spec(modules: Seq<ToolModule>, name: Seq<char>, enabled_only: bool)
    ensures
        first_index(modules, name, enabled_only) is None <==> forall|i: int|
            0 <= i < modules.len() ==> !(#[trigger] modules[i].name@ == name && (
            modules[i].enabled || !enabled_only)),
        first_index(modules, name, enabled_only) is Some ==> {
            let k = first_index(modules, name, enabled_only)->0;
            &&& 0 <= k < modules.len()
            &&& modules[k].name@ == name
            &&& modules[k].enabled || !enabled_only
            &&& forall|j: int|
                0 <= j < k ==> !(#[trigger] modules[j].name@ == name && (modules[j].enabled
                    || !enabled_only))
        },
    decreases modules.len(),
{
    if modules.len() > 0 {
        let rest = modules.drop_first();
        lemma_first_index_spec(rest, name, enabled_only);
        assert forall|i: int| 0 < i < modules.len() implies modules[i] == rest[i - 1] by {}
        if first_index(rest, name, enabled_only) is None && !(modules[0].name@ == name && (
        modules[0].enabled || !enabled_only)) {
            assert forall|i: int| 0 <= i < modules.len() implies !(#[trigger] modules[i].name@
                == name && (modules[i].enabled || !enabled_only)) by {
                if i > 0 {
                    assert(modules[i] == rest[i - 1]);
                }
            }
        }
        if first_index(rest, name, enabled_only) is Some {
            let k = first_index(rest, name, enabled_only)->0;
            assert(modules[k + 1] == rest[k]);
        }
    }
}

} // verus!
