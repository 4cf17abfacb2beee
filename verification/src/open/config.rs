//! The cascaded configuration as the opening of a repository reads it: sections in the
//! order in which they were loaded, each tagged with where it came from and how far it
//! is trusted.
use vstd::prelude::*;
use vstd::slice::slice_to_vec;
use crate::bytes::{option_view, strings_view};

verus! {

/// How far a repository, or a section of configuration, is trusted.
#[derive(Clone, Copy, PartialEq, Eq, Debug, Hash, Structural)]
pub enum TrustLevel {
    /// Only a conservative subset of the configuration is honored.
    Reduced,
    /// All configuration is honored, also what may run programs or move the work tree.
    Full,
}

/// Where a section of configuration came from.
#[derive(Clone, Copy, PartialEq, Eq, Debug, Hash, Structural)]
pub enum ConfigSourceKind {
    System,
    Global,
    Local,
    Worktree,
    Env,
    EnvOverride,
    Cli,
    Api,
}

impl ConfigSourceKind {
    /// Whether the process itself supplied the section, rather than a file.
    pub open spec fn process_supplied(self) -> bool {
        self == ConfigSourceKind::Env || self == ConfigSourceKind::EnvOverride || self
            == ConfigSourceKind::Cli || self == ConfigSourceKind::Api
    }

    /// Whether sections of this kind are trusted without a look at their file: those of
    /// the system and of the user.
    pub open spec fn trusted_by_default(self) -> bool {
        self == ConfigSourceKind::System || self == ConfigSourceKind::Global
    }

    /// Whether the process itself supplied the section, rather than a file.
    pub fn is_process_supplied(&self) -> (r: bool)
        ensures
            r == self.process_supplied(),
    {
        match self {
            ConfigSourceKind::Env
            | ConfigSourceKind::EnvOverride
            | ConfigSourceKind::Cli
            | ConfigSourceKind::Api => true,
            _ => false,
        }
    }

    /// Whether sections of this kind are trusted without a look at their file.
    pub fn is_trusted_by_default(&self) -> (r: bool)
        ensures
            r == self.trusted_by_default(),
    {
        match self {
            ConfigSourceKind::System | ConfigSourceKind::Global => true,
            _ => false,
        }
    }
}

/// The configuration values that opening a repository reads.
#[derive(Clone, Copy, PartialEq, Eq, Debug, Hash, Structural)]
pub enum ConfigKey {
    /// `core.worktree`: the path of the work tree.
    CoreWorktree,
    /// `core.bare`: whether the repository has no work tree.
    CoreBare,
    /// `safe.directory`: a directory that may be trusted though another user owns it.
    SafeDirectory,
    /// `core.useReplaceRefs`: whether replacement objects are looked up.
    UseReplaceRefs,
    /// The base under which replacement references live.
    ReplaceRefBase,
}

/// One line of a section: a key, and its value unless the line holds the key alone.
#[derive(Clone, PartialEq, Eq, Debug)]
pub struct ConfigEntry {
    pub key: ConfigKey,
    pub value: Option<Vec<u8>>,
}

/// A section of configuration with its provenance.
#[derive(Clone, PartialEq, Eq, Debug)]
pub struct ConfigSection {
    pub kind: ConfigSourceKind,
    /// The file that the section was read from, if it came from a file.
    pub origin_path: Option<Vec<u8>>,
    pub trust: TrustLevel,
    pub entries: Vec<ConfigEntry>,
}

/// All sections, in the order in which they were loaded: later ones override earlier ones.
#[derive(Clone, PartialEq, Eq, Debug)]
pub struct Config {
    pub sections: Vec<ConfigSection>,
}

/// What a line of a section holds, with the value as bytes.
pub struct ConfigEntryView {
    pub key: ConfigKey,
    pub value: Option<Seq<u8>>,
}

/// What a section holds, with paths and values as bytes.
pub struct ConfigSectionView {
    pub kind: ConfigSourceKind,
    pub origin_path: Option<Seq<u8>>,
    pub trust: TrustLevel,
    pub entries: Seq<ConfigEntryView>,
}

impl View for ConfigEntry {
    type V = ConfigEntryView;

    open spec fn view(&self) -> ConfigEntryView {
        ConfigEntryView {
            key: self.key,
            value: option_view(self.value),
        }
    }
}

impl View for ConfigSection {
    type V = ConfigSectionView;

    open spec fn view(&self) -> ConfigSectionView {
        ConfigSectionView {
            kind: self.kind,
            origin_path: option_view(self.origin_path),
            trust: self.trust,
            entries: self.entries@.map_values(|e: ConfigEntry| e@),
        }
    }
}

impl View for Config {
    type V = Seq<ConfigSectionView>;

    open spec fn view(&self) -> Seq<ConfigSectionView> {
        self.sections@.map_values(|s: ConfigSection| s@)
    }
}

/// A predicate over the provenance of a section, handed to every lookup so that it
/// decides in one place which sections count.
#[derive(Clone, Copy, PartialEq, Eq, Debug, Structural)]
pub struct SectionFilter {
    /// Pass only sections with full trust.
    pub trusted_only: bool,
    /// Pass sections that were read from files.
    pub file_sections: bool,
    /// Pass sections that the process supplied.
    pub process_sections: bool,
}

impl SectionFilter {
    /// Whether the filter passes a section.
    pub open spec fn accepts(self, section: ConfigSectionView) -> bool {
        &&& self.trusted_only ==> section.trust == TrustLevel::Full
        &&& if section.kind.process_supplied() {
            self.process_sections
        } else {
            self.file_sections
        }
    }

    /// The filter that passes exactly the sections with full trust.
    pub fn trusted() -> (r: SectionFilter)
        ensures
            r == (SectionFilter {
                trusted_only: true,
                file_sections: true,
                process_sections: true,
            }),
            forall|s: ConfigSectionView| r.accepts(s) == (s.trust == TrustLevel::Full),
    {
        SectionFilter { trusted_only: true, file_sections: true, process_sections: true }
    }

    /// Whether the filter passes `section`.
    pub fn is_accepted(&self, section: &ConfigSection) -> (r: bool)
        ensures
            r == self.accepts(section@),
    {
        if self.trusted_only && section.trust != TrustLevel::Full {
            return false;
        }
        if section.kind.is_process_supplied() {
            self.process_sections
        } else {
            self.file_sections
        }
    }

    /// For each section of `config`, whether the filter passes it.
    pub fn mask(&self, config: &Config) -> (r: Vec<bool>)
        ensures
            r@.len() == config@.len(),
            forall|i: int| 0 <= i < r@.len() ==> r@[i] == self.accepts(#[trigger] config@[i]),
    {
        let mut r: Vec<bool> = Vec::new();
        let mut i: usize = 0;
        while i < config.sections.len()
            invariant
                i <= config.sections@.len(),
                r@.len() == i,
                forall|j: int| 0 <= j < i ==> r@[j] == self.accepts(#[trigger] config@[j]),
            decreases config.sections@.len() - i,
        {
            r.push(self.is_accepted(&config.sections[i]));
            i += 1;
        }
        r
    }
}

/// The index of the last of the first `n` entries that holds `key`.
pub open spec fn last_entry_below(entries: Seq<ConfigEntryView>, key: ConfigKey, n: int) -> Option<
    int,
>
    decreases n,
{
    if n <= 0 {
        None
    } else if entries[n - 1].key == key {
        Some(n - 1)
    } else {
        last_entry_below(entries, key, n - 1)
    }
}

/// What a section says of `key`: nothing (`None`), the key alone (`Some(None)`), or a
/// value. Where the key occurs more than once the last occurrence counts.
pub open spec fn section_value(section: ConfigSectionView, key: ConfigKey) -> Option<
    Option<Seq<u8>>,
> {
    match last_entry_below(section.entries, key, section.entries.len() as int) {
        Some(i) => Some(section.entries[i].value),
        None => None,
    }
}

/// Whether a section answers a lookup of `key`: it must hold the key, and a value with it
/// where only a value will do.
pub open spec fn answers(section: ConfigSectionView, key: ConfigKey, with_value: bool) -> bool {
    match section_value(section, key) {
        Some(Some(_)) => true,
        Some(None) => !with_value,
        None => false,
    }
}

/// The index of the last of the first `n` sections that is accepted and answers the lookup.
pub open spec fn last_section_below(
    config: Seq<ConfigSectionView>,
    key: ConfigKey,
    accepted: Seq<bool>,
    with_value: bool,
    n: int,
) -> Option<int>
    decreases n,
{
    if n <= 0 {
        None
    } else if accepted[n - 1] && answers(config[n - 1], key, with_value) {
        Some(n - 1)
    } else {
        last_section_below(config, key, accepted, with_value, n - 1)
    }
}

/// The section that decides a single-valued lookup: the last accepted one that answers it.
pub open spec fn deciding_section(
    config: Seq<ConfigSectionView>,
    key: ConfigKey,
    accepted: Seq<bool>,
    with_value: bool,
) -> Option<int> {
    last_section_below(config, key, accepted, with_value, config.len() as int)
}

/// The values that the first `n` entries give to `key`, in order.
pub open spec fn entry_values_below(entries: Seq<ConfigEntryView>, key: ConfigKey, n: int) -> Seq<
    Seq<u8>,
>
    decreases n,
{
    if n <= 0 {
        Seq::empty()
    } else if entries[n - 1].key == key && entries[n - 1].value is Some {
        entry_values_below(entries, key, n - 1).push(entries[n - 1].value.unwrap())
    } else {
        entry_values_below(entries, key, n - 1)
    }
}

/// The values that the accepted ones among the first `n` sections give to `key`, in order.
pub open spec fn values_below(
    config: Seq<ConfigSectionView>,
    key: ConfigKey,
    accepted: Seq<bool>,
    n: int,
) -> Seq<Seq<u8>>
    decreases n,
{
    if n <= 0 {
        Seq::empty()
    } else if accepted[n - 1] {
        values_below(config, key, accepted, n - 1) + entry_values_below(
            config[n - 1].entries,
            key,
            config[n - 1].entries.len() as int,
        )
    } else {
        values_below(config, key, accepted, n - 1)
    }
}

/// All values of a multi-valued key, in the order of the sections and of their lines.
pub open spec fn all_values(
    config: Seq<ConfigSectionView>,
    key: ConfigKey,
    accepted: Seq<bool>,
) -> Seq<
    Seq<u8>,
> {
    values_below(config, key, accepted, config.len() as int)
}

impl ConfigSection {
    /// What the section says of `key`; the last line that holds the key counts.
    pub fn value(&self, key: ConfigKey) -> (r: Option<&ConfigEntry>)
        ensures
            match r {
                Some(entry) => section_value(self@, key) == Some(entry@.value),
                None => section_value(self@, key) is None,
            },
    {
        let mut i: usize = self.entries.len();
        while i > 0
            invariant
                i <= self.entries@.len(),
                last_entry_below(self@.entries, key, self@.entries.len() as int)
                    == last_entry_below(self@.entries, key, i as int),
            decreases i,
        {
            i -= 1;
            if self.entries[i].key == key {
                return Some(&self.entries[i]);
            }
        }
        None
    }

    /// Whether the section answers a lookup of `key`.
    pub fn has(&self, key: ConfigKey, with_value: bool) -> (r: bool)
        ensures
            r == answers(self@, key, with_value),
    {
        match self.value(key) {
            Some(entry) => entry.value.is_some() || !with_value,
            None => false,
        }
    }

    fn push_values(&self, key: ConfigKey, out: &mut Vec<Vec<u8>>)
        ensures
            strings_view(*final(out)) == strings_view(*old(out)) + entry_values_below(
                self@.entries,
                key,
                self@.entries.len() as int,
            ),
    {
        let mut i: usize = 0;
        assert(strings_view(*out) + Seq::<Seq<u8>>::empty() =~= strings_view(*out));
        while i < self.entries.len()
            invariant
                i <= self.entries@.len(),
                strings_view(*out) == strings_view(*old(out)) + entry_values_below(
                    self@.entries,
                    key,
                    i as int,
                ),
            decreases self.entries@.len() - i,
        {
            let entry = &self.entries[i];
            let ghost before = strings_view(*out);
            if entry.key == key {
                match &entry.value {
                    Some(v) => {
                        out.push(slice_to_vec(v.as_slice()));
                        assert(strings_view(*out) =~= before.push(v@));
                        assert(before.push(v@) =~= strings_view(*old(out)) + entry_values_below(
                            self@.entries,
                            key,
                            i + 1,
                        ));
                    },
                    None => {},
                }
            }
            i += 1;
        }
    }
}

impl Config {
    /// The index of the section that decides a single-valued lookup of `key` among the
    /// sections that `accepted` marks.
    pub fn deciding(&self, key: ConfigKey, accepted: &Vec<bool>, with_value: bool) -> (r: Option<
        usize,
    >)
        requires
            accepted@.len() == self@.len(),
        ensures
            match r {
                Some(i) => deciding_section(self@, key, accepted@, with_value) == Some(i as int)
                    && i < self@.len() && accepted@[i as int] && answers(
                    self@[i as int],
                    key,
                    with_value,
                ),
                None => deciding_section(self@, key, accepted@, with_value) is None,
            },
    {
        let mut i: usize = self.sections.len();
        while i > 0
            invariant
                i <= self.sections@.len(),
                accepted@.len() == self@.len(),
                deciding_section(self@, key, accepted@, with_value) == last_section_below(
                    self@,
                    key,
                    accepted@,
                    with_value,
                    i as int,
                ),
            decreases i,
        {
            i -= 1;
            if accepted[i] && self.sections[i].has(key, with_value) {
                return Some(i);
            }
        }
        None
    }

    /// The section that decides a lookup of a value for `key` among the sections that
    /// `accepted` marks, together with that value.
    pub fn deciding_value(&self, key: ConfigKey, accepted: &Vec<bool>) -> (r: Option<
        (usize, &Vec<u8>),
    >)
        requires
            accepted@.len() == self@.len(),
        ensures
            match r {
                Some((i, value)) => deciding_section(self@, key, accepted@, true) == Some(
                    i as int,
                ) && i < self@.len() && section_value(self@[i as int], key) == Some(
                    Some(value@),
                ),
                None => deciding_section(self@, key, accepted@, true) is None,
            },
    {
        let mut i: usize = self.sections.len();
        while i > 0
            invariant
                i <= self.sections@.len(),
                accepted@.len() == self@.len(),
                deciding_section(self@, key, accepted@, true) == last_section_below(
                    self@,
                    key,
                    accepted@,
                    true,
                    i as int,
                ),
            decreases i,
        {
            i -= 1;
            if accepted[i] {
                match self.sections[i].value(key) {
                    Some(entry) => match &entry.value {
                        Some(value) => {
                            return Some((i, value));
                        },
                        None => {},
                    },
                    None => {},
                }
            }
        }
        None
    }

    /// What the section that decides a lookup of `key` says of it, among the sections
    /// that `accepted` marks: its value, or `None` where it holds the key alone. A key
    /// that no such section holds gives nothing.
    pub fn deciding_entry(&self, key: ConfigKey, accepted: &Vec<bool>) -> (r: Option<
        Option<&Vec<u8>>,
    >)
        requires
            accepted@.len() == self@.len(),
        ensures
            match r {
                Some(value) => match deciding_section(self@, key, accepted@, false) {
                    Some(i) => section_value(self@[i], key) == Some(
                        match value {
                            Some(v) => Some(v@),
                            None => None,
                        },
                    ),
                    None => false,
                },
                None => deciding_section(self@, key, accepted@, false) is None,
            },
    {
        let mut i: usize = self.sections.len();
        while i > 0
            invariant
                i <= self.sections@.len(),
                accepted@.len() == self@.len(),
                deciding_section(self@, key, accepted@, false) == last_section_below(
                    self@,
                    key,
                    accepted@,
                    false,
                    i as int,
                ),
            decreases i,
        {
            i -= 1;
            if accepted[i] {
                match self.sections[i].value(key) {
                    Some(entry) => {
                        return Some(
                            match &entry.value {
                                Some(value) => Some(value),
                                None => None,
                            },
                        );
                    },
                    None => {},
                }
            }
        }
        None
    }

    /// All values of a multi-valued key among the sections that `accepted` marks.
    pub fn values(&self, key: ConfigKey, accepted: &Vec<bool>) -> (r: Vec<Vec<u8>>)
        requires
            accepted@.len() == self@.len(),
        ensures
            strings_view(r) == all_values(self@, key, accepted@),
    {
        let mut out: Vec<Vec<u8>> = Vec::new();
        let mut i: usize = 0;
        assert(strings_view(out) =~= Seq::<Seq<u8>>::empty());
        while i < self.sections.len()
            invariant
                i <= self.sections@.len(),
                accepted@.len() == self@.len(),
                strings_view(out) == values_below(self@, key, accepted@, i as int),
            decreases self.sections@.len() - i,
        {
            if accepted[i] {
                self.sections[i].push_values(key, &mut out);
            }
            i += 1;
        }
        out
    }
}

} // verus!
