//! Persistent directory memory: what the application remembers across
//! sessions.
//!
//! The store itself lives outside; this is the value it holds — the
//! last-used destination directory, read at session start to seed the
//! default directory, and the paths of the configurations written so
//! far, appended to at each successful finalization (duplicates are
//! allowed and kept).

use vstd::prelude::*;

verus! {

/// What is remembered across sessions.
#[derive(Debug, Clone, PartialEq, Eq)]
pub struct Config {
    pub default_vm_dir: String,
    pub existing_vm_configs: Vec<String>,
}

impl Default for Config {
    /// An empty memory: no remembered directory, no known
    /// configurations.
    fn default() -> (r: Config)
        ensures
            r.default_vm_dir@.len() == 0,
            r.existing_vm_configs.deep_view().len() == 0,
    {
        let r = Config { default_vm_dir: String::new(), existing_vm_configs: Vec::new() };
        proof {
            assert(r.existing_vm_configs.deep_view() =~= Seq::<Seq<char>>::empty());
        }
        r
    }
}

impl Config {
    /// Remembers one more written configuration; appended at the end,
    /// duplicates kept.
    pub fn record_vm_config(&mut self, path: String)
        ensures
            final(self).default_vm_dir == old(self).default_vm_dir,
            final(self).existing_vm_configs.deep_view() == old(
                self,
            ).existing_vm_configs.deep_view().push(path@),
    {
        let ghost prev = self.existing_vm_configs.deep_view();
        self.existing_vm_configs.push(path);
        proof {
            assert(self.existing_vm_configs.deep_view() =~= prev.push(path@));
        }
    }

    /// Remembers the destination directory last used.
    pub fn set_default_vm_dir(&mut self, dir: String)
        ensures
            final(self).default_vm_dir == dir,
            final(self).existing_vm_configs == old(self).existing_vm_configs,
    {
        self.default_vm_dir = dir;
    }
}

} // verus!
