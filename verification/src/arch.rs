//! Architecture tags for acquirable images.
//!
//! An architecture is an enumerated tag, parameterized by a machine-type
//! sub-variant. Each architecture has a display label; the default-name
//! derivation in [`crate::name`] normalizes that label.

use vstd::prelude::*;

verus! {

/// Machine sub-variant for the x86_64 architecture.
#[derive(Clone, Copy, Debug, PartialEq, Eq, Hash, Structural)]
pub enum X86_64Machine {
    Standard,
}

/// Machine sub-variant for the AArch64 architecture.
#[derive(Clone, Copy, Debug, PartialEq, Eq, Hash, Structural)]
pub enum AArch64Machine {
    Standard,
}

/// Machine sub-variant for the RISC-V 64 architecture.
#[derive(Clone, Copy, Debug, PartialEq, Eq, Hash, Structural)]
pub enum Riscv64Machine {
    Standard,
}

/// Architecture tag of one acquirable image configuration.
#[derive(Clone, Copy, Debug, PartialEq, Eq, Hash, Structural)]
pub enum Arch {
    X86_64 { machine: X86_64Machine },
    AArch64 { machine: AArch64Machine },
    Riscv64 { machine: Riscv64Machine },
}

impl Arch {
    /// Display label of the architecture, as a sequence of characters.
    pub open spec fn spec_label(self) -> Seq<char> {
        match self {
            Arch::X86_64 { .. } => seq!['x', '8', '6', '_', '6', '4'],
            Arch::AArch64 { .. } => seq!['a', 'a', 'r', 'c', 'h', '6', '4'],
            Arch::Riscv64 { .. } => seq!['r', 'i', 's', 'c', 'v', '6', '4'],
        }
    }

    /// Display label of the architecture.
    pub fn label(&self) -> (r: String)
        ensures
            r@ == self.spec_label(),
    {
        match self {
            Arch::X86_64 { .. } => {
                let s = "x86_64";
                proof {
                    reveal_strlit("x86_64");
                    assert(s@ =~= self.spec_label());
                }
                s.to_owned()
            },
            Arch::AArch64 { .. } => {
                let s = "aarch64";
                proof {
                    reveal_strlit("aarch64");
                    assert(s@ =~= self.spec_label());
                }
                s.to_owned()
            },
            Arch::Riscv64 { .. } => {
                let s = "riscv64";
                proof {
                    reveal_strlit("riscv64");
                    assert(s@ =~= self.spec_label());
                }
                s.to_owned()
            },
        }
    }
}

} // verus!
