//! Telling the kind of an executable file from its first bytes, to know where
//! to look for the game's runtime and how wide its pointers are.

use vstd::prelude::*;

verus! {

/// The kind of an executable file.
#[derive(Clone, Copy, Debug, PartialEq, Eq, Structural)]
pub enum ExecutableKind {
    /// A Windows executable.
    Pe,
    /// A Linux executable.
    Elf,
    /// A macOS executable with 32-bit pointers.
    MachO32,
    /// A macOS executable with 64-bit pointers.
    MachO64,
}

/// `bytes` starts with `magic`.
pub open spec fn spec_has_magic(bytes: Seq<u8>, magic: Seq<u8>) -> bool {
    magic.len() <= bytes.len() && bytes.subrange(0, magic.len() as int) == magic
}

/// The kind that the first bytes of an executable show, if any.
pub open spec fn spec_executable_kind(bytes: Seq<u8>) -> Option<ExecutableKind> {
    if spec_has_magic(bytes, seq![0x4Du8, 0x5Au8]) {
        Some(ExecutableKind::Pe)
    } else if spec_has_magic(bytes, seq![0x7Fu8, 0x45u8, 0x4Cu8, 0x46u8]) {
        Some(ExecutableKind::Elf)
    } else if spec_has_magic(bytes, seq![0xFEu8, 0xEDu8, 0xFAu8, 0xCEu8]) || spec_has_magic(
        bytes,
        seq![0xCEu8, 0xFAu8, 0xEDu8, 0xFEu8],
    ) {
        Some(ExecutableKind::MachO32)
    } else if spec_has_magic(bytes, seq![0xFEu8, 0xEDu8, 0xFAu8, 0xCFu8]) || spec_has_magic(
        bytes,
        seq![0xCFu8, 0xFAu8, 0xEDu8, 0xFEu8],
    ) {
        Some(ExecutableKind::MachO64)
    } else {
        None
    }
}

/// Whether `bytes` starts with `magic`.
fn has_magic(bytes: &[u8], magic: &[u8]) -> (r: bool)
    ensures
        r == spec_has_magic(bytes@, magic@),
{
    if magic.len() > bytes.len() {
        return false;
    }
    let mut i: usize = 0;
    while i < magic.len()
        invariant
            magic@.len() <= bytes@.len(),
            i <= magic@.len(),
            forall|j: int| 0 <= j < i ==> bytes@[j] == magic@[j],
        decreases magic@.len() - i,
    {
        if bytes[i] != magic[i] {
            proof {
                assert(bytes@.subrange(0, magic@.len() as int)[i as int] != magic@[i as int]);
            }
            return false;
        }
        i = i + 1;
    }
    assert(bytes@.subrange(0, magic@.len() as int) =~= magic@);
    true
}

/// The kind of an executable file from its first bytes, if they show one.
pub fn executable_kind(bytes: &[u8]) -> (r: Option<ExecutableKind>)
    ensures
        r == spec_executable_kind(bytes@),
{
    let pe: [u8; 2] = [0x4D, 0x5A];
    let elf: [u8; 4] = [0x7F, 0x45, 0x4C, 0x46];
    let m32a: [u8; 4] = [0xFE, 0xED, 0xFA, 0xCE];
    let m32b: [u8; 4] = [0xCE, 0xFA, 0xED, 0xFE];
    let m64a: [u8; 4] = [0xFE, 0xED, 0xFA, 0xCF];
    let m64b: [u8; 4] = [0xCF, 0xFA, 0xED, 0xFE];
    proof {
        assert(pe@ =~= seq![0x4Du8, 0x5Au8]);
        assert(elf@ =~= seq![0x7Fu8, 0x45u8, 0x4Cu8, 0x46u8]);
        assert(m32a@ =~= seq![0xFEu8, 0xEDu8, 0xFAu8, 0xCEu8]);
        assert(m32b@ =~= seq![0xCEu8, 0xFAu8, 0xEDu8, 0xFEu8]);
        assert(m64a@ =~= seq![0xFEu8, 0xEDu8, 0xFAu8, 0xCFu8]);
        assert(m64b@ =~= seq![0xCFu8, 0xFAu8, 0xEDu8, 0xFEu8]);
    }
    if has_magic(bytes, &pe) {
        Some(ExecutableKind::Pe)
    } else if has_magic(bytes, &elf) {
        Some(ExecutableKind::Elf)
    } else if has_magic(bytes, &m32a) || has_magic(bytes, &m32b) {
        Some(ExecutableKind::MachO32)
    } else if has_magic(bytes, &m64a) || has_magic(bytes, &m64b) {
        Some(ExecutableKind::MachO64)
    } else {
        None
    }
}

} // verus!
