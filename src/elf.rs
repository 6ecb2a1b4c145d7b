//! The parts of a protection domain's ELF image that capability seeding reads.
use vstd::prelude::*;
use vstd::string::StringSliceAdditionalSpecFns;
use vstd::utf8::encode_utf8_decode_utf8;

verus! {

/// ELF header flags of the RISC-V target.
#[derive(Debug, Clone, Copy, PartialEq, Eq)]
pub struct ElfFlagsRiscv;

impl ElfFlagsRiscv {
    /// The image was built for pure-capability (CHERI capability mode) execution.
    pub const EF_RISCV_CAP_MODE: u64 = 0x0001_0000u64;
}

/// A loadable segment: where it is mapped and the bytes it holds.
#[derive(Debug)]
pub struct ElfSegment {
    pub virt_addr: u64,
    pub data: Vec<u8>,
}

/// A named symbol of the image's symbol table.
#[derive(Debug)]
pub struct ElfSymbol {
    pub name: String,
    pub value: u64,
    pub size: u64,
}

/// A protection domain image: header flags, entry point, code and data segments
/// in image order, and symbols.
#[derive(Debug)]
pub struct ElfFile {
    pub flags: u64,
    pub entry: u64,
    pub code_segments: Vec<ElfSegment>,
    pub data_segments: Vec<ElfSegment>,
    pub symbols: Vec<ElfSymbol>,
}

/// Whether symbol `i` is the first one of `syms` named `name`.
pub open spec fn is_first_symbol(syms: Seq<ElfSymbol>, name: Seq<char>, i: int) -> bool {
    &&& 0 <= i < syms.len()
    &&& syms[i].name@ == name
    &&& forall|j: int| 0 <= j < i ==> syms[j].name@ != name
}

/// Value and size of the first symbol named `name`, or `None` where there is none.
pub open spec fn symbol_lookup(syms: Seq<ElfSymbol>, name: Seq<char>) -> Option<(u64, u64)> {
    if exists|i: int| is_first_symbol(syms, name, i) {
        let i = choose|i: int| is_first_symbol(syms, name, i);
        Some((syms[i].value, syms[i].size))
    } else {
        None
    }
}

impl ElfFile {
    /// Whether the header marks the image as pure-capability.
    pub open spec fn spec_is_purecap(&self) -> bool {
        self.flags & ElfFlagsRiscv::EF_RISCV_CAP_MODE != 0
    }

    /// Whether the image runs in pure-capability mode (else hybrid).
    pub fn is_purecap(&self) -> (r: bool)
        ensures
            r == self.spec_is_purecap(),
    {
        self.flags & ElfFlagsRiscv::EF_RISCV_CAP_MODE != 0
    }

    /// Looks a symbol up by name: its value and size, from the first entry of that name.
    pub fn find_symbol(&self, name: &str) -> (r: Option<(u64, u64)>)
        ensures
            r == symbol_lookup(self.symbols@, name@),
    {
        let wanted = name.as_bytes();
        let mut i: usize = 0;
        while i < self.symbols.len()
            invariant
                i <= self.symbols@.len(),
                wanted@ == name.spec_bytes(),
                forall|j: int| 0 <= j < i ==> self.symbols@[j].name@ != name@,
            decreases self.symbols@.len() - i,
        {
            let sym = &self.symbols[i];
            if bytes_equal(sym.name.as_str().as_bytes(), wanted) {
                proof {
                    encode_utf8_decode_utf8(sym.name@);
                    encode_utf8_decode_utf8(name@);
                    assert(is_first_symbol(self.symbols@, name@, i as int));
                    let k = choose|k: int| is_first_symbol(self.symbols@, name@, k);
                    assert(k == i as int);
                }
                return Some((sym.value, sym.size));
            }
            i = i + 1;
        }
        None
    }
}

/// Whether two byte strings are equal.
fn bytes_equal(a: &[u8], b: &[u8]) -> (r: bool)
    ensures
        r == (a@ == b@),
{
    if a.len() != b.len() {
        return false;
    }
    let mut i: usize = 0;
    while i < a.len()
        invariant
            i <= a@.len(),
            a@.len() == b@.len(),
            forall|j: int| 0 <= j < i ==> a@[j] == b@[j],
        decreases a@.len() - i,
    {
        if a[i] != b[i] {
            return false;
        }
        i = i + 1;
    }
    assert(a@ =~= b@);
    true
}

} // verus!
