use vstd::prelude::*;
use vstd::string::*;

verus! {

/// The version of the registration protocol that the module declares.
pub const MODULE_VERSION: i32 = 1;

/// The plain-value part of the descriptor handed to the host when the module
/// registers itself; the pointer fields (file name, private data, reserved
/// block) are always null.
pub struct ModuleRecord {
    pub version: i32,
    pub flags: i32,
    /// The module's name followed by a single terminating zero byte.
    pub module_name: Vec<u8>,
}

impl ModuleRecord {
    /// The descriptor of a module called `name`; `None` where the name holds a
    /// zero byte, which a null-terminated name cannot carry.
    pub fn new(name: &str) -> (r: Option<ModuleRecord>)
        ensures
            r is None <==> name.spec_bytes().contains(0u8),
            r matches Some(m) ==> m.version == MODULE_VERSION && m.flags == 0
                && m.module_name@ == name.spec_bytes().push(0u8),
    {
        let bytes = name.as_bytes();
        let mut buf: Vec<u8> = Vec::new();
        let mut i: usize = 0;
        while i < bytes.len()
            invariant
                bytes@ == name.spec_bytes(),
                i <= bytes@.len(),
                buf@ == bytes@.subrange(0, i as int),
                forall|j: int| 0 <= j < i ==> bytes@[j] != 0u8,
            decreases bytes@.len() - i,
        {
            if bytes[i] == 0 {
                assert(bytes@[i as int] == 0u8);
                return None;
            }
            buf.push(bytes[i]);
            i = i + 1;
            assert(buf@ =~= bytes@.subrange(0, i as int));
        }
        assert(buf@ =~= bytes@);
        assert(!bytes@.contains(0u8)) by {
            if bytes@.contains(0u8) {
                let j = choose|j: int| 0 <= j < bytes@.len() && bytes@[j] == 0u8;
                assert(bytes@[j] != 0u8);
            }
        }
        buf.push(0u8);
        Some(ModuleRecord { version: MODULE_VERSION, flags: 0, module_name: buf })
    }
}

} // verus!
