//! The module lifecycle: the descriptor the host reads at import time, the
//! per-instance private state block, and the on-exec handler's decision.
//!
//! The descriptor is constructed once, read by the host exactly once during
//! import, and never mutated afterwards. The on-exec handler is invoked by
//! the host once the module object has been allocated; it is the sole
//! failure path of the whole module.

use vstd::prelude::*;

use crate::host::ErrorChannel;
use crate::host::ErrorKind;
use crate::tables::InitSlot;
use crate::tables::MethodTableEntry;
use crate::tables::SlotPayload;
use crate::tables::method_table;
use crate::tables::method_table_well_formed;
use crate::tables::slot_table;
use crate::tables::slot_table_well_formed;

verus! {

/// The module's private state block. The host allocates one zero-initialized
/// block of this shape per module instance and only lends it out; it
/// currently has no fields — room reserved to grow, nothing more.
#[derive(Clone, Copy, Debug, PartialEq, Eq, Structural)]
pub struct ModuleState {}

impl ModuleState {
    /// The zero-initialized shape in which the host hands the block over.
    pub fn zeroed() -> (s: ModuleState)
        ensures
            s == (ModuleState {  }),
    {
        ModuleState {  }
    }
}

/// The module descriptor: the fixed, immutable-after-construction record the
/// host reads to materialize the module object.
pub struct ModuleDef {
    /// The name under which the host registers the module.
    pub name: String,
    /// The module's documentation string.
    pub doc: String,
    /// The size, in bytes, of the private state block the host must
    /// allocate; [`ModuleState`] has no fields, so it is zero.
    pub state_size: usize,
    /// The method table the host scans for exported functions.
    pub methods: Vec<MethodTableEntry>,
    /// The initialization-slot table the host scans for the on-exec handler.
    pub slots: Vec<InitSlot>,
}

/// The descriptor's invariant: a non-empty module name and both tables in
/// their sentinel-terminated well-formed shape.
pub open spec fn module_def_well_formed(d: ModuleDef) -> bool {
    &&& d.name@.len() > 0
    &&& method_table_well_formed(d.methods@)
    &&& slot_table_well_formed(d.slots@)
}

/// The module entry point's work: construct the descriptor the host uses to
/// materialize the module object. Identity fields, the single-entry method
/// table and the single-exec-slot table are pinned exactly.
pub fn module_def() -> (d: ModuleDef)
    ensures
        module_def_well_formed(d),
        d.name@ == "rlib"@,
        d.doc@ == "Kover rust extension."@,
        d.state_size == 0,
        d.methods@.len() == 2,
        d.methods@[0] matches MethodTableEntry::Method(e) && e.name@ == "add_numbers"@
            && e.handler is AddNumbers && e.convention is VarArgs && e.doc is None,
        d.methods@[1] is Sentinel,
        d.slots@ =~= seq![InitSlot::Exec(SlotPayload::OnExecHandler), InitSlot::Sentinel],
{
    proof {
        reveal_strlit("rlib");
    }
    ModuleDef {
        name: "rlib".to_owned(),
        doc: "Kover rust extension.".to_owned(),
        state_size: 0,
        methods: method_table(),
        slots: slot_table(),
    }
}

/// The on-exec handler's decision, invoked once per process after the host
/// has allocated the module object.
///
/// `capability_present` is whether the host's date/time capability import
/// returned a non-null capability table. When it did, the handler signals
/// success (status 0), touches nothing on the error channel, and leaves the
/// private state block exactly as the host handed it over (zero-initialized;
/// there are no fields to set). When it did not, the handler records an
/// import failure with its fixed diagnostic message and signals failure
/// (status 1), which makes the host abort the import.
pub fn module_exec(capability_present: bool, state: &mut ModuleState, channel: &mut ErrorChannel) -> (status: i32)
    ensures
        capability_present ==> status == 0,
        !capability_present ==> status == 1,
        *final(state) == *old(state),
        capability_present ==> *final(channel) == *old(channel),
        !capability_present ==> final(channel).holds_error(
            ErrorKind::ImportError,
            "Could not import datetime C API"@,
        ),
{
    if !capability_present {
        channel.record(ErrorKind::ImportError, "Could not import datetime C API");
        return 1;
    }
    // The state block is retrieved but, having no fields, not populated.
    let _state = &mut *state;
    0
}

} // verus!
