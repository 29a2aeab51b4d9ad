//! The module's method table and initialization-slot table.
//!
//! The host discovers behaviour by scanning these tables: each is an ordered
//! sequence of entries terminated by an all-zero sentinel, since the host is
//! not told their length. Internally an entry names its handler through an
//! identifier; only at the host boundary is that turned into the flat shape
//! the binary interface expects.

use vstd::prelude::*;

verus! {

/// Identifies the handler a method table entry dispatches to.
#[derive(Clone, Copy, Debug, PartialEq, Eq, Structural)]
pub enum MethodHandler {
    /// The exported "add two numbers" function.
    AddNumbers,
}

/// The calling-convention flags of a method table entry.
#[derive(Clone, Copy, Debug, PartialEq, Eq, Structural)]
pub enum CallConvention {
    /// The handler takes a positional arguments tuple.
    VarArgs,
}

/// One real entry of the method table: the name the host looks up, the
/// handler it dispatches to, its calling convention, and its doc string.
#[derive(Clone, Debug)]
pub struct MethodEntry {
    pub name: String,
    pub handler: MethodHandler,
    pub convention: CallConvention,
    pub doc: Option<String>,
}

/// A row of the method table: a real entry, or the all-zero terminator.
#[derive(Clone, Debug)]
pub enum MethodTableEntry {
    Method(MethodEntry),
    Sentinel,
}

/// The structural invariant of a finished method table: it is nonempty, its
/// final row is the all-zero sentinel, and every row before it is a real
/// entry with a non-empty name.
pub open spec fn method_table_well_formed(t: Seq<MethodTableEntry>) -> bool {
    &&& t.len() >= 1
    &&& t.last() is Sentinel
    &&& forall|i: int|
        0 <= i < t.len() - 1 ==> ((#[trigger] t[i]) matches MethodTableEntry::Method(e)
            && e.name@.len() > 0)
}

/// Builds a method table: real entries are pushed one at a time, and
/// `finish` appends the terminating sentinel, so that a finished table holds
/// the structural invariant however many entries were pushed.
pub struct MethodTableBuilder {
    pub entries: Vec<MethodTableEntry>,
}

impl MethodTableBuilder {
    /// Every row pushed so far is a real entry with a non-empty name.
    pub open spec fn well_formed(self) -> bool {
        forall|i: int|
            0 <= i < self.entries@.len() ==> ((#[trigger] self.entries@[i]) matches MethodTableEntry::Method(e)
                && e.name@.len() > 0)
    }

    /// A builder with no entries yet.
    pub fn new() -> (b: MethodTableBuilder)
        ensures
            b.entries@ == Seq::<MethodTableEntry>::empty(),
            b.well_formed(),
    {
        MethodTableBuilder { entries: Vec::new() }
    }

    /// Append one real entry.
    pub fn push(&mut self, entry: MethodEntry)
        requires
            old(self).well_formed(),
            entry.name@.len() > 0,
        ensures
            final(self).entries@ == old(self).entries@.push(MethodTableEntry::Method(entry)),
            final(self).well_formed(),
    {
        self.entries.push(MethodTableEntry::Method(entry));
    }

    /// Close the table with the all-zero sentinel.
    pub fn finish(self) -> (t: Vec<MethodTableEntry>)
        requires
            self.well_formed(),
        ensures
            t@ == self.entries@.push(MethodTableEntry::Sentinel),
            method_table_well_formed(t@),
    {
        let mut t = self.entries;
        t.push(MethodTableEntry::Sentinel);
        t
    }
}

/// The structural law of the method table: however many real entries precede
/// it, a well-formed table's final row is the all-zero sentinel.
pub proof fn lemma_method_table_ends_with_sentinel(t: Seq<MethodTableEntry>)
    requires
        method_table_well_formed(t),
    ensures
        t.len() >= 1,
        t[t.len() - 1] is Sentinel,
{
}

/// The module's method table: the single exported function `add_numbers`,
/// with the positional-arguments convention and no doc string, followed by
/// the sentinel.
pub fn method_table() -> (t: Vec<MethodTableEntry>)
    ensures
        method_table_well_formed(t@),
        t@.len() == 2,
        t@[0] matches MethodTableEntry::Method(e) && e.name@ == "add_numbers"@
            && e.handler is AddNumbers && e.convention is VarArgs && e.doc is None,
        t@[1] is Sentinel,
{
    let mut builder = MethodTableBuilder::new();
    proof {
        reveal_strlit("add_numbers");
    }
    builder.push(
        MethodEntry {
            name: "add_numbers".to_owned(),
            handler: MethodHandler::AddNumbers,
            convention: CallConvention::VarArgs,
            doc: None,
        },
    );
    builder.finish()
}

/// The payload of a non-sentinel initialization slot.
#[derive(Clone, Copy, Debug, PartialEq, Eq, Structural)]
pub enum SlotPayload {
    /// Designates the on-exec handler the host invokes once the module
    /// object has been allocated.
    OnExecHandler,
}

/// One entry of the initialization-slot table: a slot with its payload, or
/// the all-zero terminator.
#[derive(Clone, Copy, Debug, PartialEq, Eq, Structural)]
pub enum InitSlot {
    Exec(SlotPayload),
    Sentinel,
}

/// The structural invariant of the initialization-slot table: nonempty, its
/// final entry is the all-zero sentinel, and every entry before it is a real
/// slot.
pub open spec fn slot_table_well_formed(t: Seq<InitSlot>) -> bool {
    &&& t.len() >= 1
    &&& t.last() is Sentinel
    &&& forall|i: int| 0 <= i < t.len() - 1 ==> !((#[trigger] t[i]) is Sentinel)
}

/// The module's initialization-slot table: exactly one slot, designating the
/// on-exec handler, then the sentinel.
pub fn slot_table() -> (t: Vec<InitSlot>)
    ensures
        t@ =~= seq![InitSlot::Exec(SlotPayload::OnExecHandler), InitSlot::Sentinel],
        slot_table_well_formed(t@),
{
    let mut t: Vec<InitSlot> = Vec::new();
    t.push(InitSlot::Exec(SlotPayload::OnExecHandler));
    t.push(InitSlot::Sentinel);
    proof {
        assert(t@ =~= seq![InitSlot::Exec(SlotPayload::OnExecHandler), InitSlot::Sentinel]);
    }
    t
}

} // verus!
