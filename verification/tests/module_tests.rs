use rlib::host::ErrorChannel;
use rlib::host::ErrorKind;
use rlib::lifecycle::module_def;
use rlib::lifecycle::module_exec;
use rlib::lifecycle::ModuleState;
use rlib::methods::add_numbers;
use rlib::methods::ArgValue;
use rlib::methods::EXPORT_MAX;
use rlib::methods::EXPORT_MIN;
use rlib::tables::method_table;
use rlib::tables::slot_table;
use rlib::tables::CallConvention;
use rlib::tables::InitSlot;
use rlib::tables::MethodEntry;
use rlib::tables::MethodHandler;
use rlib::tables::MethodTableBuilder;
use rlib::tables::MethodTableEntry;
use rlib::tables::SlotPayload;

fn two_ints(a: i64, b: i64) -> Vec<ArgValue> {
    vec![ArgValue::Int(a), ArgValue::Int(b)]
}

#[test]
fn adds_two_and_three() {
    let mut channel = ErrorChannel::new();
    let result = add_numbers(&two_ints(2, 3), &mut channel);
    assert_eq!(result, Some(5));
    assert!(channel.pending.is_none());
}

#[test]
fn adds_to_zero() {
    let mut channel = ErrorChannel::new();
    let result = add_numbers(&two_ints(-7, 7), &mut channel);
    assert_eq!(result, Some(0));
    assert!(channel.pending.is_none());
}

#[test]
fn adds_across_the_export_range() {
    let samples: Vec<(i64, i64)> = vec![
        (EXPORT_MIN, EXPORT_MAX),
        (EXPORT_MAX, EXPORT_MAX),
        (EXPORT_MIN, EXPORT_MIN),
        (1, -1),
        (123456, 654321),
    ];
    for (a, b) in samples {
        let mut channel = ErrorChannel::new();
        let result = add_numbers(&two_ints(a, b), &mut channel);
        assert_eq!(result, Some(a + b));
        assert!(channel.pending.is_none());
    }
}

#[test]
fn rejects_non_integer_argument() {
    let mut channel = ErrorChannel::new();
    let args = vec![ArgValue::NonInt, ArgValue::Int(3)];
    let result = add_numbers(&args, &mut channel);
    assert_eq!(result, None);
    let err = channel.pending.expect("a TypeError must be recorded");
    assert_eq!(err.kind, ErrorKind::TypeError);
}

#[test]
fn rejects_wrong_arity() {
    for args in [
        vec![],
        vec![ArgValue::Int(1)],
        vec![ArgValue::Int(1), ArgValue::Int(2), ArgValue::Int(3)],
        vec![ArgValue::Int(1), ArgValue::Int(2), ArgValue::NonInt, ArgValue::Int(4)],
    ] {
        let mut channel = ErrorChannel::new();
        let result = add_numbers(&args, &mut channel);
        assert_eq!(result, None);
        let err = channel.pending.expect("a TypeError must be recorded");
        assert_eq!(err.kind, ErrorKind::TypeError);
    }
}

#[test]
fn rejects_integers_outside_the_export_range() {
    for args in [
        two_ints(EXPORT_MAX + 1, 0),
        two_ints(0, EXPORT_MIN - 1),
        two_ints(i64::MAX, i64::MIN),
    ] {
        let mut channel = ErrorChannel::new();
        let result = add_numbers(&args, &mut channel);
        assert_eq!(result, None);
        let err = channel.pending.expect("a TypeError must be recorded");
        assert_eq!(err.kind, ErrorKind::TypeError);
    }
}

#[test]
fn repeated_calls_agree() {
    let args = two_ints(41, 1);
    let mut first_channel = ErrorChannel::new();
    let first = add_numbers(&args, &mut first_channel);
    for _ in 0..5 {
        let mut channel = ErrorChannel::new();
        assert_eq!(add_numbers(&args, &mut channel), first);
    }
    assert_eq!(first, Some(42));
}

#[test]
fn exec_succeeds_when_capability_present() {
    let mut state = ModuleState::zeroed();
    let mut channel = ErrorChannel::new();
    let status = module_exec(true, &mut state, &mut channel);
    assert_eq!(status, 0);
    assert!(channel.pending.is_none());
    assert_eq!(state, ModuleState::zeroed());
}

#[test]
fn exec_fails_when_capability_absent() {
    let mut state = ModuleState::zeroed();
    let mut channel = ErrorChannel::new();
    let status = module_exec(false, &mut state, &mut channel);
    assert_eq!(status, 1);
    let err = channel.pending.expect("an ImportError must be recorded");
    assert_eq!(err.kind, ErrorKind::ImportError);
    assert_eq!(err.message, "Could not import datetime C API");
    assert_eq!(state, ModuleState::zeroed());
}

#[test]
fn method_table_lists_add_numbers_then_sentinel() {
    let table = method_table();
    assert_eq!(table.len(), 2);
    match &table[0] {
        MethodTableEntry::Method(entry) => {
            assert_eq!(entry.name, "add_numbers");
            assert_eq!(entry.handler, MethodHandler::AddNumbers);
            assert_eq!(entry.convention, CallConvention::VarArgs);
            assert!(entry.doc.is_none());
        }
        MethodTableEntry::Sentinel => panic!("first row must be a real entry"),
    }
    assert!(matches!(table[1], MethodTableEntry::Sentinel));
}

#[test]
fn finished_tables_end_with_the_sentinel() {
    for real_entries in 0..4usize {
        let mut builder = MethodTableBuilder::new();
        for i in 0..real_entries {
            builder.push(MethodEntry {
                name: format!("f{}", i),
                handler: MethodHandler::AddNumbers,
                convention: CallConvention::VarArgs,
                doc: None,
            });
        }
        let table = builder.finish();
        assert_eq!(table.len(), real_entries + 1);
        assert!(matches!(table[table.len() - 1], MethodTableEntry::Sentinel));
        for row in &table[..real_entries] {
            assert!(matches!(row, MethodTableEntry::Method(_)));
        }
    }
}

#[test]
fn slot_table_holds_one_exec_slot_then_sentinel() {
    let slots = slot_table();
    assert_eq!(slots.len(), 2);
    assert_eq!(slots[0], InitSlot::Exec(SlotPayload::OnExecHandler));
    assert_eq!(slots[1], InitSlot::Sentinel);
}

#[test]
fn descriptor_identity_fields() {
    let def = module_def();
    assert_eq!(def.name, "rlib");
    assert_eq!(def.doc, "Kover rust extension.");
    assert_eq!(def.state_size, 0);
    assert_eq!(def.methods.len(), 2);
    match &def.methods[0] {
        MethodTableEntry::Method(entry) => assert_eq!(entry.name, "add_numbers"),
        MethodTableEntry::Sentinel => panic!("first row must be a real entry"),
    }
    assert!(matches!(def.methods[1], MethodTableEntry::Sentinel));
    assert_eq!(def.slots, vec![InitSlot::Exec(SlotPayload::OnExecHandler), InitSlot::Sentinel]);
}
