use regor::sys::{
    regor_format_t, regor_memory_access_perf_t, regor_operator_constraints_report_t,
    regor_operator_constraints_t, regor_peak_memory_usage_t, regor_perf_report_t,
    raw_tensor_region_t, raw_tensor_type_t, regor_raw_tensor_header_t,
    REGOR_RAW_TENSOR_FLAG_HAS_QUANTIZATION,
};
use regor::text::{c_text, join_strings, push_decimal, push_signed_decimal};
use regor::{
    c_string, check, Compiler, ConstraintsReport, Error, InputFormat, Output, PendingConfig,
    PerfReport,
};

fn name(s: &str) -> Vec<u8> {
    let mut v = s.as_bytes().to_vec();
    v.resize(32, 0);
    v
}

fn peak(s: &str, usage: i64) -> regor_peak_memory_usage_t {
    regor_peak_memory_usage_t { memory_name: name(s), peak_usage: usage, total_access_cycles: usage * 2 }
}

fn raw_report(access: Option<Vec<regor_memory_access_perf_t>>, access_count: i32) -> regor_perf_report_t {
    regor_perf_report_t {
        npu_cycles: 1,
        cpu_cycles: 2,
        total_cycles: 3,
        mac_count: 4,
        cpu_ops: 5,
        npu_ops: 6,
        cascaded_ops: 7,
        cascades: 8,
        original_weights: 9,
        encoded_weights: 10,
        read_only_peak_usage: 11,
        access_count,
        memory: 13,
        num_memories: 14,
        staging_memory: 15,
        peak_usages: vec![peak("Sram", 100), peak("", 0), peak("Dram", 7), peak("OffChipFlash", 1)],
        access,
    }
}

fn access(mem: &str) -> regor_memory_access_perf_t {
    regor_memory_access_perf_t {
        memory_name: name(mem),
        access_type: name("FeatureMap"),
        bytes_read: 1,
        bytes_written: 2,
        access_cycles: 3,
    }
}

#[test]
fn perf_report_reads_every_field() {
    let r = PerfReport::from_raw(&raw_report(Some(vec![access("Sram"), access("Dram")]), 2));
    assert_eq!(
        (r.npu_cycles, r.cpu_cycles, r.total_cycles, r.mac_count, r.cpu_ops, r.npu_ops),
        (1, 2, 3, 4, 5, 6)
    );
    assert_eq!((r.cascaded_ops, r.cascades, r.original_weights, r.encoded_weights), (7, 8, 9, 10));
    assert_eq!(
        (r.read_only_peak_usage, r.access_count, r.memory, r.num_memories, r.staging_memory),
        (11, 2, 13, 14, 15)
    );
    assert_eq!(r.peak_usages.len(), 4);
    assert_eq!(r.peak_usages[0].memory_name, "Sram");
    assert_eq!(r.peak_usages[0].peak_usage, 100);
    assert_eq!(r.peak_usages[0].total_access_cycles, 200);
    assert_eq!(r.peak_usages[1].memory_name, "");
    assert_eq!(r.peak_usages[3].memory_name, "OffChipFlash");
    assert_eq!(r.accesses.len(), 2);
    assert_eq!(r.accesses[1].memory_name, "Dram");
    assert_eq!(r.accesses[1].access_type, "FeatureMap");
    assert_eq!(
        (r.accesses[0].bytes_read, r.accesses[0].bytes_written, r.accesses[0].access_cycles),
        (1, 2, 3)
    );
}

#[test]
fn perf_report_without_accesses() {
    assert!(PerfReport::from_raw(&raw_report(None, 3)).accesses.is_empty());
    assert!(PerfReport::from_raw(&raw_report(Some(vec![access("Sram")]), 0)).accesses.is_empty());
    assert!(PerfReport::from_raw(&raw_report(Some(vec![access("Sram")]), -1)).accesses.is_empty());
}

fn operator(n: &str, used: i32, texts: &[&str]) -> regor_operator_constraints_t {
    let mut constraint: Vec<Vec<u8>> = texts.iter().map(|t| t.as_bytes().iter().copied().chain([0]).collect()).collect();
    constraint.resize(32, vec![0]);
    regor_operator_constraints_t { operator_name: name(n), constraint, constraints: used }
}

#[test]
fn constraints_report_reads_the_used_entries() {
    let raw = regor_operator_constraints_report_t {
        op_constraints: Some(vec![
            operator("CONV_2D", 2, &["stride too large", "dilation unsupported", "ignored"]),
            operator("ADD", -3, &["ignored"]),
        ]),
        operators: 2,
    };
    let r = ConstraintsReport::from_raw(&raw);
    assert_eq!(r.operators.len(), 2);
    assert_eq!(r.operators[0].operator_name, "CONV_2D");
    assert_eq!(r.operators[0].constraints, vec!["stride too large", "dilation unsupported"]);
    assert_eq!(r.operators[1].operator_name, "ADD");
    assert!(r.operators[1].constraints.is_empty());
}

#[test]
fn constraints_report_without_operators() {
    let none = regor_operator_constraints_report_t { op_constraints: None, operators: 4 };
    assert!(ConstraintsReport::from_raw(&none).operators.is_empty());
    let zero = regor_operator_constraints_report_t {
        op_constraints: Some(vec![operator("ADD", 1, &["x"])]),
        operators: 0,
    };
    assert!(ConstraintsReport::from_raw(&zero).operators.is_empty());
}

#[test]
fn status_codes_become_results() {
    assert!(check(0, b"ignored\0").is_ok());
    match check(-7, b"LUT memory not configured\0garbage") {
        Err(Error::RegorError { code, message }) => {
            assert_eq!(code, -7);
            assert_eq!(message, "LUT memory not configured");
        }
        other => panic!("unexpected {other:?}"),
    }
    match check(3, b"") {
        Err(e) => assert_eq!(e.message(), "regor error 3: "),
        Ok(()) => panic!("a non-zero status must fail"),
    }
    assert_eq!(
        check(-2147483648, b"boom\0").unwrap_err().message(),
        "regor error -2147483648: boom"
    );
}

#[test]
fn c_strings_reject_interior_nul() {
    assert_eq!(c_string("EthosU55").unwrap(), b"EthosU55".to_vec());
    match c_string("ab\0cd\0") {
        Err(Error::NulError { position, bytes }) => {
            assert_eq!(position, 2);
            assert_eq!(bytes, b"ab\0cd\0".to_vec());
        }
        other => panic!("unexpected {other:?}"),
    }
    assert_eq!(
        c_string("\0").unwrap_err().message(),
        "interior NUL byte: nul byte found in provided data at position: 0"
    );
}

#[test]
fn c_text_stops_at_the_first_nul_and_replaces_invalid_bytes() {
    assert_eq!(c_text(b"abc\0def"), "abc");
    assert_eq!(c_text(b"no terminator"), "no terminator");
    assert_eq!(c_text(b"\0"), "");
    assert_eq!(c_text(b""), "");
    assert_eq!(c_text(&[0x61, 0xff, 0x62, 0]), "a\u{fffd}b");
    assert_eq!(c_text("héllo\0".as_bytes()), "héllo");
}

#[test]
fn decimal_rendering() {
    let mut s = String::new();
    push_decimal(&mut s, 0);
    s.push(' ');
    push_decimal(&mut s, 2097152);
    s.push(' ');
    push_decimal(&mut s, u64::MAX);
    s.push(' ');
    push_signed_decimal(&mut s, i64::MIN);
    s.push(' ');
    push_signed_decimal(&mut s, -5);
    assert_eq!(s, "0 2097152 18446744073709551615 -9223372036854775808 -5");
}

#[test]
fn joining_lists() {
    let parts = vec!["a".to_string(), String::new(), "c".to_string()];
    assert_eq!(join_strings(&parts, ", "), "a, , c");
    assert_eq!(join_strings(&Vec::new(), "|"), "");
    assert_eq!(join_strings(&vec!["only".to_string()], "|"), "only");
}

#[test]
fn configuration_is_buffered_and_handed_over_in_order() {
    let mut c = Compiler::with_context(5);
    assert_eq!(c.raw_context(), 5);
    assert!(c.next_pending().is_none());
    c.compiler_options("[scheduler]\n").unwrap();
    c.set_system_config("first").unwrap();
    c.system_config("[architecture]\nmacs=256\n").unwrap();
    c.set_options("[compiler]\n").unwrap();
    match c.next_pending() {
        Some(PendingConfig::SystemConfig(s)) => assert_eq!(s, "[architecture]\nmacs=256\n"),
        other => panic!("unexpected {other:?}"),
    }
    match c.next_pending() {
        Some(PendingConfig::CompilerOptions(s)) => assert_eq!(s, "[compiler]\n"),
        other => panic!("unexpected {other:?}"),
    }
    assert!(c.next_pending().is_none());
    assert_eq!(c.raw_context(), 5);
}

#[test]
fn output_holds_the_compiled_bytes() {
    let o = Output::new(vec![1, 2, 3]);
    assert_eq!(o.len(), 3);
    assert!(!o.is_empty());
    assert_eq!(o.as_bytes(), &[1, 2, 3]);
    assert_eq!(o.as_ref(), &[1, 2, 3]);
    assert_eq!(o.into_bytes(), vec![1, 2, 3]);
    assert!(Output::new(Vec::new()).is_empty());
}

#[test]
fn c_interface_numbers() {
    assert_eq!(InputFormat::GraphApi.to_ffi(), regor_format_t::REGOR_INPUTFORMAT_GRAPHAPI);
    assert_eq!(InputFormat::TfLite.to_ffi().value(), 1);
    assert_eq!(InputFormat::Tosa.to_ffi().value(), 2);
    assert_eq!(raw_tensor_type_t::RAW_TENSOR_TYPE_VARIABLE.value(), 6);
    assert_eq!(raw_tensor_region_t::RAW_TENSOR_REGION_SCRATCH_FAST.value(), 2);
}

#[test]
fn c_string_refuses_a_nul_character_in_the_middle() {
    match c_string("a\0b") {
        Err(Error::NulError { position, bytes }) => {
            assert_eq!(position, 1);
            assert_eq!(bytes, b"a\0b".to_vec());
        }
        other => panic!("expected a NUL error, got {:?}", other),
    }
    assert_eq!(c_string("é").unwrap(), "é".as_bytes().to_vec());
}

#[test]
fn raw_tensor_header_holds_its_fields() {
    let h = regor_raw_tensor_header_t {
        tensor_type: raw_tensor_type_t::RAW_TENSOR_TYPE_INPUT,
        region: raw_tensor_region_t::RAW_TENSOR_REGION_SCRATCH,
        flags: REGOR_RAW_TENSOR_FLAG_HAS_QUANTIZATION,
        offset: 64,
        size: 1024,
    };
    let copy = h;
    assert_eq!(copy.tensor_type, raw_tensor_type_t::RAW_TENSOR_TYPE_INPUT);
    assert_eq!((copy.offset, copy.size), (h.offset, h.size));
    assert_eq!(copy.flags & REGOR_RAW_TENSOR_FLAG_HAS_QUANTIZATION, 1);
    assert_eq!(copy.region.value(), 1);
}
