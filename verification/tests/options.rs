use regor::options::{
    AcceleratorConfig, CompilerOptions, CopFormat, OptionsError, Optimise, Optimize,
    OutputFormat, SchedulerFeature, Section, SoftmaxRange, SystemConfig, TensorAllocator,
};
use regor::Architecture;

/// The section a key was written under, for assertions.
fn section_of<'a>(doc: &'a str, key: &str) -> Option<&'a str> {
    let mut current = None;
    for line in doc.lines() {
        let line = line.trim();
        if let Some(name) = line.strip_prefix('[').and_then(|l| l.strip_suffix(']')) {
            current = Some(name);
        } else if line.split('=').next() == Some(key) {
            return current;
        }
    }
    None
}

/// The softmax range value that stands for `v`.
fn range(v: f32) -> SoftmaxRange {
    SoftmaxRange { bits: v.to_bits(), text: v.to_string() }
}

#[test]
fn options_use_regors_own_key_names() {
    let s = CompilerOptions::new()
        .optimize(Optimize::Performance)
        .arena_cache_size(2_097_152)
        .build()
        .unwrap();
    // Vela spells these `--optimise` and `--arena-cache-size`; regor does not.
    assert_eq!(section_of(&s, "optimize"), Some("scheduler"));
    assert_eq!(section_of(&s, "arena_size_limit"), Some("scheduler"));
    assert!(s.contains("optimize=Performance"), "{s}");
    assert!(s.contains("arena_size_limit=2097152"), "{s}");
}

#[test]
fn options_are_grouped_into_the_right_sections() {
    let s = CompilerOptions::new()
        .output_format(OutputFormat::Raw)
        .cop_format(CopFormat::Cop2)
        .tensor_allocator(TensorAllocator::LinearAlloc)
        .ignore_ops(&["CONV_2D"])
        .trace(true)
        .build()
        .unwrap();

    assert_eq!(section_of(&s, "output_format"), Some("compiler"));
    assert_eq!(section_of(&s, "cop_format"), Some("compiler"));
    assert_eq!(section_of(&s, "tensor_allocator"), Some("scheduler"));
    assert_eq!(section_of(&s, "ignore_ops"), Some("graph"));
    assert_eq!(section_of(&s, "trace"), Some("debug"));
}

#[test]
fn output_format_is_spelled_the_way_regor_matches_it() {
    // regor compares these case-sensitively, so `tflite` would be ignored.
    let s = CompilerOptions::new()
        .output_format(OutputFormat::TfLite)
        .build()
        .unwrap();
    assert!(s.contains("output_format=TFLite"), "{s}");

    let s = CompilerOptions::new()
        .output_format(OutputFormat::Raw)
        .build()
        .unwrap();
    assert!(s.contains("output_format=Raw"), "{s}");
}

#[test]
fn disabled_features_are_pipe_separated() {
    // regor's flag lexer accepts `|`, not `,`: a comma makes it reject the
    // whole value.
    let s = CompilerOptions::new()
        .disable_features(SchedulerFeature::cascading() | SchedulerFeature::fwd())
        .build()
        .unwrap();
    assert!(s.contains("disable_feature=Cascading|FWD"), "{s}");
    assert!(!s.contains(','), "{s}");
}

#[test]
fn every_scheduler_feature_has_regors_name() {
    assert_eq!(
        SchedulerFeature::all().to_regor_value(),
        "WeightBuffering|Cascading|Grouping|FWD|Sparsity|FMStaging|ReuseIFM"
    );
}

#[test]
fn no_disabled_features_writes_nothing() {
    let s = CompilerOptions::new().build().unwrap();
    assert!(!s.contains("disable_feature"), "{s}");
}

#[test]
fn ignore_ops_is_comma_separated() {
    // Unlike `disable_feature`, the operator list really is comma separated.
    let s = CompilerOptions::new()
        .ignore_ops(&["CONV_2D", "FULLY_CONNECTED"])
        .build()
        .unwrap();
    assert!(s.contains("ignore_ops=CONV_2D,FULLY_CONNECTED"), "{s}");
}

#[test]
fn unset_options_are_not_written() {
    let s = CompilerOptions::new().build().unwrap();
    for key in [
        "optimize",
        "arena_size_limit",
        "tensor_allocator",
        "output_format",
        "cop_format",
        "cpu_tensor_alignment",
    ] {
        assert!(section_of(&s, key).is_none(), "{key} should be unset:\n{s}");
    }
}

#[test]
fn alignment_validation() {
    for good in [16, 32, 64, 128] {
        assert!(
            CompilerOptions::new()
                .cpu_tensor_alignment(good)
                .build()
                .is_ok(),
            "{good} should be accepted"
        );
    }
    for bad in [0, 8, 15, 24] {
        assert_eq!(
            CompilerOptions::new().cpu_tensor_alignment(bad).build(),
            Err(OptionsError::InvalidAlignment(bad))
        );
    }
}

#[test]
fn softmax_range_validation() {
    assert!(CompilerOptions::new()
        .softmax_int16_neg_exp_range(range(8.0))
        .build()
        .is_ok());
    for bad in [0.0, -1.0, 65535.0, 70000.0] {
        assert!(
            CompilerOptions::new()
                .softmax_int16_neg_exp_range(range(bad))
                .build()
                .is_err(),
            "{bad} should be rejected"
        );
    }
}

#[test]
fn separate_io_requires_cop2() {
    assert_eq!(
        CompilerOptions::new().separate_io_regions(true).build(),
        Err(OptionsError::SeparateIoRequiresCop2)
    );

    assert!(CompilerOptions::new()
        .cop_format(CopFormat::Cop2)
        .separate_io_regions(true)
        .build()
        .is_ok());

    // Explicitly disabling it is fine without COP2.
    assert!(CompilerOptions::new()
        .separate_io_regions(false)
        .build()
        .is_ok());
}

#[test]
fn raw_escape_hatch_targets_a_section() {
    let s = CompilerOptions::new()
        .raw(Section::Scheduler, "some_future_option", "42")
        .build()
        .unwrap();
    assert_eq!(section_of(&s, "some_future_option"), Some("scheduler"));
}

#[test]
fn accelerator_architecture_consistency() {
    assert_eq!(
        AcceleratorConfig::EthosU55_256.architecture(),
        Architecture::EthosU55,
    );
    assert_eq!(
        AcceleratorConfig::EthosU85_2048.architecture(),
        Architecture::EthosU85,
    );
}

#[test]
fn accelerator_macs_match_the_name() {
    for acc in AcceleratorConfig::ALL {
        let suffix = acc.as_str().rsplit('-').next().unwrap();
        assert_eq!(
            suffix.parse::<u32>().unwrap(),
            acc.macs(),
            "{} macs",
            acc.as_str()
        );
    }
}

#[test]
fn accelerator_round_trips_through_its_name() {
    for acc in AcceleratorConfig::ALL.iter() {
        assert_eq!(acc.as_str().parse::<AcceleratorConfig>().unwrap(), *acc);
    }
    assert!("ethos-u99-1".parse::<AcceleratorConfig>().is_err());
}

#[test]
fn dual_core_accelerators_report_two_cores() {
    assert_eq!(AcceleratorConfig::EthosU65_512.cores(), 2);
    assert_eq!(AcceleratorConfig::EthosU85_2048.cores(), 2);
    assert_eq!(AcceleratorConfig::EthosU55_256.cores(), 1);
    assert_eq!(AcceleratorConfig::EthosU85_1024.cores(), 1);
}

#[test]
fn system_config_leads_with_the_architecture() {
    let s = SystemConfig::new(AcceleratorConfig::EthosU55_128)
        .system_config_name("Ethos_U55_Deep_Embedded")
        .memory_mode_name("Sram_Only")
        .vela_ini("[System_Config.Ethos_U55_Deep_Embedded]\ncore_clock=200e6\n")
        .build();

    assert!(s.starts_with("[architecture]\nmacs=128\ncores=1\n"), "{s}");
    assert!(s.contains("[vela]\n"), "{s}");
    assert!(
        s.contains("system_config_name=Ethos_U55_Deep_Embedded"),
        "{s}"
    );
    assert!(s.contains("memory_mode_name=Sram_Only"), "{s}");
    // The vela ini is appended unchanged.
    assert!(s.contains("core_clock=200e6"), "{s}");
}

#[test]
fn system_config_may_leave_the_section_names_out() {
    let s = SystemConfig::new(AcceleratorConfig::EthosU85_512).build();
    assert!(s.contains("macs=512"), "{s}");
    assert!(!s.contains("system_config_name"), "{s}");
    assert!(!s.contains("memory_mode_name"), "{s}");
}

/// A Vela configuration covering the reference Ethos-U55 systems.
const VELA_INI: &str = "; Vela configuration for the reference Ethos-U55 systems\n\
[System_Config.Ethos_U55_High_End_Embedded]\n\
core_clock=500e6\n\
axi0_port=Sram\n\
axi1_port=OffChipFlash\n\
Sram_clock_scale=1.0\n\
OffChipFlash_clock_scale=0.125\n\
\n\
[Memory_Mode.Shared_Sram]\n\
const_mem_area=Axi1\n\
arena_mem_area=Axi0\n\
cache_mem_area=Axi0\n\
\n\
[Memory_Mode.Sram_Only]\n\
const_mem_area=Axi0\n\
arena_mem_area=Axi0\n\
cache_mem_area=Axi0\n";

#[test]
fn every_accelerator_builds_a_usable_system_config() {
    for &accelerator in AcceleratorConfig::ALL.iter() {
        let doc = SystemConfig::new(accelerator).vela_ini(VELA_INI).build();
        assert!(doc.contains(&format!("macs={}", accelerator.macs())));
        assert!(doc.contains(&format!("cores={}", accelerator.cores())));
    }
}

// --- further scenarios of the options documents ---

#[test]
fn unset_options_write_only_the_section_headers() {
    let s = CompilerOptions::new().build().unwrap();
    assert_eq!(s, "[compiler]\n\n[scheduler]\n\n[graph]\n");
}

#[test]
fn default_options_equal_new_options() {
    assert_eq!(
        CompilerOptions::default().build().unwrap(),
        CompilerOptions::new().build().unwrap()
    );
}

#[test]
fn full_document_is_laid_out_section_by_section() {
    let s = CompilerOptions::new()
        .output_format(OutputFormat::TfLite)
        .cop_format(CopFormat::Cop2)
        .enable_debug_db(true)
        .perf_report(false)
        .verbose_high_level_command_stream(true)
        .verbose_register_command_stream(false)
        .optimise(Optimise::Size)
        .arena_cache_size(0)
        .tensor_allocator(TensorAllocator::HillClimb)
        .cpu_tensor_alignment(16)
        .separate_io_regions(true)
        .disable_features(SchedulerFeature::weight_buffering() | SchedulerFeature::reuse_ifm())
        .verbose_schedule(true)
        .verbose_allocation(false)
        .ignore_ops(&["A", "B", "C"])
        .verbose_graph(false)
        .verbose_quantization(true)
        .softmax_int16_neg_exp_range(range(8.5))
        .trace(false)
        .raw(Section::Debug, "k", "v")
        .raw(Section::Compiler, "x", "1")
        .build()
        .unwrap();
    assert_eq!(
        s,
        "[compiler]\noutput_format=TFLite\ncop_format=COP2\nenable_db=true\nperf_report=false\n\
verbose_high_level_command_stream=true\nverbose_register_command_stream=false\nx=1\n\
\n[scheduler]\noptimize=Size\narena_size_limit=0\ntensor_allocator=HillClimb\n\
cpu_tensor_alignment=16\nseparate_io_regions=true\ndisable_feature=WeightBuffering|ReuseIFM\n\
verbose=true\nverbose_allocation=false\n\
\n[graph]\nignore_ops=A,B,C\nverbose=false\nverbose_quantization=true\n\
softmax_int16_neg_exp_range=8.5\n\
\n[debug]\ntrace=false\nk=v\n"
    );
}

#[test]
fn a_debug_entry_alone_opens_the_debug_section() {
    let s = CompilerOptions::new()
        .raw(Section::Debug, "level", "3")
        .build()
        .unwrap();
    assert!(s.ends_with("\n[debug]\nlevel=3\n"), "{s}");
}

#[test]
fn later_settings_replace_earlier_ones() {
    let s = CompilerOptions::new()
        .disable_features(SchedulerFeature::cascading())
        .disable_features(SchedulerFeature::grouping())
        .ignore_ops(&["CONV_2D"])
        .ignore_ops(&["ADD"])
        .optimize(Optimize::Performance)
        .optimize(Optimize::Size)
        .build()
        .unwrap();
    assert!(s.contains("disable_feature=Grouping\n"), "{s}");
    assert!(!s.contains("Cascading"), "{s}");
    assert!(s.contains("ignore_ops=ADD\n"), "{s}");
    assert!(s.contains("optimize=Size\n"), "{s}");
}

#[test]
fn validation_errors_come_in_a_fixed_order() {
    let r = CompilerOptions::new()
        .separate_io_regions(true)
        .softmax_int16_neg_exp_range(range(0.0))
        .cpu_tensor_alignment(3)
        .build();
    assert_eq!(r, Err(OptionsError::InvalidAlignment(3)));
    let r = CompilerOptions::new()
        .separate_io_regions(true)
        .softmax_int16_neg_exp_range(range(0.0))
        .build();
    assert_eq!(r, Err(OptionsError::SoftmaxRangeOutOfRange(range(0.0))));
}

#[test]
fn alignment_accepts_every_power_of_two_from_sixteen() {
    let mut a: u32 = 16;
    loop {
        assert!(CompilerOptions::new().cpu_tensor_alignment(a).build().is_ok(), "{a}");
        assert!(CompilerOptions::new().cpu_tensor_alignment(a + 1).build().is_err(), "{a}");
        if a == 1 << 31 {
            break;
        }
        a <<= 1;
    }
    assert!(CompilerOptions::new().cpu_tensor_alignment(u32::MAX).build().is_err());
}

#[test]
fn softmax_range_edges() {
    for good in [f32::MIN_POSITIVE, 1.0e-40, 65534.996, 1.0] {
        assert!(
            CompilerOptions::new().softmax_int16_neg_exp_range(range(good)).build().is_ok(),
            "{good} should be accepted"
        );
    }
    for bad in [-0.0, f32::NAN, f32::INFINITY, f32::NEG_INFINITY, 65536.0] {
        assert!(
            CompilerOptions::new().softmax_int16_neg_exp_range(range(bad)).build().is_err(),
            "{bad} should be rejected"
        );
    }
}

#[test]
fn options_error_messages() {
    assert_eq!(
        OptionsError::InvalidAlignment(24).message(),
        "cpu_tensor_alignment must be a power of two >= 16, got 24"
    );
    assert_eq!(
        OptionsError::SoftmaxRangeOutOfRange(range(70000.0)).message(),
        "softmax_int16_neg_exp_range must be in (0, 65535), got 70000"
    );
    assert_eq!(
        OptionsError::SeparateIoRequiresCop2.message(),
        "separate_io_regions requires cop_format = COP2"
    );
}

#[test]
fn unknown_accelerator_names_the_input() {
    let e = "ethos-u99-1".parse::<AcceleratorConfig>().unwrap_err();
    assert_eq!(e.0, "ethos-u99-1");
    assert_eq!(e.message(), "unknown accelerator configuration 'ethos-u99-1'");
    assert!("ETHOS-U55-32".parse::<AcceleratorConfig>().is_err());
    assert!("".parse::<AcceleratorConfig>().is_err());
}

#[test]
fn accelerator_names_spell_architecture_and_macs() {
    for acc in AcceleratorConfig::ALL {
        let family = match acc.architecture() {
            Architecture::EthosU55 => "ethos-u55",
            Architecture::EthosU65 => "ethos-u65",
            Architecture::EthosU85 => "ethos-u85",
        };
        assert_eq!(acc.as_str(), format!("{}-{}", family, acc.macs()));
    }
}

#[test]
fn architecture_names_for_regor_create() {
    assert_eq!(Architecture::EthosU55.as_str(), "EthosU55");
    assert_eq!(Architecture::EthosU65.as_str(), "EthosU65");
    assert_eq!(Architecture::EthosU85.as_str(), "EthosU85");
}

#[test]
fn scheduler_feature_sets() {
    let f = SchedulerFeature::cascading() | SchedulerFeature::fwd();
    assert_eq!(f.bits(), 10);
    assert!(f.contains(SchedulerFeature::fwd()));
    assert!(!f.contains(SchedulerFeature::grouping()));
    assert_eq!(f, SchedulerFeature::cascading().union(SchedulerFeature::fwd()));
    assert!(SchedulerFeature::empty().is_empty());
    assert!(SchedulerFeature::default().is_empty());
    assert_eq!(SchedulerFeature::empty().to_regor_value(), "");
    assert_eq!(SchedulerFeature::sparsity().to_regor_value(), "Sparsity");
    assert_eq!(
        (SchedulerFeature::reuse_ifm() | SchedulerFeature::fm_staging()).to_regor_value(),
        "FMStaging|ReuseIFM"
    );
}

#[test]
fn system_config_appends_the_ini_verbatim() {
    let c = SystemConfig::new(AcceleratorConfig::EthosU65_512)
        .system_config_name("A")
        .vela_ini("x=1");
    assert_eq!(c.accelerator(), AcceleratorConfig::EthosU65_512);
    assert_eq!(
        c.build(),
        "[architecture]\nmacs=512\ncores=2\n[vela]\nsystem_config_name=A\nx=1"
    );
}

#[test]
fn softmax_ranges_compare_as_f32_values() {
    assert_eq!(range(0.0), range(-0.0));
    assert_ne!(range(f32::NAN), range(f32::NAN));
    assert_eq!(range(1.5), range(1.5));
    assert_ne!(range(1.5), range(2.5));
    assert_eq!(
        OptionsError::SoftmaxRangeOutOfRange(range(0.0)),
        OptionsError::SoftmaxRangeOutOfRange(range(-0.0))
    );
    assert_ne!(
        OptionsError::SoftmaxRangeOutOfRange(range(f32::NAN)),
        OptionsError::SoftmaxRangeOutOfRange(range(f32::NAN))
    );
    assert_ne!(OptionsError::InvalidAlignment(8), OptionsError::SeparateIoRequiresCop2);
    assert_eq!(OptionsError::SeparateIoRequiresCop2, OptionsError::SeparateIoRequiresCop2);
}

#[test]
fn zero_and_negative_zero_ranges_give_equal_errors() {
    let a = CompilerOptions::new().softmax_int16_neg_exp_range(range(0.0)).build();
    let b = CompilerOptions::new().softmax_int16_neg_exp_range(range(-0.0)).build();
    assert_eq!(a.unwrap_err(), b.unwrap_err());
}

#[test]
fn cloned_options_build_the_same_document() {
    let o = CompilerOptions::new()
        .optimize(Optimize::Size)
        .ignore_ops(&["CONV_2D", "ADD"])
        .softmax_int16_neg_exp_range(range(30.0))
        .raw(Section::Debug, "k", "v");
    let c = o.clone();
    assert_eq!(o.build().unwrap(), c.build().unwrap());
    let s = SystemConfig::new(AcceleratorConfig::EthosU85_256).memory_mode_name("Sram_Only");
    assert_eq!(s.clone().build(), s.build());
}

#[test]
fn scheduler_feature_bit_operations() {
    let a = SchedulerFeature::cascading() | SchedulerFeature::fwd();
    let b = SchedulerFeature::fwd() | SchedulerFeature::sparsity();
    assert_eq!((a & b).bits(), SchedulerFeature::fwd().bits());
    assert_eq!(a.intersection(b), SchedulerFeature::fwd());
    assert_eq!((a - b).bits(), SchedulerFeature::cascading().bits());
    assert_eq!(a.difference(b), SchedulerFeature::cascading());
    assert!(a.intersects(b));
    assert!(!SchedulerFeature::grouping().intersects(a));
    assert_eq!((!SchedulerFeature::empty()).bits(), SchedulerFeature::all().bits());
    assert_eq!(SchedulerFeature::all().complement(), SchedulerFeature::empty());
    let mut f = SchedulerFeature::empty();
    f.insert(SchedulerFeature::grouping());
    f.insert(SchedulerFeature::reuse_ifm());
    assert_eq!(f.bits(), 4 | 64);
    f.remove(SchedulerFeature::grouping());
    assert_eq!(f, SchedulerFeature::reuse_ifm());
    f.toggle(SchedulerFeature::reuse_ifm() | SchedulerFeature::weight_buffering());
    assert_eq!(f, SchedulerFeature::weight_buffering());
}

#[test]
fn scheduler_feature_from_bits() {
    assert_eq!(SchedulerFeature::from_bits(2 | 8), Some(SchedulerFeature::cascading() | SchedulerFeature::fwd()));
    assert_eq!(SchedulerFeature::from_bits(0), Some(SchedulerFeature::empty()));
    assert_eq!(SchedulerFeature::from_bits(128), None);
    assert_eq!(SchedulerFeature::from_bits_truncate(0xFFFF), SchedulerFeature::all());
    assert_eq!(SchedulerFeature::from_bits_truncate(128 | 32), SchedulerFeature::fm_staging());
}

#[test]
fn scheduler_feature_iterates_in_declaration_order() {
    let f = SchedulerFeature::reuse_ifm() | SchedulerFeature::weight_buffering() | SchedulerFeature::fwd();
    assert_eq!(
        f.iter(),
        vec![SchedulerFeature::weight_buffering(), SchedulerFeature::fwd(), SchedulerFeature::reuse_ifm()]
    );
    assert!(SchedulerFeature::empty().iter().is_empty());
    assert_eq!(SchedulerFeature::all().iter().len(), 7);
}

#[test]
fn alignment_errors_before_range_errors_before_io_errors() {
    let all_bad = CompilerOptions::new()
        .cpu_tensor_alignment(24)
        .softmax_int16_neg_exp_range(range(f32::INFINITY))
        .separate_io_regions(true);
    assert!(matches!(all_bad.build(), Err(OptionsError::InvalidAlignment(24))));
    let range_and_io = CompilerOptions::new()
        .cpu_tensor_alignment(32)
        .softmax_int16_neg_exp_range(range(65535.0))
        .separate_io_regions(true);
    assert!(matches!(range_and_io.build(), Err(OptionsError::SoftmaxRangeOutOfRange(_))));
    let io_only = CompilerOptions::new().separate_io_regions(true).cop_format(CopFormat::Cop1);
    assert!(matches!(io_only.build(), Err(OptionsError::SeparateIoRequiresCop2)));
}

#[test]
fn raw_entries_follow_typed_keys_in_call_order() {
    let s = CompilerOptions::new()
        .raw(Section::Scheduler, "first", "1")
        .verbose_schedule(true)
        .raw(Section::Scheduler, "second", "2")
        .build()
        .unwrap();
    assert_eq!(
        s,
        "[compiler]\n\n[scheduler]\nverbose=true\nfirst=1\nsecond=2\n\n[graph]\n"
    );
}
