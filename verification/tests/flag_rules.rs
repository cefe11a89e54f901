use moonbuild_rupes_recta::build_common::{BuildCommonConfig, BuildCommonInput};
use moonbuild_rupes_recta::compiler::{
    CompiledPackageName, ErrorFormat, MiDependency, VirtualPackageImplementation,
    WarnAlertConfig, MOONC_ALLOW_ALERT_SET, MOONC_ALLOW_WARNING_SET, MOONC_DENY_ALERT_SET,
    MOONC_DENY_WARNING_SET,
};
use moonbuild_rupes_recta::model::{PackageFQN, TargetBackend, TargetKind};

fn strings(items: &[&str]) -> Vec<String> {
    items.iter().map(|item| item.to_string()).collect()
}

fn render_input(kind: TargetKind, rule: fn(&BuildCommonInput, &mut Vec<String>)) -> Vec<String> {
    let sources = strings(&["src/lib/a.mbt", "src/lib/b.mbt"]);
    let doctests = strings(&["src/lib/README.mbt.md", "src/lib/notes.mbt.md"]);
    let deps = [
        MiDependency::new("target/core/builtin.mi", "builtin"),
        MiDependency::no_alias("target/dep/dep.mi"),
    ];
    let fqn = PackageFQN::new("alice/app/lib");
    let backend = TargetBackend::new("wasm-gc");
    let input = BuildCommonInput::new(
        &sources,
        &doctests,
        &deps,
        CompiledPackageName { fqn: &fqn, kind },
        "src/lib",
        &backend,
        kind,
    );
    let mut args = vec!["moonc".to_string()];
    rule(&input, &mut args);
    assert_eq!(args[0], "moonc");
    args.split_off(1)
}

fn render_config(
    config: &BuildCommonConfig,
    rule: fn(&BuildCommonConfig, &mut Vec<String>),
) -> Vec<String> {
    let mut args = vec!["kept".to_string()];
    rule(config, &mut args);
    assert_eq!(args[0], "kept");
    args.split_off(1)
}

const ALL_KINDS: [TargetKind; 5] = [
    TargetKind::Source,
    TargetKind::WhiteboxTest,
    TargetKind::BlackboxTest,
    TargetKind::InlineTest,
    TargetKind::SubPackage,
];

#[test]
fn sources_are_positional_in_input_order() {
    let args = render_input(TargetKind::Source, |input, args| input.add_mbt_sources(args));
    assert_eq!(args, strings(&["src/lib/a.mbt", "src/lib/b.mbt"]));
}

#[test]
fn doctest_only_sources_come_in_pairs() {
    let args = render_input(TargetKind::Source, |input, args| input.add_doctest_only_sources(args));
    assert_eq!(
        args,
        strings(&[
            "-doctest-only",
            "src/lib/README.mbt.md",
            "-doctest-only",
            "src/lib/notes.mbt.md"
        ])
    );
}

#[test]
fn mi_dependencies_keep_their_order_and_alias() {
    let args = render_input(TargetKind::Source, |input, args| input.add_mi_dependencies(args));
    assert_eq!(
        args,
        strings(&[
            "-i",
            "target/core/builtin.mi:builtin",
            "-i",
            "target/dep/dep.mi:target/dep/dep.mi"
        ])
    );
}

#[test]
fn empty_lists_emit_nothing() {
    let empty: Vec<String> = Vec::new();
    let fqn = PackageFQN::new("p");
    let backend = TargetBackend::new("js");
    let input = BuildCommonInput::new(
        &empty,
        &empty,
        &[],
        CompiledPackageName { fqn: &fqn, kind: TargetKind::Source },
        ".",
        &backend,
        TargetKind::Source,
    );
    let mut args: Vec<String> = Vec::new();
    input.add_mbt_sources(&mut args);
    input.add_doctest_only_sources(&mut args);
    input.add_mi_dependencies(&mut args);
    assert!(args.is_empty());
}

#[test]
fn package_config_names_the_compiled_package() {
    let args = render_input(TargetKind::WhiteboxTest, |input, args| input.add_package_config(args));
    assert_eq!(args, strings(&["-pkg", "alice/app/lib__wb_test"]));
}

#[test]
fn package_sources_pair_name_and_directory() {
    let args = render_input(TargetKind::InlineTest, |input, args| input.add_package_sources(args));
    assert_eq!(args, strings(&["-pkg-sources", "alice/app/lib__inline_test:src/lib"]));
}

#[test]
fn target_backend_passes_the_flag() {
    let args = render_input(TargetKind::Source, |input, args| input.add_target_backend(args));
    assert_eq!(args, strings(&["-target", "wasm-gc"]));
}

#[test]
fn test_args_per_kind() {
    let expected: [&[&str]; 5] =
        [&[], &["-whitebox-test"], &["-blackbox-test", "-include-doctests"], &[], &[]];
    for (kind, expected) in ALL_KINDS.iter().zip(expected) {
        let args = render_input(*kind, |input, args| input.add_test_args(args));
        assert_eq!(args, strings(expected), "{:?}", kind);
    }
}

#[test]
fn test_mode_for_every_test_kind() {
    let expected: [&[&str]; 5] = [&[], &["-test-mode"], &["-test-mode"], &["-test-mode"], &[]];
    for (kind, expected) in ALL_KINDS.iter().zip(expected) {
        let args = render_input(*kind, |input, args| input.add_test_mode_args(args));
        assert_eq!(args, strings(expected), "{:?}", kind);
        assert_eq!(kind.is_test(), !expected.is_empty());
    }
}

#[test]
fn include_doctests_for_blackbox_only() {
    let expected: [&[&str]; 5] = [&[], &[], &["-include-doctests"], &[], &[]];
    for (kind, expected) in ALL_KINDS.iter().zip(expected) {
        let args = render_input(*kind, |input, args| input.add_include_doctests_if_blackbox(args));
        assert_eq!(args, strings(expected), "{:?}", kind);
    }
}

#[test]
fn test_kind_flags_per_kind() {
    let expected: [&[&str]; 5] = [&[], &["-whitebox-test"], &["-blackbox-test"], &[], &[]];
    for (kind, expected) in ALL_KINDS.iter().zip(expected) {
        let args = render_input(*kind, |input, args| input.add_test_kind_flags(args));
        assert_eq!(args, strings(expected), "{:?}", kind);
    }
}

#[test]
fn coupled_test_rule_equals_the_two_narrow_rules() {
    for kind in ALL_KINDS {
        let coupled = render_input(kind, |input, args| input.add_test_args(args));
        let narrow = render_input(kind, |input, args| {
            input.add_test_kind_flags(args);
            input.add_include_doctests_if_blackbox(args);
        });
        assert_eq!(coupled, narrow);
    }
}

#[test]
fn default_config_is_the_permissive_minimum() {
    let config = BuildCommonConfig::default();
    assert_eq!(config.error_format, ErrorFormat::Regular);
    assert!(!config.deny_warn);
    assert!(matches!(config.warn_config, WarnAlertConfig::Default));
    assert!(matches!(config.alert_config, WarnAlertConfig::Default));
    assert!(!config.is_main);
    assert!(config.stdlib_core_file.is_none());
    assert!(config.workspace_root.is_none());
    assert!(config.check_mi.is_none());
    assert!(config.virtual_implementation.is_none());
    assert!(config.patch_file.is_none());
    assert!(!config.no_mi);
    assert!(matches!(WarnAlertConfig::default(), WarnAlertConfig::Default));
}

#[test]
fn default_config_emits_nothing() {
    let config = BuildCommonConfig::default();
    let args = render_config(&config, |config, args| {
        config.add_error_format(args);
        config.add_custom_warn_alert_lists(args);
        config.add_is_main(args);
        config.add_stdlib_path(args);
        config.add_virtual_package_check(args);
        config.add_deny_all(args);
        config.add_warn_alert_allow_all(args);
        config.add_virtual_package_implementation_check(args);
        config.add_virtual_package_implementation_build(args);
        config.add_workspace_root(args);
        config.add_patch_file_moonc(args);
        config.add_no_mi(args);
    });
    assert!(args.is_empty());
}

#[test]
fn json_error_format() {
    let config = BuildCommonConfig { error_format: ErrorFormat::Json, ..Default::default() };
    let args = render_config(&config, |config, args| config.add_error_format(args));
    assert_eq!(args, strings(&["-error-format", "json"]));
}

#[test]
fn custom_lists_are_passed_verbatim_and_independently() {
    let both = BuildCommonConfig {
        warn_config: WarnAlertConfig::List("+a-31-32-unused"),
        alert_config: WarnAlertConfig::List("+all-deprecated"),
        ..Default::default()
    };
    let args = render_config(&both, |config, args| config.add_custom_warn_alert_lists(args));
    assert_eq!(args, strings(&["-w", "+a-31-32-unused", "-alert", "+all-deprecated"]));

    let warn_only =
        BuildCommonConfig { warn_config: WarnAlertConfig::List("-2"), ..Default::default() };
    let args = render_config(&warn_only, |config, args| config.add_custom_warn_alert_lists(args));
    assert_eq!(args, strings(&["-w", "-2"]));

    let alert_only = BuildCommonConfig {
        warn_config: WarnAlertConfig::AllowAll,
        alert_config: WarnAlertConfig::List("-unsafe"),
        ..Default::default()
    };
    let args = render_config(&alert_only, |config, args| config.add_custom_warn_alert_lists(args));
    assert_eq!(args, strings(&["-alert", "-unsafe"]));

    let deny_all = BuildCommonConfig {
        warn_config: WarnAlertConfig::DenyAll,
        alert_config: WarnAlertConfig::DenyAll,
        ..Default::default()
    };
    let args = render_config(&deny_all, |config, args| {
        config.add_custom_warn_alert_lists(args);
        config.add_warn_alert_allow_all(args);
    });
    assert!(args.is_empty());
}

#[test]
fn simple_optional_flags() {
    let config = BuildCommonConfig {
        is_main: true,
        stdlib_core_file: Some("lib/core/bundle/core.core"),
        workspace_root: Some("/work/app"),
        check_mi: Some("target/virt/virt.mi"),
        patch_file: Some("fix.patch.json"),
        no_mi: true,
        ..Default::default()
    };
    assert_eq!(render_config(&config, |c, args| c.add_is_main(args)), strings(&["-is-main"]));
    assert_eq!(
        render_config(&config, |c, args| c.add_stdlib_path(args)),
        strings(&["-std-path", "lib/core/bundle/core.core"])
    );
    assert_eq!(
        render_config(&config, |c, args| c.add_workspace_root(args)),
        strings(&["-workspace-path", "/work/app"])
    );
    assert_eq!(
        render_config(&config, |c, args| c.add_virtual_package_check(args)),
        strings(&["-check-mi", "target/virt/virt.mi"])
    );
    assert_eq!(
        render_config(&config, |c, args| c.add_patch_file_moonc(args)),
        strings(&["-patch-file", "fix.patch.json"])
    );
    assert_eq!(render_config(&config, |c, args| c.add_no_mi(args)), strings(&["-no-mi"]));
}

#[test]
fn reserved_token_sets() {
    assert_eq!(MOONC_DENY_WARNING_SET, "@a-31-32");
    assert_eq!(MOONC_DENY_ALERT_SET, "@all-raise-throw-unsafe+deprecated");
    assert_eq!(MOONC_ALLOW_WARNING_SET, "-a");
    assert_eq!(MOONC_ALLOW_ALERT_SET, "-all");
}

#[test]
fn deny_all_emits_both_pairs() {
    let config = BuildCommonConfig { deny_warn: true, ..Default::default() };
    let args = render_config(&config, |config, args| config.add_deny_all(args));
    assert_eq!(
        args,
        strings(&["-w", "@a-31-32", "-alert", "@all-raise-throw-unsafe+deprecated"])
    );
}

#[test]
fn allow_all_per_axis() {
    let both = BuildCommonConfig {
        warn_config: WarnAlertConfig::AllowAll,
        alert_config: WarnAlertConfig::AllowAll,
        ..Default::default()
    };
    let args = render_config(&both, |config, args| config.add_warn_alert_allow_all(args));
    assert_eq!(args, strings(&["-w", "-a", "-alert", "-all"]));

    let alerts = BuildCommonConfig {
        warn_config: WarnAlertConfig::List("+a"),
        alert_config: WarnAlertConfig::AllowAll,
        ..Default::default()
    };
    let args = render_config(&alerts, |config, args| config.add_warn_alert_allow_all(args));
    assert_eq!(args, strings(&["-alert", "-all"]));
}

#[test]
fn deny_warn_and_allow_all_are_additive() {
    let config = BuildCommonConfig {
        deny_warn: true,
        warn_config: WarnAlertConfig::AllowAll,
        ..Default::default()
    };
    let args = render_config(&config, |config, args| {
        config.add_deny_all(args);
        config.add_custom_warn_alert_lists(args);
        config.add_warn_alert_allow_all(args);
    });
    assert_eq!(
        args,
        strings(&["-w", "@a-31-32", "-alert", "@all-raise-throw-unsafe+deprecated", "-w", "-a"])
    );
}

#[test]
fn deny_warn_and_custom_list_are_both_emitted() {
    let config = BuildCommonConfig {
        deny_warn: true,
        warn_config: WarnAlertConfig::List("+a-7"),
        ..Default::default()
    };
    let args = render_config(&config, |config, args| {
        config.add_deny_all(args);
        config.add_custom_warn_alert_lists(args);
    });
    assert_eq!(
        args,
        strings(&["-w", "@a-31-32", "-alert", "@all-raise-throw-unsafe+deprecated", "-w", "+a-7"])
    );
}

#[test]
fn virtual_implementation_check_has_no_marker() {
    let fqn = PackageFQN::new("alice/app/impl");
    let config = BuildCommonConfig {
        virtual_implementation: Some(VirtualPackageImplementation {
            mi_path: "target/virt/virt.mi",
            package_name: &fqn,
            package_path: "src/impl",
        }),
        no_mi: true,
        ..Default::default()
    };
    let args = render_config(&config, |config, args| {
        config.add_virtual_package_implementation_check(args)
    });
    assert_eq!(
        args,
        strings(&["-check-mi", "target/virt/virt.mi", "-pkg-sources", "alice/app/impl:src/impl"])
    );
    assert!(!args.iter().any(|arg| arg == "-impl-virtual"));
}

#[test]
fn virtual_implementation_build_has_the_marker_and_no_no_mi() {
    let fqn = PackageFQN::new("alice/app/impl");
    let config = BuildCommonConfig {
        virtual_implementation: Some(VirtualPackageImplementation {
            mi_path: "target/virt/virt.mi",
            package_name: &fqn,
            package_path: "src/impl",
        }),
        no_mi: true,
        ..Default::default()
    };
    let args = render_config(&config, |config, args| {
        config.add_virtual_package_implementation_build(args)
    });
    assert_eq!(
        args,
        strings(&[
            "-check-mi",
            "target/virt/virt.mi",
            "-impl-virtual",
            "-pkg-sources",
            "alice/app/impl:src/impl"
        ])
    );
    assert_eq!(args.iter().filter(|arg| *arg == "-impl-virtual").count(), 1);
    assert!(!args.iter().any(|arg| arg == "-no-mi"));
}
