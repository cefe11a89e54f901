use moonbuild_rupes_recta::build_common::{BuildCommonConfig, BuildCommonInput};
use moonbuild_rupes_recta::build_package::MooncBuildPackage;
use moonbuild_rupes_recta::bundle_core::MooncBundleCore;
use moonbuild_rupes_recta::check::MooncCheck;
use moonbuild_rupes_recta::compiler::{
    CmdlineAbstraction, CompilationFlags, CompiledPackageName, ErrorFormat, MiDependency,
    PackageSource, VirtualPackageImplementation, WarnAlertConfig,
};
use moonbuild_rupes_recta::gen_test_driver::{DriverKind, MoonGenTestDriver};
use moonbuild_rupes_recta::link_core::MooncLinkCore;
use moonbuild_rupes_recta::model::{PackageFQN, TargetBackend, TargetKind};
use moonbuild_rupes_recta::moondoc::MoondocCommand;
use moonbuild_rupes_recta::mooninfo::Mooninfo;

fn strings(items: &[&str]) -> Vec<String> {
    items.iter().map(|item| item.to_string()).collect()
}

const NO_FLAGS: CompilationFlags = CompilationFlags {
    no_opt: false,
    symbols: false,
    source_map: false,
    enable_coverage: false,
    self_coverage: false,
    enable_value_tracing: false,
};

struct Fixture {
    sources: Vec<String>,
    doctests: Vec<String>,
    fqn: PackageFQN,
    virt: PackageFQN,
    backend: TargetBackend,
    extra: Vec<String>,
    none: Vec<String>,
}

fn fixture() -> Fixture {
    Fixture {
        sources: strings(&["a.mbt", "b.mbt"]),
        doctests: strings(&["README.mbt.md"]),
        fqn: PackageFQN::new("alice/app/lib"),
        virt: PackageFQN::new("alice/app/virt"),
        backend: TargetBackend::new("wasm-gc"),
        extra: strings(&["-extra"]),
        none: Vec::new(),
    }
}

const DEPS: [MiDependency<'static>; 2] = [
    MiDependency { path: "builtin.mi", alias: Some("builtin") },
    MiDependency { path: "dep.mi", alias: None },
];

fn full_input(fx: &Fixture, kind: TargetKind) -> BuildCommonInput<'_> {
    BuildCommonInput::new(
        &fx.sources,
        &fx.doctests,
        &DEPS,
        CompiledPackageName { fqn: &fx.fqn, kind },
        "src/lib",
        &fx.backend,
        kind,
    )
}

fn full_config(fx: &Fixture) -> BuildCommonConfig<'_> {
    BuildCommonConfig {
        error_format: ErrorFormat::Json,
        deny_warn: true,
        warn_config: WarnAlertConfig::AllowAll,
        alert_config: WarnAlertConfig::List("+all"),
        is_main: true,
        stdlib_core_file: Some("core.core"),
        workspace_root: Some("/work"),
        check_mi: Some("virt.mi"),
        virtual_implementation: Some(VirtualPackageImplementation {
            mi_path: "impl.mi",
            package_name: &fx.virt,
            package_path: "src/virt",
        }),
        patch_file: Some("p.json"),
        no_mi: true,
    }
}

fn minimal_input(fx: &Fixture, kind: TargetKind) -> BuildCommonInput<'_> {
    BuildCommonInput::new(
        &fx.none,
        &fx.none,
        &[],
        CompiledPackageName { fqn: &fx.fqn, kind },
        "src/lib",
        &fx.backend,
        kind,
    )
}

fn position(args: &[String], flag: &str) -> usize {
    let found: Vec<usize> =
        args.iter().enumerate().filter(|(_, arg)| *arg == flag).map(|(i, _)| i).collect();
    assert_eq!(found.len(), 1, "{} occurs {} times", flag, found.len());
    found[0]
}

#[test]
fn build_package_with_everything_set() {
    let fx = fixture();
    let command = MooncBuildPackage {
        required: full_input(&fx, TargetKind::BlackboxTest),
        defaults: full_config(&fx),
        core_out: "out/lib.core",
        flags: CompilationFlags {
            no_opt: true,
            symbols: true,
            source_map: false,
            enable_coverage: true,
            self_coverage: false,
            enable_value_tracing: true,
        },
        extra_build_opts: &fx.extra,
    };
    assert_eq!(
        command.build_command("moonc"),
        strings(&[
            "moonc",
            "build-package",
            "-error-format",
            "json",
            "-w",
            "@a-31-32",
            "-alert",
            "@all-raise-throw-unsafe+deprecated",
            "a.mbt",
            "b.mbt",
            "-doctest-only",
            "README.mbt.md",
            "-alert",
            "+all",
            "-w",
            "-a",
            "-o",
            "out/lib.core",
            "-pkg",
            "alice/app/lib__bb_test",
            "-is-main",
            "-std-path",
            "core.core",
            "-i",
            "builtin.mi:builtin",
            "-i",
            "dep.mi:dep.mi",
            "-pkg-sources",
            "alice/app/lib__bb_test:src/lib",
            "-target",
            "wasm-gc",
            "-g",
            "-O0",
            "-enable-coverage",
            "-enable-value-tracing",
            "-blackbox-test",
            "-include-doctests",
            "-test-mode",
            "-check-mi",
            "virt.mi",
            "-check-mi",
            "impl.mi",
            "-impl-virtual",
            "-pkg-sources",
            "alice/app/virt:src/virt",
            "-workspace-path",
            "/work",
            "-patch-file",
            "p.json",
            "-no-mi",
            "-extra",
        ])
    );
}

#[test]
fn build_package_with_nothing_optional() {
    let fx = fixture();
    let command = MooncBuildPackage {
        required: minimal_input(&fx, TargetKind::Source),
        defaults: BuildCommonConfig::default(),
        core_out: "out/lib.core",
        flags: NO_FLAGS,
        extra_build_opts: &fx.none,
    };
    assert_eq!(
        command.build_command("moonc"),
        strings(&[
            "moonc",
            "build-package",
            "-o",
            "out/lib.core",
            "-pkg",
            "alice/app/lib",
            "-pkg-sources",
            "alice/app/lib:src/lib",
            "-target",
            "wasm-gc",
        ])
    );
}

#[test]
fn build_package_to_args_keeps_what_is_there() {
    let fx = fixture();
    let command = MooncBuildPackage {
        required: minimal_input(&fx, TargetKind::Source),
        defaults: BuildCommonConfig::default(),
        core_out: "o.core",
        flags: NO_FLAGS,
        extra_build_opts: &fx.none,
    };
    let mut args = strings(&["env", "moonc"]);
    command.to_args(&mut args);
    assert_eq!(&args[..3], strings(&["env", "moonc", "build-package"]).as_slice());
    assert_eq!(args.len(), 2 + command.build_command("moonc").len() - 1);
}

#[test]
fn build_package_blackbox_flags_in_order_once_each() {
    let fx = fixture();
    let command = MooncBuildPackage {
        required: full_input(&fx, TargetKind::BlackboxTest),
        defaults: full_config(&fx),
        core_out: "out/lib.core",
        flags: NO_FLAGS,
        extra_build_opts: &fx.none,
    };
    let args = command.build_command("moonc");
    let blackbox = position(&args, "-blackbox-test");
    let doctests = position(&args, "-include-doctests");
    assert_eq!(doctests, blackbox + 1);
    assert!(!args.iter().any(|arg| arg == "-whitebox-test"));
}

#[test]
fn build_package_whitebox_and_inline_flags() {
    let fx = fixture();
    let whitebox = MooncBuildPackage {
        required: minimal_input(&fx, TargetKind::WhiteboxTest),
        defaults: BuildCommonConfig::default(),
        core_out: "o.core",
        flags: NO_FLAGS,
        extra_build_opts: &fx.none,
    };
    let args = whitebox.build_command("moonc");
    assert_eq!(&args[args.len() - 2..], strings(&["-whitebox-test", "-test-mode"]).as_slice());
    let inline = MooncBuildPackage {
        required: minimal_input(&fx, TargetKind::InlineTest),
        defaults: BuildCommonConfig::default(),
        core_out: "o.core",
        flags: NO_FLAGS,
        extra_build_opts: &fx.none,
    };
    let args = inline.build_command("moonc");
    assert_eq!(args.last().map(String::as_str), Some("-test-mode"));
    assert!(!args.iter().any(|arg| arg == "-include-doctests"));
}

#[test]
fn build_package_deny_and_allow_are_both_present() {
    let fx = fixture();
    let command = MooncBuildPackage {
        required: minimal_input(&fx, TargetKind::Source),
        defaults: BuildCommonConfig {
            deny_warn: true,
            warn_config: WarnAlertConfig::AllowAll,
            ..Default::default()
        },
        core_out: "o.core",
        flags: NO_FLAGS,
        extra_build_opts: &fx.none,
    };
    let args = command.build_command("moonc");
    let pairs: Vec<(&str, &str)> =
        args.windows(2).map(|pair| (pair[0].as_str(), pair[1].as_str())).collect();
    assert!(pairs.contains(&("-w", "@a-31-32")));
    assert!(pairs.contains(&("-alert", "@all-raise-throw-unsafe+deprecated")));
    assert!(pairs.contains(&("-w", "-a")));
}

#[test]
fn every_compilation_flag() {
    let fx = fixture();
    let command = MooncBuildPackage {
        required: minimal_input(&fx, TargetKind::Source),
        defaults: BuildCommonConfig::default(),
        core_out: "o.core",
        flags: CompilationFlags {
            no_opt: true,
            symbols: true,
            source_map: true,
            enable_coverage: true,
            self_coverage: true,
            enable_value_tracing: true,
        },
        extra_build_opts: &fx.none,
    };
    let args = command.build_command("moonc");
    assert_eq!(
        &args[args.len() - 6..],
        strings(&[
            "-g",
            "-O0",
            "-source-map",
            "-enable-coverage",
            "-coverage-package-override=@self",
            "-enable-value-tracing",
        ])
        .as_slice()
    );
}

#[test]
fn check_with_everything_set() {
    let fx = fixture();
    let command = MooncCheck {
        required: full_input(&fx, TargetKind::BlackboxTest),
        defaults: full_config(&fx),
        mi_out: "out/lib.mi",
        single_file: true,
    };
    assert_eq!(
        command.build_command("moonc"),
        strings(&[
            "moonc",
            "check",
            "-patch-file",
            "p.json",
            "-no-mi",
            "-error-format",
            "json",
            "-w",
            "@a-31-32",
            "-alert",
            "@all-raise-throw-unsafe+deprecated",
            "a.mbt",
            "b.mbt",
            "-doctest-only",
            "README.mbt.md",
            "-include-doctests",
            "-alert",
            "+all",
            "-w",
            "-a",
            "-o",
            "out/lib.mi",
            "-pkg",
            "alice/app/lib__bb_test",
            "-is-main",
            "-single-file",
            "-std-path",
            "core.core",
            "-i",
            "builtin.mi:builtin",
            "-i",
            "dep.mi:dep.mi",
            "-pkg-sources",
            "alice/app/lib__bb_test:src/lib",
            "-target",
            "wasm-gc",
            "-blackbox-test",
            "-check-mi",
            "virt.mi",
            "-check-mi",
            "impl.mi",
            "-pkg-sources",
            "alice/app/virt:src/virt",
            "-workspace-path",
            "/work",
        ])
    );
}

#[test]
fn check_never_marks_a_virtual_implementation() {
    let fx = fixture();
    for kind in [TargetKind::Source, TargetKind::WhiteboxTest, TargetKind::SubPackage] {
        let command = MooncCheck {
            required: full_input(&fx, kind),
            defaults: full_config(&fx),
            mi_out: "out/lib.mi",
            single_file: false,
        };
        let args = command.build_command("moonc");
        assert!(!args.iter().any(|arg| arg == "-impl-virtual"));
        assert!(!args.iter().any(|arg| arg == "-single-file"));
    }
}

#[test]
fn check_with_nothing_optional() {
    let fx = fixture();
    let command = MooncCheck {
        required: minimal_input(&fx, TargetKind::SubPackage),
        defaults: BuildCommonConfig::default(),
        mi_out: "lib.mi",
        single_file: false,
    };
    assert_eq!(
        command.build_command("moonc"),
        strings(&[
            "moonc",
            "check",
            "-o",
            "lib.mi",
            "-pkg",
            "alice/app/lib",
            "-pkg-sources",
            "alice/app/lib:src/lib",
            "-target",
            "wasm-gc",
        ])
    );
}

#[test]
fn link_core_arguments() {
    let fx = fixture();
    let cores = strings(&["dep.core", "lib.core"]);
    let dep_fqn = PackageFQN::new("bob/dep");
    let sources = [
        PackageSource {
            package_name: CompiledPackageName { fqn: &dep_fqn, kind: TargetKind::Source },
            source_dir: "deps/dep",
        },
        PackageSource {
            package_name: CompiledPackageName { fqn: &fx.fqn, kind: TargetKind::WhiteboxTest },
            source_dir: "src/lib",
        },
    ];
    assert_eq!(sources[1].to_arg(), "alice/app/lib__wb_test:src/lib");
    let command = MooncLinkCore {
        core_deps: &cores,
        main_package: CompiledPackageName { fqn: &fx.fqn, kind: TargetKind::WhiteboxTest },
        output_path: "out/lib.wasm",
        pkg_config_path: "src/lib/moon.pkg.json",
        package_sources: &sources,
        target_backend: &fx.backend,
        flags: CompilationFlags { symbols: true, source_map: true, ..NO_FLAGS },
        test_mode: true,
    };
    let args = command.build_command("moonc");
    assert_eq!(
        args,
        strings(&[
            "moonc",
            "link-core",
            "dep.core",
            "lib.core",
            "-main",
            "alice/app/lib__wb_test",
            "-o",
            "out/lib.wasm",
            "-test-mode",
            "-pkg-config-path",
            "src/lib/moon.pkg.json",
            "-pkg-sources",
            "bob/dep:deps/dep",
            "-pkg-sources",
            "alice/app/lib__wb_test:src/lib",
            "-target",
            "wasm-gc",
            "-g",
            "-source-map",
        ])
    );
    assert!(!args.iter().any(|arg| arg == "-workspace-path"));
}

#[test]
fn bundle_core_keeps_the_order_it_is_given() {
    let inputs = strings(&["b.core", "a.core"]);
    let command = MooncBundleCore::new(&inputs, "out/bundle.core");
    assert_eq!(
        command.build_command("moonc"),
        strings(&["moonc", "bundle-core", "b.core", "a.core", "-o", "out/bundle.core"])
    );
}

#[test]
fn gen_test_driver_with_everything_set() {
    let fx = fixture();
    let command = MoonGenTestDriver {
        files: &fx.sources,
        doctest_only_files: &fx.doctests,
        output_driver: "out/driver.mbt",
        output_metadata: "out/meta.json",
        bench: true,
        enable_coverage: true,
        coverage_package_override: Some("@self"),
        driver_kind: DriverKind::Blackbox,
        target_backend: &fx.backend,
        patch_file: Some("p.json"),
        pkg_name: "alice/app/lib",
    };
    assert_eq!(
        command.build_command("moon"),
        strings(&[
            "moon",
            "generate-test-driver",
            "a.mbt",
            "b.mbt",
            "--doctest-only",
            "README.mbt.md",
            "--output-driver",
            "out/driver.mbt",
            "--output-metadata",
            "out/meta.json",
            "--target",
            "wasm-gc",
            "--pkg-name",
            "alice/app/lib",
            "--enable-coverage",
            "--coverage-package-override=@self",
            "--driver-kind",
            "blackbox",
            "--patch-file",
            "p.json",
            "--bench",
        ])
    );
}

#[test]
fn driver_kinds() {
    assert_eq!(DriverKind::for_target(TargetKind::Source), None);
    assert_eq!(DriverKind::for_target(TargetKind::WhiteboxTest), Some(DriverKind::Whitebox));
    assert_eq!(DriverKind::for_target(TargetKind::BlackboxTest), Some(DriverKind::Blackbox));
    assert_eq!(DriverKind::for_target(TargetKind::InlineTest), Some(DriverKind::Internal));
    assert_eq!(DriverKind::for_target(TargetKind::SubPackage), None);
    assert_eq!(DriverKind::Internal.as_str(), "internal");
    assert_eq!(DriverKind::Whitebox.as_str(), "whitebox");
    assert_eq!(DriverKind::Blackbox.as_str(), "blackbox");
}

#[test]
fn moondoc_arguments() {
    let command = MoondocCommand::new("/work/app", "target/doc", Some("core"), "pkgs.json", true);
    assert_eq!(
        command.build_command("moondoc"),
        strings(&[
            "moondoc",
            "/work/app",
            "-o",
            "target/doc",
            "-std-path",
            "core",
            "-packages-json",
            "pkgs.json",
            "-serve-mode",
        ])
    );
    let command = MoondocCommand::new("/work/app", "target/doc", None, "pkgs.json", false);
    assert_eq!(
        command.build_command("moondoc"),
        strings(&["moondoc", "/work/app", "-o", "target/doc", "-packages-json", "pkgs.json"])
    );
}

#[test]
fn mooninfo_arguments() {
    let command = Mooninfo { mi_in: "lib.mi", out: "src/lib/pkg.generated.mbti", no_alias: true };
    assert_eq!(
        command.build_command("mooninfo"),
        strings(&[
            "mooninfo",
            "-format=text",
            "lib.mi",
            "-o=src/lib/pkg.generated.mbti",
            "-no-alias"
        ])
    );
    let command = Mooninfo { mi_in: "lib.mi", out: "out.mbti", no_alias: false };
    assert_eq!(
        command.build_command("mooninfo"),
        strings(&["mooninfo", "-format=text", "lib.mi", "-o=out.mbti"])
    );
}
