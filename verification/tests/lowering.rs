use moonbuild_rupes_recta::build_lower::{
    BuildCommand, BuildPlanLowerContext, BuildPlanNode, BuildTargetInfo, LowerError,
    LowerOptions, ModuleSourceKind, PrebuildInfo, RemoteSource, ResolvedDependency, ResolvedNode,
};
use moonbuild_rupes_recta::lower_aux::{CcConfig, CcOptLevel, CcOutputType};
use moonbuild_rupes_recta::model::{
    BuildTarget, ModuleId, PackageId, TargetBackend, TargetKind,
};

fn strings(items: &[&str]) -> Vec<String> {
    items.iter().map(|item| item.to_string()).collect()
}

fn context(main_module: Option<ModuleSourceKind>) -> BuildPlanLowerContext {
    BuildPlanLowerContext {
        opt: LowerOptions {
            target_backend: TargetBackend::new("native"),
            enable_coverage: false,
            info_no_alias: false,
            docs_serve: false,
            stdlib_path: Some("lib/core".to_string()),
            runtime_dot_c_path: "lib/runtime.c".to_string(),
            target_dir_root: "target".to_string(),
            main_module,
        },
    }
}

fn local_context() -> BuildPlanLowerContext {
    context(Some(ModuleSourceKind::Local("/work/app".to_string())))
}

fn info() -> BuildTargetInfo {
    BuildTargetInfo {
        files: strings(&["a.mbt", "a_test.mbt", "a_wbtest.mbt"]),
        whitebox_files: strings(&["a_wbtest.mbt"]),
        doctest_files: strings(&["README.mbt.md"]),
        patch_file: None,
    }
}

fn target(kind: TargetKind) -> BuildTarget {
    BuildTarget { package: PackageId(3), kind }
}

fn test_driver(
    ctx: &BuildPlanLowerContext,
    info: &BuildTargetInfo,
    kind: TargetKind,
) -> Result<BuildCommand, LowerError> {
    ctx.lower(&ResolvedNode::GenerateTestDriver {
        target: target(kind),
        info,
        pkg_full_name: "alice/app/lib",
        output_driver: "out/driver.mbt",
        output_metadata: "out/meta.json",
    })
}

fn core_node(artifact: &str) -> ResolvedDependency {
    ResolvedDependency {
        node: BuildPlanNode::BuildCore(target(TargetKind::Source)),
        artifact: artifact.to_string(),
    }
}

#[test]
fn test_driver_for_source_is_refused() {
    let error = test_driver(&local_context(), &info(), TargetKind::Source).unwrap_err();
    assert_eq!(error, LowerError::SourceTestDriver);
    assert_eq!(error.message(), "Source package cannot be a test driver");
}

#[test]
fn test_driver_for_sub_package_is_refused() {
    let error = test_driver(&local_context(), &info(), TargetKind::SubPackage).unwrap_err();
    assert_eq!(error, LowerError::SubPackageTestDriver);
    assert_eq!(error.message(), "Sub-package cannot be a test driver");
}

#[test]
fn whitebox_driver_uses_the_whitebox_files() {
    let command = test_driver(&local_context(), &info(), TargetKind::WhiteboxTest).unwrap();
    assert_eq!(command.extra_inputs, strings(&["a_wbtest.mbt"]));
    assert_eq!(
        command.commandline,
        strings(&[
            "moon",
            "generate-test-driver",
            "a_wbtest.mbt",
            "--doctest-only",
            "README.mbt.md",
            "--output-driver",
            "out/driver.mbt",
            "--output-metadata",
            "out/meta.json",
            "--target",
            "native",
            "--pkg-name",
            "alice/app/lib",
            "--driver-kind",
            "whitebox",
        ])
    );
}

#[test]
fn blackbox_driver_uses_every_file() {
    let command = test_driver(&local_context(), &info(), TargetKind::BlackboxTest).unwrap();
    assert_eq!(command.extra_inputs, strings(&["a.mbt", "a_test.mbt", "a_wbtest.mbt"]));
    assert_eq!(&command.commandline[2..5], command.extra_inputs.as_slice());
    assert_eq!(
        &command.commandline[command.commandline.len() - 2..],
        strings(&["--driver-kind", "blackbox"]).as_slice()
    );
}

#[test]
fn inline_driver_uses_every_file() {
    let command = test_driver(&local_context(), &info(), TargetKind::InlineTest).unwrap();
    assert_eq!(command.extra_inputs, strings(&["a.mbt", "a_test.mbt", "a_wbtest.mbt"]));
    assert_eq!(
        &command.commandline[command.commandline.len() - 2..],
        strings(&["--driver-kind", "internal"]).as_slice()
    );
}

#[test]
fn test_driver_with_coverage_and_patch() {
    let mut ctx = local_context();
    ctx.opt.enable_coverage = true;
    let mut info = info();
    info.patch_file = Some("fix.json".to_string());
    let direct = ctx.lower_gen_test_driver(
        target(TargetKind::InlineTest),
        &info,
        "alice/app/lib",
        "d.mbt",
        "m.json",
    );
    assert_eq!(
        direct.commandline,
        strings(&[
            "moon",
            "generate-test-driver",
            "a.mbt",
            "a_test.mbt",
            "a_wbtest.mbt",
            "--doctest-only",
            "README.mbt.md",
            "--output-driver",
            "d.mbt",
            "--output-metadata",
            "m.json",
            "--target",
            "native",
            "--pkg-name",
            "alice/app/lib",
            "--enable-coverage",
            "--driver-kind",
            "internal",
            "--patch-file",
            "fix.json",
        ])
    );
}

#[test]
fn bundle_sorts_its_inputs() {
    let ctx = local_context();
    let dependencies = [core_node("b.core"), core_node("a.core")];
    let command = ctx
        .lower(&ResolvedNode::Bundle { dependencies: &dependencies, output: "out.core" })
        .unwrap();
    assert_eq!(
        command.commandline,
        strings(&["moonc", "bundle-core", "a.core", "b.core", "-o", "out.core"])
    );
    assert!(command.extra_inputs.is_empty());
}

#[test]
fn bundle_does_not_depend_on_input_order() {
    let ctx = local_context();
    let paths = ["lib/z.core", "lib-a/x.core", "lib/a.core", "lib"];
    let forward: Vec<ResolvedDependency> = paths.iter().map(|path| core_node(path)).collect();
    let backward: Vec<ResolvedDependency> =
        paths.iter().rev().map(|path| core_node(path)).collect();
    let first = ctx.lower_bundle(&forward, "o");
    let second = ctx.lower_bundle(&backward, "o");
    assert_eq!(first.commandline, second.commandline);
    assert_eq!(
        &first.commandline[2..6],
        strings(&["lib", "lib-a/x.core", "lib/a.core", "lib/z.core"]).as_slice()
    );
}

#[test]
fn bundle_keeps_duplicates() {
    let ctx = local_context();
    let dependencies = [core_node("b.core"), core_node("a.core"), core_node("b.core")];
    let command = ctx.lower_bundle(&dependencies, "o");
    assert_eq!(
        command.commandline,
        strings(&["moonc", "bundle-core", "a.core", "b.core", "b.core", "-o", "o"])
    );
}

#[test]
fn bundle_of_nothing() {
    let command = local_context().lower_bundle(&[], "o");
    assert_eq!(command.commandline, strings(&["moonc", "bundle-core", "-o", "o"]));
}

#[test]
fn bundle_depending_on_another_kind_of_node_is_refused() {
    let ctx = local_context();
    let others = [
        BuildPlanNode::Check(target(TargetKind::Source)),
        BuildPlanNode::LinkCore(target(TargetKind::Source)),
        BuildPlanNode::GenerateTestDriver(target(TargetKind::InlineTest)),
        BuildPlanNode::GenerateMbti(target(TargetKind::Source)),
        BuildPlanNode::Bundle(ModuleId(0)),
        BuildPlanNode::BuildRuntimeLib,
        BuildPlanNode::BuildDocs,
        BuildPlanNode::RunPrebuild(PackageId(1), 0),
    ];
    for other in others {
        let dependencies = [
            core_node("a.core"),
            ResolvedDependency { node: other, artifact: "x".to_string() },
            core_node("b.core"),
        ];
        assert!(!BuildPlanLowerContext::depends_on_cores_only(&dependencies));
        let error = ctx
            .lower(&ResolvedNode::Bundle { dependencies: &dependencies, output: "o" })
            .unwrap_err();
        assert_eq!(error, LowerError::BundleDependsOnNonCore);
        assert_eq!(error.message(), "Bundle node can only depend on BuildCore nodes");
    }
    assert!(BuildPlanLowerContext::depends_on_cores_only(&[core_node("a"), core_node("b")]));
    assert!(BuildPlanLowerContext::depends_on_cores_only(&[]));
}

#[test]
fn runtime_is_compiled_for_speed_with_debug_info() {
    assert_eq!(
        BuildPlanLowerContext::runtime_cc_config(),
        CcConfig {
            no_sys_header: true,
            output_ty: CcOutputType::Object,
            opt_level: CcOptLevel::Speed,
            debug_info: true,
            link_moonbitrun: true,
            define_use_shared_runtime_macro: false,
        }
    );
}

#[test]
fn runtime_invocation_compiles_the_runtime_source_alone() {
    let invocation = local_context().runtime_cc_invocation("target/native/runtime.o");
    assert_eq!(invocation.config, BuildPlanLowerContext::runtime_cc_config());
    assert!(invocation.user_flags.is_empty());
    assert_eq!(invocation.sources, strings(&["lib/runtime.c"]));
    assert_eq!(invocation.dest_dir, "target");
    assert_eq!(invocation.output, "target/native/runtime.o");
}

#[test]
fn compile_runtime_tracks_the_runtime_source() {
    let cc = strings(&["cc", "-O2", "-g", "-c", "lib/runtime.c", "-o", "target/runtime.o"]);
    let command =
        local_context().lower(&ResolvedNode::BuildRuntimeLib { cc_command: &cc }).unwrap();
    assert_eq!(command.commandline, cc);
    assert_eq!(command.extra_inputs, strings(&["lib/runtime.c"]));
}

#[test]
fn generate_mbti() {
    let command = local_context()
        .lower(&ResolvedNode::GenerateMbti { mi_in: "lib.mi", out: "src/lib/pkg.generated.mbti" })
        .unwrap();
    assert_eq!(
        command.commandline,
        strings(&["mooninfo", "-format=text", "lib.mi", "-o=src/lib/pkg.generated.mbti"])
    );
    assert!(command.extra_inputs.is_empty());

    let mut ctx = local_context();
    ctx.opt.info_no_alias = true;
    let command = ctx.lower_generate_mbti("lib.mi", "o.mbti");
    assert_eq!(
        command.commandline,
        strings(&["mooninfo", "-format=text", "lib.mi", "-o=o.mbti", "-no-alias"])
    );
}

#[test]
fn docs_for_a_local_module() {
    let command = local_context()
        .lower(&ResolvedNode::BuildDocs {
            doc_dir: "target/doc",
            packages_json: "target/packages.json",
        })
        .unwrap();
    assert_eq!(
        command.commandline,
        strings(&[
            "moondoc",
            "/work/app",
            "-o",
            "target/doc",
            "-std-path",
            "lib/core",
            "-packages-json",
            "target/packages.json",
        ])
    );
    assert_eq!(command.extra_inputs, strings(&["target/packages.json"]));
}

#[test]
fn docs_in_serve_mode_without_stdlib() {
    let mut ctx = local_context();
    ctx.opt.docs_serve = true;
    ctx.opt.stdlib_path = None;
    let command = ctx.lower_build_docs("doc", "p.json");
    assert_eq!(
        command.commandline,
        strings(&["moondoc", "/work/app", "-o", "doc", "-packages-json", "p.json", "-serve-mode"])
    );
}

#[test]
fn docs_for_a_registry_module_are_refused() {
    let ctx = context(Some(ModuleSourceKind::Registry));
    let error =
        ctx.lower(&ResolvedNode::BuildDocs { doc_dir: "d", packages_json: "p" }).unwrap_err();
    assert_eq!(error, LowerError::RemoteDocsModule(RemoteSource::Registry));
    assert_eq!(error.message(), "Remote modules for docs are not supported: registry");
    assert_eq!(ctx.docs_source_root(), Err(error));
}

#[test]
fn docs_for_git_and_stdlib_modules_are_refused() {
    let git = context(Some(ModuleSourceKind::Git))
        .lower(&ResolvedNode::BuildDocs { doc_dir: "d", packages_json: "p" })
        .unwrap_err();
    assert_eq!(git.message(), "Remote modules for docs are not supported: git");
    let stdlib = context(Some(ModuleSourceKind::Stdlib))
        .lower(&ResolvedNode::BuildDocs { doc_dir: "d", packages_json: "p" })
        .unwrap_err();
    assert_eq!(stdlib.message(), "Remote modules for docs are not supported: stdlib");
}

#[test]
fn docs_without_a_main_module_are_refused() {
    let error = context(None)
        .lower(&ResolvedNode::BuildDocs { doc_dir: "d", packages_json: "p" })
        .unwrap_err();
    assert_eq!(error, LowerError::NoMainModule);
    assert_eq!(error.message(), "Currently only one module in the workspace is supported.");
}

#[test]
fn docs_source_root_of_a_local_module() {
    assert_eq!(local_context().docs_source_root(), Ok("/work/app"));
}

#[test]
fn prebuild_goes_through_the_shell_verbatim() {
    let prebuild = PrebuildInfo {
        command: "python3 gen.py  'a b' > out.mbt && echo $HOME".to_string(),
        resolved_inputs: strings(&["gen.py", "template.txt"]),
    };
    let command = context(None).lower(&ResolvedNode::RunPrebuild { prebuild: &prebuild }).unwrap();
    assert_eq!(
        command.commandline,
        strings(&["sh", "-c", "python3 gen.py  'a b' > out.mbt && echo $HOME"])
    );
    assert_eq!(command.extra_inputs, strings(&["gen.py", "template.txt"]));
}

#[test]
fn remote_source_names() {
    assert_eq!(RemoteSource::Registry.as_str(), "registry");
    assert_eq!(RemoteSource::Git.as_str(), "git");
    assert_eq!(RemoteSource::Stdlib.as_str(), "stdlib");
}
