use sasl2_sys::config::{
    Features, Metadata, Platform, Variable, INCLUDE_DIR_VARIABLE, INSTALL_ROOT_VARIABLE,
    LIB_DIR_VARIABLE, RERUN_DIRECTIVE, STATIC_VARIABLE,
};
use sasl2_sys::discover::{
    after_probe, start, Found, Overrides, Presence, Step, CANDIDATES, DYNAMIC_LIBRARY, HEADER_DIR,
    HEADER_FILE, PACKAGE_NAME, SHARED_OBJECT, STATIC_ARCHIVE,
};
use sasl2_sys::error::BuildError;
use sasl2_sys::vendored::{
    configure_command, make_command, parallelism, unix_plan, BuildEnv, BuildStep, PlannedStep,
    CONFIGURE_SCRIPT, SOURCE_TREE,
};
use sasl2_sys::version::PROBE_FILE;
use sasl2_sys::windows::{nmake_command, windows_plan};

fn plan_metadata(host: &str, target: &str) -> Metadata {
    Metadata {
        host: host.to_string(),
        target: target.to_string(),
        want_static: None,
        out_dir: "/tmp/out".to_string(),
    }
}

fn plan_features(gssapi_vendored: bool) -> Features {
    Features {
        vendored: true,
        gssapi_vendored,
        plain: true,
        scram: false,
        pkg_config: false,
        openssl_sys: false,
    }
}

fn plan_env(num_jobs: Option<&str>) -> BuildEnv {
    BuildEnv {
        cppflags: None,
        cflags: None,
        openssl: None,
        krb5_root: None,
        num_jobs: num_jobs.map(|s| s.to_string()),
        makeflags: None,
        compiler: "gcc".to_string(),
    }
}

#[test]
fn the_tree_is_configured_and_then_built_in_dependency_order() {
    let metadata = plan_metadata("x86_64-unknown-linux-gnu", "x86_64-unknown-linux-gnu");
    let env = plan_env(Some("4"));
    let features = plan_features(false);
    let steps = unix_plan("/tmp/out/sasl2/configure", "/tmp/out/install", &env, &features, &metadata)
        .unwrap();
    let configure =
        configure_command("/tmp/out/sasl2/configure", "/tmp/out/install", &env, &features, &metadata)
            .unwrap();
    let make = make_command(&metadata.host, &parallelism(&env, Platform::Unix));
    assert_eq!(make.args, vec!["-j4".to_string(), "install".to_string()]);
    assert_eq!(
        steps,
        vec![
            PlannedStep { step: BuildStep::Configure, command: configure, below: Vec::new() },
            PlannedStep { step: BuildStep::Make, command: make.clone(), below: vec!["include".to_string()] },
            PlannedStep { step: BuildStep::Make, command: make.clone(), below: vec!["common".to_string()] },
            PlannedStep { step: BuildStep::Make, command: make, below: vec!["lib".to_string()] },
        ]
    );
}

#[test]
fn no_plan_is_made_without_the_kerberos_that_gssapi_needs() {
    let metadata = plan_metadata("h", "h");
    assert_eq!(
        unix_plan("c", "i", &plan_env(None), &plan_features(true), &metadata),
        Err(Variable::Krb5SrcRoot)
    );
    let mut env = plan_env(None);
    env.krb5_root = Some("/krb5".to_string());
    let steps = unix_plan("c", "i", &env, &plan_features(true), &metadata).unwrap();
    assert_eq!(steps.len(), 4);
    assert_eq!(steps[0].command.args[9], "--enable-gssapi=/krb5");
}

#[test]
fn windows_builds_and_then_installs() {
    let env = plan_env(None);
    let features = plan_features(false);
    assert_eq!(
        windows_plan("C:\\out\\install", &env, &features),
        vec![
            PlannedStep {
                step: BuildStep::Make,
                command: nmake_command("C:\\out\\install", &env, &features, false),
                below: Vec::new(),
            },
            PlannedStep {
                step: BuildStep::Install,
                command: nmake_command("C:\\out\\install", &env, &features, true),
                below: Vec::new(),
            },
        ]
    );
}

#[test]
fn only_an_exhausted_search_fails_the_build() {
    assert_eq!(Step::Exhausted.failure(), Some(BuildError::NotFound));
    assert_eq!(Step::AskPackageTool.failure(), None);
    assert_eq!(Step::Probe(0).failure(), None);
    assert_eq!(Step::Found(Found::Package { include_paths: Vec::new() }).failure(), None);
}

#[test]
fn a_search_that_finds_nothing_ends_with_hints() {
    let metadata = plan_metadata("x86_64-unknown-linux-gnu", "x86_64-unknown-linux-gnu");
    let overrides = Overrides { lib_dir: None, include_dir: None, install_root: None };
    let features = Features {
        vendored: false,
        gssapi_vendored: false,
        plain: false,
        scram: false,
        pkg_config: false,
        openssl_sys: false,
    };
    let nothing =
        Presence { static_archive: false, shared_object: false, dynamic_library: false, header: false };
    let mut step = start(&overrides, &features, &metadata);
    let mut probes: usize = 0;
    while let Step::Probe(index) = step {
        assert_eq!(index, probes);
        probes += 1;
        step = after_probe(index, &nothing, &metadata);
    }
    assert_eq!(probes, CANDIDATES);
    assert_eq!(step, Step::Exhausted);
    let message = step.failure().unwrap().message(Platform::Unix);
    assert!(message.contains("libsasl2 development package"));
    assert!(message.contains("`vendored` feature"));
}

#[test]
fn a_library_without_its_header_is_passed_over() {
    let metadata = plan_metadata("h", "h");
    let no_header =
        Presence { static_archive: true, shared_object: true, dynamic_library: true, header: false };
    let no_library =
        Presence { static_archive: false, shared_object: false, dynamic_library: false, header: true };
    assert_eq!(after_probe(0, &no_header, &metadata), Step::Probe(1));
    assert_eq!(after_probe(0, &no_library, &metadata), Step::Probe(1));
}

#[test]
fn names_what_the_build_looks_for() {
    assert_eq!(PACKAGE_NAME, "libsasl2");
    assert_eq!(STATIC_ARCHIVE, "libsasl2.a");
    assert_eq!(SHARED_OBJECT, "libsasl2.so");
    assert_eq!(DYNAMIC_LIBRARY, "libsasl2.dylib");
    assert_eq!((HEADER_DIR, HEADER_FILE), ("sasl", "sasl.h"));
    assert_eq!(PROBE_FILE, "version.c");
    assert_eq!((SOURCE_TREE, CONFIGURE_SCRIPT), ("sasl2", "configure"));
}

#[test]
fn names_the_variables_of_the_environment() {
    assert_eq!(STATIC_VARIABLE, "SASL2_STATIC");
    assert_eq!(LIB_DIR_VARIABLE, "SASL2_LIB_DIR");
    assert_eq!(INCLUDE_DIR_VARIABLE, "SASL2_INCLUDE_DIR");
    assert_eq!(INSTALL_ROOT_VARIABLE, "SASL2_DIR");
    assert_eq!(RERUN_DIRECTIVE, "cargo:rerun-if-env-changed=SASL2_STATIC");
}
