use sasl2_sys::config::{Features, Metadata, Platform, Variable};
use sasl2_sys::discover::DirPath;
use sasl2_sys::vendored::{
    build_order, c_flags, configure_args, configure_command, cpp_flags, install_dir, is_bsd,
    make_command, make_program, parallelism, source_directives, staging_command, staging_dir,
    BuildEnv, BuildStep, Command, OpensslDirs, Parallelism,
};

fn build_metadata(host: &str, target: &str) -> Metadata {
    Metadata {
        host: host.to_string(),
        target: target.to_string(),
        want_static: None,
        out_dir: "/tmp/out".to_string(),
    }
}

fn native() -> Metadata {
    build_metadata("x86_64-unknown-linux-gnu", "x86_64-unknown-linux-gnu")
}

fn no_plugins() -> Features {
    Features {
        vendored: true,
        gssapi_vendored: false,
        plain: false,
        scram: false,
        pkg_config: false,
        openssl_sys: false,
    }
}

fn bare_env() -> BuildEnv {
    BuildEnv {
        cppflags: None,
        cflags: None,
        openssl: None,
        krb5_root: None,
        num_jobs: None,
        makeflags: None,
        compiler: "cc".to_string(),
    }
}

fn strings(items: &[&str]) -> Vec<String> {
    items.iter().map(|s| s.to_string()).collect()
}

#[test]
fn the_build_keeps_to_its_own_directories() {
    let metadata = native();
    assert_eq!(
        staging_dir(&metadata),
        DirPath { root: "/tmp/out".to_string(), below: strings(&["sasl2"]) }
    );
    assert_eq!(
        install_dir(&metadata),
        DirPath { root: "/tmp/out".to_string(), below: strings(&["install"]) }
    );
}

#[test]
fn staging_copies_the_tree_once() {
    assert_eq!(
        staging_command(false, "/tmp/out/sasl2"),
        Some(Command {
            program: "cp".to_string(),
            args: strings(&["-R", "sasl2", "/tmp/out/sasl2"]),
            env: Vec::new(),
        })
    );
    assert_eq!(staging_command(true, "/tmp/out/sasl2"), None);
}

#[test]
fn a_second_staging_is_a_no_op() {
    let mut staged = false;
    let mut copies: usize = 0;
    for _ in 0..3 {
        if staging_command(staged, "/tmp/out/sasl2").is_some() {
            copies += 1;
        }
        staged = true;
    }
    assert_eq!(copies, 1);
}

#[test]
fn writes_the_flags() {
    let mut env = bare_env();
    assert_eq!(cpp_flags(&env, &no_plugins()), "");
    assert_eq!(c_flags(&env), " -fPIC");
    env.cppflags = Some("-DX".to_string());
    env.cflags = Some("-O2".to_string());
    env.openssl = Some(OpensslDirs {
        include_dir: "/ssl/include".to_string(),
        lib_dir: "/ssl/lib".to_string(),
    });
    assert_eq!(cpp_flags(&env, &no_plugins()), "-DX");
    assert_eq!(c_flags(&env), "-O2 -fPIC");
    let mut with_openssl = no_plugins();
    with_openssl.openssl_sys = true;
    assert_eq!(cpp_flags(&env, &with_openssl), "-DX -I/ssl/include");
    env.openssl = None;
    assert_eq!(cpp_flags(&env, &with_openssl), "-DX");
}

#[test]
fn without_plugin_toggles_every_plugin_is_disabled() {
    let args = configure_args("/tmp/out/install", &bare_env(), &no_plugins(), &native()).unwrap();
    assert_eq!(
        args,
        strings(&[
            "--prefix=/tmp/out/install",
            "--enable-static",
            "--disable-shared",
            "--disable-sample",
            "--disable-checkapop",
            "--disable-cram",
            "--disable-scram",
            "--disable-digest",
            "--disable-otp",
            "--disable-gssapi",
            "--disable-plain",
            "--disable-scram",
            "--disable-anon",
            "--with-dblib=none",
            "--with-pic",
            "CPPFLAGS=",
            "CFLAGS= -fPIC",
            "CC=cc",
        ])
    );
    for plugin in ["gssapi", "plain", "scram"] {
        assert!(args.contains(&format!("--disable-{}", plugin)));
        assert!(!args.iter().any(|a| a.starts_with(&format!("--enable-{}", plugin))));
    }
    let enabling: Vec<&String> = args.iter().filter(|a| a.starts_with("--enable-")).collect();
    assert_eq!(enabling, vec!["--enable-static"]);
}

#[test]
fn each_toggle_enables_its_plugin() {
    let mut env = bare_env();
    env.krb5_root = Some("/krb5".to_string());
    let mut features = no_plugins();
    features.gssapi_vendored = true;
    features.plain = true;
    features.scram = true;
    let args = configure_args("/i", &env, &features, &native()).unwrap();
    assert_eq!(args[9], "--enable-gssapi=/krb5");
    assert_eq!(args[10], "--enable-plain");
    assert_eq!(args[11], "--enable-scram");
    assert_eq!(args[6], "--disable-scram");
    assert_eq!(args.len(), 18);
}

#[test]
fn gssapi_needs_a_bundled_kerberos() {
    let mut features = no_plugins();
    features.gssapi_vendored = true;
    assert_eq!(configure_args("/i", &bare_env(), &features, &native()), Err(Variable::Krb5SrcRoot));
    assert_eq!(
        configure_command("/s/configure", "/i", &bare_env(), &features, &native()),
        Err(Variable::Krb5SrcRoot)
    );
}

#[test]
fn a_darwin_target_switches_the_framework_off() {
    let metadata = build_metadata("x86_64-apple-darwin", "x86_64-apple-darwin");
    let args = configure_args("/i", &bare_env(), &no_plugins(), &metadata).unwrap();
    assert_eq!(args.len(), 19);
    assert_eq!(args[18], "--disable-macos-framework");
}

#[test]
fn a_cross_build_names_both_machines() {
    let metadata = build_metadata("x86_64-unknown-linux-gnu", "aarch64-apple-darwin");
    let args = configure_args("/i", &bare_env(), &no_plugins(), &metadata).unwrap();
    assert_eq!(
        args[18..].to_vec(),
        strings(&[
            "--disable-macos-framework",
            "--build=x86_64-unknown-linux-gnu",
            "--host=aarch64-apple-darwin",
        ])
    );
    let command =
        configure_command("/s/configure", "/i", &bare_env(), &no_plugins(), &metadata).unwrap();
    assert_eq!(command.program, "/s/configure");
    assert_eq!(command.args, args);
    assert_eq!(
        command.env,
        vec![("ac_cv_gssapi_supports_spnego".to_string(), "yes".to_string())]
    );
}

#[test]
fn a_native_build_forces_no_answer() {
    let command =
        configure_command("/s/configure", "/i", &bare_env(), &no_plugins(), &native()).unwrap();
    assert_eq!(command.env, Vec::new());
    assert_eq!(command.args.len(), 18);
}

#[test]
fn knows_the_bsd_systems() {
    for host in ["x86_64-unknown-freebsd", "x86_64-unknown-netbsd", "x86_64-unknown-openbsd", "x86_64-unknown-dragonflybsd"] {
        assert!(is_bsd(host));
        assert_eq!(make_program(host), "gmake");
    }
    for host in ["x86_64-unknown-linux-gnu", "x86_64-apple-darwin", "", "bsd"] {
        assert!(!is_bsd(host));
        assert_eq!(make_program(host), "make");
    }
}

#[test]
fn shares_the_job_server_where_it_can() {
    let mut env = bare_env();
    assert_eq!(
        parallelism(&env, Platform::Unix),
        Parallelism { make_flags: String::new(), job_args: Vec::new() }
    );
    env.makeflags = Some("--jobserver-auth=3,4".to_string());
    assert_eq!(
        parallelism(&env, Platform::Unix),
        Parallelism { make_flags: String::new(), job_args: Vec::new() }
    );
    env.num_jobs = Some("8".to_string());
    assert_eq!(
        parallelism(&env, Platform::Unix),
        Parallelism { make_flags: "--jobserver-auth=3,4".to_string(), job_args: Vec::new() }
    );
    assert_eq!(
        parallelism(&env, Platform::Windows),
        Parallelism { make_flags: String::new(), job_args: strings(&["-j8"]) }
    );
    env.makeflags = None;
    assert_eq!(
        parallelism(&env, Platform::Unix),
        Parallelism { make_flags: String::new(), job_args: strings(&["-j8"]) }
    );
}

#[test]
fn builds_the_directories_in_dependency_order() {
    assert_eq!(build_order(), strings(&["include", "common", "lib"]));
}

#[test]
fn writes_the_command_of_the_build_tool() {
    let shared = Parallelism { make_flags: "-j --jobserver-auth=3,4".to_string(), job_args: Vec::new() };
    assert_eq!(
        make_command("x86_64-unknown-linux-gnu", &shared),
        Command {
            program: "make".to_string(),
            args: strings(&["install"]),
            env: vec![("MAKEFLAGS".to_string(), "-j --jobserver-auth=3,4".to_string())],
        }
    );
    let counted = Parallelism { make_flags: String::new(), job_args: strings(&["-j4"]) };
    assert_eq!(
        make_command("x86_64-unknown-freebsd", &counted),
        Command {
            program: "gmake".to_string(),
            args: strings(&["-j4", "install"]),
            env: vec![("MAKEFLAGS".to_string(), String::new())],
        }
    );
}

#[test]
fn a_plain_source_build_emits_three_directives() {
    let lines = source_directives(
        Platform::Unix,
        "/tmp/out/install/lib",
        "/tmp/out/install",
        None,
        &no_plugins(),
        &native(),
    );
    assert_eq!(
        lines,
        Ok(strings(&[
            "cargo:rustc-link-search=native=/tmp/out/install/lib",
            "cargo:rustc-link-lib=static=sasl2",
            "cargo:root=/tmp/out/install",
        ]))
    );
    let windows = source_directives(Platform::Windows, "l", "i", None, &no_plugins(), &native());
    assert_eq!(
        windows,
        Ok(strings(&[
            "cargo:rustc-link-search=native=l",
            "cargo:rustc-link-lib=static=libsasl",
            "cargo:root=i",
        ]))
    );
}

#[test]
fn gssapi_adds_its_dependencies_in_order() {
    let mut features = no_plugins();
    features.gssapi_vendored = true;
    let lines =
        source_directives(Platform::Unix, "/o/lib", "/o", Some("/krb5/lib"), &features, &native());
    assert_eq!(
        lines,
        Ok(strings(&[
            "cargo:rustc-link-search=native=/o/lib",
            "cargo:rustc-link-lib=static=sasl2",
            "cargo:root=/o",
            "cargo:rustc-link-search=native=/krb5/lib",
            "cargo:rustc-link-lib=static=gssapi_krb5",
            "cargo:rustc-link-lib=static=krb5",
            "cargo:rustc-link-lib=static=k5crypto",
            "cargo:rustc-link-lib=static=com_err",
            "cargo:rustc-link-lib=static=krb5support",
            "cargo:rustc-link-lib=resolv",
        ]))
    );
}

#[test]
fn the_resolver_is_left_out_on_bsd_and_across_machines() {
    let mut features = no_plugins();
    features.gssapi_vendored = true;
    let bsd = build_metadata("x86_64-unknown-freebsd", "x86_64-unknown-freebsd");
    let cross = build_metadata("x86_64-unknown-linux-gnu", "aarch64-unknown-linux-gnu");
    for metadata in [bsd, cross] {
        let lines =
            source_directives(Platform::Unix, "/o/lib", "/o", Some("/k/lib"), &features, &metadata)
                .unwrap();
        assert_eq!(lines.len(), 9);
        assert_eq!(lines[8], "cargo:rustc-link-lib=static=krb5support");
    }
}

#[test]
fn linking_kerberos_needs_its_directory() {
    let mut features = no_plugins();
    features.gssapi_vendored = true;
    assert_eq!(
        source_directives(Platform::Unix, "/o/lib", "/o", None, &features, &native()),
        Err(Variable::Krb5SrcRoot)
    );
    assert_eq!(
        source_directives(Platform::Windows, "/o/lib", "/o", None, &features, &native())
            .map(|lines| lines.len()),
        Ok(3)
    );
}

#[test]
fn names_the_step_that_failed() {
    assert_eq!(BuildStep::Stage.failure(Platform::Unix), "failed making copy of sasl2 tree");
    assert_eq!(BuildStep::Configure.failure(Platform::Unix), "configure failed");
    assert_eq!(BuildStep::Make.failure(Platform::Unix), "make failed");
    assert_eq!(BuildStep::Install.failure(Platform::Unix), "make failed");
    assert_eq!(BuildStep::Stage.failure(Platform::Windows), "copying source tree failed");
    assert_eq!(BuildStep::Make.failure(Platform::Windows), "nmake build failed");
    assert_eq!(BuildStep::Install.failure(Platform::Windows), "nmake install failed");
}
