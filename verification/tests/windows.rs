use sasl2_sys::config::{Features, Metadata};
use sasl2_sys::discover::DirPath;
use sasl2_sys::vendored::{BuildEnv, Command, OpensslDirs};
use sasl2_sys::windows::{
    build_dir, check_supported, copy_command, copy_succeeded, nmake_command, Refusal,
};

fn windows_metadata(host: &str, target: &str) -> Metadata {
    Metadata {
        host: host.to_string(),
        target: target.to_string(),
        want_static: None,
        out_dir: "C:\\out".to_string(),
    }
}

fn toggles(gssapi_vendored: bool, plain: bool, scram: bool, openssl_sys: bool) -> Features {
    Features { vendored: true, gssapi_vendored, plain, scram, pkg_config: false, openssl_sys }
}

fn windows_env(openssl: bool) -> BuildEnv {
    BuildEnv {
        cppflags: None,
        cflags: None,
        openssl: if openssl {
            Some(OpensslDirs { include_dir: "C:\\ssl\\include".to_string(), lib_dir: "C:\\ssl\\lib".to_string() })
        } else {
            None
        },
        krb5_root: None,
        num_jobs: None,
        makeflags: None,
        compiler: String::new(),
    }
}

fn list(items: &[&str]) -> Vec<String> {
    items.iter().map(|s| s.to_string()).collect()
}

#[test]
fn refuses_what_windows_cannot_build() {
    let msvc = "x86_64-pc-windows-msvc";
    let native = windows_metadata(msvc, msvc);
    let cross = windows_metadata(msvc, "aarch64-pc-windows-msvc");
    assert_eq!(check_supported(&native, &toggles(false, true, true, true)), Ok(()));
    assert_eq!(check_supported(&native, &toggles(true, false, false, false)), Err(Refusal::Gssapi));
    assert_eq!(
        check_supported(&cross, &toggles(false, false, false, false)),
        Err(Refusal::CrossCompilation)
    );
    assert_eq!(
        check_supported(&cross, &toggles(true, false, false, false)),
        Err(Refusal::CrossCompilation)
    );
}

#[test]
fn writes_the_refusals() {
    assert_eq!(
        Refusal::CrossCompilation.message(),
        "cross-compilation on a Windows host is not supported"
    );
    assert_eq!(
        Refusal::Gssapi.message(),
        "the \"gssapi-vendored\" feature is not supported on Windows"
    );
}

#[test]
fn builds_below_the_output_directory() {
    let msvc = "x86_64-pc-windows-msvc";
    assert_eq!(
        build_dir(&windows_metadata(msvc, msvc)),
        DirPath { root: "C:\\out".to_string(), below: list(&["build"]) }
    );
}

#[test]
fn copies_the_tree_with_everything_below_it() {
    assert_eq!(
        copy_command("C:\\out\\build"),
        Command {
            program: "robocopy".to_string(),
            args: list(&["sasl2", "C:\\out\\build", "/s", "/e"]),
            env: Vec::new(),
        }
    );
}

#[test]
fn reads_the_exit_code_of_the_copy() {
    for code in 0..=7 {
        assert!(copy_succeeded(Some(code)));
    }
    for code in [8, 9, 16, -1, i32::MIN, i32::MAX] {
        assert!(!copy_succeeded(Some(code)));
    }
    assert!(!copy_succeeded(None));
}

#[test]
fn writes_the_bare_run_of_the_build_tool() {
    assert_eq!(
        nmake_command("C:\\out\\install", &windows_env(false), &toggles(false, false, false, false), false),
        Command {
            program: "nmake".to_string(),
            args: list(&["/f", "NTMakefile", "prefix=C:\\out\\install"]),
            env: Vec::new(),
        }
    );
}

#[test]
fn writes_the_full_run_of_the_build_tool() {
    assert_eq!(
        nmake_command("C:\\out\\install", &windows_env(true), &toggles(false, true, true, true), true).args,
        list(&[
            "/f",
            "NTMakefile",
            "prefix=C:\\out\\install",
            "STATIC_PLAIN=1",
            "STATIC_SCRAM=1",
            "OPENSSL_INCLUDE=C:\\ssl\\include",
            "OPENSSL_LIBPATH=C:\\ssl\\lib",
            "install",
        ])
    );
}

#[test]
fn leaves_out_what_is_not_asked_for() {
    assert_eq!(
        nmake_command("i", &windows_env(true), &toggles(false, false, true, false), false).args,
        list(&["/f", "NTMakefile", "prefix=i", "STATIC_SCRAM=1"])
    );
    assert_eq!(
        nmake_command("i", &windows_env(false), &toggles(false, true, false, true), true).args,
        list(&["/f", "NTMakefile", "prefix=i", "STATIC_PLAIN=1", "install"])
    );
}
