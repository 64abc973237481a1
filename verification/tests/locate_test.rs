use deno_plugin::download::Tool;
use deno_plugin::locate::{detect_version_files, locate_executables};
use deno_plugin::platform::{Arch, Os, Platform};

#[test]
fn locates_unix_bin() {
    let location = locate_executables(&Tool::deno(), Platform { os: Os::Linux, arch: Arch::Arm64 });
    assert_eq!(Some(location.exe_path), Some("deno".into()));
}

#[test]
fn locates_windows_bin() {
    let location = locate_executables(&Tool::deno(), Platform { os: Os::Windows, arch: Arch::X64 });
    assert_eq!(Some(location.exe_path), Some("deno.exe".into()));
}

#[test]
fn only_windows_appends_the_suffix() {
    for arch in [Arch::X64, Arch::Arm64, Arch::Other] {
        for os in [Os::Linux, Os::MacOS, Os::Other] {
            assert_eq!(locate_executables(&Tool::deno(), Platform { os, arch }).exe_path, "deno");
        }
        let location = locate_executables(&Tool::deno(), Platform { os: Os::Windows, arch });
        assert_eq!(location.exe_path, "deno.exe");
    }
}

#[test]
fn exe_name_appends_even_to_a_name_that_ends_in_exe() {
    assert_eq!(Os::Windows.exe_name("target/debug/deno"), "target/debug/deno.exe");
    assert_eq!(Os::Windows.exe_name("deno.exe"), "deno.exe.exe");
    assert_eq!(Os::MacOS.exe_name("deno.exe"), "deno.exe");
    assert_eq!(Os::Linux.exe_name(""), "");
}

#[test]
fn lists_the_lookup_directories_in_order() {
    let location = locate_executables(&Tool::deno(), Platform { os: Os::MacOS, arch: Arch::Arm64 });
    assert_eq!(
        location.globals_lookup_dirs,
        vec![
            "$DENO_INSTALL_ROOT/bin".to_string(),
            "$DENO_HOME/bin".to_string(),
            "$HOME/.deno/bin".to_string(),
        ]
    );
    assert!(!location.fallback_last_globals_dir);
}

#[test]
fn detects_the_version_file() {
    assert_eq!(detect_version_files(), vec![".dvmrc".to_string()]);
}

#[test]
fn platform_names() {
    assert_eq!(Os::Linux.name(), "linux");
    assert_eq!(Os::MacOS.name(), "macos");
    assert_eq!(Os::Windows.name(), "windows");
    assert_eq!(Os::Other.name(), "other");
    assert_eq!(Arch::X64.name(), "x64");
    assert_eq!(Arch::Arm64.name(), "arm64");
    assert_eq!(Arch::Other.name(), "other");
    assert_eq!(Os::Linux.target_suffix(), Some("unknown-linux-gnu"));
    assert_eq!(Os::MacOS.target_suffix(), Some("apple-darwin"));
    assert_eq!(Os::Windows.target_suffix(), Some("pc-windows-msvc"));
    assert_eq!(Os::Other.target_suffix(), None);
    assert_eq!(Arch::X64.target_token(), Some("x86_64"));
    assert_eq!(Arch::Arm64.target_token(), Some("aarch64"));
    assert_eq!(Arch::Other.target_token(), None);
}
