use leptos_tools::{archive_kind, ArchiveKind, Exe, Platform, TargetArch, TargetOs, ToolError};

fn platform(os: TargetOs, arch: TargetArch, musl: bool) -> Platform {
    Platform { os, arch, musl }
}

const ALL_EXES: [Exe; 4] = [Exe::CargoGenerate, Exe::Sass, Exe::WasmOpt, Exe::Tailwind];

#[test]
fn sass_descriptor_on_linux_x86_64() {
    let meta = Exe::Sass
        .meta("1.58.3", platform(TargetOs::Linux, TargetArch::X86_64, false))
        .unwrap();
    assert_eq!(meta.name, "sass");
    assert_eq!(meta.version, "1.58.3");
    assert_eq!(
        meta.url,
        "https://github.com/sass/dart-sass/releases/download/1.58.3/dart-sass-1.58.3-linux-x64.tar.gz"
    );
    assert_eq!(meta.exe, "dart-sass/sass");
    assert_eq!(meta.manual, "Try manually installing sass: https://sass-lang.com/install");
}

#[test]
fn sass_descriptor_on_musl_uses_musl_builds() {
    let meta = Exe::Sass
        .meta("1.58.3", platform(TargetOs::Linux, TargetArch::Aarch64, true))
        .unwrap();
    assert_eq!(
        meta.url,
        "https://github.com/dart-musl/dart-sass/releases/download/1.58.3/dart-sass-1.58.3-linux-arm64.tar.gz"
    );
}

#[test]
fn sass_descriptor_on_windows_is_a_zip() {
    let meta = Exe::Sass
        .meta("1.58.3", platform(TargetOs::Windows, TargetArch::X86_64, false))
        .unwrap();
    assert_eq!(
        meta.url,
        "https://github.com/sass/dart-sass/releases/download/1.58.3/dart-sass-1.58.3-windows-x64.zip"
    );
    assert_eq!(meta.exe, "dart-sass/sass.bat");
    assert_eq!(archive_kind(&meta.url), ArchiveKind::Zip);
}

#[test]
fn cargo_generate_descriptor_on_macos_aarch64() {
    let meta = Exe::CargoGenerate
        .meta("0.17.3", platform(TargetOs::Macos, TargetArch::Aarch64, false))
        .unwrap();
    assert_eq!(
        meta.url,
        "https://github.com/cargo-generate/cargo-generate/releases/download/v0.17.3/cargo-generate-v0.17.3-aarch64-apple-darwin.tar.gz"
    );
    assert_eq!(meta.exe, "cargo-generate");
}

#[test]
fn wasm_opt_descriptor_on_windows() {
    let meta = Exe::WasmOpt
        .meta("version_112", platform(TargetOs::Windows, TargetArch::X86_64, false))
        .unwrap();
    assert_eq!(
        meta.url,
        "https://github.com/WebAssembly/binaryen/releases/download/version_112/binaryen-version_112-x86_64-windows.tar.gz"
    );
    assert_eq!(meta.exe, "binaryen-version_112/bin/wasm-opt.exe");
}

#[test]
fn tailwind_descriptor_is_a_raw_binary() {
    let meta = Exe::Tailwind
        .meta("v3.3.3", platform(TargetOs::Linux, TargetArch::X86_64, false))
        .unwrap();
    assert_eq!(
        meta.url,
        "https://github.com/tailwindlabs/tailwindcss/releases/download/v3.3.3/tailwindcss-linux-x64"
    );
    assert_eq!(meta.exe, "tailwindcss-linux-x64");
    assert_eq!(archive_kind(&meta.url), ArchiveKind::Raw);
}

#[test]
fn every_supported_pair_gives_a_well_formed_descriptor() {
    let oses = [TargetOs::Linux, TargetOs::Macos, TargetOs::Windows];
    let arches = [TargetArch::X86_64, TargetArch::Aarch64];
    for exe in ALL_EXES {
        for os in oses {
            for arch in arches {
                for musl in [false, true] {
                    if musl && os != TargetOs::Linux {
                        continue;
                    }
                    let p = platform(os, arch, musl);
                    let windows_aarch64 = os == TargetOs::Windows && arch == TargetArch::Aarch64;
                    match exe.meta("1.0.0", p) {
                        Ok(meta) => {
                            assert!(meta.url.starts_with("https://github.com/"));
                            assert!(!meta.exe.is_empty());
                        }
                        Err(e) => {
                            assert!(windows_aarch64 && exe != Exe::WasmOpt, "{exe:?} {p:?}");
                            assert_eq!(e, ToolError::UnsupportedPlatform { tool: exe });
                        }
                    }
                }
            }
        }
    }
}

#[test]
fn unsupported_platforms_are_rejected() {
    for exe in ALL_EXES {
        let other_os = exe.meta("1.0.0", platform(TargetOs::Other, TargetArch::X86_64, false));
        assert_eq!(other_os.unwrap_err(), ToolError::UnsupportedPlatform { tool: exe });
    }
    let err = Exe::Tailwind
        .meta("v3.3.3", platform(TargetOs::Windows, TargetArch::Aarch64, false))
        .unwrap_err();
    assert_eq!(err, ToolError::UnsupportedPlatform { tool: Exe::Tailwind });
    let err = Exe::Sass
        .meta("1.58.3", platform(TargetOs::Linux, TargetArch::Other, true))
        .unwrap_err();
    assert_eq!(err, ToolError::UnsupportedPlatform { tool: Exe::Sass });
}

#[test]
fn archive_kind_reads_the_suffix() {
    assert_eq!(archive_kind("a/b.zip"), ArchiveKind::Zip);
    assert_eq!(archive_kind("a/b.tar.gz"), ArchiveKind::TarGz);
    assert_eq!(archive_kind("a/b.gz"), ArchiveKind::Raw);
    assert_eq!(archive_kind("zip"), ArchiveKind::Raw);
    assert_eq!(archive_kind(""), ArchiveKind::Raw);
}
