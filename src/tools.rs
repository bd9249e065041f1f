//! The helper executables, where each one is published, and the descriptor
//! that tells the acquisition steps what to fetch for a platform.
use vstd::prelude::*;
use vstd::string::*;

use crate::text::{concat3, concat5, ends_with, is_suffix};

verus! {

/// A helper executable the build may need.
#[derive(Debug, Clone, Copy, PartialEq, Eq, Structural, Hash)]
pub enum Exe {
    CargoGenerate,
    Sass,
    WasmOpt,
    Tailwind,
}

#[derive(Debug, Clone, Copy, PartialEq, Eq, Structural)]
pub enum TargetOs {
    Linux,
    Macos,
    Windows,
    Other,
}

#[derive(Debug, Clone, Copy, PartialEq, Eq, Structural)]
pub enum TargetArch {
    X86_64,
    Aarch64,
    Other,
}

/// The host a release is picked for; `musl` tells a musl libc apart from glibc on Linux.
#[derive(Debug, Clone, Copy, PartialEq, Eq, Structural)]
pub struct Platform {
    pub os: TargetOs,
    pub arch: TargetArch,
    pub musl: bool,
}

/// How a downloaded release is laid out.
#[derive(Debug, Clone, Copy, PartialEq, Eq, Structural)]
pub enum ArchiveKind {
    Zip,
    TarGz,
    Raw,
}

/// Why an executable could not be made ready.
#[derive(Debug, Clone, PartialEq, Eq)]
pub enum ToolError {
    /// No release of the tool is published for the platform.
    UnsupportedPlatform { tool: Exe },
    /// The tool is not on the search path and downloads are disabled.
    MissingRequiredTool { name: String, manual: String },
    DownloadFailed { name: String, url: String, reason: String, manual: String },
    ExtractFailed { name: String, dir: String, reason: String, manual: String },
    ExtractedButNotFound { name: String, dir: String, manual: String },
}

/// Everything needed to fetch one version of one tool.
#[derive(Debug, Clone)]
pub struct ExeMeta {
    pub name: String,
    pub version: String,
    pub url: String,
    pub exe: String,
    pub manual: String,
}

pub open spec fn name_of(e: Exe) -> Seq<char> {
    match e {
        Exe::CargoGenerate => "cargo-generate"@,
        Exe::Sass => "sass"@,
        Exe::WasmOpt => "wasm-opt"@,
        Exe::Tailwind => "tailwindcss"@,
    }
}

pub open spec fn manual_of(e: Exe) -> Seq<char> {
    match e {
        Exe::CargoGenerate => "Try manually installing cargo-generate: https://github.com/cargo-generate/cargo-generate#installation"@,
        Exe::Sass => "Try manually installing sass: https://sass-lang.com/install"@,
        Exe::WasmOpt => "Try manually installing binaryen: https://github.com/WebAssembly/binaryen"@,
        Exe::Tailwind => "Try manually installing tailwindcss"@,
    }
}

pub open spec fn cargo_generate_target(p: Platform) -> Option<Seq<char>> {
    match (p.os, p.arch) {
        (TargetOs::Macos, TargetArch::Aarch64) => Some("-aarch64-apple-darwin.tar.gz"@),
        (TargetOs::Linux, TargetArch::Aarch64) => Some("-aarch64-unknown-linux-gnu.tar.gz"@),
        (TargetOs::Macos, TargetArch::X86_64) => Some("-x86_64-apple-darwin.tar.gz"@),
        (TargetOs::Windows, TargetArch::X86_64) => Some("-x86_64-pc-windows-msvc.tar.gz"@),
        (TargetOs::Linux, TargetArch::X86_64) => Some("-x86_64-unknown-linux-gnu.tar.gz"@),
        _ => None,
    }
}

/// The release file of sass for a platform, and the repository that publishes it.
pub open spec fn sass_target(p: Platform) -> Option<(Seq<char>, Seq<char>)> {
    let musl = "https://github.com/dart-musl/dart-sass/releases/download/"@;
    let glibc = "https://github.com/sass/dart-sass/releases/download/"@;
    match (p.os, p.arch, p.musl) {
        (TargetOs::Linux, TargetArch::X86_64, true) => Some((musl, "-linux-x64.tar.gz"@)),
        (TargetOs::Linux, TargetArch::Aarch64, true) => Some((musl, "-linux-arm64.tar.gz"@)),
        (TargetOs::Windows, TargetArch::X86_64, _) => Some((glibc, "-windows-x64.zip"@)),
        (TargetOs::Macos, TargetArch::X86_64, _) => Some((glibc, "-macos-x64.tar.gz"@)),
        (TargetOs::Linux, TargetArch::X86_64, false) => Some((glibc, "-linux-x64.tar.gz"@)),
        (TargetOs::Macos, TargetArch::Aarch64, _) => Some((glibc, "-macos-arm64.tar.gz"@)),
        (TargetOs::Linux, TargetArch::Aarch64, false) => Some((glibc, "-linux-arm64.tar.gz"@)),
        _ => None,
    }
}

pub open spec fn wasm_opt_target(p: Platform) -> Option<Seq<char>> {
    match (p.os, p.arch) {
        (TargetOs::Linux, _) => Some("-x86_64-linux.tar.gz"@),
        (TargetOs::Windows, _) => Some("-x86_64-windows.tar.gz"@),
        (TargetOs::Macos, TargetArch::Aarch64) => Some("-arm64-macos.tar.gz"@),
        (TargetOs::Macos, TargetArch::X86_64) => Some("-x86_64-macos.tar.gz"@),
        _ => None,
    }
}

/// The tailwind release file for a platform; it is also the executable's name.
pub open spec fn tailwind_file(p: Platform) -> Option<Seq<char>> {
    match (p.os, p.arch) {
        (TargetOs::Windows, TargetArch::X86_64) => Some("tailwindcss-windows-x64.exe"@),
        (TargetOs::Macos, TargetArch::X86_64) => Some("tailwindcss-macos-x64"@),
        (TargetOs::Macos, TargetArch::Aarch64) => Some("tailwindcss-macos-arm64"@),
        (TargetOs::Linux, TargetArch::X86_64) => Some("tailwindcss-linux-x64"@),
        (TargetOs::Linux, TargetArch::Aarch64) => Some("tailwindcss-linux-arm64"@),
        _ => None,
    }
}

/// Whether a release of the tool is published for the platform.
pub open spec fn supported(e: Exe, p: Platform) -> bool {
    match e {
        Exe::CargoGenerate => cargo_generate_target(p) is Some,
        Exe::Sass => sass_target(p) is Some,
        Exe::WasmOpt => wasm_opt_target(p) is Some,
        Exe::Tailwind => tailwind_file(p) is Some,
    }
}

/// The download address of version `v` of the tool for a supported platform.
pub open spec fn url_of(e: Exe, v: Seq<char>, p: Platform) -> Seq<char> {
    match e {
        Exe::CargoGenerate => "https://github.com/cargo-generate/cargo-generate/releases/download/v"@
            + v + "/cargo-generate-v"@ + v + cargo_generate_target(p).unwrap(),
        Exe::Sass => sass_target(p).unwrap().0 + v + "/dart-sass-"@ + v + sass_target(p).unwrap().1,
        Exe::WasmOpt => "https://github.com/WebAssembly/binaryen/releases/download/"@ + v
            + "/binaryen-"@ + v + wasm_opt_target(p).unwrap(),
        Exe::Tailwind => "https://github.com/tailwindlabs/tailwindcss/releases/download/"@ + v
            + "/"@ + tailwind_file(p).unwrap(),
    }
}

/// Where the executable sits inside its cache entry, for a supported platform.
pub open spec fn exe_path_of(e: Exe, v: Seq<char>, p: Platform) -> Seq<char> {
    let win = p.os == TargetOs::Windows;
    match e {
        Exe::CargoGenerate => if win { "cargo-generate.exe"@ } else { "cargo-generate"@ },
        Exe::Sass => if win { "dart-sass/sass.bat"@ } else { "dart-sass/sass"@ },
        Exe::WasmOpt => "binaryen-"@ + v + if win { "/bin/wasm-opt.exe"@ } else { "/bin/wasm-opt"@ },
        Exe::Tailwind => tailwind_file(p).unwrap(),
    }
}

/// The archive layout that a download address announces by its suffix.
pub open spec fn kind_of_url(url: Seq<char>) -> ArchiveKind {
    if is_suffix(".zip"@, url) {
        ArchiveKind::Zip
    } else if is_suffix(".tar.gz"@, url) {
        ArchiveKind::TarGz
    } else {
        ArchiveKind::Raw
    }
}

pub open spec fn https_github(url: Seq<char>) -> bool {
    url.len() > 19 && url.subrange(0, 19) == "https://github.com/"@
}

/// Text of the fixed data of a tool.
pub open spec fn meta_matches(m: ExeMeta, e: Exe, v: Seq<char>, p: Platform) -> bool {
    &&& m.name@ == name_of(e)
    &&& m.version@ == v
    &&& m.url@ == url_of(e, v, p)
    &&& m.exe@ == exe_path_of(e, v, p)
    &&& m.manual@ == manual_of(e)
}

proof fn lemma_github_prefix(lit: Seq<char>, rest: Seq<char>)
    requires
        lit.len() >= 19,
        lit.subrange(0, 19) == "https://github.com/"@,
    ensures
        https_github(lit + rest) || (lit + rest).len() <= 19,
{
    assert((lit + rest).subrange(0, 19) =~= lit.subrange(0, 19));
}

/// For a platform that the tool publishes a release for, the descriptor points
/// at a GitHub release over https and names a non-empty executable path. (For
/// any other platform `meta` fails with `UnsupportedPlatform`; it fetches
/// nothing in either case.)
pub proof fn lemma_descriptor_well_formed(e: Exe, v: Seq<char>, p: Platform)
    requires
        supported(e, p),
    ensures
        https_github(url_of(e, v, p)),
        exe_path_of(e, v, p).len() > 0,
{
    reveal_strlit("https://github.com/cargo-generate/cargo-generate/releases/download/v");
    reveal_strlit("https://github.com/dart-musl/dart-sass/releases/download/");
    reveal_strlit("https://github.com/sass/dart-sass/releases/download/");
    reveal_strlit("https://github.com/WebAssembly/binaryen/releases/download/");
    reveal_strlit("https://github.com/tailwindlabs/tailwindcss/releases/download/");
    reveal_strlit("https://github.com/");
    reveal_strlit("cargo-generate.exe");
    reveal_strlit("cargo-generate");
    reveal_strlit("dart-sass/sass.bat");
    reveal_strlit("dart-sass/sass");
    reveal_strlit("binaryen-");
    reveal_strlit("tailwindcss-windows-x64.exe");
    reveal_strlit("tailwindcss-macos-x64");
    reveal_strlit("tailwindcss-macos-arm64");
    reveal_strlit("tailwindcss-linux-x64");
    reveal_strlit("tailwindcss-linux-arm64");
    let u = url_of(e, v, p);
    match e {
        Exe::CargoGenerate => {
            let lit = "https://github.com/cargo-generate/cargo-generate/releases/download/v"@;
            assert(lit.subrange(0, 19) =~= "https://github.com/"@);
            lemma_github_prefix(lit, v + "/cargo-generate-v"@ + v + cargo_generate_target(p).unwrap());
            assert(u =~= lit + (v + "/cargo-generate-v"@ + v + cargo_generate_target(p).unwrap()));
        },
        Exe::Sass => {
            let lit = sass_target(p).unwrap().0;
            assert(lit.subrange(0, 19) =~= "https://github.com/"@);
            lemma_github_prefix(lit, v + "/dart-sass-"@ + v + sass_target(p).unwrap().1);
            assert(u =~= lit + (v + "/dart-sass-"@ + v + sass_target(p).unwrap().1));
        },
        Exe::WasmOpt => {
            let lit = "https://github.com/WebAssembly/binaryen/releases/download/"@;
            assert(lit.subrange(0, 19) =~= "https://github.com/"@);
            lemma_github_prefix(lit, v + "/binaryen-"@ + v + wasm_opt_target(p).unwrap());
            assert(u =~= lit + (v + "/binaryen-"@ + v + wasm_opt_target(p).unwrap()));
        },
        Exe::Tailwind => {
            let lit = "https://github.com/tailwindlabs/tailwindcss/releases/download/"@;
            assert(lit.subrange(0, 19) =~= "https://github.com/"@);
            lemma_github_prefix(lit, v + "/"@ + tailwind_file(p).unwrap());
            assert(u =~= lit + (v + "/"@ + tailwind_file(p).unwrap()));
        },
    }
}

impl Exe {
    /// The command name, looked up on the search path and used in cache entry names.
    pub fn name(&self) -> (r: &'static str)
        ensures
            r@ == name_of(*self),
    {
        match self {
            Exe::CargoGenerate => "cargo-generate",
            Exe::Sass => "sass",
            Exe::WasmOpt => "wasm-opt",
            Exe::Tailwind => "tailwindcss",
        }
    }

    /// Advice shown when the tool cannot be made ready automatically.
    pub fn manual(&self) -> (r: &'static str)
        ensures
            r@ == manual_of(*self),
    {
        match self {
            Exe::CargoGenerate => "Try manually installing cargo-generate: https://github.com/cargo-generate/cargo-generate#installation",
            Exe::Sass => "Try manually installing sass: https://sass-lang.com/install",
            Exe::WasmOpt => "Try manually installing binaryen: https://github.com/WebAssembly/binaryen",
            Exe::Tailwind => "Try manually installing tailwindcss",
        }
    }

    /// The descriptor of version `version` of the tool for a platform, or
    /// `UnsupportedPlatform` when no release is published for it.
    pub fn meta(&self, version: &str, platform: Platform) -> (r: Result<ExeMeta, ToolError>)
        ensures
            r is Ok <==> supported(*self, platform),
            r is Ok ==> meta_matches(r->Ok_0, *self, version@, platform),
            r is Err ==> r == Err::<ExeMeta, ToolError>(ToolError::UnsupportedPlatform { tool: *self }),
    {
        let win = platform.os == TargetOs::Windows;
        let (url, exe) = match self {
            Exe::CargoGenerate => {
                let target = match (platform.os, platform.arch) {
                    (TargetOs::Macos, TargetArch::Aarch64) => "-aarch64-apple-darwin.tar.gz",
                    (TargetOs::Linux, TargetArch::Aarch64) => "-aarch64-unknown-linux-gnu.tar.gz",
                    (TargetOs::Macos, TargetArch::X86_64) => "-x86_64-apple-darwin.tar.gz",
                    (TargetOs::Windows, TargetArch::X86_64) => "-x86_64-pc-windows-msvc.tar.gz",
                    (TargetOs::Linux, TargetArch::X86_64) => "-x86_64-unknown-linux-gnu.tar.gz",
                    _ => return Err(ToolError::UnsupportedPlatform { tool: *self }),
                };
                let url = concat5(
                    "https://github.com/cargo-generate/cargo-generate/releases/download/v",
                    version,
                    "/cargo-generate-v",
                    version,
                    target,
                );
                let exe = if win {
                    String::from_str("cargo-generate.exe")
                } else {
                    String::from_str("cargo-generate")
                };
                (url, exe)
            },
            Exe::Sass => {
                let musl = "https://github.com/dart-musl/dart-sass/releases/download/";
                let glibc = "https://github.com/sass/dart-sass/releases/download/";
                let (base, file) = match (platform.os, platform.arch, platform.musl) {
                    (TargetOs::Linux, TargetArch::X86_64, true) => (musl, "-linux-x64.tar.gz"),
                    (TargetOs::Linux, TargetArch::Aarch64, true) => (musl, "-linux-arm64.tar.gz"),
                    (TargetOs::Windows, TargetArch::X86_64, _) => (glibc, "-windows-x64.zip"),
                    (TargetOs::Macos, TargetArch::X86_64, _) => (glibc, "-macos-x64.tar.gz"),
                    (TargetOs::Linux, TargetArch::X86_64, false) => (glibc, "-linux-x64.tar.gz"),
                    (TargetOs::Macos, TargetArch::Aarch64, _) => (glibc, "-macos-arm64.tar.gz"),
                    (TargetOs::Linux, TargetArch::Aarch64, false) => (glibc, "-linux-arm64.tar.gz"),
                    _ => return Err(ToolError::UnsupportedPlatform { tool: *self }),
                };
                let url = concat5(base, version, "/dart-sass-", version, file);
                let exe = if win {
                    String::from_str("dart-sass/sass.bat")
                } else {
                    String::from_str("dart-sass/sass")
                };
                (url, exe)
            },
            Exe::WasmOpt => {
                let target = match (platform.os, platform.arch) {
                    (TargetOs::Linux, _) => "-x86_64-linux.tar.gz",
                    (TargetOs::Windows, _) => "-x86_64-windows.tar.gz",
                    (TargetOs::Macos, TargetArch::Aarch64) => "-arm64-macos.tar.gz",
                    (TargetOs::Macos, TargetArch::X86_64) => "-x86_64-macos.tar.gz",
                    _ => return Err(ToolError::UnsupportedPlatform { tool: *self }),
                };
                let url = concat5(
                    "https://github.com/WebAssembly/binaryen/releases/download/",
                    version,
                    "/binaryen-",
                    version,
                    target,
                );
                let bin = if win {
                    "/bin/wasm-opt.exe"
                } else {
                    "/bin/wasm-opt"
                };
                (url, concat3("binaryen-", version, bin))
            },
            Exe::Tailwind => {
                let file = match (platform.os, platform.arch) {
                    (TargetOs::Windows, TargetArch::X86_64) => "tailwindcss-windows-x64.exe",
                    (TargetOs::Macos, TargetArch::X86_64) => "tailwindcss-macos-x64",
                    (TargetOs::Macos, TargetArch::Aarch64) => "tailwindcss-macos-arm64",
                    (TargetOs::Linux, TargetArch::X86_64) => "tailwindcss-linux-x64",
                    (TargetOs::Linux, TargetArch::Aarch64) => "tailwindcss-linux-arm64",
                    _ => return Err(ToolError::UnsupportedPlatform { tool: *self }),
                };
                let url = concat3(
                    "https://github.com/tailwindlabs/tailwindcss/releases/download/",
                    version,
                    "/",
                );
                let url = concat3(url.as_str(), file, "");
                proof {
                    reveal_strlit("");
                }
                assert(url@ =~= url_of(*self, version@, platform));
                (url, String::from_str(file))
            },
        };
        Ok(
            ExeMeta {
                name: String::from_str(self.name()),
                version: String::from_str(version),
                url,
                exe,
                manual: String::from_str(self.manual()),
            },
        )
    }
}

/// The archive layout of a download, read from the suffix of its address.
pub fn archive_kind(url: &str) -> (r: ArchiveKind)
    ensures
        r == kind_of_url(url@),
{
    if ends_with(url, ".zip") {
        ArchiveKind::Zip
    } else if ends_with(url, ".tar.gz") {
        ArchiveKind::TarGz
    } else {
        ArchiveKind::Raw
    }
}

} // verus!
