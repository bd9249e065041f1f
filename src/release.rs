//! Which version of a tool to fetch, and what to tell the user about newer releases.
use vstd::prelude::*;
use vstd::string::*;

use crate::text::{concat3, concat5};
use crate::tools::Exe;
use crate::version::{normalize_version, normalized, older};

verus! {

/// The header value that identifies this client to the release metadata service.
pub const USER_AGENT: &'static str = "cargo-leptos";

/// What a comparison of the requested version with the latest release found.
#[derive(Debug, Clone, Copy, PartialEq, Eq, Structural)]
pub enum Advice {
    /// The requested version is the latest release or newer.
    UpToDate,
    /// A newer release than the requested version exists.
    UpgradeAvailable,
    /// No latest release is known, or one of the two is not a version.
    NotCompared,
}

pub open spec fn display_name_of(e: Exe) -> Seq<char> {
    match e {
        Exe::CargoGenerate => "Cargo Generate"@,
        Exe::Sass => "Sass"@,
        Exe::WasmOpt => "WASM Opt"@,
        Exe::Tailwind => "Tailwind"@,
    }
}

pub open spec fn default_version_of(e: Exe) -> Seq<char> {
    match e {
        Exe::CargoGenerate => "0.17.3"@,
        Exe::Sass => "1.58.3"@,
        Exe::WasmOpt => "version_112"@,
        Exe::Tailwind => "v3.3.3"@,
    }
}

pub open spec fn env_var_of(e: Exe) -> Seq<char> {
    match e {
        Exe::CargoGenerate => "LEPTOS_CARGO_GENERATE_VERSION"@,
        Exe::Sass => "LEPTOS_SASS_VERSION"@,
        Exe::WasmOpt => "LEPTOS_WASM_OPT_VERSION"@,
        Exe::Tailwind => "LEPTOS_TAILWIND_VERSION"@,
    }
}

pub open spec fn owner_of(e: Exe) -> Seq<char> {
    match e {
        Exe::CargoGenerate => "cargo-generate"@,
        Exe::Sass => "dart-musl"@,
        Exe::WasmOpt => "WebAssembly"@,
        Exe::Tailwind => "tailwindlabs"@,
    }
}

pub open spec fn repo_of(e: Exe) -> Seq<char> {
    match e {
        Exe::CargoGenerate => "cargo-generate"@,
        Exe::Sass => "dart-sass"@,
        Exe::WasmOpt => "binaryen"@,
        Exe::Tailwind => "tailwindcss"@,
    }
}

/// The requested version: the override when it is set and not empty, else the default.
pub open spec fn candidate_of(e: Exe, env_value: Option<&str>) -> Seq<char> {
    match env_value {
        Some(v) => if v@.len() > 0 { v@ } else { default_version_of(e) },
        None => default_version_of(e),
    }
}

pub open spec fn advice_of(candidate: Seq<char>, latest: Option<&str>) -> Advice {
    match latest {
        Some(l) => match (normalized(candidate), normalized(l@)) {
            (Some(c), Some(n)) => if older(c, n) {
                Advice::UpgradeAvailable
            } else {
                Advice::UpToDate
            },
            _ => Advice::NotCompared,
        },
        None => Advice::NotCompared,
    }
}

impl Exe {
    /// The name the tool is known by in messages and in its freshness marker.
    pub fn display_name(&self) -> (r: &'static str)
        ensures
            r@ == display_name_of(*self),
    {
        match self {
            Exe::CargoGenerate => "Cargo Generate",
            Exe::Sass => "Sass",
            Exe::WasmOpt => "WASM Opt",
            Exe::Tailwind => "Tailwind",
        }
    }

    /// The version fetched when no override is set.
    pub fn default_version(&self) -> (r: &'static str)
        ensures
            r@ == default_version_of(*self),
    {
        match self {
            Exe::CargoGenerate => "0.17.3",
            Exe::Sass => "1.58.3",
            Exe::WasmOpt => "version_112",
            Exe::Tailwind => "v3.3.3",
        }
    }

    /// The environment variable that overrides the requested version.
    pub fn env_var_version_name(&self) -> (r: &'static str)
        ensures
            r@ == env_var_of(*self),
    {
        match self {
            Exe::CargoGenerate => "LEPTOS_CARGO_GENERATE_VERSION",
            Exe::Sass => "LEPTOS_SASS_VERSION",
            Exe::WasmOpt => "LEPTOS_WASM_OPT_VERSION",
            Exe::Tailwind => "LEPTOS_TAILWIND_VERSION",
        }
    }

    pub fn github_owner(&self) -> (r: &'static str)
        ensures
            r@ == owner_of(*self),
    {
        match self {
            Exe::CargoGenerate => "cargo-generate",
            Exe::Sass => "dart-musl",
            Exe::WasmOpt => "WebAssembly",
            Exe::Tailwind => "tailwindlabs",
        }
    }

    pub fn github_repo(&self) -> (r: &'static str)
        ensures
            r@ == repo_of(*self),
    {
        match self {
            Exe::CargoGenerate => "cargo-generate",
            Exe::Sass => "dart-sass",
            Exe::WasmOpt => "binaryen",
            Exe::Tailwind => "tailwindcss",
        }
    }

    /// The version to fetch, given the value of the override variable if it is set.
    pub fn resolve_version(&self, env_value: Option<&str>) -> (r: String)
        ensures
            r@ == candidate_of(*self, env_value),
    {
        match env_value {
            Some(v) => {
                if v.unicode_len() > 0 {
                    String::from_str(v)
                } else {
                    String::from_str(self.default_version())
                }
            },
            None => String::from_str(self.default_version()),
        }
    }

    /// Compares the requested version with the latest release, if one was
    /// obtained. Only the message depends on this: the requested version is
    /// the one fetched either way.
    pub fn version_advice(candidate: &str, latest: Option<&str>) -> (r: Advice)
        ensures
            r == advice_of(candidate@, latest),
    {
        match latest {
            Some(l) => {
                let c = normalize_version(candidate);
                let n = normalize_version(l);
                match (c, n) {
                    (Some(c), Some(n)) => {
                        if c.is_older_than(&n) {
                            Advice::UpgradeAvailable
                        } else {
                            Advice::UpToDate
                        }
                    },
                    _ => Advice::NotCompared,
                }
            },
            None => Advice::NotCompared,
        }
    }

    /// The address of the metadata of the tool's latest release.
    pub fn latest_release_url(&self) -> (r: String)
        ensures
            r@ == "https://api.github.com/repos/"@ + owner_of(*self) + "/"@ + repo_of(*self)
                + "/releases/latest"@,
    {
        concat5(
            "https://api.github.com/repos/",
            self.github_owner(),
            "/",
            self.github_repo(),
            "/releases/latest",
        )
    }

    /// The file name of the tool's freshness marker in the cache root.
    pub fn marker_file_name(&self) -> (r: String)
        ensures
            r@ == "."@ + display_name_of(*self) + "_last_checked"@,
    {
        concat3(".", self.display_name(), "_last_checked")
    }
}

} // verus!
