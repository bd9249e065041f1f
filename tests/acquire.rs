use leptos_tools::{
    Acquisition, Action, ArchiveKind, Event, Exe, ExeCache, Failure, Platform, Stage, TargetArch,
    TargetOs, ToolError,
};

fn linux() -> Platform {
    Platform { os: TargetOs::Linux, arch: TargetArch::X86_64, musl: false }
}

fn sass_cache() -> ExeCache {
    let meta = Exe::Sass.meta("1.58.3", linux()).unwrap();
    ExeCache::new("/cache/cargo-leptos", meta)
}

fn run(acq: &mut Acquisition, events: &[Event]) -> Vec<Action> {
    events.iter().map(|e| acq.step(*e)).collect()
}

#[test]
fn cache_entry_is_nested_one_level() {
    let cache = sass_cache();
    assert_eq!(cache.meta.get_name(), "sass-1.58.3");
    assert_eq!(cache.exe_dir, "/cache/cargo-leptos/sass-1.58.3/sass-1.58.3");
    assert_eq!(cache.exe_path(), "/cache/cargo-leptos/sass-1.58.3/sass-1.58.3/dart-sass/sass");
    assert_eq!(
        cache.exe_in_cache(true).unwrap(),
        "/cache/cargo-leptos/sass-1.58.3/sass-1.58.3/dart-sass/sass"
    );
    assert_eq!(
        cache.exe_in_cache(false).unwrap_err(),
        ToolError::ExtractedButNotFound {
            name: "sass-1.58.3".to_string(),
            dir: "/cache/cargo-leptos/sass-1.58.3/sass-1.58.3".to_string(),
            manual: "Try manually installing sass: https://sass-lang.com/install".to_string(),
        }
    );
}

#[test]
fn search_path_wins() {
    let mut acq = Acquisition::new(sass_cache(), true, false);
    assert_eq!(acq.pending(), Action::LookUpSearchPath);
    assert_eq!(acq.step(Event::Found), Action::ReadyFromSearchPath);
    assert_eq!(acq.stage, Stage::Finished);
    assert_eq!(acq.step(Event::Absent), Action::Halt);
}

#[test]
fn cached_entry_is_reused_without_download() {
    let mut acq = Acquisition::new(sass_cache(), true, false);
    let actions = run(&mut acq, &[Event::Absent, Event::Found, Event::Absent]);
    assert_eq!(actions, vec![Action::CheckExecutable, Action::ReadyFromCache, Action::Halt]);
    assert!(!actions.contains(&Action::Download));
}

#[test]
fn downloads_disabled_fails_at_once() {
    let mut acq = Acquisition::new(sass_cache(), false, false);
    let actions = run(&mut acq, &[Event::Absent, Event::Completed]);
    assert_eq!(actions, vec![Action::Fail(Failure::MissingRequiredTool), Action::Halt]);
    assert_eq!(
        acq.error_for(Failure::MissingRequiredTool, ""),
        ToolError::MissingRequiredTool {
            name: "sass".to_string(),
            manual: "Try manually installing sass: https://sass-lang.com/install".to_string(),
        }
    );
}

#[test]
fn fresh_install_of_the_style_compiler() {
    let mut acq = Acquisition::new(sass_cache(), true, false);
    let actions = run(
        &mut acq,
        &[Event::Absent, Event::Absent, Event::Completed, Event::Completed, Event::Completed, Event::Found],
    );
    assert_eq!(
        actions,
        vec![
            Action::CheckExecutable,
            Action::Download,
            Action::Unpack(ArchiveKind::TarGz),
            Action::SetReadExecute,
            Action::CheckExecutable,
            Action::ReadyFromCache,
        ]
    );
    assert_eq!(actions.iter().filter(|a| **a == Action::Download).count(), 1);
    assert_eq!(acq.cache.exe_path(), "/cache/cargo-leptos/sass-1.58.3/sass-1.58.3/dart-sass/sass");

    let mut again = Acquisition::new(sass_cache(), true, false);
    let actions = run(&mut again, &[Event::Absent, Event::Found]);
    assert_eq!(actions, vec![Action::CheckExecutable, Action::ReadyFromCache]);
}

#[test]
fn windows_skips_permissions() {
    let p = Platform { os: TargetOs::Windows, arch: TargetArch::X86_64, musl: false };
    let meta = Exe::Tailwind.meta("v3.3.3", p).unwrap();
    let mut acq = Acquisition::new(ExeCache::new("C:/cache", meta), true, true);
    let actions = run(&mut acq, &[Event::Absent, Event::Absent, Event::Completed, Event::Completed, Event::Found]);
    assert_eq!(
        actions,
        vec![
            Action::CheckExecutable,
            Action::Download,
            Action::Unpack(ArchiveKind::Raw),
            Action::CheckExecutable,
            Action::ReadyFromCache,
        ]
    );
}

#[test]
fn failures_end_the_acquisition() {
    let mut acq = Acquisition::new(sass_cache(), true, false);
    let actions = run(&mut acq, &[Event::Absent, Event::Absent, Event::Failed, Event::Completed]);
    assert_eq!(
        actions,
        vec![Action::CheckExecutable, Action::Download, Action::Fail(Failure::DownloadFailed), Action::Halt]
    );
    assert_eq!(
        acq.error_for(Failure::DownloadFailed, "404"),
        ToolError::DownloadFailed {
            name: "sass-1.58.3".to_string(),
            url: "https://github.com/sass/dart-sass/releases/download/1.58.3/dart-sass-1.58.3-linux-x64.tar.gz".to_string(),
            reason: "404".to_string(),
            manual: "Try manually installing sass: https://sass-lang.com/install".to_string(),
        }
    );

    let mut acq = Acquisition::new(sass_cache(), true, false);
    let actions = run(&mut acq, &[Event::Absent, Event::Absent, Event::Completed, Event::Failed]);
    assert_eq!(actions[3], Action::Fail(Failure::ExtractFailed));

    let mut acq = Acquisition::new(sass_cache(), true, false);
    let actions = run(
        &mut acq,
        &[Event::Absent, Event::Absent, Event::Completed, Event::Completed, Event::Completed, Event::Absent],
    );
    assert_eq!(actions[5], Action::Fail(Failure::ExtractedButNotFound));
    assert_eq!(
        acq.error_for(Failure::ExtractFailed, "disk full"),
        ToolError::ExtractFailed {
            name: "sass-1.58.3".to_string(),
            dir: "/cache/cargo-leptos/sass-1.58.3/sass-1.58.3".to_string(),
            reason: "disk full".to_string(),
            manual: "Try manually installing sass: https://sass-lang.com/install".to_string(),
        }
    );
}

#[test]
fn unexpected_events_repeat_the_request() {
    let mut acq = Acquisition::new(sass_cache(), true, false);
    assert_eq!(acq.step(Event::Completed), Action::LookUpSearchPath);
    assert_eq!(acq.step(Event::Absent), Action::CheckExecutable);
    assert_eq!(acq.step(Event::Failed), Action::CheckExecutable);
    assert_eq!(acq.stage, Stage::CheckCache);
}

#[test]
fn explicit_cache_dir_holds_the_entry() {
    let meta = Exe::WasmOpt.meta("version_112", linux()).unwrap();
    let cache = meta.with_cache_dir("/tmp/entry");
    assert_eq!(cache.exe_dir, "/tmp/entry/wasm-opt-version_112");
    assert_eq!(cache.exe_path(), "/tmp/entry/wasm-opt-version_112/binaryen-version_112/bin/wasm-opt");
}
