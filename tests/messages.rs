use cargo_messages::classify::{classify_decoded, parse_message};
use cargo_messages::event::{Artifact, Event};
use cargo_messages::locate::{ArtifactSearch, CargoArtifact, CargoReader, Note, Step};
use cargo_messages::mount::{MountInfo, Options, UnmountError};
use cargo_messages::names::{crate_names_match, normalize};
use cargo_messages::stream::{CargoMessages, RawRead, ReadError};

fn artifact_line(name: &str, kinds: &[&str], paths: &[&str]) -> String {
    let quote = |v: &[&str]| {
        v.iter().map(|s| format!("\"{}\"", s)).collect::<Vec<_>>().join(",")
    };
    format!(
        "{{\"reason\":\"compiler-artifact\",\"package_id\":\"{} 0.1.0\",\
         \"manifest_path\":\"/src/Cargo.toml\",\
         \"target\":{{\"kind\":[\"lib\"],\"crate_types\":[{}],\"name\":\"{}\",\
         \"src_path\":\"/src/lib.rs\",\"edition\":\"2021\",\"doctest\":true,\"test\":true}},\
         \"profile\":{{\"opt_level\":\"0\",\"debuginfo\":2,\"debug_assertions\":true,\
         \"overflow_checks\":true,\"test\":false}},\
         \"features\":[],\"filenames\":[{}],\"executable\":null,\"fresh\":false}}",
        name,
        quote(kinds),
        name,
        quote(paths)
    )
}

const FINISHED_OK: &str = "{\"reason\":\"build-finished\",\"success\":true}";

fn artifact(name: &str, kinds: &[&str], paths: &[&str]) -> Artifact {
    Artifact {
        crate_name: name.to_string(),
        kinds: kinds.iter().map(|s| s.to_string()).collect(),
        paths: paths.iter().map(|s| s.to_string()).collect(),
    }
}

fn text_of(e: &Event) -> Option<&str> {
    match e {
        Event::FreeTextLine(t) => Some(t.as_str()),
        _ => None,
    }
}

/// Feeds reads to a session and a search until the search ends.
fn search(messages: &mut CargoMessages, name: &str, reads: &mut Vec<RawRead>) -> (Step, Vec<Note>) {
    let mut s = ArtifactSearch::new(name);
    let mut notes = Vec::new();
    reads.reverse();
    loop {
        let read = reads.pop().unwrap_or(RawRead::End);
        let item = messages.next(read);
        let (step, note) = s.observe(item);
        notes.push(note);
        match step {
            Step::Continue | Step::Pause => {}
            done => {
                reads.reverse();
                return (done, notes);
            }
        }
    }
}

#[test]
fn plain_text_line_is_free_text() {
    let e = parse_message("   Compiling foo v0.1.0");
    assert_eq!(text_of(&e), Some("   Compiling foo v0.1.0"));
}

#[test]
fn malformed_json_is_free_text() {
    let line = "{\"reason\":\"compiler-artifact\",";
    assert_eq!(text_of(&parse_message(line)), Some(line));
    assert_eq!(text_of(&parse_message("")), Some(""));
}

#[test]
fn unknown_reason_is_free_text() {
    let line = "{\"reason\":\"something-new\",\"x\":1}";
    assert_eq!(text_of(&parse_message(line)), Some(line));
}

#[test]
fn wrong_shape_is_free_text() {
    let line = "{\"reason\":\"build-finished\",\"success\":\"yes\"}";
    assert_eq!(text_of(&parse_message(line)), Some(line));
}

#[test]
fn deeply_nested_payload_does_not_fail() {
    let depth = 2000;
    let line = format!(
        "{{\"reason\":\"build-finished\",\"success\":false,\"extra\":{}{}}}",
        "[".repeat(depth),
        "]".repeat(depth)
    );
    assert!(matches!(parse_message(&line), Event::BuildFinished(false)));
}

#[test]
fn trailing_text_after_message_is_free_text() {
    let line = format!("{} trailing junk", FINISHED_OK);
    assert_eq!(text_of(&parse_message(&line)), Some(line.as_str()));
    let padded = format!("{}   ", FINISHED_OK);
    assert!(matches!(parse_message(&padded), Event::BuildFinished(true)));
}

#[test]
fn normalize_keeps_other_characters() {
    assert_eq!(normalize("-a-\u{e9}--"), "_a_\u{e9}__");
}

#[test]
fn build_finished_is_decoded() {
    assert!(matches!(parse_message(FINISHED_OK), Event::BuildFinished(true)));
}

#[test]
fn compiler_artifact_is_decoded() {
    let line = artifact_line("alpha", &["lib", "cdylib"], &["/t/libalpha.rlib", "/t/libalpha.so"]);
    match parse_message(&line) {
        Event::CompilationArtifact(a) => {
            assert_eq!(a.crate_name, "alpha");
            assert_eq!(a.kinds, vec!["lib".to_string(), "cdylib".to_string()]);
            assert_eq!(a.paths, vec!["/t/libalpha.rlib".to_string(), "/t/libalpha.so".to_string()]);
        }
        _ => panic!("expected an artifact"),
    }
}

#[test]
fn artifact_without_parallel_paths_is_free_text() {
    let line = artifact_line("alpha", &["lib"], &["/t/libalpha.rlib", "/t/libalpha.rmeta"]);
    assert_eq!(text_of(&parse_message(&line)), Some(line.as_str()));
}

#[test]
fn classify_decoded_keeps_or_falls_back() {
    assert_eq!(text_of(&classify_decoded("raw", None)), Some("raw"));
    let bad = artifact("a", &["lib", "bin"], &["/x"]);
    assert_eq!(text_of(&classify_decoded("raw", Some(Event::CompilationArtifact(bad)))), Some("raw"));
    let good = artifact("a", &["lib"], &["/x"]);
    assert!(matches!(
        classify_decoded("raw", Some(Event::CompilationArtifact(good))),
        Event::CompilationArtifact(_)
    ));
    assert!(matches!(classify_decoded("raw", Some(Event::CompilerDiagnostic)), Event::CompilerDiagnostic));
}

#[test]
fn normalize_replaces_hyphens() {
    assert_eq!(normalize("foo-bar-baz"), "foo_bar_baz");
    assert_eq!(normalize("foo_bar"), "foo_bar");
    assert_eq!(normalize(""), "");
}

#[test]
fn crate_names_match_across_hyphens() {
    assert!(crate_names_match("foo_bar", "foo-bar"));
    assert!(crate_names_match("foo-bar", "foo_bar"));
    assert!(!crate_names_match("foo_bar", "foobar"));
}

#[test]
fn search_matches_hyphenated_crate_name() {
    let mut m = CargoMessages::new(None, false);
    let mut reads = vec![RawRead::Line(artifact_line("foo-bar", &["lib"], &["/t/libfoo_bar.rlib"]))];
    match search(&mut m, "foo_bar", &mut reads).0 {
        Step::Found(a) => assert_eq!(a.crate_name, "foo-bar"),
        _ => panic!("expected a match"),
    }
    let mut m = CargoMessages::new(None, false);
    let mut reads = vec![RawRead::Line(artifact_line("foo_bar", &["lib"], &["/t/libfoo_bar.rlib"]))];
    assert!(matches!(search(&mut m, "foo-bar", &mut reads).0, Step::Found(_)));
}

#[test]
fn search_returns_first_match() {
    let mut m = CargoMessages::new(None, false);
    let mut reads = vec![
        RawRead::Line(artifact_line("alpha", &["lib"], &["/first/libalpha.rlib"])),
        RawRead::Line(artifact_line("alpha", &["lib"], &["/second/libalpha.rlib"])),
    ];
    match search(&mut m, "alpha", &mut reads).0 {
        Step::Found(a) => assert_eq!(a.paths, vec!["/first/libalpha.rlib".to_string()]),
        _ => panic!("expected a match"),
    }
    assert_eq!(reads.len(), 1);
}

#[test]
fn end_to_end_file_stream() {
    let mut m = CargoMessages::new(None, false);
    let mut reads = vec![
        RawRead::Line(artifact_line("alpha", &["cdylib"], &["/t/libalpha.so"])),
        RawRead::Line(artifact_line("beta", &["cdylib"], &["/t/libbeta.so"])),
        RawRead::Line(FINISHED_OK.to_string()),
    ];
    let (step, notes) = search(&mut m, "alpha", &mut reads);
    let found = match step {
        Step::Found(a) => a,
        _ => panic!("expected alpha"),
    };
    assert_eq!(found.crate_name, "alpha");
    assert_eq!(notes.len(), 1);
    assert_eq!(reads.len(), 2);
    let located = CargoArtifact::new(found, m.mount_info());
    assert_eq!(located.find_file_by_crate_type("cdylib".to_string(), "").ok(), Some(Some("/t/libalpha.so".to_string())));
    // The same session goes on from where it stopped.
    let (step, notes) = search(&mut m, "alpha", &mut reads);
    assert!(matches!(step, Step::Exhausted));
    assert!(matches!(notes[0], Note::ArtifactSeen(ref n) if n == "beta"));
    assert!(matches!(notes[1], Note::BuildFinished(true)));
    assert!(matches!(notes[2], Note::NoMoreArtifacts(1)));
    assert!(m.exhausted());
}

#[test]
fn search_without_artifacts_reports_none_seen() {
    let mut m = CargoMessages::new(None, true);
    let mut reads = vec![
        RawRead::Line("hello".to_string()),
        RawRead::Line(FINISHED_OK.to_string()),
    ];
    let (step, notes) = search(&mut m, "alpha", &mut reads);
    assert!(matches!(step, Step::Exhausted));
    assert!(matches!(notes[0], Note::Skipped));
    assert!(matches!(notes[2], Note::NoArtifacts));
    assert!(m.verbose());
}

#[test]
fn read_failure_does_not_end_search() {
    let mut m = CargoMessages::new(None, false);
    let mut reads = vec![
        RawRead::Failed("bad bytes".to_string()),
        RawRead::Line(artifact_line("alpha", &["lib"], &["/t/libalpha.rlib"])),
    ];
    let (step, notes) = search(&mut m, "alpha", &mut reads);
    assert!(matches!(step, Step::Found(_)));
    assert!(matches!(notes[0], Note::ReadFailed(ref s) if s == "bad bytes"));
}

#[test]
fn exhausted_source_stays_empty() {
    let mut m = CargoMessages::new(None, false);
    assert!(m.next(RawRead::End).is_none());
    assert!(m.exhausted());
    assert!(m.next(RawRead::Line(FINISHED_OK.to_string())).is_none());
    assert!(m.next(RawRead::Failed("x".to_string())).is_none());
    assert!(m.next(RawRead::WouldBlock).is_none());
    assert!(m.next(RawRead::End).is_none());
}

#[test]
fn would_block_then_line_is_delivered() {
    let mut m = CargoMessages::new(None, false);
    assert!(matches!(m.next(RawRead::WouldBlock), Some(Err(ReadError::WouldBlock))));
    assert!(!m.exhausted());
    assert!(matches!(m.next(RawRead::Line(FINISHED_OK.to_string())), Some(Ok(Event::BuildFinished(true)))));
    let mut m = CargoMessages::new(None, false);
    let mut reads = vec![
        RawRead::WouldBlock,
        RawRead::Line(artifact_line("alpha", &["lib"], &["/t/libalpha.rlib"])),
    ];
    let (step, notes) = search(&mut m, "alpha", &mut reads);
    assert!(matches!(step, Step::Found(_)));
    assert!(matches!(notes[0], Note::WouldBlock));
}

#[test]
fn unmount_without_mount_is_identity() {
    let o = Options { mount_info: None, verbose: false };
    for p in ["/a/b/libc.so", "relative/x", "", "/"] {
        assert_eq!(o.unmount(p.to_string(), "/host/target").ok(), Some(p.to_string()));
    }
}

fn mounted(root: &str) -> MountInfo {
    MountInfo { mount: root.to_string(), manifest_path: None }
}

#[test]
fn unmount_joins_relative_path_onto_target_dir() {
    let m = mounted("/mnt/build");
    let r = m.unmount("/mnt/build/target/debug/libfoo.so".to_string(), "/home/user/project/target");
    assert_eq!(r.ok(), Some("/home/user/project/target/target/debug/libfoo.so".to_string()));
}

#[test]
fn unmount_from_mounted_target_dir() {
    let m = mounted("/mnt/build/target");
    let r = m.unmount("/mnt/build/target/debug/libfoo.so".to_string(), "/home/user/project/target");
    assert_eq!(r.ok(), Some("/home/user/project/target/debug/libfoo.so".to_string()));
}

#[test]
fn unmount_fails_for_relative_path_under_absolute_root() {
    let m = mounted("/mnt/build");
    assert!(matches!(m.unmount("debug/libfoo.so".to_string(), "/host"), Err(UnmountError::NotUnderMount)));
}

#[test]
fn find_file_by_crate_type_picks_first_kind() {
    let a = artifact("alpha", &["lib", "cdylib", "cdylib"], &["/t/a.rlib", "/t/a.so", "/t/b.so"]);
    let located = CargoArtifact::new(a, None);
    assert_eq!(located.find_file_by_crate_type("cdylib".to_string(), "/h").ok(), Some(Some("/t/a.so".to_string())));
    assert_eq!(located.find_file_by_crate_type("lib".to_string(), "/h").ok(), Some(Some("/t/a.rlib".to_string())));
    assert_eq!(located.find_file_by_crate_type("bin".to_string(), "/h").ok(), Some(None));
    assert_eq!(located.mounted_file(&"cdylib".to_string()), Some("/t/a.so".to_string()));
    assert_eq!(located.crate_name(), "alpha");
}

#[test]
fn find_file_translates_out_of_mount() {
    let a = artifact("alpha", &["cdylib"], &["/mnt/build/debug/libalpha.so"]);
    let located = CargoArtifact::new(a, Some(mounted("/mnt/build")));
    assert_eq!(
        located.find_file_by_crate_type("cdylib".to_string(), "/home/u/p/target").ok(),
        Some(Some("/home/u/p/target/debug/libalpha.so".to_string()))
    );
}

#[test]
fn reader_attaches_its_mount_context() {
    let r = CargoReader::new(Options { mount_info: Some(mounted("/mnt")), verbose: true });
    assert!(r.verbose());
    let line = artifact_line("gamma", &["bin"], &["/mnt/debug/gamma"]);
    let a = match r.readline(&line) {
        Event::CompilationArtifact(a) => a,
        _ => panic!("expected an artifact"),
    };
    let located = r.artifact(a);
    assert_eq!(located.mount_info().as_ref().map(|m| m.mount.clone()), Some("/mnt".to_string()));
    assert_eq!(
        located.find_file_by_crate_type("bin".to_string(), "/host/target").ok(),
        Some(Some("/host/target/debug/gamma".to_string()))
    );
}

#[test]
fn mount_info_copies_keep_fields() {
    let m = MountInfo { mount: "/m".to_string(), manifest_path: Some("/m/Cargo.toml".to_string()) };
    let c = m.duplicate();
    assert_eq!(c.mount, "/m");
    assert_eq!(c.manifest_path(), &Some("/m/Cargo.toml".to_string()));
    let o = Options { mount_info: Some(c), verbose: true }.duplicate();
    assert!(o.verbose());
    assert_eq!(o.mount_info().as_ref().map(|m| m.mount.clone()), Some("/m".to_string()));
}
