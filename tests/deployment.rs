use tomcatctl::cleanup::{removed_stems, stale_descriptors, stale_work_dirs};
use tomcatctl::controller::{launcher_location, parent_of, Controller, MainCommands};
use tomcatctl::descriptor::{artifact_pattern, descriptor_for, doc_base, resolve_artifact};
use tomcatctl::error::DeployError;
use tomcatctl::paths::{descriptor_file_name, join, normalize, replace_slashes, stem_of, trim_slashes};
use tomcatctl::profiles::{
    profile_dir, profile_file_name, profile_rows, profile_table, store_error, Profile, ProfileRecord,
    StoreFailure, StoreOp,
};
use tomcatctl::supervisor::{Action, Event, Phase, Supervisor};

fn strings(v: &[&str]) -> Vec<String> {
    v.iter().map(|s| s.to_string()).collect()
}

#[test]
fn normalize_forms_agree() {
    let a = normalize("/a/b/");
    let b = normalize("a/b");
    let c = normalize("/a/b");
    assert_eq!(a, "/a/b");
    assert_eq!(a, b);
    assert_eq!(b, c);
    assert_eq!(descriptor_file_name("/a/b/"), "a#b.xml");
    assert_eq!(descriptor_file_name("a/b"), "a#b.xml");
    assert_eq!(descriptor_file_name("/a/b"), "a#b.xml");
}

#[test]
fn normalize_is_idempotent() {
    for p in ["", "/", "//", "app", "/app/", "//x//y//", "a/b/c"] {
        let n = normalize(p);
        assert_eq!(normalize(&n), n);
        assert_eq!(descriptor_file_name(&n), descriptor_file_name(p));
    }
    assert_eq!(normalize("///"), "/");
    assert_eq!(descriptor_file_name("/"), ".xml");
}

#[test]
fn trims_and_replaces() {
    assert_eq!(trim_slashes("//x/y//"), "x/y");
    assert_eq!(trim_slashes("////"), "");
    assert_eq!(replace_slashes("a/b/c"), "a#b#c");
    assert_eq!(replace_slashes("ä/ö"), "ä#ö");
}

#[test]
fn joins_paths() {
    assert_eq!(join("/opt/tomcat", "conf"), "/opt/tomcat/conf");
    assert_eq!(join("/opt/tomcat/", "conf"), "/opt/tomcat/conf");
    assert_eq!(join("", "conf"), "conf");
    assert_eq!(artifact_pattern("/home/me/proj"), "/home/me/proj/target/*.war");
}

#[test]
fn stems_of_names() {
    assert_eq!(stem_of("app-1.0.war"), "app-1.0");
    assert_eq!(stem_of("B.xml"), "B");
    assert_eq!(stem_of("B"), "B");
    assert_eq!(stem_of(".hidden"), ".hidden");
    assert_eq!(stem_of("a#b.xml"), "a#b");
}

#[test]
fn resolves_single_artifact() {
    let a = resolve_artifact(Some("/proj/target/app-1.0.war".to_string())).unwrap();
    assert_eq!(a.parent, "/proj/target");
    assert_eq!(a.stem, "app-1.0");
    assert_eq!(doc_base("/real/proj/target", &a), "/real/proj/target/app-1.0");
}

#[test]
fn resolves_artifact_at_root_and_relative() {
    let a = resolve_artifact(Some("/app.war".to_string())).unwrap();
    assert_eq!(a.parent, "/");
    assert_eq!(a.stem, "app");
    assert_eq!(doc_base("/", &a), "/app");
    let b = resolve_artifact(Some("app.war".to_string())).unwrap();
    assert_eq!(b.parent, "");
    assert_eq!(b.stem, "app");
}

#[test]
fn no_artifact_is_not_found() {
    assert!(matches!(resolve_artifact(None), Err(DeployError::ArtifactNotFound)));
}

#[test]
fn artifact_without_name_is_invalid() {
    assert!(matches!(
        resolve_artifact(Some("/proj/target/".to_string())),
        Err(DeployError::InvalidPath)
    ));
}

#[test]
fn descriptor_text_is_exact() {
    let d = descriptor_for("/app", "/X/app-1.0").unwrap();
    assert_eq!(d.file_name, "app.xml");
    assert_eq!(d.content, b"<Context path=\"/app\" docBase=\"/X/app-1.0\"/>".to_vec());
    let again = descriptor_for("app/", "/X/app-1.0").unwrap();
    assert_eq!(again.content, d.content);
    assert_eq!(again.file_name, d.file_name);
    for form in ["/a/b/", "a/b", "/a/b"] {
        let e = descriptor_for(form, "/X").unwrap();
        assert_eq!(e.file_name, "a#b.xml");
        assert_eq!(e.content, b"<Context path=\"/a/b\" docBase=\"/X\"/>".to_vec());
    }
}

#[test]
fn descriptor_escapes_attributes() {
    let d = descriptor_for("/a/b", "/X/a&b\"c").unwrap();
    assert_eq!(d.file_name, "a#b.xml");
    assert_eq!(
        String::from_utf8(d.content).unwrap(),
        "<Context path=\"/a/b\" docBase=\"/X/a&amp;b&quot;c\"/>"
    );
}

#[test]
fn cleanup_keeps_active_profile() {
    let entries = strings(&["A.xml", "B.xml"]);
    let removed = stale_descriptors(&entries, &"A.xml".to_string());
    assert_eq!(removed, strings(&["B.xml"]));
    let work = strings(&["A", "B", "C"]);
    assert_eq!(stale_work_dirs(&work, &removed), strings(&["B"]));
}

#[test]
fn cleanup_with_nothing_else() {
    let entries = strings(&["A.xml"]);
    let removed = stale_descriptors(&entries, &"A.xml".to_string());
    assert!(removed.is_empty());
    assert!(stale_work_dirs(&strings(&["A"]), &removed).is_empty());
    assert!(stale_descriptors(&Vec::new(), &"A.xml".to_string()).is_empty());
}

#[test]
fn cleanup_removes_all_others() {
    let entries = strings(&["x#y.xml", "A.xml", "C.xml", "notes.txt"]);
    let removed = stale_descriptors(&entries, &"A.xml".to_string());
    assert_eq!(removed, strings(&["x#y.xml", "C.xml", "notes.txt"]));
    assert_eq!(removed_stems(&removed), strings(&["x#y", "C", "notes"]));
    let work = strings(&["A", "x#y", "notes", "D"]);
    assert_eq!(stale_work_dirs(&work, &removed), strings(&["x#y", "notes"]));
}

#[test]
fn interrupt_after_exit_is_harmless() {
    let mut s = Supervisor::new();
    assert_eq!(s.step(Event::Spawned), Action::Wait);
    assert_eq!(s.step(Event::ChildExited(0)), Action::Finish);
    assert_eq!(s.phase, Phase::Exited);
    assert_eq!(s.step(Event::Interrupt), Action::Wait);
    assert_eq!(s.phase, Phase::Exited);
    assert_eq!(s.exit_status, Some(0));
}

#[test]
fn double_interrupt_kills_once() {
    let mut s = Supervisor::new();
    s.step(Event::Spawned);
    assert_eq!(s.step(Event::Interrupt), Action::Kill);
    assert_eq!(s.step(Event::Interrupt), Action::Wait);
    assert_eq!(s.phase, Phase::Terminating);
    assert_eq!(s.step(Event::ChildExited(143)), Action::Finish);
    assert_eq!(s.exit_status, Some(143));
}

#[test]
fn spawn_failure_finishes() {
    let mut s = Supervisor::new();
    assert_eq!(s.step(Event::SpawnFailed), Action::Finish);
    assert_eq!(s.phase, Phase::Idle);
    assert_eq!(s.step(Event::Interrupt), Action::Wait);
    assert_eq!(s.exit_status, None);
}

#[test]
fn add_over_existing_profile_is_refused() {
    assert_eq!(store_error(StoreOp::Add, StoreFailure::Exists), DeployError::ConfigAlreadyExists);
    assert_eq!(store_error(StoreOp::Load, StoreFailure::Missing), DeployError::ConfigNotFound);
    assert_eq!(store_error(StoreOp::Remove, StoreFailure::Missing), DeployError::ConfigNotFound);
    assert_eq!(store_error(StoreOp::Load, StoreFailure::Unparsable), DeployError::ConfigCorrupt);
    assert_eq!(store_error(StoreOp::Add, StoreFailure::Other), DeployError::IoError);
    assert_eq!(profile_file_name("web"), "web.toml");
    assert_eq!(profile_dir("/home/me"), "/home/me/.config/tomcatctl");
}

#[test]
fn exit_codes_are_distinct() {
    let all = [
        DeployError::ConfigNotFound,
        DeployError::ConfigAlreadyExists,
        DeployError::ConfigCorrupt,
        DeployError::ArtifactNotFound,
        DeployError::InvalidPath,
        DeployError::InstallationNotFound,
        DeployError::SpawnError,
        DeployError::IoError,
        DeployError::LockContention,
    ];
    for (i, a) in all.iter().enumerate() {
        assert_ne!(a.exit_code(), 0);
        for b in all.iter().skip(i + 1) {
            assert_ne!(a.exit_code(), b.exit_code());
        }
    }
}

#[test]
fn installation_from_environment_or_launcher() {
    let c = Controller::create(Some("/opt/tomcat".to_string()), None).unwrap();
    assert_eq!(c.catalina_home, "/opt/tomcat");
    assert_eq!(c.descriptor_dir(), "/opt/tomcat/conf/Catalina/localhost");
    assert_eq!(c.work_dir(), "/opt/tomcat/work/Catalina/localhost");
    assert_eq!(c.launcher_path(None), "/opt/tomcat/bin/catalina.sh");
    assert_eq!(c.launcher_path(Some("/x/catalina.sh".to_string())), "/x/catalina.sh");
    let l = launcher_location("/usr/share/tomcat/bin/catalina.sh\n");
    assert_eq!(l, Some("/usr/share/tomcat/bin/catalina.sh".to_string()));
    let d = Controller::create(Some(String::new()), l).unwrap();
    assert_eq!(d.catalina_home, "/usr/share/tomcat");
    assert!(matches!(Controller::create(None, None), Err(DeployError::InstallationNotFound)));
    assert_eq!(launcher_location("\n"), None);
    assert_eq!(parent_of("/usr/bin"), "/usr");
}

#[test]
fn launch_arguments() {
    let run = MainCommands::Run { jpda: true, config: "web".to_string() };
    assert_eq!(run.launch_args(), Some(strings(&["jpda", "run"])));
    assert_eq!(run.deployed_profile(), Some("web".to_string()));
    let plain = MainCommands::Run { jpda: false, config: "web".to_string() };
    assert_eq!(plain.launch_args(), Some(strings(&["run"])));
    let debug = MainCommands::Debug { config: "w".to_string() };
    assert_eq!(debug.launch_args(), Some(strings(&["debug"])));
    let deploy = MainCommands::Deploy { config: "w".to_string() };
    assert_eq!(deploy.launch_args(), None);
    assert_eq!(deploy.deployed_profile(), Some("w".to_string()));
}

#[test]
fn lists_profiles() {
    let recs = vec![ProfileRecord {
        name: "web.toml".to_string(),
        profile: Profile { path: "/web".to_string(), project_path: "/src/web".to_string() },
    }];
    let rows = profile_rows(&recs);
    assert_eq!(rows.len(), 2);
    assert_eq!(rows[0], strings(&["Name", "Path", "Project Path"]));
    assert_eq!(rows[1], strings(&["web.toml", "/web", "/src/web"]));
    let table = profile_table(&recs);
    assert!(table.contains("Project Path"));
    assert!(table.contains("/src/web"));
    assert!(table.starts_with('╭'));
}
