use chall_yaml_gen::document::{
    ArchiveKind, ChallengeDocument, ContainerBuild, Exposure, FlagValue, InjectedFile,
    PackagingDescriptor, Provide, RuntimePolicy,
};
use chall_yaml_gen::synthesis::{BINARY_REPLICAS, SERVICE_PORT};
use chall_yaml_gen::{ChallengeType, GenApp};

fn list(entries: &[&str]) -> Vec<String> {
    entries.iter().map(|entry| entry.to_string()).collect()
}

fn form(kind: ChallengeType) -> GenApp {
    GenApp {
        author: "alice".to_string(),
        name: "widgetapp".to_string(),
        description: "Find the widget.".to_string(),
        flag_is_file: false,
        flag: "flag{w1dg3t}".to_string(),
        points: None,
        challenge_type: kind,
        provide_files: list(&["a.txt", "", "b.txt"]),
        provide_enabled: true,
    }
}

fn bundle_of(form: &GenApp) -> PackagingDescriptor {
    match form.synthesize().provide {
        Some(Provide::Bundle(bundle)) => bundle,
        other => panic!("expected a bundle, got {:?}", other),
    }
}

#[test]
fn the_blank_form_is_what_new_gives() {
    let blank = GenApp::new();
    assert_eq!(blank.author, "");
    assert_eq!(blank.name, "");
    assert_eq!(blank.description, "");
    assert!(!blank.flag_is_file);
    assert_eq!(blank.flag, "");
    assert_eq!(blank.points, None);
    assert_eq!(blank.challenge_type, ChallengeType::Other);
    assert_eq!(blank.provide_files, list(&[""]));
    assert!(!blank.provide_enabled);
    assert_eq!(GenApp::default(), blank);
}

#[test]
fn the_blank_form_has_a_document_of_empty_texts() {
    let doc = GenApp::new().synthesize();
    assert_eq!(
        doc,
        ChallengeDocument {
            name: String::new(),
            author: String::new(),
            description: String::new(),
            flag: FlagValue::Literal(String::new()),
            provide: None,
            expose: None,
            containers: None,
        }
    );
}

#[test]
fn name_and_author_are_taken_as_they_are() {
    let mut form = form(ChallengeType::Other);
    form.name = "  Spaced Name\t".to_string();
    form.author = "bob <bob@example.org>".to_string();
    let doc = form.synthesize();
    assert_eq!(doc.name, "  Spaced Name\t");
    assert_eq!(doc.author, "bob <bob@example.org>");
}

#[test]
fn a_web_description_ends_with_the_link_placeholder() {
    assert_eq!(
        form(ChallengeType::WebServer(false)).synthesize().description,
        "Find the widget.\n\n{{ link }}"
    );
    assert_eq!(
        form(ChallengeType::WebServer(true)).composed_description(),
        "Find the widget.\n\n{{ link }}"
    );
}

#[test]
fn a_binary_description_ends_with_the_connect_placeholder() {
    assert_eq!(
        form(ChallengeType::TCPBinary).synthesize().description,
        "Find the widget.\n\n`{{ nc }}`"
    );
}

#[test]
fn another_description_is_left_alone() {
    assert_eq!(form(ChallengeType::Other).synthesize().description, "Find the widget.");
}

#[test]
fn an_empty_description_still_gets_its_placeholder() {
    let mut web = form(ChallengeType::WebServer(false));
    web.description = String::new();
    assert_eq!(web.synthesize().description, "\n\n{{ link }}");
    let mut binary = form(ChallengeType::TCPBinary);
    binary.description = String::new();
    assert_eq!(binary.synthesize().description, "\n\n`{{ nc }}`");
}

#[test]
fn a_literal_flag_is_the_text() {
    for kind in [
        ChallengeType::Other,
        ChallengeType::TCPBinary,
        ChallengeType::WebServer(false),
        ChallengeType::WebServer(true),
    ] {
        let doc = form(kind).synthesize();
        assert_eq!(doc.flag, FlagValue::Literal("flag{w1dg3t}".to_string()));
    }
}

#[test]
fn a_file_flag_is_the_path() {
    for kind in [
        ChallengeType::Other,
        ChallengeType::TCPBinary,
        ChallengeType::WebServer(false),
        ChallengeType::WebServer(true),
    ] {
        let mut form = form(kind);
        form.flag_is_file = true;
        form.flag = "bin/flag.txt".to_string();
        assert_eq!(form.synthesize().flag, FlagValue::File("bin/flag.txt".to_string()));
        assert_eq!(form.flag_value(), FlagValue::File("bin/flag.txt".to_string()));
    }
}

#[test]
fn other_without_files_has_no_sections() {
    let mut form = form(ChallengeType::Other);
    form.provide_enabled = false;
    let doc = form.synthesize();
    assert_eq!(doc.provide, None);
    assert_eq!(doc.expose, None);
    assert_eq!(doc.containers, None);
}

#[test]
fn other_with_files_provides_the_non_blank_ones() {
    let doc = form(ChallengeType::Other).synthesize();
    assert_eq!(doc.provide, Some(Provide::Files(list(&["a.txt", "b.txt"]))));
    assert_eq!(doc.expose, None);
    assert_eq!(doc.containers, None);
}

#[test]
fn widgetapp_without_zip() {
    let doc = form(ChallengeType::WebServer(false)).synthesize();
    assert_eq!(doc.provide, Some(Provide::Files(list(&["a.txt", "b.txt"]))));
    assert_eq!(
        doc.expose,
        Some(Exposure::Http { target: 5000, label: "widgetapp".to_string() })
    );
    assert_eq!(
        doc.containers,
        Some(ContainerBuild {
            build: "server".to_string(),
            replicas: None,
            ports: vec![5000],
            policy: None,
        })
    );
}

#[test]
fn a_web_challenge_that_provides_nothing_has_no_provide() {
    for zip in [false, true] {
        let mut form = form(ChallengeType::WebServer(zip));
        form.provide_enabled = false;
        let doc = form.synthesize();
        assert_eq!(doc.provide, None);
        assert!(matches!(doc.expose, Some(Exposure::Http { .. })));
        assert!(doc.containers.is_some());
    }
}

#[test]
fn provided_files_that_are_all_blank_give_an_empty_list() {
    let mut form = form(ChallengeType::WebServer(false));
    form.provide_files = list(&["", ""]);
    assert_eq!(form.synthesize().provide, Some(Provide::Files(Vec::new())));
    assert_eq!(form.provided(), Some(Provide::Files(Vec::new())));
}

#[test]
fn a_bundle_with_a_literal_flag_masks_the_default_flag_file() {
    let bundle = bundle_of(&form(ChallengeType::WebServer(true)));
    assert_eq!(
        bundle,
        PackagingDescriptor {
            kind: ArchiveKind::Zip,
            target_name: "server.zip".to_string(),
            included_paths: list(&["server"]),
            excluded_paths: list(&["a.txt", "b.txt"]),
            injected_files: vec![InjectedFile {
                path: "server/flag.txt".to_string(),
                content: "flag{fake_flag}".to_string(),
            }],
        }
    );
}

#[test]
fn a_bundle_with_the_flag_file_inside_masks_and_excludes_it() {
    let mut form = form(ChallengeType::WebServer(true));
    form.flag_is_file = true;
    form.flag = "server/flag.txt".to_string();
    let bundle = bundle_of(&form);
    assert!(bundle.excluded_paths.contains(&"server/flag.txt".to_string()));
    assert_eq!(bundle.excluded_paths, list(&["server/flag.txt", "a.txt", "b.txt"]));
    assert_eq!(bundle.injected_files.len(), 1);
    assert_eq!(bundle.injected_files[0].path, "server/flag.txt");
    assert_eq!(bundle.injected_files[0].content, "flag{fake_flag}");
}

#[test]
fn a_bundle_masks_a_flag_file_deep_inside() {
    let mut form = form(ChallengeType::WebServer(true));
    form.flag_is_file = true;
    form.flag = "server/data/secret.txt".to_string();
    form.provide_files = Vec::new();
    let bundle = bundle_of(&form);
    assert_eq!(bundle.excluded_paths, list(&["server/data/secret.txt"]));
    assert_eq!(
        bundle.injected_files,
        vec![InjectedFile {
            path: "server/data/secret.txt".to_string(),
            content: "flag{fake_flag}".to_string(),
        }]
    );
    assert_eq!(form.bundle(), bundle);
}

#[test]
fn a_bundle_with_the_flag_file_outside_masks_nothing() {
    let mut form = form(ChallengeType::WebServer(true));
    form.flag_is_file = true;
    form.flag = "secrets/flag.txt".to_string();
    let bundle = bundle_of(&form);
    assert!(bundle.injected_files.is_empty());
    assert!(!bundle.excluded_paths.contains(&"secrets/flag.txt".to_string()));
    assert_eq!(bundle.excluded_paths, list(&["a.txt", "b.txt"]));
    assert_eq!(bundle.target_name, "server.zip");
    assert_eq!(bundle.included_paths, list(&["server"]));
}

#[test]
fn a_flag_file_outside_is_excluded_only_where_it_is_listed() {
    let mut form = form(ChallengeType::WebServer(true));
    form.flag_is_file = true;
    form.flag = "secrets/flag.txt".to_string();
    form.provide_files = list(&["", "secrets/flag.txt"]);
    let bundle = bundle_of(&form);
    assert!(bundle.injected_files.is_empty());
    assert_eq!(bundle.excluded_paths, list(&["secrets/flag.txt"]));
}

#[test]
fn a_bundle_is_made_only_where_files_are_provided_as_zip() {
    let mut form = form(ChallengeType::WebServer(true));
    assert!(matches!(form.synthesize().provide, Some(Provide::Bundle(_))));
    form.challenge_type = ChallengeType::WebServer(false);
    assert!(matches!(form.synthesize().provide, Some(Provide::Files(_))));
    form.challenge_type = ChallengeType::TCPBinary;
    assert!(matches!(form.synthesize().provide, Some(Provide::Files(_))));
}

#[test]
fn a_binary_challenge_is_exposed_over_tcp() {
    let doc = form(ChallengeType::TCPBinary).synthesize();
    assert_eq!(
        doc.expose,
        Some(Exposure::Tcp { target: 5000, public_port: "CHANGE_ME".to_string() })
    );
    assert_eq!(doc.provide, Some(Provide::Files(list(&["a.txt", "b.txt"]))));
}

#[test]
fn a_binary_challenge_runs_hardened() {
    let mut form = form(ChallengeType::TCPBinary);
    form.provide_enabled = false;
    form.flag_is_file = true;
    let doc = form.synthesize();
    assert_eq!(doc.provide, None);
    assert_eq!(
        doc.containers,
        Some(ContainerBuild {
            build: "bin".to_string(),
            replicas: Some(1),
            ports: vec![5000],
            policy: Some(RuntimePolicy {
                read_only_root_filesystem: true,
                dropped_capabilities: list(&["all"]),
                added_capabilities: list(&["chown", "setuid", "setgid", "sys_admin"]),
                annotation_key: "container.apparmor.security.beta.kubernetes.io/main"
                    .to_string(),
                annotation_value: "unconfined".to_string(),
            }),
        })
    );
}

#[test]
fn the_capabilities_of_a_binary_do_not_depend_on_the_form() {
    let mut first = form(ChallengeType::TCPBinary);
    first.provide_enabled = false;
    let mut second = form(ChallengeType::TCPBinary);
    second.name = "other".to_string();
    second.flag_is_file = true;
    second.points = Some(500);
    second.provide_files = Vec::new();
    for form in [first, second] {
        let policy = form.container().unwrap().policy.unwrap();
        assert_eq!(policy.added_capabilities, list(&["chown", "setuid", "setgid", "sys_admin"]));
        assert_eq!(policy.dropped_capabilities, list(&["all"]));
    }
}

#[test]
fn the_point_value_does_not_reach_the_document() {
    let mut scored = form(ChallengeType::WebServer(true));
    scored.points = Some(1000);
    let mut unscored = form(ChallengeType::WebServer(true));
    unscored.points = None;
    assert_eq!(scored.synthesize(), unscored.synthesize());
}

#[test]
fn the_constants_of_the_platform() {
    assert_eq!(SERVICE_PORT, 5000);
    assert_eq!(BINARY_REPLICAS, 1);
    assert_eq!(chall_yaml_gen::challenge::MAX_POINTS, 1000);
}

#[test]
fn the_parts_agree_with_the_whole() {
    for kind in [
        ChallengeType::Other,
        ChallengeType::TCPBinary,
        ChallengeType::WebServer(false),
        ChallengeType::WebServer(true),
    ] {
        let form = form(kind);
        let doc = form.synthesize();
        assert_eq!(doc.description, form.composed_description());
        assert_eq!(doc.flag, form.flag_value());
        assert_eq!(doc.provide, form.provided());
        assert_eq!(doc.expose, form.exposure());
        assert_eq!(doc.containers, form.container());
    }
}
