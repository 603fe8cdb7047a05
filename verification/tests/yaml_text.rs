use chall_yaml_gen::document::{
    ChallengeDocument, ContainerBuild, Exposure, FlagValue, Provide, RuntimePolicy,
};
use chall_yaml_gen::encoding::{written, YamlError};
use chall_yaml_gen::{ChallengeType, GenApp};
use serde_yaml::Value;

fn texts(entries: &[&str]) -> Vec<String> {
    entries.iter().map(|entry| entry.to_string()).collect()
}

fn widget(kind: ChallengeType) -> GenApp {
    GenApp {
        author: "alice".to_string(),
        name: "widgetapp".to_string(),
        description: "Find the widget.".to_string(),
        flag_is_file: false,
        flag: "flag{w1dg3t}".to_string(),
        points: None,
        challenge_type: kind,
        provide_files: texts(&["a.txt", "", "b.txt"]),
        provide_enabled: true,
    }
}

fn parsed(form: &GenApp) -> Value {
    let text = form.to_yaml().expect("the document is written");
    serde_yaml::from_str(&text).expect("the text is YAML")
}

fn tree(text: &str) -> Value {
    serde_yaml::from_str(text).expect("the expected text is YAML")
}

fn keys(document: &Value) -> Vec<String> {
    document
        .as_mapping()
        .expect("a mapping")
        .keys()
        .map(|key| key.as_str().expect("a text key").to_string())
        .collect()
}

#[test]
fn widgetapp_is_written_with_its_files_and_its_label() {
    let document = parsed(&widget(ChallengeType::WebServer(false)));
    assert_eq!(document["provide"], tree("[a.txt, b.txt]"));
    assert_eq!(document["expose"]["main"][0]["http"], Value::from("widgetapp"));
}

#[test]
fn a_web_document_in_full() {
    let document = parsed(&widget(ChallengeType::WebServer(false)));
    let expected = tree(
        "
name: widgetapp
author: alice
description: \"Find the widget.\\n\\n{{ link }}\"
flag: flag{w1dg3t}
provide:
  - a.txt
  - b.txt
expose:
  main:
    - target: 5000
      http: widgetapp
containers:
  main:
    build: server
    ports:
      - 5000
",
    );
    assert_eq!(document, expected);
    assert_eq!(
        keys(&document),
        texts(&["name", "author", "description", "flag", "provide", "expose", "containers"])
    );
}

#[test]
fn a_web_document_as_text() {
    let text = widget(ChallengeType::WebServer(false)).to_yaml().unwrap();
    assert_eq!(
        text,
        "name: widgetapp
author: alice
description: |-
  Find the widget.

  {{ link }}
flag: flag{w1dg3t}
provide:
- a.txt
- b.txt
expose:
  main:
  - target: 5000
    http: widgetapp
containers:
  main:
    build: server
    ports:
    - 5000
"
    );
}

#[test]
fn a_zip_document_with_a_literal_flag() {
    let document = parsed(&widget(ChallengeType::WebServer(true)));
    let expected = tree(
        "
- kind: zip
  spec:
    as: server.zip
    files:
      - server
    exclude:
      - a.txt
      - b.txt
    additional:
      - path: server/flag.txt
        str: flag{fake_flag}
",
    );
    assert_eq!(document["provide"], expected);
    assert_eq!(document["flag"], Value::from("flag{w1dg3t}"));
    assert_eq!(keys(&document["provide"][0]), texts(&["kind", "spec"]));
    assert_eq!(
        keys(&document["provide"][0]["spec"]),
        texts(&["as", "files", "exclude", "additional"])
    );
}

#[test]
fn a_zip_document_with_the_flag_file_inside() {
    let mut form = widget(ChallengeType::WebServer(true));
    form.flag_is_file = true;
    form.flag = "server/flag.txt".to_string();
    let document = parsed(&form);
    let spec = &document["provide"][0]["spec"];
    assert_eq!(spec["exclude"], tree("[server/flag.txt, a.txt, b.txt]"));
    assert_eq!(spec["additional"][0]["path"], Value::from("server/flag.txt"));
    assert_eq!(spec["additional"][0]["str"], Value::from("flag{fake_flag}"));
    assert_eq!(spec["additional"].as_sequence().unwrap().len(), 1);
    assert_eq!(document["flag"], tree("file: server/flag.txt"));
}

#[test]
fn a_zip_document_with_the_flag_file_outside() {
    let mut form = widget(ChallengeType::WebServer(true));
    form.flag_is_file = true;
    form.flag = "secrets/flag.txt".to_string();
    let document = parsed(&form);
    let expected = tree(
        "
- kind: zip
  spec:
    as: server.zip
    files:
      - server
    exclude:
      - a.txt
      - b.txt
",
    );
    assert_eq!(document["provide"], expected);
    assert!(document["provide"][0]["spec"].get("additional").is_none());
    assert_eq!(keys(&document["provide"][0]["spec"]), texts(&["as", "files", "exclude"]));
    assert_eq!(document["flag"], tree("file: secrets/flag.txt"));
}

#[test]
fn a_binary_document_in_full() {
    let mut form = widget(ChallengeType::TCPBinary);
    form.name = "jail".to_string();
    let document = parsed(&form);
    let expected = tree(
        "
name: jail
author: alice
description: \"Find the widget.\\n\\n`{{ nc }}`\"
flag: flag{w1dg3t}
containers:
  main:
    build: bin
    replicas: 1
    ports:
      - 5000
    k8s:
      container:
        securityContext:
          readOnlyRootFilesystem: true
          capabilities:
            drop:
              - all
            add:
              - chown
              - setuid
              - setgid
              - sys_admin
      metadata:
        annotations:
          container.apparmor.security.beta.kubernetes.io/main: unconfined
expose:
  main:
    - target: 5000
      tcp: CHANGE_ME
provide:
  - a.txt
  - b.txt
",
    );
    assert_eq!(document, expected);
    assert_eq!(
        keys(&document),
        texts(&["name", "author", "description", "flag", "containers", "expose", "provide"])
    );
    assert_eq!(
        keys(&document["containers"]["main"]),
        texts(&["build", "replicas", "ports", "k8s"])
    );
}

#[test]
fn a_binary_document_as_text() {
    let mut form = widget(ChallengeType::TCPBinary);
    form.provide_enabled = false;
    form.description = String::new();
    assert_eq!(
        form.to_yaml().unwrap(),
        "name: widgetapp
author: alice
description: |2-


  `{{ nc }}`
flag: flag{w1dg3t}
containers:
  main:
    build: bin
    replicas: 1
    ports:
    - 5000
    k8s:
      container:
        securityContext:
          readOnlyRootFilesystem: true
          capabilities:
            drop:
            - all
            add:
            - chown
            - setuid
            - setgid
            - sys_admin
      metadata:
        annotations:
          container.apparmor.security.beta.kubernetes.io/main: unconfined
expose:
  main:
  - target: 5000
    tcp: CHANGE_ME
"
    );
}

#[test]
fn the_capabilities_of_a_binary_in_the_text() {
    let mut plain = widget(ChallengeType::TCPBinary);
    plain.provide_enabled = false;
    let mut busy = widget(ChallengeType::TCPBinary);
    busy.flag_is_file = true;
    busy.flag = "bin/flag.txt".to_string();
    busy.points = Some(250);
    for form in [plain, busy] {
        let document = parsed(&form);
        let capabilities =
            &document["containers"]["main"]["k8s"]["container"]["securityContext"]["capabilities"];
        assert_eq!(capabilities["add"], tree("[chown, setuid, setgid, sys_admin]"));
        assert_eq!(capabilities["drop"], tree("[all]"));
    }
}

#[test]
fn numbers_and_truth_values_are_written_as_such() {
    let document = parsed(&widget(ChallengeType::TCPBinary));
    let main = &document["containers"]["main"];
    assert_eq!(main["replicas"], Value::from(1u64));
    assert_eq!(main["ports"][0], Value::from(5000u64));
    assert_eq!(document["expose"]["main"][0]["target"].as_u64(), Some(5000));
    assert_eq!(
        main["k8s"]["container"]["securityContext"]["readOnlyRootFilesystem"],
        Value::Bool(true)
    );
    assert!(document["expose"]["main"][0]["tcp"].is_string());
}

#[test]
fn another_document_without_files_has_four_keys() {
    let mut form = widget(ChallengeType::Other);
    form.provide_enabled = false;
    let document = parsed(&form);
    assert_eq!(keys(&document), texts(&["name", "author", "description", "flag"]));
    assert!(document.get("provide").is_none());
    assert!(document.get("expose").is_none());
    assert!(document.get("containers").is_none());
    assert_eq!(
        form.to_yaml().unwrap(),
        "name: widgetapp\nauthor: alice\ndescription: Find the widget.\nflag: flag{w1dg3t}\n"
    );
}

#[test]
fn another_document_with_files() {
    let document = parsed(&widget(ChallengeType::Other));
    assert_eq!(keys(&document), texts(&["name", "author", "description", "flag", "provide"]));
    assert_eq!(document["provide"], tree("[a.txt, b.txt]"));
}

#[test]
fn a_web_document_without_files_has_no_provide_key() {
    let mut form = widget(ChallengeType::WebServer(true));
    form.provide_enabled = false;
    let document = parsed(&form);
    assert_eq!(
        keys(&document),
        texts(&["name", "author", "description", "flag", "expose", "containers"])
    );
}

#[test]
fn the_flag_is_text_or_a_file_mapping() {
    let mut form = widget(ChallengeType::Other);
    assert_eq!(parsed(&form)["flag"], Value::from("flag{w1dg3t}"));
    form.flag_is_file = true;
    form.flag = "flag.txt".to_string();
    let flag = parsed(&form)["flag"].clone();
    assert_eq!(keys(&flag), texts(&["file"]));
    assert_eq!(flag["file"], Value::from("flag.txt"));
}

#[test]
fn texts_that_look_like_yaml_come_back_as_texts() {
    let mut form = widget(ChallengeType::WebServer(false));
    form.name = "true".to_string();
    form.author = "- not: a list".to_string();
    form.description = "key: value # comment".to_string();
    form.flag = "5000".to_string();
    form.provide_files = texts(&["null", "~", "'quoted'", "a: b", " lead", "x\ny"]);
    let document = parsed(&form);
    assert_eq!(document["name"], Value::from("true"));
    assert_eq!(document["author"], Value::from("- not: a list"));
    assert_eq!(document["description"], Value::from("key: value # comment\n\n{{ link }}"));
    assert_eq!(document["flag"], Value::from("5000"));
    assert_eq!(document["expose"]["main"][0]["http"], Value::from("true"));
    let provided: Vec<Value> = ["null", "~", "'quoted'", "a: b", " lead", "x\ny"]
        .iter()
        .map(|text| Value::from(*text))
        .collect();
    assert_eq!(document["provide"], Value::Sequence(provided));
}

#[test]
fn the_blank_form_is_written_with_empty_texts() {
    let text = GenApp::new().to_yaml().unwrap();
    assert_eq!(text, "name: ''\nauthor: ''\ndescription: ''\nflag: ''\n");
}

#[test]
fn a_document_made_by_hand_is_written_as_it_stands() {
    let doc = ChallengeDocument {
        name: "n".to_string(),
        author: "a".to_string(),
        description: "d".to_string(),
        flag: FlagValue::File("f".to_string()),
        provide: Some(Provide::Files(texts(&["p"]))),
        expose: Some(Exposure::Http { target: 80, label: "site".to_string() }),
        containers: Some(ContainerBuild {
            build: "web".to_string(),
            replicas: Some(3),
            ports: vec![80, 443],
            policy: Some(RuntimePolicy {
                read_only_root_filesystem: false,
                dropped_capabilities: Vec::new(),
                added_capabilities: texts(&["net_bind_service"]),
                annotation_key: "k".to_string(),
                annotation_value: "v".to_string(),
            }),
        }),
    };
    let document: Value = serde_yaml::from_str(&doc.to_yaml().unwrap()).unwrap();
    let expected = tree(
        "
name: n
author: a
description: d
flag:
  file: f
provide: [p]
expose:
  main:
    - target: 80
      http: site
containers:
  main:
    build: web
    replicas: 3
    ports: [80, 443]
    k8s:
      container:
        securityContext:
          readOnlyRootFilesystem: false
          capabilities:
            drop: []
            add: [net_bind_service]
      metadata:
        annotations:
          k: v
",
    );
    assert_eq!(document, expected);
    assert_eq!(
        keys(&document),
        texts(&["name", "author", "description", "flag", "provide", "expose", "containers"])
    );
}

#[test]
fn the_text_of_the_writer_is_handed_on() {
    assert_eq!(written(Ok("name: x\n".to_string())).unwrap(), "name: x\n");
    assert_eq!(written(Ok(String::new())).unwrap(), "");
}

#[test]
fn the_error_of_the_writer_is_handed_on() {
    let error = serde_yaml::from_str::<Value>("@not yaml").unwrap_err();
    let message = error.to_string();
    assert!(!message.is_empty());
    match written(Err(error)) {
        Err(YamlError::Emitter(inner)) => assert_eq!(inner.to_string(), message),
        other => panic!("expected the error of the writer, got {:?}", other),
    }
}
