use chall_yaml_gen::document::{
    ChallengeDocument, FlagValue, InjectedFile, PackagingDescriptor, Provide,
};
use chall_yaml_gen::encoding::YamlError;
use chall_yaml_gen::limits::{size_of_text, size_of_texts, MAX_DOCUMENT_SIZE};
use chall_yaml_gen::{ChallengeType, GenApp};

fn small() -> ChallengeDocument {
    ChallengeDocument {
        name: "n".to_string(),
        author: "a".to_string(),
        description: "d".to_string(),
        flag: FlagValue::Literal("f".to_string()),
        provide: None,
        expose: None,
        containers: None,
    }
}

fn letters(count: usize) -> String {
    String::from_utf8(vec![b'a'; count]).unwrap()
}

#[test]
fn the_limit_is_256_mib() {
    assert_eq!(MAX_DOCUMENT_SIZE, 256 * 1024 * 1024);
}

#[test]
fn a_text_counts_its_bytes_and_one() {
    assert_eq!(size_of_text(""), 1);
    assert_eq!(size_of_text("flag{fake_flag}"), 16);
    assert_eq!(size_of_text("é"), 3);
    assert_eq!(size_of_text("✓ ok"), 7);
}

#[test]
fn a_list_counts_its_texts() {
    assert_eq!(size_of_texts(&Vec::new()), 0);
    assert_eq!(size_of_texts(&vec![String::new()]), 1);
    assert_eq!(size_of_texts(&vec!["a".to_string(), "bc".to_string(), String::new()]), 6);
}

#[test]
fn a_small_document_counts_its_four_texts() {
    let doc = small();
    assert_eq!(doc.size(), 8);
    assert!(doc.fits());
    assert_eq!(doc.flag.size(), 2);
}

#[test]
fn the_sizes_of_blank_forms() {
    let mut form = GenApp::new();
    assert_eq!(form.synthesize().size(), 4);
    form.provide_enabled = true;
    assert_eq!(form.synthesize().size(), 4);
    form.provide_files = vec!["x.txt".to_string(), String::new()];
    assert_eq!(form.synthesize().size(), 10);
    form.provide_enabled = false;
    form.challenge_type = ChallengeType::WebServer(true);
    assert_eq!(form.synthesize().size(), 25);
    form.challenge_type = ChallengeType::TCPBinary;
    assert_eq!(form.synthesize().size(), 128);
}

#[test]
fn a_bundle_counts_every_path_and_file() {
    let bundle = PackagingDescriptor {
        kind: chall_yaml_gen::document::ArchiveKind::Zip,
        target_name: "server.zip".to_string(),
        included_paths: vec!["server".to_string()],
        excluded_paths: vec!["a".to_string(), "bb".to_string()],
        injected_files: vec![
            InjectedFile { path: "p".to_string(), content: "c".to_string() },
            InjectedFile { path: String::new(), content: "xyz".to_string() },
        ],
    };
    assert_eq!(bundle.injected_files[0].size(), 4);
    assert_eq!(bundle.size(), 11 + 7 + 5 + 4 + 5);
    assert_eq!(Provide::Bundle(bundle).size(), 32);
}

#[test]
fn a_document_fits_up_to_the_limit_and_no_further() {
    let mut doc = small();
    doc.description = letters(MAX_DOCUMENT_SIZE - 7);
    assert_eq!(doc.size(), MAX_DOCUMENT_SIZE);
    assert!(doc.fits());
    doc.description.push('a');
    assert_eq!(doc.size(), MAX_DOCUMENT_SIZE + 1);
    assert!(!doc.fits());
}

#[test]
fn sizes_beyond_the_limit_are_all_the_same() {
    let long = letters(MAX_DOCUMENT_SIZE);
    assert_eq!(size_of_text(&long), MAX_DOCUMENT_SIZE + 1);
    let list = vec![long, "more".to_string()];
    assert_eq!(size_of_texts(&list), MAX_DOCUMENT_SIZE + 1);
    let mut doc = small();
    doc.provide = Some(Provide::Files(list));
    assert_eq!(doc.size(), MAX_DOCUMENT_SIZE + 1);
}

#[test]
fn a_document_beyond_the_limit_is_not_written() {
    let mut doc = small();
    doc.provide = Some(Provide::Files(vec![letters(MAX_DOCUMENT_SIZE)]));
    assert!(!doc.fits());
    assert!(matches!(doc.to_yaml(), Err(YamlError::TooLarge)));
}

#[test]
fn a_form_beyond_the_limit_is_not_written() {
    let mut form = GenApp::new();
    form.challenge_type = ChallengeType::WebServer(false);
    form.description = letters(MAX_DOCUMENT_SIZE - 20);
    assert!(matches!(form.to_yaml(), Err(YamlError::TooLarge)));
}
