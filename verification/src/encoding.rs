//! The challenge document as YAML: which keys it is written under and how
//! its parts nest, stated as spec functions from a document's view to a
//! `Yaml` node, and the code that builds the `serde_yaml` values to match.

use crate::challenge::GenApp;
use crate::document::{
    ArchiveKind, ChallengeDocument, ContainerBuild, ContainerView, DocumentView, Exposure,
    ExposureView, FlagValue, FlagView, InjectedFile, InjectedFileView, PackagingDescriptor,
    PackagingView, Provide, ProvideView, RuntimePolicy, RuntimePolicyView,
};
use crate::nodes::{
    entry, new_mapping, optional_entry, put, put_optional, single_item, wrap,
};
use crate::synthesis::document_for;
use crate::yaml::{
    boolean_value, entries_of, integer_value, mapping_value, render, sequence_value, text_value,
    value_of, yaml_text, Yaml,
};
use vstd::prelude::*;

verus! {

/// Why a document could not be written out.
#[derive(Debug)]
pub enum YamlError {
    /// The document is larger than `MAX_DOCUMENT_SIZE`.
    TooLarge,
    /// The writer failed, with this error.
    Emitter(serde_yaml::Error),
}

/// The entries are those of a document that is small enough to be written
/// out.
pub open spec fn is_small_document(entries: Seq<(Yaml, Yaml)>) -> bool {
    exists|doc: DocumentView| doc.fits() && #[trigger] document_entries(doc) == entries
}

/// A list of texts.
pub open spec fn texts_yaml(texts: Seq<Seq<char>>) -> Yaml {
    Yaml::Sequence(texts.map_values(|text: Seq<char>| Yaml::Text(text)))
}

/// A list of port numbers.
pub open spec fn ports_yaml(ports: Seq<u16>) -> Yaml {
    Yaml::Sequence(ports.map_values(|port: u16| Yaml::Integer(port as int)))
}

/// A literal flag is written as its text, a flag file as `file: <path>`.
pub open spec fn flag_yaml(flag: FlagView) -> Yaml {
    match flag {
        FlagView::Literal(text) => Yaml::Text(text),
        FlagView::File(path) => Yaml::Mapping(seq![entry("file"@, Yaml::Text(path))]),
    }
}

/// An injected file is written as its `path` and, under `str`, its content.
pub open spec fn injected_yaml(file: InjectedFileView) -> Yaml {
    Yaml::Mapping(
        seq![entry("path"@, Yaml::Text(file.path)), entry("str"@, Yaml::Text(file.content))],
    )
}

/// The word a kind of archive is written as.
pub open spec fn archive_kind_name(kind: ArchiveKind) -> Seq<char> {
    match kind {
        ArchiveKind::Zip => "zip"@,
    }
}

/// What stands under `spec` in a bundle. `additional` is written only where
/// a file is injected.
pub open spec fn bundle_spec_entries(bundle: PackagingView) -> Seq<(Yaml, Yaml)> {
    seq![
        entry("as"@, Yaml::Text(bundle.target_name)),
        entry("files"@, texts_yaml(bundle.included_paths)),
        entry("exclude"@, texts_yaml(bundle.excluded_paths)),
    ] + optional_entry(
        "additional"@,
        if bundle.injected_files.len() > 0 {
            Some(
                Yaml::Sequence(
                    bundle.injected_files.map_values(|file: InjectedFileView| injected_yaml(file)),
                ),
            )
        } else {
            None
        },
    )
}

/// A bundle is written as its `kind` and its `spec`.
pub open spec fn bundle_yaml(bundle: PackagingView) -> Yaml {
    Yaml::Mapping(
        seq![
            entry("kind"@, Yaml::Text(archive_kind_name(bundle.kind))),
            entry("spec"@, Yaml::Mapping(bundle_spec_entries(bundle))),
        ],
    )
}

/// Files are written as a list of their paths, a bundle as a list of one
/// packaging descriptor.
pub open spec fn provide_yaml(provide: ProvideView) -> Yaml {
    match provide {
        ProvideView::Files(files) => texts_yaml(files),
        ProvideView::Bundle(bundle) => Yaml::Sequence(seq![bundle_yaml(bundle)]),
    }
}

/// The one exposure of the container `main`.
pub open spec fn exposure_yaml(expose: ExposureView) -> Yaml {
    let endpoint = match expose {
        ExposureView::Http { target, label } => seq![
            entry("target"@, Yaml::Integer(target as int)),
            entry("http"@, Yaml::Text(label)),
        ],
        ExposureView::Tcp { target, public_port } => seq![
            entry("target"@, Yaml::Integer(target as int)),
            entry("tcp"@, Yaml::Text(public_port)),
        ],
    };
    Yaml::Mapping(seq![entry("main"@, Yaml::Sequence(seq![Yaml::Mapping(endpoint)]))])
}

/// The capabilities of a policy: those it drops, then those it adds.
pub open spec fn capabilities_yaml(policy: RuntimePolicyView) -> Yaml {
    Yaml::Mapping(
        seq![
            entry("drop"@, texts_yaml(policy.dropped_capabilities)),
            entry("add"@, texts_yaml(policy.added_capabilities)),
        ],
    )
}

/// The security context of a policy.
pub open spec fn security_context_yaml(policy: RuntimePolicyView) -> Yaml {
    Yaml::Mapping(
        seq![
            entry("readOnlyRootFilesystem"@, Yaml::Boolean(policy.read_only_root_filesystem)),
            entry("capabilities"@, capabilities_yaml(policy)),
        ],
    )
}

/// The one annotation of a policy, its value under its key.
pub open spec fn annotations_yaml(policy: RuntimePolicyView) -> Yaml {
    Yaml::Mapping(seq![entry(policy.annotation_key, Yaml::Text(policy.annotation_value))])
}

/// A runtime policy, as it stands under `k8s`.
pub open spec fn policy_yaml(policy: RuntimePolicyView) -> Yaml {
    Yaml::Mapping(
        seq![
            entry(
                "container"@,
                Yaml::Mapping(seq![entry("securityContext"@, security_context_yaml(policy))]),
            ),
            entry(
                "metadata"@,
                Yaml::Mapping(seq![entry("annotations"@, annotations_yaml(policy))]),
            ),
        ],
    )
}

/// What stands under `main` in `containers`. `replicas` and `k8s` are
/// written only where the container has them.
pub open spec fn container_entries(container: ContainerView) -> Seq<(Yaml, Yaml)> {
    seq![entry("build"@, Yaml::Text(container.build))] + optional_entry(
        "replicas"@,
        match container.replicas {
            Some(replicas) => Some(Yaml::Integer(replicas as int)),
            None => None,
        },
    ) + seq![entry("ports"@, ports_yaml(container.ports))] + optional_entry(
        "k8s"@,
        match container.policy {
            Some(policy) => Some(policy_yaml(policy)),
            None => None,
        },
    )
}

/// The one container, `main`.
pub open spec fn container_yaml(container: ContainerView) -> Yaml {
    Yaml::Mapping(seq![entry("main"@, Yaml::Mapping(container_entries(container)))])
}

/// The entry `provide`, if the document provides anything.
pub open spec fn provide_section(doc: DocumentView) -> Seq<(Yaml, Yaml)> {
    optional_entry(
        "provide"@,
        match doc.provide {
            Some(provide) => Some(provide_yaml(provide)),
            None => None,
        },
    )
}

/// The entry `expose`, if the document has an exposure.
pub open spec fn expose_section(doc: DocumentView) -> Seq<(Yaml, Yaml)> {
    optional_entry(
        "expose"@,
        match doc.expose {
            Some(expose) => Some(exposure_yaml(expose)),
            None => None,
        },
    )
}

/// The entry `containers`, if the document has a container.
pub open spec fn containers_section(doc: DocumentView) -> Seq<(Yaml, Yaml)> {
    optional_entry(
        "containers"@,
        match doc.containers {
            Some(containers) => Some(container_yaml(containers)),
            None => None,
        },
    )
}

/// A document that is reached over TCP lists its container first.
pub open spec fn container_leads(doc: DocumentView) -> bool {
    doc.expose matches Some(ExposureView::Tcp { .. })
}

/// The four entries every document starts with.
pub open spec fn head_entries(doc: DocumentView) -> Seq<(Yaml, Yaml)> {
    seq![
        entry("name"@, Yaml::Text(doc.name)),
        entry("author"@, Yaml::Text(doc.author)),
        entry("description"@, Yaml::Text(doc.description)),
        entry("flag"@, flag_yaml(doc.flag)),
    ]
}

/// The entries of the document, in the order in which they are written:
/// `name`, `author`, `description`, `flag`, and then the sections that the
/// document has.
pub open spec fn document_entries(doc: DocumentView) -> Seq<(Yaml, Yaml)> {
    if container_leads(doc) {
        head_entries(doc) + containers_section(doc) + expose_section(doc) + provide_section(doc)
    } else {
        head_entries(doc) + provide_section(doc) + expose_section(doc) + containers_section(doc)
    }
}

/// The keys of a document differ from each other.
pub proof fn lemma_document_keys()
    ensures
        "name"@ != "author"@ && "name"@ != "description"@ && "name"@ != "flag"@,
        "name"@ != "provide"@ && "name"@ != "expose"@ && "name"@ != "containers"@,
        "author"@ != "description"@ && "author"@ != "flag"@ && "author"@ != "provide"@,
        "author"@ != "expose"@ && "author"@ != "containers"@,
        "description"@ != "flag"@ && "description"@ != "provide"@,
        "description"@ != "expose"@ && "description"@ != "containers"@,
        "flag"@ != "provide"@ && "flag"@ != "expose"@ && "flag"@ != "containers"@,
        "provide"@ != "expose"@ && "provide"@ != "containers"@,
        "expose"@ != "containers"@,
{
    reveal_strlit("name");
    assert("name"@.len() == 4);
    reveal_strlit("author");
    assert("author"@.len() == 6);
    reveal_strlit("description");
    assert("description"@.len() == 11);
    reveal_strlit("flag");
    assert("flag"@.len() == 4);
    reveal_strlit("provide");
    assert("provide"@.len() == 7);
    reveal_strlit("expose");
    assert("expose"@.len() == 6);
    reveal_strlit("containers");
    assert("containers"@.len() == 10);
    assert("name"@[0] != "flag"@[0]);
    assert("author"@[0] != "expose"@[0]);
}

/// The keys of a bundle that share a mapping differ.
pub proof fn lemma_provide_keys()
    ensures
        "kind"@ != "spec"@,
        "as"@ != "files"@ && "as"@ != "exclude"@ && "as"@ != "additional"@,
        "files"@ != "exclude"@ && "files"@ != "additional"@,
        "exclude"@ != "additional"@,
        "path"@ != "str"@,
{
    reveal_strlit("kind");
    assert("kind"@.len() == 4);
    reveal_strlit("spec");
    assert("spec"@.len() == 4);
    reveal_strlit("as");
    assert("as"@.len() == 2);
    reveal_strlit("files");
    assert("files"@.len() == 5);
    reveal_strlit("exclude");
    assert("exclude"@.len() == 7);
    reveal_strlit("additional");
    assert("additional"@.len() == 10);
    reveal_strlit("path");
    assert("path"@.len() == 4);
    reveal_strlit("str");
    assert("str"@.len() == 3);
    assert("kind"@[0] != "spec"@[0]);
}

/// The keys of an exposure and of a container that share a mapping differ.
pub proof fn lemma_service_keys()
    ensures
        "target"@ != "http"@ && "target"@ != "tcp"@,
        "build"@ != "replicas"@ && "build"@ != "ports"@ && "build"@ != "k8s"@,
        "replicas"@ != "ports"@ && "replicas"@ != "k8s"@,
        "ports"@ != "k8s"@,
{
    reveal_strlit("target");
    assert("target"@.len() == 6);
    reveal_strlit("http");
    assert("http"@.len() == 4);
    reveal_strlit("tcp");
    assert("tcp"@.len() == 3);
    reveal_strlit("build");
    assert("build"@.len() == 5);
    reveal_strlit("replicas");
    assert("replicas"@.len() == 8);
    reveal_strlit("ports");
    assert("ports"@.len() == 5);
    reveal_strlit("k8s");
    assert("k8s"@.len() == 3);
    assert("build"@[0] != "ports"@[0]);
}

/// The keys of a runtime policy that share a mapping differ.
pub proof fn lemma_policy_keys()
    ensures
        "container"@ != "metadata"@,
        "readOnlyRootFilesystem"@ != "capabilities"@,
        "drop"@ != "add"@,
{
    reveal_strlit("container");
    assert("container"@.len() == 9);
    reveal_strlit("metadata");
    assert("metadata"@.len() == 8);
    reveal_strlit("readOnlyRootFilesystem");
    assert("readOnlyRootFilesystem"@.len() == 22);
    reveal_strlit("capabilities");
    assert("capabilities"@.len() == 12);
    reveal_strlit("drop");
    assert("drop"@.len() == 4);
    reveal_strlit("add");
    assert("add"@.len() == 3);
}

/// The list of the given texts.
fn encode_texts(texts: &Vec<String>) -> (node: serde_yaml::Value)
    ensures
        value_of(node) == texts_yaml(texts.deep_view()),
{
    let mut items: Vec<serde_yaml::Value> = Vec::new();
    let mut i: usize = 0;
    while i < texts.len()
        invariant
            i <= texts.len(),
            items@.len() == i,
            forall|j: int|
                0 <= j < i ==> value_of(#[trigger] items@[j]) == Yaml::Text(texts.deep_view()[j]),
        decreases texts.len() - i,
    {
        items.push(text_value(texts[i].as_str()));
        i += 1;
    }
    let node = sequence_value(items);
    proof {
        let built = value_of(node)->Sequence_0;
        assert(built =~= texts.deep_view().map_values(|text: Seq<char>| Yaml::Text(text)));
    }
    node
}

/// The list of the given port numbers.
fn encode_ports(ports: &Vec<u16>) -> (node: serde_yaml::Value)
    ensures
        value_of(node) == ports_yaml(ports@),
{
    let mut items: Vec<serde_yaml::Value> = Vec::new();
    let mut i: usize = 0;
    while i < ports.len()
        invariant
            i <= ports.len(),
            items@.len() == i,
            forall|j: int|
                0 <= j < i ==> value_of(#[trigger] items@[j]) == Yaml::Integer(ports@[j] as int),
        decreases ports.len() - i,
    {
        items.push(integer_value(ports[i] as u64));
        i += 1;
    }
    let node = sequence_value(items);
    proof {
        let built = value_of(node)->Sequence_0;
        assert(built =~= ports@.map_values(|port: u16| Yaml::Integer(port as int)));
    }
    node
}

/// The node of a flag.
fn encode_flag(flag: &FlagValue) -> (node: serde_yaml::Value)
    ensures
        value_of(node) == flag_yaml(flag@),
{
    match flag {
        FlagValue::Literal(text) => text_value(text.as_str()),
        FlagValue::File(path) => wrap("file", text_value(path.as_str())),
    }
}

/// The node of one injected file.
fn encode_injected(file: &InjectedFile) -> (node: serde_yaml::Value)
    ensures
        value_of(node) == injected_yaml(file@),
{
    proof {
        lemma_provide_keys();
    }
    let mut entries = new_mapping();
    put(&mut entries, "path", text_value(file.path.as_str()));
    put(&mut entries, "str", text_value(file.content.as_str()));
    assert(entries_of(entries) =~= seq![
        entry("path"@, Yaml::Text(file@.path)),
        entry("str"@, Yaml::Text(file@.content)),
    ]);
    mapping_value(entries)
}

/// The list of the given injected files.
fn encode_injected_files(files: &Vec<InjectedFile>) -> (node: serde_yaml::Value)
    ensures
        value_of(node) == Yaml::Sequence(
            files@.map_values(|file: InjectedFile| file@).map_values(
                |file: InjectedFileView| injected_yaml(file),
            ),
        ),
{
    let mut items: Vec<serde_yaml::Value> = Vec::new();
    let mut i: usize = 0;
    while i < files.len()
        invariant
            i <= files.len(),
            items@.len() == i,
            forall|j: int|
                0 <= j < i ==> value_of(#[trigger] items@[j]) == injected_yaml(files@[j]@),
        decreases files.len() - i,
    {
        items.push(encode_injected(&files[i]));
        i += 1;
    }
    let node = sequence_value(items);
    proof {
        let built = value_of(node)->Sequence_0;
        assert(built =~= files@.map_values(|file: InjectedFile| file@).map_values(
            |file: InjectedFileView| injected_yaml(file),
        ));
    }
    node
}

/// The node of a kind of archive.
fn encode_archive_kind(kind: ArchiveKind) -> (node: serde_yaml::Value)
    ensures
        value_of(node) == Yaml::Text(archive_kind_name(kind)),
{
    match kind {
        ArchiveKind::Zip => text_value("zip"),
    }
}

/// What stands under `spec` in a bundle.
fn encode_bundle_spec(bundle: &PackagingDescriptor) -> (node: serde_yaml::Value)
    ensures
        value_of(node) == Yaml::Mapping(bundle_spec_entries(bundle@)),
{
    proof {
        lemma_provide_keys();
    }
    let mut spec = new_mapping();
    put(&mut spec, "as", text_value(bundle.target_name.as_str()));
    put(&mut spec, "files", encode_texts(&bundle.included_paths));
    put(&mut spec, "exclude", encode_texts(&bundle.excluded_paths));
    let additional = if bundle.injected_files.len() > 0 {
        Some(encode_injected_files(&bundle.injected_files))
    } else {
        None
    };
    put_optional(&mut spec, "additional", additional);
    assert(entries_of(spec) =~= bundle_spec_entries(bundle@));
    mapping_value(spec)
}

/// The node of a bundle.
fn encode_bundle(bundle: &PackagingDescriptor) -> (node: serde_yaml::Value)
    ensures
        value_of(node) == bundle_yaml(bundle@),
{
    proof {
        lemma_provide_keys();
    }
    let mut entries = new_mapping();
    put(&mut entries, "kind", encode_archive_kind(bundle.kind));
    put(&mut entries, "spec", encode_bundle_spec(bundle));
    assert(entries_of(entries) =~= seq![
        entry("kind"@, Yaml::Text(archive_kind_name(bundle@.kind))),
        entry("spec"@, Yaml::Mapping(bundle_spec_entries(bundle@))),
    ]);
    mapping_value(entries)
}

/// The node under `provide`.
fn encode_provide(provide: &Provide) -> (node: serde_yaml::Value)
    ensures
        value_of(node) == provide_yaml(provide@),
{
    match provide {
        Provide::Files(files) => encode_texts(files),
        Provide::Bundle(bundle) => single_item(encode_bundle(bundle)),
    }
}

/// One endpoint of an exposure: the port inside, and the public side under
/// the name of its protocol.
fn encode_endpoint(target: u16, protocol: &str, public: &str) -> (node: serde_yaml::Value)
    requires
        protocol@ != "target"@,
    ensures
        value_of(node) == Yaml::Mapping(
            seq![
                entry("target"@, Yaml::Integer(target as int)),
                entry(protocol@, Yaml::Text(public@)),
            ],
        ),
{
    proof {
        lemma_service_keys();
    }
    let mut endpoint = new_mapping();
    put(&mut endpoint, "target", integer_value(target as u64));
    put(&mut endpoint, protocol, text_value(public));
    assert(entries_of(endpoint) =~= seq![
        entry("target"@, Yaml::Integer(target as int)),
        entry(protocol@, Yaml::Text(public@)),
    ]);
    mapping_value(endpoint)
}

/// The node under `expose`.
fn encode_exposure(expose: &Exposure) -> (node: serde_yaml::Value)
    ensures
        value_of(node) == exposure_yaml(expose@),
{
    proof {
        lemma_service_keys();
    }
    let endpoint = match expose {
        Exposure::Http { target, label } => encode_endpoint(*target, "http", label.as_str()),
        Exposure::Tcp { target, public_port } => encode_endpoint(
            *target,
            "tcp",
            public_port.as_str(),
        ),
    };
    wrap("main", single_item(endpoint))
}

/// The node under `capabilities`.
fn encode_capabilities(policy: &RuntimePolicy) -> (node: serde_yaml::Value)
    ensures
        value_of(node) == capabilities_yaml(policy@),
{
    proof {
        lemma_policy_keys();
    }
    let mut capabilities = new_mapping();
    put(&mut capabilities, "drop", encode_texts(&policy.dropped_capabilities));
    put(&mut capabilities, "add", encode_texts(&policy.added_capabilities));
    assert(entries_of(capabilities) =~= seq![
        entry("drop"@, texts_yaml(policy@.dropped_capabilities)),
        entry("add"@, texts_yaml(policy@.added_capabilities)),
    ]);
    mapping_value(capabilities)
}

/// The node under `securityContext`.
fn encode_security_context(policy: &RuntimePolicy) -> (node: serde_yaml::Value)
    ensures
        value_of(node) == security_context_yaml(policy@),
{
    proof {
        lemma_policy_keys();
    }
    let mut security = new_mapping();
    put(&mut security, "readOnlyRootFilesystem", boolean_value(policy.read_only_root_filesystem));
    put(&mut security, "capabilities", encode_capabilities(policy));
    assert(entries_of(security) =~= seq![
        entry("readOnlyRootFilesystem"@, Yaml::Boolean(policy@.read_only_root_filesystem)),
        entry("capabilities"@, capabilities_yaml(policy@)),
    ]);
    mapping_value(security)
}

/// The node under `annotations`.
fn encode_annotations(policy: &RuntimePolicy) -> (node: serde_yaml::Value)
    ensures
        value_of(node) == annotations_yaml(policy@),
{
    wrap(policy.annotation_key.as_str(), text_value(policy.annotation_value.as_str()))
}

/// The node under `k8s`.
fn encode_policy(policy: &RuntimePolicy) -> (node: serde_yaml::Value)
    ensures
        value_of(node) == policy_yaml(policy@),
{
    proof {
        lemma_policy_keys();
    }
    let mut entries = new_mapping();
    put(&mut entries, "container", wrap("securityContext", encode_security_context(policy)));
    put(&mut entries, "metadata", wrap("annotations", encode_annotations(policy)));
    assert(entries_of(entries) =~= seq![
        entry(
            "container"@,
            Yaml::Mapping(seq![entry("securityContext"@, security_context_yaml(policy@))]),
        ),
        entry("metadata"@, Yaml::Mapping(seq![entry("annotations"@, annotations_yaml(policy@))])),
    ]);
    mapping_value(entries)
}

/// The node under `containers`.
fn encode_container(container: &ContainerBuild) -> (node: serde_yaml::Value)
    ensures
        value_of(node) == container_yaml(container@),
{
    proof {
        lemma_service_keys();
    }
    let replicas = match container.replicas {
        Some(replicas) => Some(integer_value(replicas as u64)),
        None => None,
    };
    let policy = match &container.policy {
        Some(policy) => Some(encode_policy(policy)),
        None => None,
    };
    let mut main = new_mapping();
    put(&mut main, "build", text_value(container.build.as_str()));
    put_optional(&mut main, "replicas", replicas);
    put(&mut main, "ports", encode_ports(&container.ports));
    put_optional(&mut main, "k8s", policy);
    assert(entries_of(main) =~= container_entries(container@));
    wrap("main", mapping_value(main))
}

/// The document as a `serde_yaml` mapping.
fn encode_document(doc: &ChallengeDocument) -> (entries: serde_yaml::Mapping)
    ensures
        entries_of(entries) == document_entries(doc@),
{
    proof {
        lemma_document_keys();
    }
    let mut entries = new_mapping();
    put(&mut entries, "name", text_value(doc.name.as_str()));
    put(&mut entries, "author", text_value(doc.author.as_str()));
    put(&mut entries, "description", text_value(doc.description.as_str()));
    put(&mut entries, "flag", encode_flag(&doc.flag));
    assert(entries_of(entries) =~= head_entries(doc@));
    let provide = match &doc.provide {
        Some(provide) => Some(encode_provide(provide)),
        None => None,
    };
    let expose = match &doc.expose {
        Some(expose) => Some(encode_exposure(expose)),
        None => None,
    };
    let containers = match &doc.containers {
        Some(containers) => Some(encode_container(containers)),
        None => None,
    };
    let container_first = match &doc.expose {
        Some(Exposure::Tcp { .. }) => true,
        _ => false,
    };
    if container_first {
        put_optional(&mut entries, "containers", containers);
        put_optional(&mut entries, "expose", expose);
        put_optional(&mut entries, "provide", provide);
    } else {
        put_optional(&mut entries, "provide", provide);
        put_optional(&mut entries, "expose", expose);
        put_optional(&mut entries, "containers", containers);
    }
    entries
}

/// What the caller gets for what the writer gave: the text, or the writer's
/// error as an error of this crate.
pub fn written(outcome: Result<String, serde_yaml::Error>) -> (result: Result<String, YamlError>)
    ensures
        result == match outcome {
            Ok(text) => Ok::<String, YamlError>(text),
            Err(error) => Err(YamlError::Emitter(error)),
        },
{
    match outcome {
        Ok(text) => Ok(text),
        Err(error) => Err(YamlError::Emitter(error)),
    }
}

impl ChallengeDocument {
    /// The document as YAML text. A document that is too large for the
    /// writer is not handed to it. Any other document is written with its
    /// entries as `document_entries` lists them, and the text is what
    /// `serde_yaml` makes of them.
    pub fn to_yaml(&self) -> (result: Result<String, YamlError>)
        ensures
            match result {
                Ok(text) => self@.fits() && yaml_text(document_entries(self@)) == Some(text@),
                Err(YamlError::TooLarge) => !self@.fits(),
                Err(YamlError::Emitter(_)) => self@.fits() && yaml_text(document_entries(self@))
                    is None,
            },
    {
        if !self.fits() {
            return Err(YamlError::TooLarge);
        }
        let entries = encode_document(self);
        written(render(&entries))
    }
}

impl GenApp {
    /// The `challenge.yaml` of this form: its document, written out.
    pub fn to_yaml(&self) -> (result: Result<String, YamlError>)
        ensures
            match result {
                Ok(text) => document_for(self@).fits() && yaml_text(
                    document_entries(document_for(self@)),
                ) == Some(text@),
                Err(YamlError::TooLarge) => !document_for(self@).fits(),
                Err(YamlError::Emitter(_)) => document_for(self@).fits() && yaml_text(
                    document_entries(document_for(self@)),
                ) is None,
            },
    {
        self.synthesize().to_yaml()
    }
}

} // verus!
