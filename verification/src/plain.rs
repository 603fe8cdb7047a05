//! The shape of what is written: a document is made of texts, whole
//! numbers, truth values, lists and mappings under text keys, of nothing
//! else, and nests nine levels deep at most.

use crate::document::{
    ContainerView, DocumentView, ExposureView, FlagView, InjectedFileView, PackagingView,
    ProvideView, RuntimePolicyView,
};
use crate::encoding::{
    annotations_yaml, archive_kind_name, bundle_spec_entries, bundle_yaml, capabilities_yaml,
    container_entries, container_leads, container_yaml, containers_section, document_entries,
    expose_section, exposure_yaml, flag_yaml, head_entries, injected_yaml, policy_yaml,
    ports_yaml, provide_section, provide_yaml, security_context_yaml, texts_yaml,
};
use crate::nodes::{entry, optional_entry};
use crate::yaml::Yaml;
use vstd::prelude::*;

verus! {

/// How deep a document nests at most, counting the document itself and the
/// texts at its leaves.
pub open spec fn document_levels() -> nat {
    9
}

/// The node holds no null, no float and no tagged value, every key of every
/// mapping in it is a text, and it nests `levels` deep at most: a text or a
/// number is one level, a list or a mapping one more than what it holds.
pub open spec fn is_plain(node: Yaml, levels: nat) -> bool
    decreases node,
{
    levels > 0 && match node {
        Yaml::Boolean(_) | Yaml::Integer(_) | Yaml::Text(_) => true,
        Yaml::Sequence(items) => all_plain(items, (levels - 1) as nat),
        Yaml::Mapping(entries) => entries_plain(entries, (levels - 1) as nat),
        Yaml::Null | Yaml::Other => false,
    }
}

/// Every node of the list is plain.
pub open spec fn all_plain(items: Seq<Yaml>, levels: nat) -> bool
    decreases items,
{
    forall|i: int| 0 <= i < items.len() ==> is_plain(#[trigger] items[i], levels)
}

/// Every key of the entries is a text, and every value is plain.
pub open spec fn entries_plain(entries: Seq<(Yaml, Yaml)>, levels: nat) -> bool
    decreases entries,
{
    forall|i: int|
        0 <= i < entries.len() ==> (#[trigger] entries[i]).0 is Text && is_plain(
            entries[i].1,
            levels,
        )
}

/// A list of texts is plain, two levels deep.
proof fn lemma_texts_plain(texts: Seq<Seq<char>>, levels: nat)
    requires
        levels >= 2,
    ensures
        is_plain(texts_yaml(texts), levels),
{
    let items = texts_yaml(texts)->Sequence_0;
    assert forall|i: int| 0 <= i < items.len() implies is_plain(
        #[trigger] items[i],
        (levels - 1) as nat,
    ) by {
        assert(items[i] == Yaml::Text(texts[i]));
    }
}

/// A list of ports is plain, two levels deep.
proof fn lemma_ports_plain(ports: Seq<u16>, levels: nat)
    requires
        levels >= 2,
    ensures
        is_plain(ports_yaml(ports), levels),
{
    let items = ports_yaml(ports)->Sequence_0;
    assert forall|i: int| 0 <= i < items.len() implies is_plain(
        #[trigger] items[i],
        (levels - 1) as nat,
    ) by {
        assert(items[i] == Yaml::Integer(ports[i] as int));
    }
}

/// A mapping of one entry with a plain value is plain, one level deeper.
proof fn lemma_one_plain(key: Seq<char>, value: Yaml, levels: nat)
    requires
        is_plain(value, levels),
    ensures
        entries_plain(seq![entry(key, value)], levels),
        is_plain(Yaml::Mapping(seq![entry(key, value)]), levels + 1),
{
    let entries = seq![entry(key, value)];
    assert forall|i: int| 0 <= i < entries.len() implies (#[trigger] entries[i]).0 is Text
        && is_plain(entries[i].1, levels) by {
        assert(entries[i] == entry(key, value));
    }
}

/// A mapping of two entries with plain values is plain, one level deeper.
proof fn lemma_two_plain(
    first: Seq<char>,
    one: Yaml,
    second: Seq<char>,
    other: Yaml,
    levels: nat,
)
    requires
        is_plain(one, levels),
        is_plain(other, levels),
    ensures
        entries_plain(seq![entry(first, one), entry(second, other)], levels),
        is_plain(Yaml::Mapping(seq![entry(first, one), entry(second, other)]), levels + 1),
{
    let entries = seq![entry(first, one), entry(second, other)];
    assert forall|i: int| 0 <= i < entries.len() implies (#[trigger] entries[i]).0 is Text
        && is_plain(entries[i].1, levels) by {
        if i == 0 {
            assert(entries[i] == entry(first, one));
        } else {
            assert(entries[i] == entry(second, other));
        }
    }
}

/// Plain entries put behind plain entries are plain.
proof fn lemma_add_plain(front: Seq<(Yaml, Yaml)>, back: Seq<(Yaml, Yaml)>, levels: nat)
    requires
        entries_plain(front, levels),
        entries_plain(back, levels),
    ensures
        entries_plain(front + back, levels),
{
    let all = front + back;
    assert forall|i: int| 0 <= i < all.len() implies (#[trigger] all[i]).0 is Text && is_plain(
        all[i].1,
        levels,
    ) by {
        if i < front.len() {
            assert(all[i] == front[i]);
        } else {
            assert(all[i] == back[i - front.len()]);
        }
    }
}

/// An entry that may be missing is plain where its value is.
proof fn lemma_optional_plain(key: Seq<char>, value: Option<Yaml>, levels: nat)
    requires
        value matches Some(node) ==> is_plain(node, levels),
    ensures
        entries_plain(optional_entry(key, value), levels),
{
    if let Some(node) = value {
        lemma_one_plain(key, node, levels);
    }
}

/// A list of one plain node is plain, one level deeper.
proof fn lemma_single_plain(item: Yaml, levels: nat)
    requires
        is_plain(item, levels),
    ensures
        is_plain(Yaml::Sequence(seq![item]), levels + 1),
{
    let items = seq![item];
    assert forall|i: int| 0 <= i < items.len() implies is_plain(#[trigger] items[i], levels) by {
        assert(items[i] == item);
    }
}

/// A flag is plain, two levels deep.
proof fn lemma_flag_plain(flag: FlagView, levels: nat)
    requires
        levels >= 2,
    ensures
        is_plain(flag_yaml(flag), levels),
{
    if let FlagView::File(path) = flag {
        lemma_one_plain("file"@, Yaml::Text(path), (levels - 1) as nat);
    }
}

/// A list of injected files is plain, three levels deep.
proof fn lemma_injected_plain(files: Seq<InjectedFileView>, levels: nat)
    requires
        levels >= 3,
    ensures
        is_plain(
            Yaml::Sequence(files.map_values(|file: InjectedFileView| injected_yaml(file))),
            levels,
        ),
{
    let nodes = files.map_values(|file: InjectedFileView| injected_yaml(file));
    assert forall|i: int| 0 <= i < nodes.len() implies is_plain(
        #[trigger] nodes[i],
        (levels - 1) as nat,
    ) by {
        lemma_two_plain(
            "path"@,
            Yaml::Text(files[i].path),
            "str"@,
            Yaml::Text(files[i].content),
            (levels - 2) as nat,
        );
        assert(nodes[i] == injected_yaml(files[i]));
    }
}

/// A bundle is plain, five levels deep.
proof fn lemma_bundle_plain(bundle: PackagingView, levels: nat)
    requires
        levels >= 5,
    ensures
        is_plain(bundle_yaml(bundle), levels),
{
    let inside = (levels - 2) as nat;
    lemma_texts_plain(bundle.included_paths, inside);
    lemma_texts_plain(bundle.excluded_paths, inside);
    lemma_injected_plain(bundle.injected_files, inside);
    let target = seq![entry("as"@, Yaml::Text(bundle.target_name))];
    let lists = seq![
        entry("files"@, texts_yaml(bundle.included_paths)),
        entry("exclude"@, texts_yaml(bundle.excluded_paths)),
    ];
    let additional = if bundle.injected_files.len() > 0 {
        Some(
            Yaml::Sequence(
                bundle.injected_files.map_values(|file: InjectedFileView| injected_yaml(file)),
            ),
        )
    } else {
        None
    };
    lemma_one_plain("as"@, Yaml::Text(bundle.target_name), inside);
    lemma_two_plain(
        "files"@,
        texts_yaml(bundle.included_paths),
        "exclude"@,
        texts_yaml(bundle.excluded_paths),
        inside,
    );
    lemma_optional_plain("additional"@, additional, inside);
    lemma_add_plain(target, lists, inside);
    lemma_add_plain(target + lists, optional_entry("additional"@, additional), inside);
    assert(bundle_spec_entries(bundle) =~= target + lists + optional_entry(
        "additional"@,
        additional,
    ));
    lemma_two_plain(
        "kind"@,
        Yaml::Text(archive_kind_name(bundle.kind)),
        "spec"@,
        Yaml::Mapping(bundle_spec_entries(bundle)),
        (levels - 1) as nat,
    );
}

/// What is provided is plain, six levels deep.
proof fn lemma_provide_plain(provide: ProvideView, levels: nat)
    requires
        levels >= 6,
    ensures
        is_plain(provide_yaml(provide), levels),
{
    match provide {
        ProvideView::Files(files) => {
            lemma_texts_plain(files, levels);
        },
        ProvideView::Bundle(bundle) => {
            lemma_bundle_plain(bundle, (levels - 1) as nat);
            lemma_single_plain(bundle_yaml(bundle), (levels - 1) as nat);
        },
    }
}

/// An exposure is plain, four levels deep.
proof fn lemma_exposure_plain(expose: ExposureView, levels: nat)
    requires
        levels >= 4,
    ensures
        is_plain(exposure_yaml(expose), levels),
{
    let inside = (levels - 3) as nat;
    match expose {
        ExposureView::Http { target, label } => {
            let number = Yaml::Integer(target as int);
            lemma_two_plain("target"@, number, "http"@, Yaml::Text(label), inside);
            let endpoint = Yaml::Mapping(
                seq![entry("target"@, number), entry("http"@, Yaml::Text(label))],
            );
            lemma_single_plain(endpoint, inside + 1);
            lemma_one_plain("main"@, Yaml::Sequence(seq![endpoint]), inside + 2);
        },
        ExposureView::Tcp { target, public_port } => {
            let number = Yaml::Integer(target as int);
            lemma_two_plain("target"@, number, "tcp"@, Yaml::Text(public_port), inside);
            let endpoint = Yaml::Mapping(
                seq![entry("target"@, number), entry("tcp"@, Yaml::Text(public_port))],
            );
            lemma_single_plain(endpoint, inside + 1);
            lemma_one_plain("main"@, Yaml::Sequence(seq![endpoint]), inside + 2);
        },
    }
}

/// A runtime policy is plain, six levels deep.
proof fn lemma_policy_plain(policy: RuntimePolicyView, levels: nat)
    requires
        levels >= 6,
    ensures
        is_plain(policy_yaml(policy), levels),
{
    let lists = (levels - 4) as nat;
    lemma_texts_plain(policy.dropped_capabilities, lists);
    lemma_texts_plain(policy.added_capabilities, lists);
    lemma_two_plain(
        "drop"@,
        texts_yaml(policy.dropped_capabilities),
        "add"@,
        texts_yaml(policy.added_capabilities),
        lists,
    );
    lemma_two_plain(
        "readOnlyRootFilesystem"@,
        Yaml::Boolean(policy.read_only_root_filesystem),
        "capabilities"@,
        capabilities_yaml(policy),
        lists + 1,
    );
    lemma_one_plain("securityContext"@, security_context_yaml(policy), lists + 2);
    lemma_one_plain(policy.annotation_key, Yaml::Text(policy.annotation_value), lists + 1);
    lemma_one_plain("annotations"@, annotations_yaml(policy), lists + 2);
    lemma_two_plain(
        "container"@,
        Yaml::Mapping(seq![entry("securityContext"@, security_context_yaml(policy))]),
        "metadata"@,
        Yaml::Mapping(seq![entry("annotations"@, annotations_yaml(policy))]),
        lists + 3,
    );
}

/// A container is plain, eight levels deep.
proof fn lemma_container_plain(container: ContainerView, levels: nat)
    requires
        levels >= 8,
    ensures
        is_plain(container_yaml(container), levels),
{
    let inside = (levels - 2) as nat;
    lemma_ports_plain(container.ports, inside);
    let build = seq![entry("build"@, Yaml::Text(container.build))];
    let replicas = match container.replicas {
        Some(replicas) => Some(Yaml::Integer(replicas as int)),
        None => None,
    };
    let ports = seq![entry("ports"@, ports_yaml(container.ports))];
    let policy = match container.policy {
        Some(policy) => Some(policy_yaml(policy)),
        None => None,
    };
    lemma_one_plain("build"@, Yaml::Text(container.build), inside);
    lemma_optional_plain("replicas"@, replicas, inside);
    lemma_one_plain("ports"@, ports_yaml(container.ports), inside);
    if let Some(policy) = container.policy {
        lemma_policy_plain(policy, inside);
    }
    lemma_optional_plain("k8s"@, policy, inside);
    lemma_add_plain(build, optional_entry("replicas"@, replicas), inside);
    lemma_add_plain(build + optional_entry("replicas"@, replicas), ports, inside);
    lemma_add_plain(
        build + optional_entry("replicas"@, replicas) + ports,
        optional_entry("k8s"@, policy),
        inside,
    );
    lemma_one_plain("main"@, Yaml::Mapping(container_entries(container)), inside + 1);
}

/// Every document is written with texts as its keys, at every depth, with
/// nothing but texts, whole numbers, truth values, lists and mappings under
/// them, and nests `document_levels()` deep at most.
pub proof fn law_document_is_plain(doc: DocumentView)
    ensures
        is_plain(Yaml::Mapping(document_entries(doc)), document_levels()),
{
    let inside: nat = 8;
    lemma_flag_plain(doc.flag, inside);
    let head = head_entries(doc);
    let names = seq![
        entry("name"@, Yaml::Text(doc.name)),
        entry("author"@, Yaml::Text(doc.author)),
    ];
    let texts = seq![
        entry("description"@, Yaml::Text(doc.description)),
        entry("flag"@, flag_yaml(doc.flag)),
    ];
    lemma_two_plain("name"@, Yaml::Text(doc.name), "author"@, Yaml::Text(doc.author), inside);
    lemma_two_plain(
        "description"@,
        Yaml::Text(doc.description),
        "flag"@,
        flag_yaml(doc.flag),
        inside,
    );
    lemma_add_plain(names, texts, inside);
    assert(head =~= names + texts);
    let provide = match doc.provide {
        Some(provide) => Some(provide_yaml(provide)),
        None => None,
    };
    let expose = match doc.expose {
        Some(expose) => Some(exposure_yaml(expose)),
        None => None,
    };
    let containers = match doc.containers {
        Some(containers) => Some(container_yaml(containers)),
        None => None,
    };
    if let Some(provide) = doc.provide {
        lemma_provide_plain(provide, inside);
    }
    if let Some(expose) = doc.expose {
        lemma_exposure_plain(expose, inside);
    }
    if let Some(containers) = doc.containers {
        lemma_container_plain(containers, inside);
    }
    lemma_optional_plain("provide"@, provide, inside);
    lemma_optional_plain("expose"@, expose, inside);
    lemma_optional_plain("containers"@, containers, inside);
    if container_leads(doc) {
        lemma_add_plain(head, containers_section(doc), inside);
        lemma_add_plain(head + containers_section(doc), expose_section(doc), inside);
        lemma_add_plain(
            head + containers_section(doc) + expose_section(doc),
            provide_section(doc),
            inside,
        );
    } else {
        lemma_add_plain(head, provide_section(doc), inside);
        lemma_add_plain(head + provide_section(doc), expose_section(doc), inside);
        lemma_add_plain(
            head + provide_section(doc) + expose_section(doc),
            containers_section(doc),
            inside,
        );
    }
}

} // verus!
