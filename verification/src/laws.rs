//! What holds of every form and its document.

use crate::challenge::{ChallengeSpec, ChallengeType};
use crate::document::{FlagView, ProvideView};
use crate::encoding::{
    capabilities_yaml, container_entries, container_yaml, document_entries, head_entries,
    lemma_document_keys, lemma_policy_keys, lemma_service_keys, policy_yaml,
    security_context_yaml, texts_yaml,
};
use crate::nodes::{entry, lacks};
use crate::paths::{
    inside_build_dir, is_first_segment, is_kept, lemma_non_blank_push, non_blank,
};
use crate::synthesis::{
    binary_container, description_for, document_for, fake_flag_at, hardened_policy,
};
use crate::yaml::Yaml;
use vstd::prelude::*;

verus! {

/// The value of the first entry with the text `key` as its key, if there is
/// one.
pub open spec fn value_at(entries: Seq<(Yaml, Yaml)>, key: Seq<char>) -> Option<Yaml>
    decreases entries.len(),
{
    if entries.len() == 0 {
        None
    } else if entries[0].0 == Yaml::Text(key) {
        Some(entries[0].1)
    } else {
        value_at(entries.drop_first(), key)
    }
}

/// One step down a document: what stands under `key` in `node`, if `node`
/// is a mapping that has the key.
pub open spec fn under(node: Option<Yaml>, key: Seq<char>) -> Option<Yaml> {
    match node {
        Some(Yaml::Mapping(entries)) => value_at(entries, key),
        _ => None,
    }
}

/// Dropping the blank entries of a list that has none changes nothing:
/// filtering twice gives what filtering once gives.
pub proof fn law_non_blank_idempotent(entries: Seq<Seq<char>>)
    ensures
        non_blank(non_blank(entries)) == non_blank(entries),
    decreases entries.len(),
{
    if entries.len() == 0 {
        reveal(Seq::filter);
    } else {
        let front = entries.drop_last();
        let last = entries.last();
        assert(entries =~= front.push(last));
        law_non_blank_idempotent(front);
        lemma_non_blank_push(front, last);
        if last.len() > 0 {
            lemma_non_blank_push(non_blank(front), last);
        }
    }
}

/// Filtering keeps no blank entry, and keeps every entry that is not blank.
pub proof fn law_non_blank_contents(entries: Seq<Seq<char>>)
    ensures
        forall|i: int|
            0 <= i < non_blank(entries).len() ==> (#[trigger] non_blank(entries)[i]).len() > 0,
        forall|i: int|
            0 <= i < entries.len() && (#[trigger] entries[i]).len() > 0 ==> non_blank(
                entries,
            ).contains(entries[i]),
{
    assert forall|i: int| 0 <= i < non_blank(entries).len() implies (#[trigger] non_blank(
        entries,
    )[i]).len() > 0 by {
        entries.lemma_filter_pred(is_kept(), i);
    }
    assert forall|i: int|
        0 <= i < entries.len() && (#[trigger] entries[i]).len() > 0 implies non_blank(
        entries,
    ).contains(entries[i]) by {
        entries.lemma_filter_contains(is_kept(), i);
    }
}

/// A path has one first segment at most.
pub proof fn law_first_segment_unique(path: Seq<char>, one: Seq<char>, other: Seq<char>)
    requires
        is_first_segment(path, one),
        is_first_segment(path, other),
    ensures
        one == other,
{
    if one.len() < other.len() {
        assert(other[one.len() as int] == path.subrange(0, other.len() as int)[one.len() as int]);
        assert(other.contains('/'));
    }
    if other.len() < one.len() {
        assert(one[other.len() as int] == path.subrange(0, one.len() as int)[other.len() as int]);
        assert(one.contains('/'));
    }
    assert(one =~= other);
}

/// A challenge of the kind `Other` that provides no files has a document of
/// four entries: it has no `provide`, no `expose` and no `containers`.
pub proof fn law_other_without_files(form: ChallengeSpec)
    requires
        form.challenge_type == ChallengeType::Other,
        !form.provide_enabled,
    ensures
        document_for(form).provide is None,
        document_for(form).expose is None,
        document_for(form).containers is None,
        document_entries(document_for(form)) == head_entries(document_for(form)),
        lacks(document_entries(document_for(form)), "provide"@),
        lacks(document_entries(document_for(form)), "expose"@),
        lacks(document_entries(document_for(form)), "containers"@),
{
    let doc = document_for(form);
    let entries = document_entries(doc);
    assert(entries =~= head_entries(doc));
    lemma_document_keys();
    reveal(lacks);
    assert forall|i: int| 0 <= i < entries.len() implies (#[trigger] entries[i]).0 != Yaml::Text(
        "provide"@,
    ) && entries[i].0 != Yaml::Text("expose"@) && entries[i].0 != Yaml::Text("containers"@) by {}
}

/// The flag of the document is a file exactly when the form says so, and is
/// written under `flag` as `file: <path>` or as the text itself.
pub proof fn law_flag(form: ChallengeSpec)
    ensures
        form.flag_is_file ==> document_for(form).flag == FlagView::File(form.flag),
        !form.flag_is_file ==> document_for(form).flag == FlagView::Literal(form.flag),
        value_at(document_entries(document_for(form)), "flag"@) == Some(
            if form.flag_is_file {
                Yaml::Mapping(seq![entry("file"@, Yaml::Text(form.flag))])
            } else {
                Yaml::Text(form.flag)
            },
        ),
{
    let doc = document_for(form);
    let entries = document_entries(doc);
    lemma_document_keys();
    lemma_value_at(entries, "flag"@, 3);
}

/// The value under a key is that of the first entry with the key.
pub proof fn lemma_value_at(entries: Seq<(Yaml, Yaml)>, key: Seq<char>, i: int)
    requires
        0 <= i < entries.len(),
        entries[i].0 == Yaml::Text(key),
        forall|j: int| 0 <= j < i ==> (#[trigger] entries[j]).0 != Yaml::Text(key),
    ensures
        value_at(entries, key) == Some(entries[i].1),
    decreases i,
{
    if i > 0 {
        let rest = entries.drop_first();
        assert(entries[0].0 != Yaml::Text(key));
        assert forall|j: int| 0 <= j < i - 1 implies (#[trigger] rest[j]).0 != Yaml::Text(key) by {
            assert(rest[j] == entries[j + 1]);
        }
        lemma_value_at(rest, key, i - 1);
    }
}

/// Name and author are written as the form has them, and the description
/// as the form has it with the placeholder of its kind.
pub proof fn law_head(form: ChallengeSpec)
    ensures
        value_at(document_entries(document_for(form)), "name"@) == Some(Yaml::Text(form.name)),
        value_at(document_entries(document_for(form)), "author"@) == Some(
            Yaml::Text(form.author),
        ),
        value_at(document_entries(document_for(form)), "description"@) == Some(
            Yaml::Text(description_for(form)),
        ),
{
    let entries = document_entries(document_for(form));
    lemma_document_keys();
    lemma_value_at(entries, "name"@, 0);
    lemma_value_at(entries, "author"@, 1);
    lemma_value_at(entries, "description"@, 2);
}

/// What stands in the document at
/// `containers.main.k8s.container.securityContext.capabilities`, under the
/// key `list`.
pub open spec fn capability_list(entries: Seq<(Yaml, Yaml)>, list: Seq<char>) -> Option<Yaml> {
    under(
        under(
            under(
                under(
                    under(under(value_at(entries, "containers"@), "main"@), "k8s"@),
                    "container"@,
                ),
                "securityContext"@,
            ),
            "capabilities"@,
        ),
        list,
    )
}

/// Whatever else its form holds, a binary challenge runs with the
/// capabilities `chown`, `setuid`, `setgid` and `sys_admin` added and `all`
/// dropped, and its document says so at
/// `containers.main.k8s.container.securityContext.capabilities`.
pub proof fn law_binary_capabilities(form: ChallengeSpec)
    requires
        form.challenge_type == ChallengeType::TCPBinary,
    ensures
        document_for(form).containers matches Some(container) && container.policy matches Some(
            policy,
        ) && policy.added_capabilities == seq!["chown"@, "setuid"@, "setgid"@, "sys_admin"@]
            && policy.dropped_capabilities == seq!["all"@],
        capability_list(document_entries(document_for(form)), "add"@) == Some(
            texts_yaml(seq!["chown"@, "setuid"@, "setgid"@, "sys_admin"@]),
        ),
        capability_list(document_entries(document_for(form)), "drop"@) == Some(
            texts_yaml(seq!["all"@]),
        ),
{
    lemma_document_keys();
    lemma_service_keys();
    lemma_policy_keys();
    let doc = document_for(form);
    let entries = document_entries(doc);
    let container = binary_container();
    let policy = hardened_policy();
    assert(entries[4] == entry("containers"@, container_yaml(container)));
    lemma_value_at(entries, "containers"@, 4);
    let top = seq![entry("main"@, Yaml::Mapping(container_entries(container)))];
    lemma_value_at(top, "main"@, 0);
    let main = container_entries(container);
    assert(main[3] == entry("k8s"@, policy_yaml(policy)));
    lemma_value_at(main, "k8s"@, 3);
    let k8s = policy_yaml(policy)->Mapping_0;
    lemma_value_at(k8s, "container"@, 0);
    let inner = seq![entry("securityContext"@, security_context_yaml(policy))];
    lemma_value_at(inner, "securityContext"@, 0);
    let security = security_context_yaml(policy)->Mapping_0;
    lemma_value_at(security, "capabilities"@, 1);
    let capabilities = capabilities_yaml(policy)->Mapping_0;
    lemma_value_at(capabilities, "drop"@, 0);
    lemma_value_at(capabilities, "add"@, 1);
}

/// A web challenge that bundles its files and names a flag file inside the
/// build directory keeps that file out of the bundle and writes the stand-in
/// flag in its place.
pub proof fn law_bundle_masks_flag_inside(form: ChallengeSpec)
    requires
        form.challenge_type == ChallengeType::WebServer(true),
        form.provide_enabled,
        form.flag_is_file,
        inside_build_dir(form.flag),
    ensures
        document_for(form).provide matches Some(ProvideView::Bundle(bundle))
            && bundle.excluded_paths == seq![form.flag] + non_blank(form.provide_files)
            && bundle.excluded_paths.contains(form.flag) && bundle.injected_files
            == seq![fake_flag_at(form.flag)],
{
    let excluded = seq![form.flag] + non_blank(form.provide_files);
    assert(excluded[0] == form.flag);
}

/// A web challenge that bundles its files and names a flag file outside the
/// build directory writes no stand-in flag, and leaves out of the bundle
/// only what the form lists: not the flag file, unless it is listed.
pub proof fn law_bundle_ignores_flag_outside(form: ChallengeSpec)
    requires
        form.challenge_type == ChallengeType::WebServer(true),
        form.provide_enabled,
        form.flag_is_file,
        !inside_build_dir(form.flag),
    ensures
        document_for(form).provide matches Some(ProvideView::Bundle(bundle))
            && bundle.injected_files.len() == 0 && bundle.excluded_paths == non_blank(
            form.provide_files,
        ) && (!form.provide_files.contains(form.flag) ==> !bundle.excluded_paths.contains(
            form.flag,
        )),
{
    if non_blank(form.provide_files).contains(form.flag) {
        form.provide_files.lemma_filter_contains_rev(is_kept(), form.flag);
    }
}

} // verus!
