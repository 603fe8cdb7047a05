//! The rules that turn a filled-in form into a challenge document, stated as
//! spec functions over the form's view, and the code that follows them.

use crate::challenge::{ChallengeSpec, ChallengeType, GenApp};
use crate::document::{
    view_of, ArchiveKind, ChallengeDocument, ContainerBuild, ContainerView, DocumentView,
    Exposure, ExposureView, FlagValue, FlagView, InjectedFile, InjectedFileView,
    PackagingDescriptor, PackagingView, Provide, ProvideView, RuntimePolicy, RuntimePolicyView,
};
use crate::paths::{in_build_dir, inside_build_dir, non_blank, non_blank_entries};
use vstd::prelude::*;
use vstd::string::*;

verus! {

/// The port a service listens on inside its container.
pub const SERVICE_PORT: u16 = 5000;

/// How many copies of a jailed binary run.
pub const BINARY_REPLICAS: u32 = 1;

/// The line a web challenge's description ends with; the platform puts the
/// link to the site in its place.
pub open spec fn link_placeholder() -> Seq<char> {
    "\n\n{{ link }}"@
}

/// The line a binary challenge's description ends with; the platform puts
/// the command that connects to the service in its place.
pub open spec fn connect_placeholder() -> Seq<char> {
    "\n\n`{{ nc }}`"@
}

/// The description as it is shown: the author's text, and the placeholder
/// that goes with the kind of challenge.
pub open spec fn description_for(form: ChallengeSpec) -> Seq<char> {
    match form.challenge_type {
        ChallengeType::WebServer(_) => form.description + link_placeholder(),
        ChallengeType::TCPBinary => form.description + connect_placeholder(),
        ChallengeType::Other => form.description,
    }
}

/// The flag is given as a file exactly when the form says so.
pub open spec fn flag_for(form: ChallengeSpec) -> FlagView {
    if form.flag_is_file {
        FlagView::File(form.flag)
    } else {
        FlagView::Literal(form.flag)
    }
}

/// The stand-in flag that is written into a bundle at `path`.
pub open spec fn fake_flag_at(path: Seq<char>) -> InjectedFileView {
    InjectedFileView { path, content: "flag{fake_flag}"@ }
}

/// Where the flag of a web challenge lies unless the form names a file.
pub open spec fn default_flag_path() -> Seq<char> {
    "server/flag.txt"@
}

/// What a bundle leaves out: the flag file, if the form names one and it
/// lies in the build directory, and then every non-blank entry of the form's
/// file list.
pub open spec fn excluded_for(form: ChallengeSpec) -> Seq<Seq<char>> {
    if form.flag_is_file && inside_build_dir(form.flag) {
        seq![form.flag] + non_blank(form.provide_files)
    } else {
        non_blank(form.provide_files)
    }
}

/// What a bundle writes over: a stand-in for the flag file. Where the form
/// names a flag file outside the build directory there is nothing to mask.
pub open spec fn injected_for(form: ChallengeSpec) -> Seq<InjectedFileView> {
    if !form.flag_is_file {
        seq![fake_flag_at(default_flag_path())]
    } else if inside_build_dir(form.flag) {
        seq![fake_flag_at(form.flag)]
    } else {
        Seq::empty()
    }
}

/// The zip bundle of a web challenge: the build directory as `server.zip`.
pub open spec fn bundle_for(form: ChallengeSpec) -> PackagingView {
    PackagingView {
        kind: ArchiveKind::Zip,
        target_name: "server.zip"@,
        included_paths: seq!["server"@],
        excluded_paths: excluded_for(form),
        injected_files: injected_for(form),
    }
}

/// Nothing is provided unless the form asks for it. A web challenge that
/// bundles provides one zip; every other one the non-blank files.
pub open spec fn provide_for(form: ChallengeSpec) -> Option<ProvideView> {
    if !form.provide_enabled {
        None
    } else if form.challenge_type == ChallengeType::WebServer(true) {
        Some(ProvideView::Bundle(bundle_for(form)))
    } else {
        Some(ProvideView::Files(non_blank(form.provide_files)))
    }
}

/// A web challenge is reached over HTTP under its own name, a binary over
/// TCP on a port that the operator still has to choose.
pub open spec fn expose_for(form: ChallengeSpec) -> Option<ExposureView> {
    match form.challenge_type {
        ChallengeType::WebServer(_) => Some(
            ExposureView::Http { target: SERVICE_PORT, label: form.name },
        ),
        ChallengeType::TCPBinary => Some(
            ExposureView::Tcp { target: SERVICE_PORT, public_port: "CHANGE_ME"@ },
        ),
        ChallengeType::Other => None,
    }
}

/// The policy a jailed binary runs under: a read-only root filesystem, no
/// capability but the four its own jail needs, and no sandboxing profile.
pub open spec fn hardened_policy() -> RuntimePolicyView {
    RuntimePolicyView {
        read_only_root_filesystem: true,
        dropped_capabilities: seq!["all"@],
        added_capabilities: seq!["chown"@, "setuid"@, "setgid"@, "sys_admin"@],
        annotation_key: "container.apparmor.security.beta.kubernetes.io/main"@,
        annotation_value: "unconfined"@,
    }
}

/// The container of a web challenge.
pub open spec fn web_container() -> ContainerView {
    ContainerView {
        build: "server"@,
        replicas: None,
        ports: seq![SERVICE_PORT],
        policy: None,
    }
}

/// The container of a jailed binary.
pub open spec fn binary_container() -> ContainerView {
    ContainerView {
        build: "bin"@,
        replicas: Some(BINARY_REPLICAS),
        ports: seq![SERVICE_PORT],
        policy: Some(hardened_policy()),
    }
}

/// A web challenge and a binary have a container each; nothing else has.
pub open spec fn containers_for(form: ChallengeSpec) -> Option<ContainerView> {
    match form.challenge_type {
        ChallengeType::WebServer(_) => Some(web_container()),
        ChallengeType::TCPBinary => Some(binary_container()),
        ChallengeType::Other => None,
    }
}

/// The document of a form.
pub open spec fn document_for(form: ChallengeSpec) -> DocumentView {
    DocumentView {
        name: form.name,
        author: form.author,
        description: description_for(form),
        flag: flag_for(form),
        provide: provide_for(form),
        expose: expose_for(form),
        containers: containers_for(form),
    }
}

/// A list that holds one text.
fn single(text: &str) -> (list: Vec<String>)
    ensures
        list.deep_view() == seq![text@],
{
    let mut list: Vec<String> = Vec::new();
    list.push(text.to_owned());
    assert(list.deep_view() =~= seq![text@]);
    list
}

/// The policy of a jailed binary.
fn policy_for_binary() -> (policy: RuntimePolicy)
    ensures
        policy@ == hardened_policy(),
{
    let mut added: Vec<String> = Vec::new();
    added.push("chown".to_owned());
    added.push("setuid".to_owned());
    added.push("setgid".to_owned());
    added.push("sys_admin".to_owned());
    assert(added.deep_view() =~= seq!["chown"@, "setuid"@, "setgid"@, "sys_admin"@]);
    RuntimePolicy {
        read_only_root_filesystem: true,
        dropped_capabilities: single("all"),
        added_capabilities: added,
        annotation_key: "container.apparmor.security.beta.kubernetes.io/main".to_owned(),
        annotation_value: "unconfined".to_owned(),
    }
}

impl GenApp {
    /// The description with the placeholder of the challenge's kind.
    pub fn composed_description(&self) -> (text: String)
        ensures
            text@ == description_for(self@),
    {
        let mut text = self.description.clone();
        match self.challenge_type {
            ChallengeType::WebServer(_) => {
                text.append("\n\n{{ link }}");
            },
            ChallengeType::TCPBinary => {
                text.append("\n\n`{{ nc }}`");
            },
            ChallengeType::Other => {},
        }
        text
    }

    /// The flag, as text or as a file.
    pub fn flag_value(&self) -> (flag: FlagValue)
        ensures
            flag@ == flag_for(self@),
    {
        if self.flag_is_file {
            FlagValue::File(self.flag.clone())
        } else {
            FlagValue::Literal(self.flag.clone())
        }
    }

    /// The zip bundle of the build directory, with the flag masked or left
    /// out and the listed files left out.
    pub fn bundle(&self) -> (bundle: PackagingDescriptor)
        ensures
            bundle@ == bundle_for(self@),
    {
        let mut excluded: Vec<String> = Vec::new();
        let mut injected: Vec<InjectedFile> = Vec::new();
        if !self.flag_is_file {
            injected.push(
                InjectedFile {
                    path: "server/flag.txt".to_owned(),
                    content: "flag{fake_flag}".to_owned(),
                },
            );
        } else if in_build_dir(self.flag.as_str()) {
            injected.push(
                InjectedFile { path: self.flag.clone(), content: "flag{fake_flag}".to_owned() },
            );
            excluded.push(self.flag.clone());
        }
        let ghost flag_part = excluded.deep_view();
        let mut kept = non_blank_entries(&self.provide_files);
        excluded.append(&mut kept);
        let bundle = PackagingDescriptor {
            kind: ArchiveKind::Zip,
            target_name: "server.zip".to_owned(),
            included_paths: single("server"),
            excluded_paths: excluded,
            injected_files: injected,
        };
        assert(bundle@.excluded_paths =~= flag_part + non_blank(self@.provide_files));
        assert(bundle@.excluded_paths =~= excluded_for(self@));
        assert(bundle@.injected_files =~= injected_for(self@));
        bundle
    }

    /// What the solvers are given, if anything.
    pub fn provided(&self) -> (provide: Option<Provide>)
        ensures
            view_of(provide) == provide_for(self@),
    {
        if !self.provide_enabled {
            return None;
        }
        match self.challenge_type {
            ChallengeType::WebServer(true) => Some(Provide::Bundle(self.bundle())),
            _ => Some(Provide::Files(non_blank_entries(&self.provide_files))),
        }
    }

    /// How the service is reached, if there is one.
    pub fn exposure(&self) -> (expose: Option<Exposure>)
        ensures
            view_of(expose) == expose_for(self@),
    {
        match self.challenge_type {
            ChallengeType::WebServer(_) => Some(
                Exposure::Http { target: SERVICE_PORT, label: self.name.clone() },
            ),
            ChallengeType::TCPBinary => Some(
                Exposure::Tcp { target: SERVICE_PORT, public_port: "CHANGE_ME".to_owned() },
            ),
            ChallengeType::Other => None,
        }
    }

    /// The container the service runs in, if there is one.
    pub fn container(&self) -> (containers: Option<ContainerBuild>)
        ensures
            view_of(containers) == containers_for(self@),
    {
        match self.challenge_type {
            ChallengeType::WebServer(_) => {
                let mut ports: Vec<u16> = Vec::new();
                ports.push(SERVICE_PORT);
                let build = ContainerBuild {
                    build: "server".to_owned(),
                    replicas: None,
                    ports,
                    policy: None,
                };
                assert(build@.ports =~= seq![SERVICE_PORT]);
                Some(build)
            },
            ChallengeType::TCPBinary => {
                let mut ports: Vec<u16> = Vec::new();
                ports.push(SERVICE_PORT);
                let build = ContainerBuild {
                    build: "bin".to_owned(),
                    replicas: Some(BINARY_REPLICAS),
                    ports,
                    policy: Some(policy_for_binary()),
                };
                assert(build@.ports =~= seq![SERVICE_PORT]);
                Some(build)
            },
            ChallengeType::Other => None,
        }
    }

    /// The challenge document of this form. Every form has one.
    pub fn synthesize(&self) -> (doc: ChallengeDocument)
        ensures
            doc@ == document_for(self@),
    {
        ChallengeDocument {
            name: self.name.clone(),
            author: self.author.clone(),
            description: self.composed_description(),
            flag: self.flag_value(),
            provide: self.provided(),
            expose: self.exposure(),
            containers: self.container(),
        }
    }
}

} // verus!
