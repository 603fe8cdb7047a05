//! The challenge document: what the generator hands to the hosting platform,
//! as typed data. Each exec type has a view that holds the same fields as
//! mathematics.

use vstd::prelude::*;

verus! {

/// The view of a value that may be missing.
pub open spec fn view_of<T: View>(value: Option<T>) -> Option<T::V> {
    match value {
        Some(value) => Some(value@),
        None => None,
    }
}

/// The flag of a challenge: the text itself, or the path of the file that
/// holds it.
#[derive(Debug, PartialEq, Eq)]
pub enum FlagValue {
    Literal(String),
    File(String),
}

pub enum FlagView {
    Literal(Seq<char>),
    File(Seq<char>),
}

impl View for FlagValue {
    type V = FlagView;

    open spec fn view(&self) -> FlagView {
        match self {
            FlagValue::Literal(text) => FlagView::Literal(text@),
            FlagValue::File(path) => FlagView::File(path@),
        }
    }
}

/// The kind of artifact a packaging descriptor asks for.
#[derive(Clone, Copy, Debug, PartialEq, Eq, Structural)]
pub enum ArchiveKind {
    Zip,
}

/// A file that is written into an artifact with a given content, in place of
/// whatever the build directory holds at that path.
#[derive(Debug, PartialEq, Eq)]
pub struct InjectedFile {
    pub path: String,
    pub content: String,
}

pub struct InjectedFileView {
    pub path: Seq<char>,
    pub content: Seq<char>,
}

impl View for InjectedFile {
    type V = InjectedFileView;

    open spec fn view(&self) -> InjectedFileView {
        InjectedFileView { path: self.path@, content: self.content@ }
    }
}

/// One artifact packed for the solvers: what goes in, what stays out, and
/// what is written over.
#[derive(Debug, PartialEq, Eq)]
pub struct PackagingDescriptor {
    pub kind: ArchiveKind,
    pub target_name: String,
    pub included_paths: Vec<String>,
    pub excluded_paths: Vec<String>,
    pub injected_files: Vec<InjectedFile>,
}

pub struct PackagingView {
    pub kind: ArchiveKind,
    pub target_name: Seq<char>,
    pub included_paths: Seq<Seq<char>>,
    pub excluded_paths: Seq<Seq<char>>,
    pub injected_files: Seq<InjectedFileView>,
}

impl View for PackagingDescriptor {
    type V = PackagingView;

    open spec fn view(&self) -> PackagingView {
        PackagingView {
            kind: self.kind,
            target_name: self.target_name@,
            included_paths: self.included_paths.deep_view(),
            excluded_paths: self.excluded_paths.deep_view(),
            injected_files: self.injected_files@.map_values(|file: InjectedFile| file@),
        }
    }
}

/// What the solvers are given: a list of files, or one packed artifact.
#[derive(Debug, PartialEq, Eq)]
pub enum Provide {
    Files(Vec<String>),
    Bundle(PackagingDescriptor),
}

pub enum ProvideView {
    Files(Seq<Seq<char>>),
    Bundle(PackagingView),
}

impl View for Provide {
    type V = ProvideView;

    open spec fn view(&self) -> ProvideView {
        match self {
            Provide::Files(files) => ProvideView::Files(files.deep_view()),
            Provide::Bundle(bundle) => ProvideView::Bundle(bundle@),
        }
    }
}

/// How the service is reached from outside: over HTTP under a public label,
/// or over raw TCP on a public port.
#[derive(Debug, PartialEq, Eq)]
pub enum Exposure {
    Http { target: u16, label: String },
    Tcp { target: u16, public_port: String },
}

pub enum ExposureView {
    Http { target: u16, label: Seq<char> },
    Tcp { target: u16, public_port: Seq<char> },
}

impl View for Exposure {
    type V = ExposureView;

    open spec fn view(&self) -> ExposureView {
        match self {
            Exposure::Http { target, label } => ExposureView::Http {
                target: *target,
                label: label@,
            },
            Exposure::Tcp { target, public_port } => ExposureView::Tcp {
                target: *target,
                public_port: public_port@,
            },
        }
    }
}

/// What a container may do at run time: whether its root filesystem is
/// read-only, the capabilities it loses and those it keeps, and one
/// annotation for its sandboxing profile.
#[derive(Debug, PartialEq, Eq)]
pub struct RuntimePolicy {
    pub read_only_root_filesystem: bool,
    pub dropped_capabilities: Vec<String>,
    pub added_capabilities: Vec<String>,
    pub annotation_key: String,
    pub annotation_value: String,
}

pub struct RuntimePolicyView {
    pub read_only_root_filesystem: bool,
    pub dropped_capabilities: Seq<Seq<char>>,
    pub added_capabilities: Seq<Seq<char>>,
    pub annotation_key: Seq<char>,
    pub annotation_value: Seq<char>,
}

impl View for RuntimePolicy {
    type V = RuntimePolicyView;

    open spec fn view(&self) -> RuntimePolicyView {
        RuntimePolicyView {
            read_only_root_filesystem: self.read_only_root_filesystem,
            dropped_capabilities: self.dropped_capabilities.deep_view(),
            added_capabilities: self.added_capabilities.deep_view(),
            annotation_key: self.annotation_key@,
            annotation_value: self.annotation_value@,
        }
    }
}

/// The one container of a challenge: the directory it is built from, how
/// many copies run, the ports it publishes, and its runtime policy if it has
/// one.
#[derive(Debug, PartialEq, Eq)]
pub struct ContainerBuild {
    pub build: String,
    pub replicas: Option<u32>,
    pub ports: Vec<u16>,
    pub policy: Option<RuntimePolicy>,
}

pub struct ContainerView {
    pub build: Seq<char>,
    pub replicas: Option<u32>,
    pub ports: Seq<u16>,
    pub policy: Option<RuntimePolicyView>,
}

impl View for ContainerBuild {
    type V = ContainerView;

    open spec fn view(&self) -> ContainerView {
        ContainerView {
            build: self.build@,
            replicas: self.replicas,
            ports: self.ports@,
            policy: view_of(self.policy),
        }
    }
}

/// The whole document. `provide`, `expose` and `containers` are written only
/// where they hold something.
#[derive(Debug, PartialEq, Eq)]
pub struct ChallengeDocument {
    pub name: String,
    pub author: String,
    pub description: String,
    pub flag: FlagValue,
    pub provide: Option<Provide>,
    pub expose: Option<Exposure>,
    pub containers: Option<ContainerBuild>,
}

pub struct DocumentView {
    pub name: Seq<char>,
    pub author: Seq<char>,
    pub description: Seq<char>,
    pub flag: FlagView,
    pub provide: Option<ProvideView>,
    pub expose: Option<ExposureView>,
    pub containers: Option<ContainerView>,
}

impl View for ChallengeDocument {
    type V = DocumentView;

    open spec fn view(&self) -> DocumentView {
        DocumentView {
            name: self.name@,
            author: self.author@,
            description: self.description@,
            flag: self.flag@,
            provide: view_of(self.provide),
            expose: view_of(self.expose),
            containers: view_of(self.containers),
        }
    }
}

} // verus!
