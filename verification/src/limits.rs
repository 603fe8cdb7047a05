//! How large a document is, and how large it may be to be written out. The
//! YAML writer counts the bytes of a scalar, the columns of a line and the
//! lines of its text in signed 32-bit numbers; a document of at most
//! `MAX_DOCUMENT_SIZE` keeps all of them far below their limit.

use crate::document::{
    ChallengeDocument, ContainerBuild, ContainerView, DocumentView, Exposure, ExposureView,
    FlagValue, FlagView, InjectedFile, InjectedFileView, PackagingDescriptor, PackagingView,
    Provide, ProvideView, RuntimePolicy, RuntimePolicyView,
};
use vstd::prelude::*;
use vstd::string::*;
use vstd::utf8::encode_utf8;

verus! {

/// The largest size of a document that is handed to the writer: 256 MiB.
pub const MAX_DOCUMENT_SIZE: usize = 0x1000_0000;

/// The size of a text: its bytes in UTF-8, and one.
pub open spec fn text_size(text: Seq<char>) -> nat {
    encode_utf8(text).len() + 1
}

/// The size of a list of texts: the sizes of its texts, added up.
pub open spec fn texts_size(texts: Seq<Seq<char>>) -> nat
    decreases texts.len(),
{
    if texts.len() == 0 {
        0
    } else {
        texts_size(texts.drop_last()) + text_size(texts.last())
    }
}

/// The size of a list of injected files: their sizes, added up.
pub open spec fn files_size(files: Seq<InjectedFileView>) -> nat
    decreases files.len(),
{
    if files.len() == 0 {
        0
    } else {
        files_size(files.drop_last()) + files.last().size()
    }
}

/// A size as the code holds it: exact up to `MAX_DOCUMENT_SIZE`, and one
/// more than that for every size beyond.
pub open spec fn capped(size: nat) -> usize {
    if size > MAX_DOCUMENT_SIZE {
        (MAX_DOCUMENT_SIZE + 1) as usize
    } else {
        size as usize
    }
}

/// One more text adds its size to that of a list.
pub proof fn lemma_texts_size_push(texts: Seq<Seq<char>>, text: Seq<char>)
    ensures
        texts_size(texts.push(text)) == texts_size(texts) + text_size(text),
{
    assert(texts.push(text).drop_last() =~= texts);
}

/// One more file adds its size to that of a list.
pub proof fn lemma_files_size_push(files: Seq<InjectedFileView>, file: InjectedFileView)
    ensures
        files_size(files.push(file)) == files_size(files) + file.size(),
{
    assert(files.push(file).drop_last() =~= files);
}

/// The sum of two capped sizes, capped.
fn add_sizes(one: usize, other: usize) -> (sum: usize)
    requires
        one <= MAX_DOCUMENT_SIZE + 1,
        other <= MAX_DOCUMENT_SIZE + 1,
    ensures
        sum == capped((one + other) as nat),
{
    let sum = one + other;
    if sum > MAX_DOCUMENT_SIZE {
        MAX_DOCUMENT_SIZE + 1
    } else {
        sum
    }
}

/// A running sum of sizes: the capped sum, and the sum that it stands for.
struct Tally {
    size: usize,
    exact: Ghost<nat>,
}

impl Tally {
    spec fn valid(&self) -> bool {
        self.size == capped(self.exact@)
    }

    fn new() -> (tally: Tally)
        ensures
            tally.valid(),
            tally.exact@ == 0,
    {
        Tally { size: 0, exact: Ghost(0) }
    }

    /// Adds a part, given capped.
    fn add(&mut self, part: usize, Ghost(exact): Ghost<nat>)
        requires
            old(self).valid(),
            part == capped(exact),
        ensures
            final(self).valid(),
            final(self).exact@ == old(self).exact@ + exact,
    {
        self.size = add_sizes(self.size, part);
        self.exact = Ghost(self.exact@ + exact);
    }
}

/// The size of a text, capped.
pub fn size_of_text(text: &str) -> (size: usize)
    ensures
        size == capped(text_size(text@)),
{
    let bytes = text.as_bytes().len();
    if bytes >= MAX_DOCUMENT_SIZE {
        MAX_DOCUMENT_SIZE + 1
    } else {
        bytes + 1
    }
}

/// The size of a list of texts, capped.
pub fn size_of_texts(texts: &Vec<String>) -> (size: usize)
    ensures
        size == capped(texts_size(texts.deep_view())),
{
    let mut size: usize = 0;
    let mut i: usize = 0;
    while i < texts.len()
        invariant
            i <= texts.len(),
            size == capped(texts_size(texts.deep_view().take(i as int))),
        decreases texts.len() - i,
    {
        proof {
            let all = texts.deep_view();
            assert(all.take(i + 1) =~= all.take(i as int).push(all[i as int]));
            lemma_texts_size_push(all.take(i as int), all[i as int]);
        }
        size = add_sizes(size, size_of_text(texts[i].as_str()));
        i += 1;
    }
    assert(texts.deep_view().take(i as int) =~= texts.deep_view());
    size
}

impl FlagView {
    /// The size of the flag's text.
    pub open spec fn size(self) -> nat {
        match self {
            FlagView::Literal(text) => text_size(text),
            FlagView::File(path) => text_size(path),
        }
    }
}

impl FlagValue {
    /// The size of the flag, capped.
    pub fn size(&self) -> (size: usize)
        ensures
            size == capped(self@.size()),
    {
        match self {
            FlagValue::Literal(text) => size_of_text(text.as_str()),
            FlagValue::File(path) => size_of_text(path.as_str()),
        }
    }
}

impl InjectedFileView {
    /// The sizes of path and content.
    pub open spec fn size(self) -> nat {
        text_size(self.path) + text_size(self.content)
    }
}

impl InjectedFile {
    /// The size of the file, capped.
    pub fn size(&self) -> (size: usize)
        ensures
            size == capped(self@.size()),
    {
        let mut tally = Tally::new();
        tally.add(size_of_text(self.path.as_str()), Ghost(text_size(self@.path)));
        tally.add(size_of_text(self.content.as_str()), Ghost(text_size(self@.content)));
        tally.size
    }
}

impl PackagingView {
    /// The sizes of the target's name and of every path and file listed.
    pub open spec fn size(self) -> nat {
        text_size(self.target_name) + texts_size(self.included_paths) + texts_size(
            self.excluded_paths,
        ) + files_size(self.injected_files)
    }
}

impl PackagingDescriptor {
    /// The size of the descriptor, capped.
    pub fn size(&self) -> (size: usize)
        ensures
            size == capped(self@.size()),
    {
        let mut files: usize = 0;
        let mut i: usize = 0;
        while i < self.injected_files.len()
            invariant
                i <= self.injected_files.len(),
                files == capped(files_size(self@.injected_files.take(i as int))),
            decreases self.injected_files.len() - i,
        {
            proof {
                let all = self@.injected_files;
                assert(all.take(i + 1) =~= all.take(i as int).push(all[i as int]));
                lemma_files_size_push(all.take(i as int), all[i as int]);
            }
            files = add_sizes(files, self.injected_files[i].size());
            i += 1;
        }
        assert(self@.injected_files.take(i as int) =~= self@.injected_files);
        let ghost bundle = self@;
        let mut tally = Tally::new();
        tally.add(size_of_text(self.target_name.as_str()), Ghost(text_size(bundle.target_name)));
        tally.add(size_of_texts(&self.included_paths), Ghost(texts_size(bundle.included_paths)));
        tally.add(size_of_texts(&self.excluded_paths), Ghost(texts_size(bundle.excluded_paths)));
        tally.add(files, Ghost(files_size(bundle.injected_files)));
        tally.size
    }
}

impl ProvideView {
    /// The size of the files listed, or of the bundle.
    pub open spec fn size(self) -> nat {
        match self {
            ProvideView::Files(files) => texts_size(files),
            ProvideView::Bundle(bundle) => bundle.size(),
        }
    }
}

impl Provide {
    /// The size of what is provided, capped.
    pub fn size(&self) -> (size: usize)
        ensures
            size == capped(self@.size()),
    {
        match self {
            Provide::Files(files) => size_of_texts(files),
            Provide::Bundle(bundle) => bundle.size(),
        }
    }
}

impl ExposureView {
    /// The size of the public side.
    pub open spec fn size(self) -> nat {
        match self {
            ExposureView::Http { label, .. } => text_size(label),
            ExposureView::Tcp { public_port, .. } => text_size(public_port),
        }
    }
}

impl Exposure {
    /// The size of the exposure, capped.
    pub fn size(&self) -> (size: usize)
        ensures
            size == capped(self@.size()),
    {
        match self {
            Exposure::Http { label, .. } => size_of_text(label.as_str()),
            Exposure::Tcp { public_port, .. } => size_of_text(public_port.as_str()),
        }
    }
}

impl RuntimePolicyView {
    /// The sizes of the capabilities listed and of the annotation.
    pub open spec fn size(self) -> nat {
        texts_size(self.dropped_capabilities) + texts_size(self.added_capabilities) + text_size(
            self.annotation_key,
        ) + text_size(self.annotation_value)
    }
}

impl RuntimePolicy {
    /// The size of the policy, capped.
    pub fn size(&self) -> (size: usize)
        ensures
            size == capped(self@.size()),
    {
        let ghost policy = self@;
        let mut tally = Tally::new();
        tally.add(
            size_of_texts(&self.dropped_capabilities),
            Ghost(texts_size(policy.dropped_capabilities)),
        );
        tally.add(
            size_of_texts(&self.added_capabilities),
            Ghost(texts_size(policy.added_capabilities)),
        );
        tally.add(
            size_of_text(self.annotation_key.as_str()),
            Ghost(text_size(policy.annotation_key)),
        );
        tally.add(
            size_of_text(self.annotation_value.as_str()),
            Ghost(text_size(policy.annotation_value)),
        );
        tally.size
    }
}

impl ContainerView {
    /// The size of the build directory's name, one for each port, and the
    /// size of the policy.
    pub open spec fn size(self) -> nat {
        text_size(self.build) + self.ports.len() + match self.policy {
            Some(policy) => policy.size(),
            None => 0,
        }
    }
}

impl ContainerBuild {
    /// The size of the container, capped.
    pub fn size(&self) -> (size: usize)
        ensures
            size == capped(self@.size()),
    {
        let ghost container = self@;
        let ports = if self.ports.len() > MAX_DOCUMENT_SIZE {
            MAX_DOCUMENT_SIZE + 1
        } else {
            self.ports.len()
        };
        let policy = match &self.policy {
            Some(policy) => policy.size(),
            None => 0,
        };
        let ghost policy_size = match container.policy {
            Some(policy) => policy.size(),
            None => 0,
        };
        let mut tally = Tally::new();
        tally.add(size_of_text(self.build.as_str()), Ghost(text_size(container.build)));
        tally.add(ports, Ghost(container.ports.len()));
        tally.add(policy, Ghost(policy_size));
        tally.size
    }
}

impl DocumentView {
    /// The size of the document: the bytes that its texts take in UTF-8, and
    /// one more for each text and for each port.
    pub open spec fn size(self) -> nat {
        text_size(self.name) + text_size(self.author) + text_size(self.description)
            + self.flag.size() + match self.provide {
            Some(provide) => provide.size(),
            None => 0,
        } + match self.expose {
            Some(expose) => expose.size(),
            None => 0,
        } + match self.containers {
            Some(containers) => containers.size(),
            None => 0,
        }
    }

    /// The document is small enough to be written out.
    pub open spec fn fits(self) -> bool {
        self.size() <= MAX_DOCUMENT_SIZE
    }
}

impl ChallengeDocument {
    /// The size of the document, exact up to `MAX_DOCUMENT_SIZE` and one more
    /// than that for every larger document.
    pub fn size(&self) -> (size: usize)
        ensures
            size == capped(self@.size()),
    {
        let ghost doc = self@;
        let provide = match &self.provide {
            Some(provide) => provide.size(),
            None => 0,
        };
        let ghost provide_size = match doc.provide {
            Some(provide) => provide.size(),
            None => 0,
        };
        let expose = match &self.expose {
            Some(expose) => expose.size(),
            None => 0,
        };
        let ghost expose_size = match doc.expose {
            Some(expose) => expose.size(),
            None => 0,
        };
        let containers = match &self.containers {
            Some(containers) => containers.size(),
            None => 0,
        };
        let ghost containers_size = match doc.containers {
            Some(containers) => containers.size(),
            None => 0,
        };
        let mut tally = Tally::new();
        tally.add(size_of_text(self.name.as_str()), Ghost(text_size(doc.name)));
        tally.add(size_of_text(self.author.as_str()), Ghost(text_size(doc.author)));
        tally.add(size_of_text(self.description.as_str()), Ghost(text_size(doc.description)));
        tally.add(self.flag.size(), Ghost(doc.flag.size()));
        tally.add(provide, Ghost(provide_size));
        tally.add(expose, Ghost(expose_size));
        tally.add(containers, Ghost(containers_size));
        tally.size
    }

    /// Whether the document is small enough to be written out.
    pub fn fits(&self) -> (fits: bool)
        ensures
            fits == self@.fits(),
    {
        self.size() <= MAX_DOCUMENT_SIZE
    }
}

} // verus!
