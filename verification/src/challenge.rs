//! What the author of a challenge fills in: the input record of the
//! generator.

use vstd::prelude::*;

verus! {

/// The largest static point value a challenge can carry.
pub const MAX_POINTS: u32 = 1000;

/// How a challenge reaches its solvers.
#[derive(Clone, Copy, Debug, PartialEq, Eq, Structural)]
pub enum ChallengeType {
    /// A jailed binary behind a raw TCP port.
    TCPBinary,
    /// A web site; the switch says whether the provided files go out as one
    /// zip bundle of the build directory.
    WebServer(bool),
    /// Anything that needs no container.
    Other,
}

/// The fields of the form. `flag` is the flag itself, or, when
/// `flag_is_file` is set, a path relative to the build context. `points` is
/// the static point value, or `None` where the platform scores the challenge.
/// `provide_files` may hold blank entries; they are dropped on the way out.
#[derive(Debug, PartialEq, Eq)]
pub struct GenApp {
    pub author: String,
    pub name: String,
    pub description: String,
    pub flag_is_file: bool,
    pub flag: String,
    pub points: Option<u32>,
    pub challenge_type: ChallengeType,
    pub provide_files: Vec<String>,
    pub provide_enabled: bool,
}

/// A `GenApp` as mathematics.
pub struct ChallengeSpec {
    pub author: Seq<char>,
    pub name: Seq<char>,
    pub description: Seq<char>,
    pub flag_is_file: bool,
    pub flag: Seq<char>,
    pub points: Option<u32>,
    pub challenge_type: ChallengeType,
    pub provide_files: Seq<Seq<char>>,
    pub provide_enabled: bool,
}

impl ChallengeSpec {
    /// A static point value lies in `0..=MAX_POINTS`.
    pub open spec fn well_formed(self) -> bool {
        self.points matches Some(points) ==> points <= MAX_POINTS
    }

    /// The form as it is first shown: every text empty, no static points, no
    /// container, one blank line for a file to provide, providing switched
    /// off.
    pub open spec fn blank() -> ChallengeSpec {
        ChallengeSpec {
            author: Seq::empty(),
            name: Seq::empty(),
            description: Seq::empty(),
            flag_is_file: false,
            flag: Seq::empty(),
            points: None,
            challenge_type: ChallengeType::Other,
            provide_files: seq![Seq::empty()],
            provide_enabled: false,
        }
    }
}

impl View for GenApp {
    type V = ChallengeSpec;

    open spec fn view(&self) -> ChallengeSpec {
        ChallengeSpec {
            author: self.author@,
            name: self.name@,
            description: self.description@,
            flag_is_file: self.flag_is_file,
            flag: self.flag@,
            points: self.points,
            challenge_type: self.challenge_type,
            provide_files: self.provide_files.deep_view(),
            provide_enabled: self.provide_enabled,
        }
    }
}

impl Default for GenApp {
    fn default() -> (form: GenApp)
        ensures
            form@ == ChallengeSpec::blank(),
            form@.well_formed(),
    {
        let mut provide_files: Vec<String> = Vec::new();
        provide_files.push(String::new());
        let form = GenApp {
            author: String::new(),
            name: String::new(),
            description: String::new(),
            flag_is_file: false,
            flag: String::new(),
            points: None,
            challenge_type: ChallengeType::Other,
            provide_files,
            provide_enabled: false,
        };
        assert(form@.provide_files =~= seq![Seq::<char>::empty()]);
        form
    }
}

impl GenApp {
    /// The blank form.
    pub fn new() -> (form: GenApp)
        ensures
            form@ == ChallengeSpec::blank(),
            form@.well_formed(),
    {
        GenApp::default()
    }
}

} // verus!
