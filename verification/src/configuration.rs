//! The decisions taken while a native configuration object is brought up.
//!
//! The object itself lives behind a foreign interface and the file it is
//! loaded from lives on disk, so the work on either is done by the caller.
//! What is decided here is the order of that work, when it has to stop, and
//! which error the caller then reports: a load is a walk through
//! [`LoadStep`]s, each of which names the next piece of outside work.

use vstd::prelude::*;
use vstd::std_specs::cmp::PartialEqSpecImpl;
use vstd::string::StringExecFns;
use vstd::utf8::{decode_utf8, encode_utf8, encode_utf8_decode_utf8, encode_utf8_valid_utf8, valid_utf8};

verus! {

/// Errors that can occur when a configuration is created or loaded.
#[derive(Debug)]
pub enum ConfigError {
    /// The native side returned no object.
    NullPointer,
    /// The path names no existing file, or cannot be passed to the native
    /// side. The path is kept as it was given.
    InvalidPath(String),
}

/// The mathematical content of a [`ConfigError`].
pub enum ConfigErrorView {
    NullPointer,
    InvalidPath(Seq<char>),
}

impl View for ConfigError {
    type V = ConfigErrorView;

    open spec fn view(&self) -> ConfigErrorView {
        match self {
            ConfigError::NullPointer => ConfigErrorView::NullPointer,
            ConfigError::InvalidPath(path) => ConfigErrorView::InvalidPath(path@),
        }
    }
}

impl PartialEq for ConfigError {
    /// Two errors are equal when they are of the same kind and, for an
    /// invalid path, name the same path.
    fn eq(&self, other: &Self) -> (equal: bool) {
        match (self, other) {
            (ConfigError::NullPointer, ConfigError::NullPointer) => true,
            (ConfigError::InvalidPath(path), ConfigError::InvalidPath(other_path)) => *path
                == *other_path,
            _ => false,
        }
    }
}

impl PartialEqSpecImpl for ConfigError {
    open spec fn obeys_eq_spec() -> bool {
        true
    }

    open spec fn eq_spec(&self, other: &Self) -> bool {
        self@ == other@
    }
}

impl Eq for ConfigError {

}

impl ConfigErrorView {
    /// The text that describes the error to a user.
    pub open spec fn message(self) -> Seq<char> {
        match self {
            ConfigErrorView::NullPointer => "Received null pointer from eCAL_Configuration_New"@,
            ConfigErrorView::InvalidPath(path) => "Invalid file path: "@ + path,
        }
    }
}

impl ConfigError {
    /// Describes the error to a user. An invalid path is quoted in full.
    pub fn message(&self) -> (text: String)
        ensures
            text@ == self@.message(),
    {
        match self {
            ConfigError::NullPointer => String::from_str(
                "Received null pointer from eCAL_Configuration_New",
            ),
            ConfigError::InvalidPath(path) => String::from_str("Invalid file path: ").concat(
                path.as_str(),
            ),
        }
    }
}

/// A point in the life of a load. Every step but the last two names the
/// outside work that is due next; the caller does that work and reports
/// whether it succeeded.
#[derive(Debug)]
pub enum LoadStep {
    /// Find out whether the path names something that exists.
    ProbePath(String),
    /// Turn the path into a NUL-terminated string for the native side.
    EncodePath(String),
    /// Create the native configuration object.
    Allocate { from_file: bool },
    /// Fill the object with the default configuration.
    InitFromConfig,
    /// Fill the object from the file.
    InitFromFile,
    /// The object is complete; its handle may be given out.
    Ready,
    /// The load has ended, and there is no handle to give out.
    Failed(ConfigError),
}

/// The mathematical content of a [`LoadStep`].
pub enum LoadStepView {
    ProbePath(Seq<char>),
    EncodePath(Seq<char>),
    Allocate { from_file: bool },
    InitFromConfig,
    InitFromFile,
    Ready,
    Failed(ConfigErrorView),
}

impl View for LoadStep {
    type V = LoadStepView;

    open spec fn view(&self) -> LoadStepView {
        match self {
            LoadStep::ProbePath(path) => LoadStepView::ProbePath(path@),
            LoadStep::EncodePath(path) => LoadStepView::EncodePath(path@),
            LoadStep::Allocate { from_file } => LoadStepView::Allocate { from_file: *from_file },
            LoadStep::InitFromConfig => LoadStepView::InitFromConfig,
            LoadStep::InitFromFile => LoadStepView::InitFromFile,
            LoadStep::Ready => LoadStepView::Ready,
            LoadStep::Failed(error) => LoadStepView::Failed(error@),
        }
    }
}

impl PartialEq for LoadStep {
    /// Two steps are equal when they name the same work on the same path, or
    /// are the same final step.
    fn eq(&self, other: &Self) -> (equal: bool) {
        match (self, other) {
            (LoadStep::ProbePath(path), LoadStep::ProbePath(other_path)) => *path == *other_path,
            (LoadStep::EncodePath(path), LoadStep::EncodePath(other_path)) => *path
                == *other_path,
            (
                LoadStep::Allocate { from_file },
                LoadStep::Allocate { from_file: other_from_file },
            ) => *from_file == *other_from_file,
            (LoadStep::InitFromConfig, LoadStep::InitFromConfig) => true,
            (LoadStep::InitFromFile, LoadStep::InitFromFile) => true,
            (LoadStep::Ready, LoadStep::Ready) => true,
            (LoadStep::Failed(error), LoadStep::Failed(other_error)) => *error == *other_error,
            _ => false,
        }
    }
}

impl PartialEqSpecImpl for LoadStep {
    open spec fn obeys_eq_spec() -> bool {
        true
    }

    open spec fn eq_spec(&self, other: &Self) -> bool {
        self@ == other@
    }
}

impl Eq for LoadStep {

}

impl LoadStepView {
    /// Where a load begins. Without a path there is nothing to check before
    /// the object is allocated; with one, the path is probed first.
    pub open spec fn start(path: Option<Seq<char>>) -> LoadStepView {
        match path {
            None => LoadStepView::Allocate { from_file: false },
            Some(path) => LoadStepView::ProbePath(path),
        }
    }

    /// The step that follows once the work of this one has been done.
    ///
    /// A path that does not exist or cannot be encoded ends the load with
    /// `InvalidPath`, a missing object with `NullPointer`. The native
    /// initialisers report nothing, so a load goes on after them whatever
    /// `succeeded` says. `Ready` and `Failed` are final.
    pub open spec fn advance(self, succeeded: bool) -> LoadStepView {
        match self {
            LoadStepView::ProbePath(path) => if succeeded {
                LoadStepView::EncodePath(path)
            } else {
                LoadStepView::Failed(ConfigErrorView::InvalidPath(path))
            },
            LoadStepView::EncodePath(path) => if succeeded {
                LoadStepView::Allocate { from_file: true }
            } else {
                LoadStepView::Failed(ConfigErrorView::InvalidPath(path))
            },
            LoadStepView::Allocate { from_file } => if !succeeded {
                LoadStepView::Failed(ConfigErrorView::NullPointer)
            } else if from_file {
                LoadStepView::InitFromFile
            } else {
                LoadStepView::InitFromConfig
            },
            LoadStepView::InitFromConfig => LoadStepView::Ready,
            LoadStepView::InitFromFile => LoadStepView::Ready,
            LoadStepView::Ready => LoadStepView::Ready,
            LoadStepView::Failed(error) => LoadStepView::Failed(error),
        }
    }

    /// The step that a load has reached from `self` after the outside work
    /// has answered `outcomes`, one after the other.
    pub open spec fn after(self, outcomes: Seq<bool>) -> LoadStepView
        decreases outcomes.len(),
    {
        if outcomes.len() == 0 {
            self
        } else {
            self.after(outcomes.drop_last()).advance(outcomes.last())
        }
    }
}

impl LoadStep {
    /// Begins a load: of the default configuration where `path` is `None`,
    /// of the file at `path` otherwise.
    pub fn start(path: Option<&str>) -> (step: LoadStep)
        ensures
            step@ == LoadStepView::start(
                match path {
                    None => None,
                    Some(path) => Some(path@),
                },
            ),
    {
        match path {
            None => LoadStep::Allocate { from_file: false },
            Some(path) => LoadStep::ProbePath(path.to_owned()),
        }
    }

    /// Moves on after the work that this step names has been done, with
    /// `succeeded` telling how it went.
    pub fn advance(self, succeeded: bool) -> (step: LoadStep)
        ensures
            step@ == self@.advance(succeeded),
    {
        match self {
            LoadStep::ProbePath(path) => if succeeded {
                LoadStep::EncodePath(path)
            } else {
                LoadStep::Failed(ConfigError::InvalidPath(path))
            },
            LoadStep::EncodePath(path) => if succeeded {
                LoadStep::Allocate { from_file: true }
            } else {
                LoadStep::Failed(ConfigError::InvalidPath(path))
            },
            LoadStep::Allocate { from_file } => if !succeeded {
                LoadStep::Failed(ConfigError::NullPointer)
            } else if from_file {
                LoadStep::InitFromFile
            } else {
                LoadStep::InitFromConfig
            },
            LoadStep::InitFromConfig => LoadStep::Ready,
            LoadStep::InitFromFile => LoadStep::Ready,
            LoadStep::Ready => LoadStep::Ready,
            LoadStep::Failed(error) => LoadStep::Failed(error),
        }
    }
}

/// The course of a load from the file at `path`, written out: the probe,
/// the encoding, the allocation and the initialiser follow one another, and
/// the first of the three that fails decides the error.
pub open spec fn file_course(path: Seq<char>, outcomes: Seq<bool>) -> LoadStepView {
    if outcomes.len() == 0 {
        LoadStepView::ProbePath(path)
    } else if !outcomes[0] {
        LoadStepView::Failed(ConfigErrorView::InvalidPath(path))
    } else if outcomes.len() == 1 {
        LoadStepView::EncodePath(path)
    } else if !outcomes[1] {
        LoadStepView::Failed(ConfigErrorView::InvalidPath(path))
    } else if outcomes.len() == 2 {
        LoadStepView::Allocate { from_file: true }
    } else if !outcomes[2] {
        LoadStepView::Failed(ConfigErrorView::NullPointer)
    } else if outcomes.len() == 3 {
        LoadStepView::InitFromFile
    } else {
        LoadStepView::Ready
    }
}

/// The course of a load of the default configuration, written out: the
/// allocation, then the initialiser.
pub open spec fn default_course(outcomes: Seq<bool>) -> LoadStepView {
    if outcomes.len() == 0 {
        LoadStepView::Allocate { from_file: false }
    } else if !outcomes[0] {
        LoadStepView::Failed(ConfigErrorView::NullPointer)
    } else if outcomes.len() == 1 {
        LoadStepView::InitFromConfig
    } else {
        LoadStepView::Ready
    }
}

/// A load from a file takes the course of [`file_course`], whatever the
/// outside work reports and however long it goes on reporting.
pub proof fn lemma_file_load_course(path: Seq<char>, outcomes: Seq<bool>)
    ensures
        LoadStepView::start(Some(path)).after(outcomes) == file_course(path, outcomes),
    decreases outcomes.len(),
{
    if outcomes.len() > 0 {
        lemma_file_load_course(path, outcomes.drop_last());
    }
}

/// A load of the default configuration takes the course of
/// [`default_course`], whatever the outside work reports and however long it
/// goes on reporting.
pub proof fn lemma_default_load_course(outcomes: Seq<bool>)
    ensures
        LoadStepView::start(None).after(outcomes) == default_course(outcomes),
    decreases outcomes.len(),
{
    if outcomes.len() > 0 {
        lemma_default_load_course(outcomes.drop_last());
    }
}

/// A path that names nothing ends the load at once. Whatever is reported
/// after the failed probe, the load stands at `InvalidPath` with the path as
/// it was given, and at no point on the way has it asked for the native
/// object to be allocated.
pub proof fn lemma_missing_file_fails_before_allocation(path: Seq<char>, outcomes: Seq<bool>)
    requires
        outcomes.len() > 0,
        !outcomes[0],
    ensures
        LoadStepView::start(Some(path)).after(outcomes) == LoadStepView::Failed(
            ConfigErrorView::InvalidPath(path),
        ),
        forall|n: int|
            0 <= n <= outcomes.len() ==> !(#[trigger] LoadStepView::start(Some(path)).after(
                outcomes.take(n),
            ) is Allocate),
{
    lemma_file_load_course(path, outcomes);
    assert forall|n: int| 0 <= n <= outcomes.len() implies !(#[trigger] LoadStepView::start(
        Some(path),
    ).after(outcomes.take(n)) is Allocate) by {
        lemma_file_load_course(path, outcomes.take(n));
    }
}

/// A load is `Ready` exactly when all of its work has been done and none of
/// it has failed: the path was found and encoded, where there is one, the
/// native object was allocated, and its initialiser has run. Short of that
/// the load is still under way or has failed, so no handle is given out for an
/// object that is missing or not yet filled.
pub proof fn lemma_ready_iff_all_work_done(path: Option<Seq<char>>, outcomes: Seq<bool>)
    ensures
        path is Some ==> (LoadStepView::start(path).after(outcomes) is Ready <==> outcomes.len()
            >= 4 && outcomes[0] && outcomes[1] && outcomes[2]),
        path is None ==> (LoadStepView::start(path).after(outcomes) is Ready <==> outcomes.len()
            >= 2 && outcomes[0]),
{
    match path {
        Some(path) => lemma_file_load_course(path, outcomes),
        None => lemma_default_load_course(outcomes),
    }
}

/// The text that `String::from_utf8_lossy` makes of a buffer.
pub uninterp spec fn lossy_text(bytes: Seq<u8>) -> Seq<char>;

/// `String::from_utf8_lossy`, with the result as an owned string. The text is
/// a function of the bytes alone; where they are well-formed UTF-8 it is
/// their decoding, with nothing replaced.
#[verifier::external_body]
fn decode_lossy(bytes: &[u8]) -> (text: String)
    ensures
        text@ == lossy_text(bytes@),
        valid_utf8(bytes@) ==> text@ == decode_utf8(bytes@),
{
    String::from_utf8_lossy(bytes).into_owned()
}

/// The text of a path that the native side returned as bytes: their UTF-8
/// decoding where they are well-formed, and otherwise what the lossy
/// conversion makes of them.
pub open spec fn reported_text(bytes: Seq<u8>) -> Seq<char> {
    if valid_utf8(bytes) {
        decode_utf8(bytes)
    } else {
        lossy_text(bytes)
    }
}

/// Turns what the native side returned for the path of the loaded file into
/// the path that is reported: `None` where there is none, and otherwise the
/// bytes as text, with what is not UTF-8 in them replaced.
pub fn reported_path(raw: Option<&[u8]>) -> (path: Option<String>)
    ensures
        match raw {
            None => path is None,
            Some(bytes) => path matches Some(text) && text@ == reported_text(bytes@),
        },
{
    match raw {
        None => None,
        Some(bytes) => Some(decode_lossy(bytes)),
    }
}

/// A path that went to the native side as the bytes of a string is reported
/// as the same string, if the native side returns those bytes.
pub proof fn lemma_reported_path_is_given_path(path: Seq<char>)
    ensures
        reported_text(encode_utf8(path)) == path,
{
    encode_utf8_valid_utf8(path);
    encode_utf8_decode_utf8(path);
}

} // verus!
