//! Creating a repository: the decisions, step by step.
//!
//! The library decides and the caller acts. [`Initializer::init`] validates the
//! layout, looks at what was found at the root, and either refuses or hands
//! back a [`Creation`]. The caller carries out the action the creation asks
//! for, reports how it went, and repeats until nothing is pending.

use vstd::prelude::*;
use vstd::string::*;
use crate::error::{ErrorKind, PyRocflError};
use crate::layout::{
    layout_document, resolution, LayoutConfig, LayoutModel, LayoutRegistry, StorageLayout,
};
use crate::root::{
    has_marker, is_marker_name, layout_file_name, marker_content, marker_name, root_state,
    RepositoryRoot, RootState, SpecVersion,
};

verus! {

/// One step of creating a repository.
#[derive(Clone, Copy, Debug, PartialEq, Eq, Structural)]
pub enum CreationStep {
    /// Create the root directory.
    CreateRoot,
    /// Write the version marker; the file must not exist yet.
    WriteVersionMarker,
    /// Write the layout declaration; the file must not exist yet.
    WriteLayoutDeclaration,
}

/// How a step went.
#[derive(Clone, Debug, PartialEq, Eq)]
pub enum StepOutcome {
    /// The step was carried out.
    Completed,
    /// What the step was to create is already there.
    AlreadyExists,
    /// The filesystem refused, for the reason given.
    Failed(String),
}

/// What the caller is asked to do on the filesystem.
#[derive(Clone, Debug, PartialEq, Eq)]
pub enum InitAction {
    /// Create the directory at `path`, with its parents.
    CreateDirectory { path: String },
    /// Create the file `name` in `directory` with the given content. The file
    /// must be created exclusively: where it exists, nothing is written and
    /// the outcome is `AlreadyExists`.
    CreateFile { directory: String, name: String, content: String },
}

/// A repository that has been created.
#[derive(Clone, Debug, PartialEq, Eq)]
pub struct Handle {
    pub root: String,
    pub staging: String,
    pub version: SpecVersion,
    pub layout: StorageLayout,
}

/// What a creation in progress is.
pub struct CreationModel {
    pub root: Seq<char>,
    pub staging: Seq<char>,
    pub version: SpecVersion,
    pub layout: LayoutModel,
    pub pending: Option<CreationStep>,
}

/// The first step, by what was found at the root.
pub open spec fn first_step(state: RootState) -> CreationStep {
    if state == RootState::Absent {
        CreationStep::CreateRoot
    } else {
        CreationStep::WriteVersionMarker
    }
}

/// The step that follows a step, if any.
pub open spec fn step_after(step: CreationStep) -> Option<CreationStep> {
    match step {
        CreationStep::CreateRoot => Some(CreationStep::WriteVersionMarker),
        CreationStep::WriteVersionMarker => Some(CreationStep::WriteLayoutDeclaration),
        CreationStep::WriteLayoutDeclaration => None,
    }
}

/// How a step is called in an error message.
pub open spec fn step_label(step: CreationStep) -> Seq<char> {
    match step {
        CreationStep::CreateRoot => "creating the storage root"@,
        CreationStep::WriteVersionMarker => "writing the version marker"@,
        CreationStep::WriteLayoutDeclaration => "writing the layout declaration"@,
    }
}

/// The staging directory: the one given, or a directory under the root.
pub open spec fn staging_path(root: Seq<char>, staging: Option<Seq<char>>) -> Seq<char> {
    match staging {
        Some(path) => path,
        None => root + "/extensions/rocfl-staging"@,
    }
}

/// The error for a root that already carries a marker.
pub open spec fn already_initialized(root: Seq<char>) -> (ErrorKind, Seq<char>) {
    (ErrorKind::AlreadyInitialized, "storage root is already initialized: "@ + root)
}

/// The error for a root that holds other content.
pub open spec fn root_not_empty(root: Seq<char>) -> (ErrorKind, Seq<char>) {
    (ErrorKind::RootNotEmpty, "storage root is not empty: "@ + root)
}

/// The error for a step that the filesystem refused.
pub open spec fn io_failure(step: CreationStep, root: Seq<char>, cause: Seq<char>) -> (
    ErrorKind,
    Seq<char>,
) {
    (ErrorKind::IoFailure, step_label(step) + " failed at "@ + root + ": "@ + cause)
}

/// Starting a creation at a root with an already validated layout.
pub open spec fn creation_start(
    root: Seq<char>,
    listing: Option<Seq<Seq<char>>>,
    staging: Option<Seq<char>>,
    version: SpecVersion,
    layout: LayoutModel,
) -> Result<CreationModel, (ErrorKind, Seq<char>)> {
    match root_state(listing) {
        RootState::Initialized => Err(already_initialized(root)),
        RootState::Occupied => Err(root_not_empty(root)),
        state => Ok(
            CreationModel {
                root,
                staging: staging_path(root, staging),
                version,
                layout,
                pending: Some(first_step(state)),
            },
        ),
    }
}

/// Initialising a root: the layout is validated first, then the root is
/// looked at, then the creation starts.
pub open spec fn init_start(
    root: Seq<char>,
    listing: Option<Seq<Seq<char>>>,
    staging: Option<Seq<char>>,
    version: SpecVersion,
    layout_name: Seq<char>,
    layout_config: Option<LayoutConfig>,
) -> Result<CreationModel, (ErrorKind, Seq<char>)> {
    match resolution(layout_name, layout_config) {
        Err(e) => Err(e),
        Ok(layout) => creation_start(root, listing, staging, version, layout),
    }
}

/// A creation after the outcome of its pending step.
pub open spec fn advanced(c: CreationModel, outcome: StepOutcome) -> Result<
    CreationModel,
    (ErrorKind, Seq<char>),
> {
    match c.pending {
        None => Ok(c),
        Some(step) => match outcome {
            StepOutcome::Completed => Ok(CreationModel { pending: step_after(step), ..c }),
            StepOutcome::AlreadyExists => if step == CreationStep::CreateRoot {
                Ok(CreationModel { pending: step_after(step), ..c })
            } else {
                Err(already_initialized(c.root))
            },
            StepOutcome::Failed(cause) => Err(io_failure(step, c.root, cause@)),
        },
    }
}

/// Whether `action` is what the step asks of the caller.
pub open spec fn is_action_for(action: InitAction, c: CreationModel, step: CreationStep) -> bool {
    match step {
        CreationStep::CreateRoot => action matches InitAction::CreateDirectory { path } && path@
            == c.root,
        CreationStep::WriteVersionMarker => action matches InitAction::CreateFile {
            directory,
            name,
            content,
        } && directory@ == c.root && name@ == marker_name(c.version) && content@
            == marker_content(c.version),
        CreationStep::WriteLayoutDeclaration => action matches InitAction::CreateFile {
            directory,
            name,
            content,
        } && directory@ == c.root && name@ == layout_file_name() && content@ == layout_document(
            c.layout,
        ),
    }
}

/// Whether `r` carries the creation or the error that `expected` names.
pub open spec fn creation_result(
    expected: Result<CreationModel, (ErrorKind, Seq<char>)>,
    r: Result<Creation, PyRocflError>,
) -> bool {
    match expected {
        Ok(model) => r matches Ok(c) && c@ == model,
        Err((kind, message)) => r matches Err(e) && e.kind == kind && e.message@ == message,
    }
}

/// A creation in progress.
#[derive(Clone, Debug, PartialEq, Eq)]
pub struct Creation {
    root: String,
    staging: String,
    version: SpecVersion,
    layout: StorageLayout,
    pending: Option<CreationStep>,
}

impl View for Creation {
    type V = CreationModel;

    closed spec fn view(&self) -> CreationModel {
        CreationModel {
            root: self.root@,
            staging: self.staging@,
            version: self.version,
            layout: self.layout@,
            pending: self.pending,
        }
    }
}

impl CreationStep {
    /// The step that follows this one, if any.
    pub fn next(&self) -> (step: Option<CreationStep>)
        ensures
            step == step_after(*self),
    {
        match self {
            CreationStep::CreateRoot => Some(CreationStep::WriteVersionMarker),
            CreationStep::WriteVersionMarker => Some(CreationStep::WriteLayoutDeclaration),
            CreationStep::WriteLayoutDeclaration => None,
        }
    }

    /// How this step is called in an error message.
    pub fn label(&self) -> (l: &'static str)
        ensures
            l@ == step_label(*self),
    {
        match self {
            CreationStep::CreateRoot => "creating the storage root",
            CreationStep::WriteVersionMarker => "writing the version marker",
            CreationStep::WriteLayoutDeclaration => "writing the layout declaration",
        }
    }
}

fn already_initialized_error(root: &str) -> (e: PyRocflError)
    ensures
        (e.kind, e.message@) == already_initialized(root@),
{
    let message = String::from_str("storage root is already initialized: ").concat(root);
    PyRocflError { kind: ErrorKind::AlreadyInitialized, message }
}

impl Creation {
    /// The step that is to be carried out next; `None` once all are done.
    pub fn pending(&self) -> (step: Option<CreationStep>)
        ensures
            step == self@.pending,
    {
        self.pending
    }

    /// The action that the pending step asks of the caller.
    pub fn action(&self) -> (action: Option<InitAction>)
        ensures
            match self@.pending {
                Some(step) => action matches Some(a) && is_action_for(a, self@, step),
                None => action is None,
            },
    {
        match self.pending {
            None => None,
            Some(CreationStep::CreateRoot) => Some(
                InitAction::CreateDirectory { path: self.root.clone() },
            ),
            Some(CreationStep::WriteVersionMarker) => Some(
                InitAction::CreateFile {
                    directory: self.root.clone(),
                    name: String::from_str(self.version.marker_name()),
                    content: String::from_str(self.version.marker_content()),
                },
            ),
            Some(CreationStep::WriteLayoutDeclaration) => Some(
                InitAction::CreateFile {
                    directory: self.root.clone(),
                    name: String::from_str("ocfl_layout.json"),
                    content: self.layout.declaration(),
                },
            ),
        }
    }

    /// Takes the outcome of the pending step. A completed step makes the next
    /// one pending. A marker or declaration that is already there means that
    /// someone else initialised the root. A refusal ends the creation with an
    /// error that names the step. With nothing pending, nothing changes.
    pub fn advance(self, outcome: StepOutcome) -> (r: Result<Creation, PyRocflError>)
        ensures
            creation_result(advanced(self@, outcome), r),
    {
        let step = match self.pending {
            None => {
                return Ok(self);
            },
            Some(step) => step,
        };
        let next = step.next();
        match outcome {
            StepOutcome::Completed => Ok(
                Creation {
                    root: self.root,
                    staging: self.staging,
                    version: self.version,
                    layout: self.layout,
                    pending: next,
                },
            ),
            StepOutcome::AlreadyExists => match step {
                CreationStep::CreateRoot => Ok(
                    Creation {
                        root: self.root,
                        staging: self.staging,
                        version: self.version,
                        layout: self.layout,
                        pending: next,
                    },
                ),
                _ => Err(already_initialized_error(self.root.as_str())),
            },
            StepOutcome::Failed(cause) => {
                let mut message = String::from_str(step.label());
                message.append(" failed at ");
                message.append(self.root.as_str());
                message.append(": ");
                message.append(cause.as_str());
                Err(PyRocflError { kind: ErrorKind::IoFailure, message })
            },
        }
    }

    /// The handle of the created repository, once nothing is pending.
    pub fn finish(self) -> (handle: Option<Handle>)
        ensures
            match self@.pending {
                Some(_) => handle is None,
                None => handle matches Some(h) && h.root@ == self@.root && h.staging@
                    == self@.staging && h.version == self@.version && h.layout@ == self@.layout,
            },
    {
        match self.pending {
            Some(_) => None,
            None => Some(
                Handle {
                    root: self.root,
                    staging: self.staging,
                    version: self.version,
                    layout: self.layout,
                },
            ),
        }
    }
}

/// The staging path as plain text, for contracts.
pub open spec fn staging_text(staging: Option<&str>) -> Option<Seq<char>> {
    match staging {
        Some(path) => Some(path@),
        None => None,
    }
}

impl RepositoryRoot {
    /// Starts creating a repository at this root with a validated layout.
    ///
    /// A root that carries a marker is refused as already initialised, one
    /// that holds anything else as not empty. An absent or empty root gets a
    /// creation whose first step depends on whether the directory is there.
    pub fn create(&self, staging: Option<&str>, version: SpecVersion, layout: StorageLayout) -> (r:
        Result<Creation, PyRocflError>)
        ensures
            creation_result(
                creation_start(self.path@, self.names(), staging_text(staging), version, layout@),
                r,
            ),
    {
        let state = self.state();
        let first = match state {
            RootState::Initialized => {
                return Err(already_initialized_error(self.path.as_str()));
            },
            RootState::Occupied => {
                let message = String::from_str("storage root is not empty: ").concat(
                    self.path.as_str(),
                );
                return Err(PyRocflError { kind: ErrorKind::RootNotEmpty, message });
            },
            RootState::Absent => CreationStep::CreateRoot,
            RootState::Empty => CreationStep::WriteVersionMarker,
        };
        let staging_root = match staging {
            Some(path) => String::from_str(path),
            None => self.path.clone().concat("/extensions/rocfl-staging"),
        };
        Ok(
            Creation {
                root: self.path.clone(),
                staging: staging_root,
                version,
                layout,
                pending: Some(first),
            },
        )
    }
}

/// Orchestrates the initialisation of a repository.
pub struct Initializer;

impl Initializer {
    /// Initialises a repository at `root`.
    ///
    /// The layout is resolved first, so that a bad name or configuration is
    /// reported whatever stands at the root, and before anything is asked of
    /// the filesystem. Then the root is looked at, and the creation starts.
    pub fn init(
        root: &RepositoryRoot,
        staging: Option<&str>,
        version: SpecVersion,
        layout_name: &str,
        layout_config: Option<LayoutConfig>,
    ) -> (r: Result<Creation, PyRocflError>)
        ensures
            creation_result(
                init_start(
                    root.path@,
                    root.names(),
                    staging_text(staging),
                    version,
                    layout_name@,
                    layout_config,
                ),
                r,
            ),
    {
        match LayoutRegistry::resolve(layout_name, layout_config) {
            Err(e) => Err(e),
            Ok(layout) => root.create(staging, version, layout),
        }
    }
}

/// Initialises a repository of the newest standard revision at `root`,
/// with the named layout in its default configuration and the default staging
/// directory.
pub fn init_fs_repo(root: &RepositoryRoot, layout: &str) -> (r: Result<Creation, PyRocflError>)
    ensures
        creation_result(
            init_start(root.path@, root.names(), None, SpecVersion::Ocfl1_1, layout@, None),
            r,
        ),
{
    Initializer::init(root, None, SpecVersion::Ocfl1_1, layout, None)
}

/// The entries of a root after a creation has written its files there.
pub open spec fn names_after_creation(before: Seq<Seq<char>>, version: SpecVersion) -> Seq<
    Seq<char>,
> {
    before.push(marker_name(version)).push(layout_file_name())
}

/// A creation whose steps all complete comes to an end, and then nothing is
/// pending: three steps where the root was absent, two where it was empty.
pub proof fn lemma_creation_completes(c: CreationModel)
    requires
        c.pending is Some,
    ensures
        ({
            let a = advanced(c, StepOutcome::Completed)->Ok_0;
            let b = advanced(a, StepOutcome::Completed)->Ok_0;
            let d = advanced(b, StepOutcome::Completed)->Ok_0;
            &&& advanced(c, StepOutcome::Completed) is Ok
            &&& advanced(a, StepOutcome::Completed) is Ok
            &&& advanced(b, StepOutcome::Completed) is Ok
            &&& d.pending is None
            &&& d == CreationModel { pending: None, ..c }
            &&& (c.pending == Some(CreationStep::WriteVersionMarker) ==> b.pending is None)
        }),
{
}

/// A root into which a creation has written its files carries a marker,
/// whatever else it holds.
pub proof fn lemma_created_root_is_initialized(before: Seq<Seq<char>>, version: SpecVersion)
    ensures
        root_state(Some(names_after_creation(before, version))) == RootState::Initialized,
        root_state(Some(before.push(marker_name(version)))) == RootState::Initialized,
{
    let marked = before.push(marker_name(version));
    assert(is_marker_name(marked[before.len() as int]));
    let all = names_after_creation(before, version);
    assert(is_marker_name(all[before.len() as int]));
}

/// Initialising twice: once a root holds the files of a first creation, every
/// later initialisation with a layout that resolves is refused as already
/// initialised, and so asks for no action at all.
pub proof fn lemma_second_init_refused(
    root: Seq<char>,
    before: Seq<Seq<char>>,
    first_version: SpecVersion,
    staging: Option<Seq<char>>,
    version: SpecVersion,
    layout_name: Seq<char>,
    layout_config: Option<LayoutConfig>,
)
    requires
        resolution(layout_name, layout_config) is Ok,
    ensures
        init_start(
            root,
            Some(names_after_creation(before, first_version)),
            staging,
            version,
            layout_name,
            layout_config,
        ) == Err::<CreationModel, (ErrorKind, Seq<char>)>(already_initialized(root)),
{
    lemma_created_root_is_initialized(before, first_version);
}

/// Initialising a directory that holds entries, none of them a marker, with a
/// layout that resolves is refused as not empty, and so asks for no action at
/// all.
pub proof fn lemma_occupied_root_refused(
    root: Seq<char>,
    names: Seq<Seq<char>>,
    staging: Option<Seq<char>>,
    version: SpecVersion,
    layout_name: Seq<char>,
    layout_config: Option<LayoutConfig>,
)
    requires
        names.len() > 0,
        !has_marker(names),
        resolution(layout_name, layout_config) is Ok,
    ensures
        init_start(root, Some(names), staging, version, layout_name, layout_config) == Err::<
            CreationModel,
            (ErrorKind, Seq<char>),
        >(root_not_empty(root)),
{
}

/// A layout that does not resolve is reported whatever stands at the root.
pub proof fn lemma_layout_checked_first(
    root: Seq<char>,
    listing: Option<Seq<Seq<char>>>,
    staging: Option<Seq<char>>,
    version: SpecVersion,
    layout_name: Seq<char>,
    layout_config: Option<LayoutConfig>,
)
    requires
        resolution(layout_name, layout_config) is Err,
    ensures
        init_start(root, listing, staging, version, layout_name, layout_config) == Err::<
            CreationModel,
            (ErrorKind, Seq<char>),
        >(resolution(layout_name, layout_config)->Err_0),
{
}

} // verus!
