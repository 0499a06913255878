//! Session configuration, the sequence of native steps that creates a
//! session, and the decoding of the model's declared inputs.
use vstd::prelude::*;

use crate::element::{type_of_code, TensorElementDataType};
use crate::error::{ConfigurationError, NativeStatus, OrtError};

verus! {

/// How much the engine may rewrite the model graph before running it.
#[derive(Debug, Clone, Copy, PartialEq, Eq, Structural)]
pub enum GraphOptimizationLevel {
    /// No rewriting
    DisableAll,
    /// Basic rewrites only
    Basic,
    /// Basic and extended rewrites
    Extended,
    /// Every rewrite the engine knows
    All,
}

/// The engine's ordinal for an optimization level.
pub open spec fn level_ordinal(l: GraphOptimizationLevel) -> int {
    match l {
        GraphOptimizationLevel::DisableAll => 0,
        GraphOptimizationLevel::Basic => 1,
        GraphOptimizationLevel::Extended => 2,
        GraphOptimizationLevel::All => 99,
    }
}

impl GraphOptimizationLevel {
    /// The ordinal that the engine expects for this level.
    pub fn ordinal(&self) -> (r: u32)
        ensures
            r == level_ordinal(*self),
    {
        match self {
            GraphOptimizationLevel::DisableAll => 0,
            GraphOptimizationLevel::Basic => 1,
            GraphOptimizationLevel::Extended => 2,
            GraphOptimizationLevel::All => 99,
        }
    }
}

/// Advanced session options. None are supported yet: asking for them makes
/// session creation fail rather than silently ignoring them.
#[derive(Debug, Clone)]
pub struct SessionOptions {
    description: String,
}

impl SessionOptions {
    /// Options described by the given text.
    pub fn new(description: String) -> (r: SessionOptions)
        ensures
            r.description() == description,
    {
        SessionOptions { description }
    }

    /// The text that describes the options.
    pub closed spec fn description(self) -> String {
        self.description
    }
}

/// Where session creation stands.
#[derive(Debug, Clone, Copy, PartialEq, Eq, Structural)]
pub enum BuildStage {
    /// Nothing has been done yet.
    Ready,
    /// Native session options are being created.
    CreatingOptions,
    /// Thread count and optimization level are being applied.
    Configuring,
    /// The model path is being checked on disk.
    CheckingPath,
    /// The native session is being created.
    CreatingSession,
    /// The default allocator is being acquired.
    GettingAllocator,
    /// Creation has ended, in success or failure.
    Done,
}

/// What happened on the native side since the last step.
#[derive(Debug, Clone)]
pub enum BuildEvent {
    /// Creation is asked to begin.
    Started,
    /// A native call returned this status.
    Status(NativeStatus),
    /// The options were configured.
    Configured,
    /// Whether the model path exists on disk.
    PathChecked(bool),
}

/// The next thing to do on the native side.
#[derive(Debug, Clone)]
pub enum BuildAction {
    /// Allocate native session options.
    CreateSessionOptions,
    /// Apply the thread count and optimization level to the options.
    Configure { num_threads: i32, opt_level: u32 },
    /// Check whether the model file exists.
    CheckModelPath { path: String },
    /// Under the environment's lock, create the session from this path.
    CreateSession { path: String },
    /// Acquire the default allocator.
    GetAllocator,
    /// Release the session options and hand out the session.
    Finish,
    /// Stop with this error after releasing what is held.
    Fail { error: OrtError, release_options: bool, release_session: bool },
}

/// Accumulated configuration of a session, and the machine that sequences
/// the native calls that create it.
#[derive(Debug, Clone)]
pub struct SessionBuilder {
    name: String,
    options: Option<SessionOptions>,
    opt_level: GraphOptimizationLevel,
    num_threads: i16,
    model_filename: String,
    use_cuda: bool,
    stage: BuildStage,
}

/// Whether native session options exist at this stage.
pub open spec fn options_held(s: BuildStage) -> bool {
    s == BuildStage::Configuring || s == BuildStage::CheckingPath || s
        == BuildStage::CreatingSession || s == BuildStage::GettingAllocator
}

/// Whether the event is the one awaited at this stage.
pub open spec fn awaits(s: BuildStage, ev: BuildEvent) -> bool {
    match s {
        BuildStage::Ready => ev is Started,
        BuildStage::CreatingOptions => ev is Status,
        BuildStage::Configuring => ev is Configured,
        BuildStage::CheckingPath => ev is PathChecked,
        BuildStage::CreatingSession => ev is Status,
        BuildStage::GettingAllocator => ev is Status,
        BuildStage::Done => false,
    }
}

/// Whether a path can be handed to the engine as a terminated text buffer.
pub open spec fn path_encodable(p: Seq<char>) -> bool {
    forall|i: int| 0 <= i < p.len() ==> p[i] != '\0'
}

/// Whether the configuration can be given to the engine.
pub open spec fn config_supported(b: SessionBuilder) -> bool {
    b.options() is None && !b.use_cuda() && b.num_threads() >= 1
}

/// The reason a configuration cannot be given to the engine.
pub open spec fn config_issue(b: SessionBuilder) -> ConfigurationError {
    if b.options() is Some {
        ConfigurationError::UnsupportedOptions
    } else if b.use_cuda() {
        ConfigurationError::UnsupportedCuda
    } else {
        ConfigurationError::InvalidThreadCount { num_threads: b.num_threads() }
    }
}

/// One step of session creation: the next stage and the action.
pub open spec fn build_step(b: SessionBuilder, ev: BuildEvent) -> (BuildStage, BuildAction) {
    match b.stage() {
        BuildStage::Ready => if config_supported(b) {
            (BuildStage::CreatingOptions, BuildAction::CreateSessionOptions)
        } else {
            (
                BuildStage::Done,
                BuildAction::Fail {
                    error: OrtError::Configuration(config_issue(b)),
                    release_options: false,
                    release_session: false,
                },
            )
        },
        BuildStage::CreatingOptions => match ev {
            BuildEvent::Status(Some(m)) => (
                BuildStage::Done,
                BuildAction::Fail {
                    error: OrtError::SessionOptions(m),
                    release_options: false,
                    release_session: false,
                },
            ),
            _ => (
                BuildStage::Configuring,
                BuildAction::Configure {
                    num_threads: b.num_threads() as i32,
                    opt_level: level_ordinal(b.opt_level()) as u32,
                },
            ),
        },
        BuildStage::Configuring => (
            BuildStage::CheckingPath,
            BuildAction::CheckModelPath { path: b.model_filename() },
        ),
        BuildStage::CheckingPath => match ev {
            BuildEvent::PathChecked(false) => (
                BuildStage::Done,
                BuildAction::Fail {
                    error: OrtError::FileDoesNotExists { filename: b.model_filename() },
                    release_options: true,
                    release_session: false,
                },
            ),
            _ => if path_encodable(b.model_filename()@) {
                (BuildStage::CreatingSession, BuildAction::CreateSession { path: b.model_filename() })
            } else {
                (
                    BuildStage::Done,
                    BuildAction::Fail {
                        error: OrtError::InvalidPath { path: b.model_filename() },
                        release_options: true,
                        release_session: false,
                    },
                )
            },
        },
        BuildStage::CreatingSession => match ev {
            BuildEvent::Status(Some(m)) => (
                BuildStage::Done,
                BuildAction::Fail {
                    error: OrtError::Session(m),
                    release_options: true,
                    release_session: false,
                },
            ),
            _ => (BuildStage::GettingAllocator, BuildAction::GetAllocator),
        },
        BuildStage::GettingAllocator => match ev {
            BuildEvent::Status(Some(m)) => (
                BuildStage::Done,
                BuildAction::Fail {
                    error: OrtError::Allocator(m),
                    release_options: true,
                    release_session: true,
                },
            ),
            _ => (BuildStage::Done, BuildAction::Finish),
        },
        BuildStage::Done => (BuildStage::Done, BuildAction::Finish),
    }
}

impl SessionBuilder {
    /// A builder for a session named `name` over the model file at
    /// `model_filename`, with one thread, basic optimization and no options.
    pub fn new(name: String, model_filename: String) -> (r: SessionBuilder)
        ensures
            r.name() == name,
            r.model_filename() == model_filename,
            r.num_threads() == 1,
            r.opt_level() == GraphOptimizationLevel::Basic,
            r.options() is None,
            !r.use_cuda(),
            r.stage() == BuildStage::Ready,
    {
        SessionBuilder {
            name,
            options: None,
            opt_level: GraphOptimizationLevel::Basic,
            num_threads: 1,
            model_filename,
            use_cuda: false,
            stage: BuildStage::Ready,
        }
    }

    /// The session's name.
    pub closed spec fn name(self) -> String {
        self.name
    }

    /// The advanced options asked for.
    pub closed spec fn options(self) -> Option<SessionOptions> {
        self.options
    }

    /// The optimization level asked for.
    pub closed spec fn opt_level(self) -> GraphOptimizationLevel {
        self.opt_level
    }

    /// The intra-op thread count asked for.
    pub closed spec fn num_threads(self) -> i16 {
        self.num_threads
    }

    /// The model file's path.
    pub closed spec fn model_filename(self) -> String {
        self.model_filename
    }

    /// Whether CUDA execution was asked for.
    pub closed spec fn use_cuda(self) -> bool {
        self.use_cuda
    }

    /// Where creation stands.
    pub closed spec fn stage(self) -> BuildStage {
        self.stage
    }

    /// This builder, moved to stage `s`.
    pub closed spec fn at_stage(self, s: BuildStage) -> SessionBuilder {
        SessionBuilder { stage: s, ..self }
    }

    /// Whether the other fields of two builders agree.
    pub open spec fn same_config(self, other: SessionBuilder) -> bool {
        &&& self.name() == other.name()
        &&& self.options() == other.options()
        &&& self.opt_level() == other.opt_level()
        &&& self.num_threads() == other.num_threads()
        &&& self.model_filename() == other.model_filename()
        &&& self.use_cuda() == other.use_cuda()
    }

    /// Asks for advanced session options.
    pub fn with_options(self, options: SessionOptions) -> (r: SessionBuilder)
        ensures
            r.options() == Some(options),
            r.name() == self.name(),
            r.opt_level() == self.opt_level(),
            r.num_threads() == self.num_threads(),
            r.model_filename() == self.model_filename(),
            r.use_cuda() == self.use_cuda(),
            r.stage() == self.stage(),
    {
        SessionBuilder { options: Some(options), ..self }
    }

    /// Asks for CUDA execution, or not.
    pub fn with_cuda(self, use_cuda: bool) -> (r: SessionBuilder)
        ensures
            r.use_cuda() == use_cuda,
            r.name() == self.name(),
            r.options() == self.options(),
            r.opt_level() == self.opt_level(),
            r.num_threads() == self.num_threads(),
            r.model_filename() == self.model_filename(),
            r.stage() == self.stage(),
    {
        SessionBuilder { use_cuda, ..self }
    }

    /// Sets the graph optimization level.
    pub fn with_optimization_level(self, opt_level: GraphOptimizationLevel) -> (r: SessionBuilder)
        ensures
            r.opt_level() == opt_level,
            r.name() == self.name(),
            r.options() == self.options(),
            r.num_threads() == self.num_threads(),
            r.model_filename() == self.model_filename(),
            r.use_cuda() == self.use_cuda(),
            r.stage() == self.stage(),
    {
        SessionBuilder { opt_level, ..self }
    }

    /// Sets the intra-op thread count.
    pub fn with_number_threads(self, num_threads: i16) -> (r: SessionBuilder)
        ensures
            r.num_threads() == num_threads,
            r.name() == self.name(),
            r.options() == self.options(),
            r.opt_level() == self.opt_level(),
            r.model_filename() == self.model_filename(),
            r.use_cuda() == self.use_cuda(),
            r.stage() == self.stage(),
    {
        SessionBuilder { num_threads, ..self }
    }

    /// Sets the model file's path.
    pub fn with_model_from_file(self, model_filename: String) -> (r: SessionBuilder)
        ensures
            r.model_filename() == model_filename,
            r.name() == self.name(),
            r.options() == self.options(),
            r.opt_level() == self.opt_level(),
            r.num_threads() == self.num_threads(),
            r.use_cuda() == self.use_cuda(),
            r.stage() == self.stage(),
    {
        SessionBuilder { model_filename, ..self }
    }

    /// Where creation stands.
    pub fn build_stage(&self) -> (r: BuildStage)
        ensures
            r == self.stage(),
    {
        self.stage
    }

    /// Takes one step of session creation: given what the last native call
    /// reported, moves to the next stage and says what to do next. A failure
    /// says which of the handles acquired so far are to be released.
    pub fn step(&mut self, ev: BuildEvent) -> (r: BuildAction)
        requires
            awaits(old(self).stage(), ev),
        ensures
            final(self).same_config(*old(self)),
            (final(self).stage(), r) == build_step(*old(self), ev),
    {
        match self.stage {
            BuildStage::Ready => {
                if self.options.is_some() {
                    self.stage = BuildStage::Done;
                    BuildAction::Fail {
                        error: OrtError::Configuration(ConfigurationError::UnsupportedOptions),
                        release_options: false,
                        release_session: false,
                    }
                } else if self.use_cuda {
                    self.stage = BuildStage::Done;
                    BuildAction::Fail {
                        error: OrtError::Configuration(ConfigurationError::UnsupportedCuda),
                        release_options: false,
                        release_session: false,
                    }
                } else if self.num_threads < 1 {
                    self.stage = BuildStage::Done;
                    BuildAction::Fail {
                        error: OrtError::Configuration(
                            ConfigurationError::InvalidThreadCount { num_threads: self.num_threads },
                        ),
                        release_options: false,
                        release_session: false,
                    }
                } else {
                    self.stage = BuildStage::CreatingOptions;
                    BuildAction::CreateSessionOptions
                }
            },
            BuildStage::CreatingOptions => match ev {
                BuildEvent::Status(Some(m)) => {
                    self.stage = BuildStage::Done;
                    BuildAction::Fail {
                        error: OrtError::SessionOptions(m),
                        release_options: false,
                        release_session: false,
                    }
                },
                _ => {
                    self.stage = BuildStage::Configuring;
                    BuildAction::Configure {
                        num_threads: self.num_threads as i32,
                        opt_level: self.opt_level.ordinal(),
                    }
                },
            },
            BuildStage::Configuring => {
                self.stage = BuildStage::CheckingPath;
                BuildAction::CheckModelPath { path: self.model_filename.clone() }
            },
            BuildStage::CheckingPath => match ev {
                BuildEvent::PathChecked(false) => {
                    self.stage = BuildStage::Done;
                    BuildAction::Fail {
                        error: OrtError::FileDoesNotExists { filename: self.model_filename.clone() },
                        release_options: true,
                        release_session: false,
                    }
                },
                _ => {
                    if is_path_encodable(self.model_filename.as_str()) {
                        self.stage = BuildStage::CreatingSession;
                        BuildAction::CreateSession { path: self.model_filename.clone() }
                    } else {
                        self.stage = BuildStage::Done;
                        BuildAction::Fail {
                            error: OrtError::InvalidPath { path: self.model_filename.clone() },
                            release_options: true,
                            release_session: false,
                        }
                    }
                },
            },
            BuildStage::CreatingSession => match ev {
                BuildEvent::Status(Some(m)) => {
                    self.stage = BuildStage::Done;
                    BuildAction::Fail {
                        error: OrtError::Session(m),
                        release_options: true,
                        release_session: false,
                    }
                },
                _ => {
                    self.stage = BuildStage::GettingAllocator;
                    BuildAction::GetAllocator
                },
            },
            BuildStage::GettingAllocator => match ev {
                BuildEvent::Status(Some(m)) => {
                    self.stage = BuildStage::Done;
                    BuildAction::Fail {
                        error: OrtError::Allocator(m),
                        release_options: true,
                        release_session: true,
                    }
                },
                _ => {
                    self.stage = BuildStage::Done;
                    BuildAction::Finish
                },
            },
            BuildStage::Done => BuildAction::Finish,
        }
    }
}

/// Whether the path holds no NUL character, so that the engine can take it as
/// a terminated text buffer.
pub fn is_path_encodable(p: &str) -> (r: bool)
    ensures
        r == path_encodable(p@),
{
    let n = p.unicode_len();
    let mut i: usize = 0;
    while i < n
        invariant
            n == p@.len(),
            i <= n,
            forall|j: int| 0 <= j < i ==> p@[j] != '\0',
        decreases n - i,
    {
        if p.get_char(i) == '\0' {
            return false;
        }
        i = i + 1;
    }
    true
}

/// The actions that creation takes, from builder `b`, on the events `evs`.
pub open spec fn run_build(b: SessionBuilder, evs: Seq<BuildEvent>) -> Seq<BuildAction>
    decreases evs.len(),
{
    if evs.len() == 0 {
        Seq::empty()
    } else {
        let (s, a) = build_step(b, evs[0]);
        seq![a] + run_build(b.at_stage(s), evs.drop_first())
    }
}

/// The events of a creation in which the model file exists and every native
/// call succeeds.
pub open spec fn all_succeed() -> Seq<BuildEvent> {
    seq![
        BuildEvent::Started,
        BuildEvent::Status(None),
        BuildEvent::Configured,
        BuildEvent::PathChecked(true),
        BuildEvent::Status(None),
        BuildEvent::Status(None),
    ]
}

/// With a supported configuration and an encodable path to an existing model
/// file, and with every native call succeeding, creation allocates options,
/// configures them, checks the path, creates the session from that path,
/// acquires the allocator and finishes.
pub proof fn lemma_build_succeeds(b: SessionBuilder)
    requires
        b.stage() == BuildStage::Ready,
        config_supported(b),
        path_encodable(b.model_filename()@),
    ensures
        run_build(b, all_succeed()) == seq![
            BuildAction::CreateSessionOptions,
            BuildAction::Configure {
                num_threads: b.num_threads() as i32,
                opt_level: level_ordinal(b.opt_level()) as u32,
            },
            BuildAction::CheckModelPath { path: b.model_filename() },
            BuildAction::CreateSession { path: b.model_filename() },
            BuildAction::GetAllocator,
            BuildAction::Finish,
        ],
{
    reveal_with_fuel(run_build, 7);
    let evs = all_succeed();
    assert(evs.drop_first().drop_first().drop_first().drop_first().drop_first().drop_first()
        =~= Seq::<BuildEvent>::empty());
    assert(run_build(b, evs) =~= seq![
        BuildAction::CreateSessionOptions,
        BuildAction::Configure {
            num_threads: b.num_threads() as i32,
            opt_level: level_ordinal(b.opt_level()) as u32,
        },
        BuildAction::CheckModelPath { path: b.model_filename() },
        BuildAction::CreateSession { path: b.model_filename() },
        BuildAction::GetAllocator,
        BuildAction::Finish,
    ]);
}

/// The events of a creation in which the model file is missing.
pub open spec fn path_missing() -> Seq<BuildEvent> {
    seq![
        BuildEvent::Started,
        BuildEvent::Status(None),
        BuildEvent::Configured,
        BuildEvent::PathChecked(false),
    ]
}

/// When the model file does not exist, creation fails with that path, after
/// releasing the session options and before any session is created.
pub proof fn lemma_missing_file_fails_first(b: SessionBuilder)
    requires
        b.stage() == BuildStage::Ready,
        config_supported(b),
    ensures
        run_build(b, path_missing()) == seq![
            BuildAction::CreateSessionOptions,
            BuildAction::Configure {
                num_threads: b.num_threads() as i32,
                opt_level: level_ordinal(b.opt_level()) as u32,
            },
            BuildAction::CheckModelPath { path: b.model_filename() },
            BuildAction::Fail {
                error: OrtError::FileDoesNotExists { filename: b.model_filename() },
                release_options: true,
                release_session: false,
            },
        ],
        forall|i: int|
            0 <= i < run_build(b, path_missing()).len() ==> !(run_build(
                b,
                path_missing(),
            )[i] is CreateSession),
{
    reveal_with_fuel(run_build, 5);
    let evs = path_missing();
    assert(evs.drop_first().drop_first().drop_first().drop_first() =~= Seq::<BuildEvent>::empty());
    assert(run_build(b, evs) =~= seq![
        BuildAction::CreateSessionOptions,
        BuildAction::Configure {
            num_threads: b.num_threads() as i32,
            opt_level: level_ordinal(b.opt_level()) as u32,
        },
        BuildAction::CheckModelPath { path: b.model_filename() },
        BuildAction::Fail {
            error: OrtError::FileDoesNotExists { filename: b.model_filename() },
            release_options: true,
            release_session: false,
        },
    ]);
}

/// A failing step releases exactly the handles acquired so far: the session
/// options once they exist, the session once it exists. A finishing step
/// comes only after the allocator, and leaves the session to its owner.
pub proof fn lemma_failure_releases_what_is_held(b: SessionBuilder, ev: BuildEvent)
    requires
        awaits(b.stage(), ev),
    ensures
        build_step(b, ev).1 matches BuildAction::Fail { release_options, release_session, .. }
            ==> release_options == options_held(b.stage()) && release_session == (b.stage()
            == BuildStage::GettingAllocator),
        build_step(b, ev).1 is Finish ==> b.stage() == BuildStage::GettingAllocator,
        build_step(b, ev).1 is Fail || build_step(b, ev).1 is Finish <==> build_step(b, ev).0
            == BuildStage::Done,
{
}

/// One declared dimension of an input.
#[derive(Debug, Clone, Copy, PartialEq, Eq, Structural)]
pub enum Dimension {
    /// A concrete size.
    Fixed(u64),
    /// A size left open by the model (symbolic, set at run time).
    Dynamic,
}

/// The dimension that the engine's value `d` stands for: a negative value
/// marks a dynamic dimension.
pub open spec fn dimension_of(d: i64) -> Dimension {
    if d < 0 {
        Dimension::Dynamic
    } else {
        Dimension::Fixed(d as u64)
    }
}

/// A declared input of a model.
#[derive(Debug, Clone)]
pub struct Input {
    name: String,
    input_type: TensorElementDataType,
    dimensions: Vec<Dimension>,
}

impl Input {
    /// The input's name.
    pub closed spec fn name_spec(self) -> String {
        self.name
    }

    /// The input's element type.
    pub closed spec fn input_type_spec(self) -> TensorElementDataType {
        self.input_type
    }

    /// The input's dimensions, in order.
    pub closed spec fn dimensions_spec(self) -> Seq<Dimension> {
        self.dimensions@
    }

    /// Whether this descriptor holds the given name, the element type of the
    /// given code, and one dimension for each given value, in order.
    pub open spec fn describes(self, name: String, type_code: u32, dims: Seq<i64>) -> bool {
        &&& self.name_spec() == name
        &&& type_of_code(type_code as int) == Some(self.input_type_spec())
        &&& self.dimensions_spec().len() == dims.len()
        &&& forall|i: int|
            0 <= i < dims.len() ==> self.dimensions_spec()[i] == dimension_of(#[trigger] dims[i])
    }

    /// Builds the descriptor of an input from what the engine reported: its
    /// name, its element-type code and its dimension values. An unknown code is
    /// an error; each dimension is kept, a negative one as `Dynamic`.
    pub fn from_native(name: String, type_code: u32, dims: &Vec<i64>) -> (r: Result<Input, OrtError>)
        requires
            dims@.len() > 0,
        ensures
            (r is Err) == (type_of_code(type_code as int) is None),
            r matches Err(e) ==> e == (OrtError::UnknownElementType { code: type_code }),
            r matches Ok(input) ==> input.describes(name, type_code, dims@),
    {
        let input_type = match TensorElementDataType::from_code(type_code) {
            Some(t) => t,
            None => {
                return Err(OrtError::UnknownElementType { code: type_code });
            },
        };
        let mut dimensions: Vec<Dimension> = Vec::new();
        let mut i: usize = 0;
        while i < dims.len()
            invariant
                i <= dims@.len(),
                dimensions@.len() == i,
                forall|j: int| 0 <= j < i ==> dimensions@[j] == dimension_of(#[trigger] dims@[j]),
            decreases dims@.len() - i,
        {
            let d = dims[i];
            if d < 0 {
                dimensions.push(Dimension::Dynamic);
            } else {
                dimensions.push(Dimension::Fixed(d as u64));
            }
            i = i + 1;
        }
        Ok(Input { name, input_type, dimensions })
    }

    /// The input's name.
    pub fn name(&self) -> (r: &String)
        ensures
            *r == self.name_spec(),
    {
        &self.name
    }

    /// The input's element type.
    pub fn input_type(&self) -> (r: TensorElementDataType)
        ensures
            r == self.input_type_spec(),
    {
        self.input_type
    }

    /// The input's dimensions, in order.
    pub fn dimensions(&self) -> (r: &Vec<Dimension>)
        ensures
            r@ == self.dimensions_spec(),
    {
        &self.dimensions
    }
}

/// Checks the engine's answer to "how many inputs": a failure is an
/// allocator-class error, a success carries the count.
pub fn read_inputs_count(status: NativeStatus, count: u64) -> (r: Result<u64, OrtError>)
    requires
        status is None ==> count != 0,
    ensures
        status is None <==> r is Ok,
        r matches Ok(n) ==> n == count && n >= 1,
        status matches Some(m) ==> r == Err::<u64, OrtError>(OrtError::Allocator(m)),
{
    match status {
        None => Ok(count),
        Some(m) => Err(OrtError::Allocator(m)),
    }
}

/// Reads a model's inputs one index at a time and stops at the first error,
/// discarding what was read before it.
#[derive(Debug)]
pub struct InputsReader {
    count: u64,
    inputs: Vec<Input>,
}

impl InputsReader {
    /// The number of inputs to read.
    pub closed spec fn count(self) -> nat {
        self.count as nat
    }

    /// The inputs read so far.
    pub closed spec fn read(self) -> Seq<Input> {
        self.inputs@
    }

    /// A reader for `count` inputs.
    pub fn new(count: u64) -> (r: InputsReader)
        ensures
            r.count() == count,
            r.read().len() == 0,
    {
        InputsReader { count, inputs: Vec::new() }
    }

    /// The index of the next input to read, or `None` once all are read.
    pub fn next_index(&self) -> (r: Option<u64>)
        requires
            self.read().len() <= self.count(),
        ensures
            r is None <==> self.read().len() == self.count(),
            r matches Some(i) ==> i == self.read().len(),
    {
        if (self.inputs.len() as u64) < self.count {
            Some(self.inputs.len() as u64)
        } else {
            None
        }
    }

    /// Takes the outcome of reading the next input: keeps the input, or hands
    /// the error on.
    pub fn accept(&mut self, outcome: Result<Input, OrtError>) -> (r: Result<(), OrtError>)
        requires
            old(self).read().len() < old(self).count(),
        ensures
            final(self).count() == old(self).count(),
            outcome is Ok <==> r is Ok,
            outcome matches Ok(input) ==> final(self).read() == old(self).read().push(input),
            outcome matches Err(e) ==> r == Err::<(), OrtError>(e) && final(self).read() == old(
                self,
            ).read(),
    {
        match outcome {
            Ok(input) => {
                self.inputs.push(input);
                Ok(())
            },
            Err(e) => Err(e),
        }
    }

    /// All the inputs, in index order.
    pub fn finish(self) -> (r: Vec<Input>)
        ensures
            r@ == self.read(),
    {
        self.inputs
    }
}

} // verus!
