use crate::gl_wrapper::command::{Command, CommandView};
use crate::gl_wrapper::value::{Matrix, Scalar, UniformValue};
use vstd::prelude::*;

verus! {

/// Most bytes of a driver log that are read back.
pub const MAX_ERR_LEN: i32 = 1024;

/// First line of every stage: the language version.
pub const SHADER_VERSION: &'static str = "#version 450\n";

/// Whether the text holds a zero character, which no C string can carry.
pub fn has_nul(text: &str) -> (found: bool)
    ensures
        found == text@.contains('\0'),
{
    broadcast use vstd::string::axiom_spec_iter;

    let mut found = false;
    for c in it: text.chars()
        invariant
            it.seq() == text@,
            found == text@.take(it.index()).contains('\0'),
    {
        proof {
            let seen = text@.take(it.index());
            let next = text@.take(it.index() + 1);
            assert(next.contains('\0') == (seen.contains('\0') || c == '\0')) by {
                if seen.contains('\0') {
                    let k = choose|k: int| 0 <= k < seen.len() && seen[k] == '\0';
                    assert(next[k] == '\0');
                }
                if c == '\0' {
                    assert(next[it.index()] == '\0');
                }
            }
        }
        if c == '\0' {
            found = true;
        }
    }
    assert(text@.take(text@.len() as int) =~= text@);
    found
}

/// Whether the text ends in a line feed.
pub open spec fn ends_line(text: Seq<char>) -> bool {
    text.len() > 0 && text.last() == '\n'
}

/// The text, with a line feed added unless it ends in one.
pub open spec fn terminated(text: Seq<char>) -> Seq<char> {
    if ends_line(text) {
        text
    } else {
        text.push('\n')
    }
}

/// The text as an owned string that ends in a line feed.
pub fn terminate(text: &str) -> (line: String)
    ensures
        line@ == terminated(text@),
{
    let len: usize = text.unicode_len();
    let mut line = String::from_str(text);
    if len == 0 || text.get_char(len - 1) != '\n' {
        line.append("\n");
        proof {
            reveal_strlit("\n");
        }
    }
    line
}

/// Stage of the pipeline that a shader runs in.
#[derive(Debug, Clone, Copy, PartialEq, Eq, Structural)]
pub enum ShaderType {
    Fragment,
    Vertex,
}

impl ShaderType {
    /// The context's numeric code of the stage.
    pub open spec fn code(self) -> u32 {
        match self {
            ShaderType::Fragment => 0x8B30,
            ShaderType::Vertex => 0x8B31,
        }
    }

    /// Name of the stage as it appears in messages.
    pub open spec fn label(self) -> Seq<char> {
        match self {
            ShaderType::Fragment => "Fragment"@,
            ShaderType::Vertex => "Vertex"@,
        }
    }

    /// Name of the stage as it appears in messages.
    pub fn to_string(&self) -> (name: String)
        ensures
            name@ == self.label(),
    {
        match self {
            ShaderType::Fragment => String::from_str("Fragment"),
            ShaderType::Vertex => String::from_str("Vertex"),
        }
    }
}

impl From<ShaderType> for u32 {
    fn from(st: ShaderType) -> (code: u32) {
        match st {
            ShaderType::Fragment => 0x8B30,
            ShaderType::Vertex => 0x8B31,
        }
    }
}

impl vstd::std_specs::convert::FromSpecImpl<ShaderType> for u32 {
    open spec fn obeys_from_spec() -> bool {
        true
    }

    open spec fn from_spec(st: ShaderType) -> u32 {
        st.code()
    }
}

/// Why no program came out of a set of sources.
#[derive(Debug, Clone, PartialEq, Eq)]
pub enum ShaderCompilationError {
    /// A stage did not compile; the text is the driver's diagnostic.
    ProgramError(ShaderType, String),
    /// The stages did not link; the text is the driver's diagnostic.
    LinkageError(String),
    /// The sources cannot be handed to the driver.
    SourceError(String),
}

/// What a [`ShaderCompilationError`] says, with its text as a sequence.
pub enum ShaderCompilationErrorView {
    ProgramError(ShaderType, Seq<char>),
    LinkageError(Seq<char>),
    SourceError(Seq<char>),
}

impl View for ShaderCompilationError {
    type V = ShaderCompilationErrorView;

    open spec fn view(&self) -> ShaderCompilationErrorView {
        match self {
            ShaderCompilationError::ProgramError(stage, text) => {
                ShaderCompilationErrorView::ProgramError(*stage, text@)
            },
            ShaderCompilationError::LinkageError(text) => ShaderCompilationErrorView::LinkageError(
                text@,
            ),
            ShaderCompilationError::SourceError(text) => ShaderCompilationErrorView::SourceError(
                text@,
            ),
        }
    }
}

/// The message that goes with an error.
pub open spec fn error_message(error: ShaderCompilationErrorView) -> Seq<char> {
    match error {
        ShaderCompilationErrorView::ProgramError(stage, text) => stage.label()
            + " shader program error: \n"@ + text,
        ShaderCompilationErrorView::LinkageError(text) => "Shader linking error: \n"@ + text,
        ShaderCompilationErrorView::SourceError(text) => "Error in source code: "@ + text,
    }
}

impl ShaderCompilationError {
    /// The message that goes with the error.
    pub fn to_string(&self) -> (message: String)
        ensures
            message@ == error_message(self@),
    {
        match self {
            ShaderCompilationError::ProgramError(stage, text) => {
                let mut message = stage.to_string();
                message.append(" shader program error: \n");
                message.append(text.as_str());
                message
            },
            ShaderCompilationError::LinkageError(text) => {
                let mut message = String::from_str("Shader linking error: \n");
                message.append(text.as_str());
                message
            },
            ShaderCompilationError::SourceError(text) => {
                let mut message = String::from_str("Error in source code: ");
                message.append(text.as_str());
                message
            },
        }
    }
}

/// The error of `snailquote::unescape`. Nothing is known of what it holds.
#[verifier::external_type_specification]
#[verifier::external_body]
pub struct ExUnescapeError(snailquote::UnescapeError);

/// The text that `snailquote::unescape` makes of a text, or `None` where it
/// reports an error.
pub uninterp spec fn unescaped(text: Seq<char>) -> Option<Seq<char>>;

/// Whether a text holds no quote character, single or double.
pub open spec fn unquoted(text: Seq<char>) -> bool {
    !text.contains('\u{27}') && !text.contains('\u{22}')
}

/// Calls `snailquote::unescape`, which removes shell-style quoting from a
/// text. Its outcome depends on the text alone and is the outcome named
/// [`unescaped`]. Only a quote character opens quoting, and outside quoting
/// every character is kept, so a text without a quote character comes back
/// as it is and is never an error.
#[verifier::external_body]
fn unescape(text: &str) -> (outcome: Result<String, snailquote::UnescapeError>)
    ensures
        match outcome {
            Ok(plain) => unescaped(text@) == Some(plain@),
            Err(_) => unescaped(text@) is None,
        },
        outcome matches Ok(plain) ==> (unquoted(text@) ==> plain@ == text@),
        outcome is Err ==> !unquoted(text@),
{
    snailquote::unescape(text)
}

/// Judges what the driver reported of one compiled stage, given the
/// diagnostic already freed of its quoting.
///
/// A status of `1` is success. Without success the diagnostic becomes the
/// error; where there is no readable diagnostic there is no verdict.
pub fn compile_status(
    shader_type: ShaderType,
    shader_id: u32,
    status: i32,
    diagnostic: Option<String>,
) -> (verdict: Option<Result<u32, ShaderCompilationError>>)
    ensures
        status == 1 ==> verdict == Some(Ok::<u32, ShaderCompilationError>(shader_id)),
        status != 1 ==> verdict == match diagnostic {
            Some(text) => Some(
                Err::<u32, ShaderCompilationError>(
                    ShaderCompilationError::ProgramError(shader_type, text),
                ),
            ),
            None => None,
        },
{
    if status == 1 {
        Some(Ok(shader_id))
    } else {
        match diagnostic {
            Some(text) => Some(Err(ShaderCompilationError::ProgramError(shader_type, text))),
            None => None,
        }
    }
}

/// Judges what the driver reported of one compiled stage: its status and,
/// where that is no success, its log.
///
/// The log is freed of its quoting first; a log without a quote character is
/// taken as it is. A log that cannot be freed of its quoting gives no verdict.
pub fn compile_shader(shader_type: ShaderType, shader_id: u32, status: i32, info_log: &str) -> (verdict:
    Option<Result<u32, ShaderCompilationError>>)
    ensures
        status == 1 ==> verdict == Some(Ok::<u32, ShaderCompilationError>(shader_id)),
        status != 1 ==> match unescaped(info_log@) {
            Some(text) => verdict matches Some(Err(error)) && error@
                == ShaderCompilationErrorView::ProgramError(shader_type, text),
            None => verdict is None,
        },
        status != 1 && unquoted(info_log@) ==> (verdict matches Some(Err(error)) && error@
            == ShaderCompilationErrorView::ProgramError(shader_type, info_log@)),
{
    if status == 1 {
        compile_status(shader_type, shader_id, status, None)
    } else {
        let diagnostic = match unescape(info_log) {
            Ok(text) => Some(text),
            Err(_) => None,
        };
        compile_status(shader_type, shader_id, status, diagnostic)
    }
}

/// Judges what the driver reported of a linked program, given the diagnostic
/// already freed of its quoting.
///
/// A status of `1` is success. Without success the diagnostic becomes the
/// error; where there is no readable diagnostic there is no verdict.
pub fn link_status(program_id: u32, status: i32, diagnostic: Option<String>) -> (verdict: Option<
    Result<u32, ShaderCompilationError>,
>)
    ensures
        status == 1 ==> verdict == Some(Ok::<u32, ShaderCompilationError>(program_id)),
        status != 1 ==> verdict == match diagnostic {
            Some(text) => Some(
                Err::<u32, ShaderCompilationError>(ShaderCompilationError::LinkageError(text)),
            ),
            None => None,
        },
{
    if status == 1 {
        Some(Ok(program_id))
    } else {
        match diagnostic {
            Some(text) => Some(Err(ShaderCompilationError::LinkageError(text))),
            None => None,
        }
    }
}

/// Judges what the driver reported of a linked program: its status and,
/// where that is no success, its log.
///
/// The log is freed of its quoting first; a log without a quote character is
/// taken as it is. A log that cannot be freed of its quoting gives no verdict.
pub fn link_program(program_id: u32, status: i32, info_log: &str) -> (verdict: Option<
    Result<u32, ShaderCompilationError>,
>)
    ensures
        status == 1 ==> verdict == Some(Ok::<u32, ShaderCompilationError>(program_id)),
        status != 1 ==> match unescaped(info_log@) {
            Some(text) => verdict matches Some(Err(error)) && error@
                == ShaderCompilationErrorView::LinkageError(text),
            None => verdict is None,
        },
        status != 1 && unquoted(info_log@) ==> (verdict matches Some(Err(error)) && error@
            == ShaderCompilationErrorView::LinkageError(info_log@)),
{
    if status == 1 {
        link_status(program_id, status, None)
    } else {
        let diagnostic = match unescape(info_log) {
            Ok(text) => Some(text),
            Err(_) => None,
        };
        link_status(program_id, status, diagnostic)
    }
}

/// The line that switches a feature on.
pub open spec fn define_line(name: Seq<char>) -> Seq<char> {
    "#define "@ + name + " 1\n"@
}

/// The block of lines that switches the features on, in their order.
pub open spec fn merged_defines(defines: Seq<Seq<char>>) -> Seq<char>
    decreases defines.len(),
{
    if defines.len() == 0 {
        Seq::empty()
    } else {
        merged_defines(defines.drop_last()) + define_line(defines.last())
    }
}

/// The texts that make up one stage, in the order in which the driver reads
/// them: every shared text, ended by a line feed; the block of feature
/// lines; the stage's own text, ended by a line feed.
pub open spec fn stage_sources(
    main: Seq<char>,
    includes: Seq<Seq<char>>,
    defines: Seq<Seq<char>>,
) -> Seq<Seq<char>> {
    includes.map_values(|text: Seq<char>| terminated(text)) + seq![
        merged_defines(defines),
        terminated(main),
    ]
}

/// Both stages of a program are made of the same shared texts and the same
/// block of feature lines; they differ in their own text, which comes last.
/// Every shared text and the stage's own text end in a line feed, and so does
/// the block of feature lines unless it is empty.
pub proof fn lemma_stage_sources(
    vert: Seq<char>,
    frag: Seq<char>,
    includes: Seq<Seq<char>>,
    defines: Seq<Seq<char>>,
)
    ensures
        stage_sources(vert, includes, defines).len() == includes.len() + 2,
        stage_sources(vert, includes, defines).drop_last() == stage_sources(
            frag,
            includes,
            defines,
        ).drop_last(),
        stage_sources(vert, includes, defines).last() == terminated(vert),
        forall|i: int|
            0 <= i < includes.len() ==> #[trigger] stage_sources(vert, includes, defines)[i]
                == terminated(includes[i]),
        forall|text: Seq<char>| ends_line(#[trigger] terminated(text)),
        stage_sources(vert, includes, defines)[includes.len() as int] == merged_defines(defines),
        defines.len() == 0 ==> merged_defines(defines).len() == 0,
        defines.len() > 0 ==> ends_line(merged_defines(defines)),
{
    reveal_strlit(" 1\n");
}

/// The block of feature lines holds a zero character exactly when one of the
/// names does, so sources are refused for a name and for nothing else.
pub proof fn lemma_merged_defines_nul(defines: Seq<Seq<char>>)
    ensures
        merged_defines(defines).contains('\0') <==> exists|i: int|
            0 <= i < defines.len() && (#[trigger] defines[i]).contains('\0'),
    decreases defines.len(),
{
    reveal_strlit("#define ");
    reveal_strlit(" 1\n");
    if defines.len() > 0 {
        let front = defines.drop_last();
        let name = defines.last();
        lemma_merged_defines_nul(front);
        let line = define_line(name);
        let block = merged_defines(front);
        assert(line.contains('\0') <==> name.contains('\0')) by {
            if name.contains('\0') {
                let k = choose|k: int| 0 <= k < name.len() && name[k] == '\0';
                assert(line[8 + k] == '\0');
            }
            if line.contains('\0') {
                let k = choose|k: int| 0 <= k < line.len() && line[k] == '\0';
                assert(8 <= k < 8 + name.len());
                assert(name[k - 8] == '\0');
            }
        }
        assert((block + line).contains('\0') <==> block.contains('\0') || line.contains('\0'))
            by {
            if block.contains('\0') {
                let k = choose|k: int| 0 <= k < block.len() && block[k] == '\0';
                assert((block + line)[k] == '\0');
            }
            if line.contains('\0') {
                let k = choose|k: int| 0 <= k < line.len() && line[k] == '\0';
                assert((block + line)[block.len() + k] == '\0');
            }
            if (block + line).contains('\0') {
                let k = choose|k: int| 0 <= k < (block + line).len() && (block + line)[k] == '\0';
                if k < block.len() {
                    assert(block[k] == '\0');
                } else {
                    assert(line[k - block.len()] == '\0');
                }
            }
        }
        if exists|i: int| 0 <= i < front.len() && (#[trigger] front[i]).contains('\0') {
            let i = choose|i: int| 0 <= i < front.len() && (#[trigger] front[i]).contains('\0');
            assert(defines[i].contains('\0'));
        }
        if exists|i: int| 0 <= i < defines.len() && (#[trigger] defines[i]).contains('\0') {
            let i = choose|i: int| 0 <= i < defines.len() && (#[trigger] defines[i]).contains('\0');
            if i < front.len() {
                assert(front[i].contains('\0'));
            }
        }
    }
}

/// Collects the sources of a program before they go to the driver.
#[derive(Debug, Clone, PartialEq, Eq)]
pub struct ShaderBuilder<'a> {
    vert: &'a str,
    frag: &'a str,
    includes: Vec<&'a str>,
    defines: Vec<String>,
}

/// What a [`ShaderBuilder`] holds.
pub struct ShaderBuilderView {
    /// Text of the vertex stage.
    pub vert: Seq<char>,
    /// Text of the fragment stage.
    pub frag: Seq<char>,
    /// Texts shared by both stages, in the order in which they were added.
    pub includes: Seq<Seq<char>>,
    /// Names of the features switched on, in the order in which they were
    /// added.
    pub defines: Seq<Seq<char>>,
}

impl ShaderBuilderView {
    /// Text of one stage.
    pub open spec fn stage_text(self, stage: ShaderType) -> Seq<char> {
        match stage {
            ShaderType::Vertex => self.vert,
            ShaderType::Fragment => self.frag,
        }
    }

    /// The texts that make up one stage, in the order in which the driver
    /// reads them.
    pub open spec fn sources(self, stage: ShaderType) -> Seq<Seq<char>> {
        stage_sources(self.stage_text(stage), self.includes, self.defines)
    }
}

impl<'a> View for ShaderBuilder<'a> {
    type V = ShaderBuilderView;

    closed spec fn view(&self) -> ShaderBuilderView {
        ShaderBuilderView {
            vert: self.vert@,
            frag: self.frag@,
            includes: self.includes.deep_view(),
            defines: self.defines.deep_view(),
        }
    }
}

impl<'a> ShaderBuilder<'a> {
    /// Starts from the texts of the two stages. The language version is the
    /// first shared text; no feature is switched on.
    pub fn new(vert: &'a str, frag: &'a str) -> (builder: Self)
        ensures
            builder@ == (ShaderBuilderView {
                vert: vert@,
                frag: frag@,
                includes: seq![SHADER_VERSION@],
                defines: Seq::empty(),
            }),
    {
        let mut includes: Vec<&'a str> = Vec::new();
        includes.push(SHADER_VERSION);
        let builder = Self { vert, frag, includes, defines: Vec::new() };
        assert(builder.includes.deep_view() =~= seq![SHADER_VERSION@]);
        assert(builder.defines.deep_view() =~= Seq::empty());
        builder
    }

    /// Adds a text shared by both stages, behind those already added.
    pub fn with_common_code(&mut self, code: &'a str) -> (builder: &mut Self)
        ensures
            *final(self) == *final(builder),
            builder@ == (ShaderBuilderView {
                includes: old(self)@.includes.push(code@),
                ..old(self)@
            }),
    {
        self.includes.push(code);
        assert(self.includes.deep_view() =~= old(self).includes.deep_view().push(code@));
        self
    }

    /// Switches a feature on, behind those already switched on.
    pub fn with_define(&mut self, def: &str) -> (builder: &mut Self)
        ensures
            *final(self) == *final(builder),
            builder@ == (ShaderBuilderView {
                defines: old(self)@.defines.push(def@),
                ..old(self)@
            }),
    {
        self.defines.push(String::from_str(def));
        assert(self.defines.deep_view() =~= old(self).defines.deep_view().push(def@));
        self
    }
}

/// A linked program on the GPU.
///
/// A value of this type comes out of a build that reached its end without an
/// error, and out of nothing else.
#[derive(Debug, PartialEq, Eq)]
pub struct Shader {
    program_id: u32,
}

impl View for Shader {
    type V = u32;

    /// Name of the program.
    closed spec fn view(&self) -> u32 {
        self.program_id
    }
}

/// How far the build of a program has come.
#[derive(Debug, PartialEq, Eq)]
pub enum BuildState {
    /// Nothing was handed to the driver yet.
    Uncompiled,
    /// The vertex stage is with the driver.
    CompilingVertex,
    /// The vertex stage compiled; the fragment stage is with the driver.
    CompilingFragment { vertex: u32 },
    /// Both stages compiled; the program is with the driver to be linked.
    Linking { vertex: u32, fragment: u32 },
    /// The program is linked and can be bound.
    Ready(Shader),
    /// The build failed for good.
    Failed(ShaderCompilationError),
}

/// What the driver reported.
#[derive(Debug, PartialEq, Eq)]
pub enum BuildEvent {
    /// Nothing yet: the build is to begin.
    Start,
    /// The verdict on the stage that was handed over last: its name, or why it
    /// did not compile.
    Compiled(Result<u32, ShaderCompilationError>),
    /// The verdict on the program: its name, or why it did not link.
    Linked(Result<u32, ShaderCompilationError>),
}

/// What the driver is to do next.
#[derive(Debug, PartialEq, Eq)]
pub enum BuildAction {
    /// Compile a stage from these texts, in this order.
    Compile { stage: ShaderType, sources: Vec<String> },
    /// Attach both stages to a fresh program and link it.
    Link { vertex: u32, fragment: u32 },
    /// Delete both stages; the build is over.
    Release { vertex: u32, fragment: u32 },
    /// Nothing; the build is over or waits for another report.
    Nothing,
}

/// The error of sources that hold a zero character among the feature names.
pub open spec fn zero_byte_error() -> ShaderCompilationErrorView {
    ShaderCompilationErrorView::SourceError("Unexpected zero byte in defines"@)
}

/// Whether a build in `state` that learns of `event` goes on in `next` and
/// asks for `action`.
///
/// The vertex stage is compiled first, then the fragment stage, then the two
/// are linked. The first failure ends the build. After the link, whatever
/// came of it, both stages are released. A report that the state does not
/// wait for changes nothing.
pub open spec fn build_step(
    builder: ShaderBuilderView,
    state: BuildState,
    event: BuildEvent,
    next: BuildState,
    action: BuildAction,
) -> bool {
    match (state, event) {
        (BuildState::Uncompiled, BuildEvent::Start) => {
            if merged_defines(builder.defines).contains('\0') {
                &&& next matches BuildState::Failed(error)
                &&& error@ == zero_byte_error()
                &&& action is Nothing
            } else {
                &&& next == BuildState::CompilingVertex
                &&& action matches BuildAction::Compile { stage, sources }
                &&& stage == ShaderType::Vertex
                &&& sources.deep_view() == builder.sources(ShaderType::Vertex)
            }
        },
        (BuildState::CompilingVertex, BuildEvent::Compiled(Ok(vertex))) => {
            &&& next == BuildState::CompilingFragment { vertex }
            &&& action matches BuildAction::Compile { stage, sources }
            &&& stage == ShaderType::Fragment
            &&& sources.deep_view() == builder.sources(ShaderType::Fragment)
        },
        (BuildState::CompilingVertex, BuildEvent::Compiled(Err(error))) => {
            &&& next == BuildState::Failed(error)
            &&& action is Nothing
        },
        (BuildState::CompilingFragment { vertex }, BuildEvent::Compiled(Ok(fragment))) => {
            &&& next == BuildState::Linking { vertex, fragment }
            &&& action == BuildAction::Link { vertex, fragment }
        },
        (BuildState::CompilingFragment { vertex }, BuildEvent::Compiled(Err(error))) => {
            &&& next == BuildState::Failed(error)
            &&& action is Nothing
        },
        (BuildState::Linking { vertex, fragment }, BuildEvent::Linked(Ok(program))) => {
            &&& next matches BuildState::Ready(shader)
            &&& shader@ == program
            &&& action == BuildAction::Release { vertex, fragment }
        },
        (BuildState::Linking { vertex, fragment }, BuildEvent::Linked(Err(error))) => {
            &&& next == BuildState::Failed(error)
            &&& action == BuildAction::Release { vertex, fragment }
        },
        _ => {
            &&& next == state
            &&& action is Nothing
        },
    }
}

/// A build that has come to its end, with a program or with an error, stays
/// there whatever is reported to it, and asks for nothing more.
pub proof fn lemma_build_end_is_final(
    builder: ShaderBuilderView,
    state: BuildState,
    event: BuildEvent,
    next: BuildState,
    action: BuildAction,
)
    requires
        build_step(builder, state, event, next, action),
        state is Ready || state is Failed,
    ensures
        next == state,
        action is Nothing,
{
}

/// A program comes out of a link that the driver reported as done, and out
/// of nothing else: no state but the one that waits for the link leads to a
/// program, and it holds the program that the driver named.
pub proof fn lemma_ready_only_by_link(
    builder: ShaderBuilderView,
    state: BuildState,
    event: BuildEvent,
    next: BuildState,
    action: BuildAction,
)
    requires
        build_step(builder, state, event, next, action),
        next is Ready,
        !(state is Ready),
    ensures
        state is Linking,
        event matches BuildEvent::Linked(Ok(program)) && next matches BuildState::Ready(shader)
            && shader@ == program,
{
}

/// A failure that the driver reports of the step it was asked for ends the
/// build with that failure: no program comes of it.
pub proof fn lemma_failure_ends_build(
    builder: ShaderBuilderView,
    state: BuildState,
    event: BuildEvent,
    next: BuildState,
    action: BuildAction,
    error: ShaderCompilationError,
)
    requires
        build_step(builder, state, event, next, action),
        (state is CompilingVertex || state is CompilingFragment) && event == BuildEvent::Compiled(
            Err(error),
        ) || state is Linking && event == BuildEvent::Linked(Err(error)),
    ensures
        next == BuildState::Failed(error),
{
}

impl BuildState {
    /// What came of the build, once it is over.
    pub fn finish(self) -> (outcome: Option<Result<Shader, ShaderCompilationError>>)
        ensures
            outcome == match self {
                BuildState::Ready(shader) => Some(Ok::<Shader, ShaderCompilationError>(shader)),
                BuildState::Failed(error) => Some(Err::<Shader, ShaderCompilationError>(error)),
                _ => None,
            },
    {
        match self {
            BuildState::Ready(shader) => Some(Ok(shader)),
            BuildState::Failed(error) => Some(Err(error)),
            _ => None,
        }
    }
}

impl<'a> ShaderBuilder<'a> {
    /// The block of lines that switches the features on.
    fn merge_defines(&self) -> (block: String)
        ensures
            block@ == merged_defines(self@.defines),
    {
        let mut block = String::new();
        let mut i: usize = 0;
        while i < self.defines.len()
            invariant
                i <= self.defines@.len(),
                block@ == merged_defines(self@.defines.take(i as int)),
            decreases self.defines@.len() - i,
        {
            block.append("#define ");
            block.append(self.defines[i].as_str());
            block.append(" 1\n");
            i += 1;
            proof {
                let front = self@.defines.take(i as int);
                assert(front.drop_last() =~= self@.defines.take(i - 1));
            }
        }
        assert(self@.defines.take(i as int) =~= self@.defines);
        block
    }

    /// The texts that make up one stage, in the order in which the driver
    /// reads them.
    pub fn sources(&self, stage: ShaderType) -> (texts: Vec<String>)
        ensures
            texts.deep_view() == self@.sources(stage),
    {
        let mut texts: Vec<String> = Vec::new();
        let mut i: usize = 0;
        while i < self.includes.len()
            invariant
                i <= self.includes@.len(),
                texts.deep_view() == self@.includes.take(i as int).map_values(
                    |text: Seq<char>| terminated(text),
                ),
            decreases self.includes@.len() - i,
        {
            let ghost before = texts.deep_view();
            let line = terminate(self.includes[i]);
            texts.push(line);
            i += 1;
            assert(texts.deep_view() =~= before.push(terminated(self.includes@[i - 1]@)));
        }
        let ghost shared = texts.deep_view();
        let block = self.merge_defines();
        texts.push(block);
        let main = match stage {
            ShaderType::Vertex => terminate(self.vert),
            ShaderType::Fragment => terminate(self.frag),
        };
        texts.push(main);
        assert(texts.deep_view() =~= shared + seq![
            merged_defines(self@.defines),
            terminated(self@.stage_text(stage)),
        ]);
        texts
    }

    /// Takes the build of the program one step further: from the state it is
    /// in and what the driver reported to the state it is in now and what the
    /// driver is to do next.
    pub fn build(&self, state: BuildState, event: BuildEvent) -> (step: (BuildState, BuildAction))
        ensures
            build_step(self@, state, event, step.0, step.1),
    {
        match (state, event) {
            (BuildState::Uncompiled, BuildEvent::Start) => {
                let block = self.merge_defines();
                if has_nul(block.as_str()) {
                    let error = ShaderCompilationError::SourceError(
                        String::from_str("Unexpected zero byte in defines"),
                    );
                    (BuildState::Failed(error), BuildAction::Nothing)
                } else {
                    let sources = self.sources(ShaderType::Vertex);
                    (
                        BuildState::CompilingVertex,
                        BuildAction::Compile { stage: ShaderType::Vertex, sources },
                    )
                }
            },
            (BuildState::CompilingVertex, BuildEvent::Compiled(Ok(vertex))) => {
                let sources = self.sources(ShaderType::Fragment);
                (
                    BuildState::CompilingFragment { vertex },
                    BuildAction::Compile { stage: ShaderType::Fragment, sources },
                )
            },
            (BuildState::CompilingVertex, BuildEvent::Compiled(Err(error))) => {
                (BuildState::Failed(error), BuildAction::Nothing)
            },
            (BuildState::CompilingFragment { vertex }, BuildEvent::Compiled(Ok(fragment))) => {
                (BuildState::Linking { vertex, fragment }, BuildAction::Link { vertex, fragment })
            },
            (BuildState::CompilingFragment { vertex }, BuildEvent::Compiled(Err(error))) => {
                (BuildState::Failed(error), BuildAction::Nothing)
            },
            (BuildState::Linking { vertex, fragment }, BuildEvent::Linked(Ok(program))) => {
                (
                    BuildState::Ready(Shader { program_id: program }),
                    BuildAction::Release { vertex, fragment },
                )
            },
            (BuildState::Linking { vertex, fragment }, BuildEvent::Linked(Err(error))) => {
                (BuildState::Failed(error), BuildAction::Release { vertex, fragment })
            },
            (state, _) => (state, BuildAction::Nothing),
        }
    }
}

/// The value that a vector of single-precision components sets, if it has one
/// to four of them.
pub open spec fn float_value(components: Seq<Scalar>) -> Option<UniformValue> {
    if components.len() == 1 {
        Some(UniformValue::Float1(components[0]))
    } else if components.len() == 2 {
        Some(UniformValue::Float2(components[0], components[1]))
    } else if components.len() == 3 {
        Some(UniformValue::Float3(components[0], components[1], components[2]))
    } else if components.len() == 4 {
        Some(UniformValue::Float4(components[0], components[1], components[2], components[3]))
    } else {
        None
    }
}

/// The value that a vector of integer components sets, if it has one to four
/// of them.
pub open spec fn int_value(components: Seq<i32>) -> Option<UniformValue> {
    if components.len() == 1 {
        Some(UniformValue::Int1(components[0]))
    } else if components.len() == 2 {
        Some(UniformValue::Int2(components[0], components[1]))
    } else if components.len() == 3 {
        Some(UniformValue::Int3(components[0], components[1], components[2]))
    } else if components.len() == 4 {
        Some(UniformValue::Int4(components[0], components[1], components[2], components[3]))
    } else {
        None
    }
}

/// Whether a value is the square matrix with these entries: four, nine or
/// sixteen of them.
pub open spec fn is_matrix_value(entries: Seq<u32>, value: UniformValue) -> bool {
    match value {
        UniformValue::Matrix(Matrix::M2(m)) => m@ == entries,
        UniformValue::Matrix(Matrix::M3(m)) => m@ == entries,
        UniformValue::Matrix(Matrix::M4(m)) => m@ == entries,
        _ => false,
    }
}

/// Whether a command sets the named uniform of the program to the square
/// matrix with these entries.
pub open spec fn is_matrix_command(
    command: CommandView,
    program: u32,
    name: Seq<char>,
    entries: Seq<u32>,
) -> bool {
    match command {
        CommandView::Uniform { program: p, name: n, value } => p == program && n == name
            && is_matrix_value(entries, value),
        _ => false,
    }
}

/// Whether so many entries fill a square matrix of two, three or four rows.
pub open spec fn is_matrix_size(entries: nat) -> bool {
    entries == 4 || entries == 9 || entries == 16
}

/// The error of a uniform that the program does not have.
pub open spec fn missing_uniform(name: Seq<char>) -> Seq<char> {
    "uniform with name '"@ + name + "' does not exist"@
}

/// What a lookup of a uniform comes to, given the location that the driver
/// reported for the name: the location, unless the name holds a zero
/// character or the driver reported `-1`, which says that the program has no
/// active uniform of that name.
pub open spec fn uniform_location(name: Seq<char>, reported: i32) -> Result<i32, Seq<char>> {
    if name.contains('\0') {
        Err("uniform name has zero bytes"@)
    } else if reported == -1 {
        Err(missing_uniform(name))
    } else {
        Ok(reported)
    }
}

/// Every vector of one to four components and every square matrix of two to
/// four rows can be set, and nothing else. A name without a zero character
/// is found where the driver reports a location for it, and is missing, with
/// the same error every time, where the driver reports none.
pub proof fn lemma_uniform_round_trip(
    name: Seq<char>,
    reported: i32,
    floats: Seq<Scalar>,
    ints: Seq<i32>,
)
    requires
        !name.contains('\0'),
    ensures
        float_value(floats) is Some <==> 1 <= floats.len() <= 4,
        int_value(ints) is Some <==> 1 <= ints.len() <= 4,
        reported != -1 ==> uniform_location(name, reported) == Ok::<i32, Seq<char>>(reported),
        reported == -1 ==> uniform_location(name, reported) == Err::<i32, Seq<char>>(
            missing_uniform(name),
        ),
{
}

impl Shader {
    /// Name of the program.
    pub fn program_id(&self) -> (id: u32)
        ensures
            id == self@,
    {
        self.program_id
    }

    /// Gives the program up: the command that deletes it.
    pub fn release(self) -> (command: Command)
        ensures
            command == (Command::DeleteProgram { id: self@ }),
    {
        Command::DeleteProgram { id: self.program_id }
    }

    /// The command that makes the program current.
    pub fn bind(&self) -> (command: Command)
        ensures
            command == (Command::UseProgram { program: self@ }),
    {
        Command::UseProgram { program: self.program_id }
    }

    /// The command that sets a uniform of the program.
    pub fn set_uniform(&self, name: &str, value: UniformValue) -> (command: Command)
        ensures
            command.deep_view() == (CommandView::Uniform { program: self@, name: name@, value }),
    {
        Command::Uniform { program: self.program_id, name: String::from_str(name), value }
    }

    /// The command that sets a uniform to a vector of one to four
    /// single-precision components. A vector of another size is refused.
    pub fn set_float_uniform<const N: usize>(&self, name: &str, float_vec: [Scalar; N]) -> (command:
        Result<Command, String>)
        ensures
            match float_value(float_vec@) {
                Some(value) => command matches Ok(c) && c.deep_view() == (CommandView::Uniform {
                    program: self@,
                    name: name@,
                    value,
                }),
                None => command matches Err(message) && message@
                    == "invalid float vector size passed"@,
            },
    {
        if N == 1 {
            Ok(self.set_uniform(name, UniformValue::Float1(float_vec[0])))
        } else if N == 2 {
            Ok(self.set_uniform(name, UniformValue::Float2(float_vec[0], float_vec[1])))
        } else if N == 3 {
            Ok(
                self.set_uniform(
                    name,
                    UniformValue::Float3(float_vec[0], float_vec[1], float_vec[2]),
                ),
            )
        } else if N == 4 {
            Ok(
                self.set_uniform(
                    name,
                    UniformValue::Float4(float_vec[0], float_vec[1], float_vec[2], float_vec[3]),
                ),
            )
        } else {
            Err(String::from_str("invalid float vector size passed"))
        }
    }

    /// The command that sets a uniform to a vector of one to four integer
    /// components. A vector of another size is refused.
    pub fn set_int_uniform<const N: usize>(&self, name: &str, int_vec: [i32; N]) -> (command: Result<
        Command,
        String,
    >)
        ensures
            match int_value(int_vec@) {
                Some(value) => command matches Ok(c) && c.deep_view() == (CommandView::Uniform {
                    program: self@,
                    name: name@,
                    value,
                }),
                None => command matches Err(message) && message@
                    == "invalid float vector size passed"@,
            },
    {
        if N == 1 {
            Ok(self.set_uniform(name, UniformValue::Int1(int_vec[0])))
        } else if N == 2 {
            Ok(self.set_uniform(name, UniformValue::Int2(int_vec[0], int_vec[1])))
        } else if N == 3 {
            Ok(self.set_uniform(name, UniformValue::Int3(int_vec[0], int_vec[1], int_vec[2])))
        } else if N == 4 {
            Ok(
                self.set_uniform(
                    name,
                    UniformValue::Int4(int_vec[0], int_vec[1], int_vec[2], int_vec[3]),
                ),
            )
        } else {
            Err(String::from_str("invalid float vector size passed"))
        }
    }

    /// The command that sets a uniform to a square matrix of two, three or
    /// four rows, given by its entries. Another number of entries is refused.
    pub fn set_matrix_uniform<const N: usize>(&self, name: &str, matrix_vec: [u32; N]) -> (command:
        Result<Command, String>)
        ensures
            is_matrix_size(N as nat) ==> (command matches Ok(c) && is_matrix_command(
                c.deep_view(),
                self@,
                name@,
                matrix_vec@,
            )),
            !is_matrix_size(N as nat) ==> (command matches Err(message) && message@
                == "invalid matrix size passed"@),
    {
        let m = &matrix_vec;
        if N == 4 {
            let entries: [u32; 4] = [m[0], m[1], m[2], m[3]];
            assert(entries@ =~= matrix_vec@);
            Ok(self.set_uniform(name, UniformValue::Matrix(Matrix::M2(entries))))
        } else if N == 9 {
            let entries: [u32; 9] = [m[0], m[1], m[2], m[3], m[4], m[5], m[6], m[7], m[8]];
            assert(entries@ =~= matrix_vec@);
            Ok(self.set_uniform(name, UniformValue::Matrix(Matrix::M3(entries))))
        } else if N == 16 {
            let entries: [u32; 16] = [
                m[0],
                m[1],
                m[2],
                m[3],
                m[4],
                m[5],
                m[6],
                m[7],
                m[8],
                m[9],
                m[10],
                m[11],
                m[12],
                m[13],
                m[14],
                m[15],
            ];
            assert(entries@ =~= matrix_vec@);
            Ok(self.set_uniform(name, UniformValue::Matrix(Matrix::M4(entries))))
        } else {
            Err(String::from_str("invalid matrix size passed"))
        }
    }

    /// Judges the location that the driver reported for a uniform name of a
    /// program.
    pub fn get_uniform_location(name: &str, reported: i32) -> (location: Result<i32, String>)
        ensures
            match uniform_location(name@, reported) {
                Ok(at) => location == Ok::<i32, String>(at),
                Err(message) => location matches Err(text) && text@ == message,
            },
    {
        if has_nul(name) {
            Err(String::from_str("uniform name has zero bytes"))
        } else if reported == -1 {
            let mut message = String::from_str("uniform with name '");
            message.append(name);
            message.append("' does not exist");
            Err(message)
        } else {
            Ok(reported)
        }
    }
}

} // verus!
