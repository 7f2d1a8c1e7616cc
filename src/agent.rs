use vstd::prelude::*;
use crate::geometry::{native_coordinate, to_native, Scale};
use crate::text::{spells, trim, trimmed};

verus! {

/// The standard base64 alphabet.
pub open spec fn base64_alphabet() -> Seq<char> {
    seq!['A', 'B', 'C', 'D', 'E', 'F', 'G', 'H', 'I', 'J', 'K', 'L', 'M', 'N', 'O', 'P', 'Q', 'R', 'S', 'T', 'U', 'V', 'W', 'X', 'Y', 'Z', 'a', 'b', 'c', 'd', 'e', 'f', 'g', 'h', 'i', 'j', 'k', 'l', 'm', 'n', 'o', 'p', 'q', 'r', 's', 't', 'u', 'v', 'w', 'x', 'y', 'z', '0', '1', '2', '3', '4', '5', '6', '7', '8', '9', '+', '/']
}

/// The character of the six-bit value `v`.
pub open spec fn sextet(v: int) -> char {
    base64_alphabet()[v]
}

/// Standard base64 with `=` padding (RFC 4648): each three bytes become four
/// characters of six bits each, most significant bits first; a last group of
/// one or two bytes is padded to four characters with `=`.
pub open spec fn base64_of(b: Seq<u8>) -> Seq<char>
    decreases b.len(),
{
    if b.len() == 0 {
        seq![]
    } else if b.len() == 1 {
        seq![sextet(b[0] as int / 4), sextet((b[0] as int % 4) * 16), '=', '=']
    } else if b.len() == 2 {
        seq![
            sextet(b[0] as int / 4),
            sextet((b[0] as int % 4) * 16 + b[1] as int / 16),
            sextet((b[1] as int % 16) * 4),
            '=',
        ]
    } else {
        seq![
            sextet(b[0] as int / 4),
            sextet((b[0] as int % 4) * 16 + b[1] as int / 16),
            sextet((b[1] as int % 16) * 4 + b[2] as int / 64),
            sextet(b[2] as int % 64),
        ] + base64_of(b.subrange(3, b.len() as int))
    }
}

/// Relies on `base64::Engine::encode` with the `STANDARD` engine, which
/// encodes with the standard alphabet and `=` padding.
#[verifier::external_body]
fn encode_base64(bytes: &[u8]) -> (r: String)
    ensures
        r@ == base64_of(bytes@),
{
    base64::Engine::encode(&base64::engine::general_purpose::STANDARD, bytes)
}

/// How long to let the interface settle after a tool call, in milliseconds.
pub const TOOL_SETTLE_MS: u64 = 1000;

/// Who wrote a message.
#[derive(Debug, Clone, Copy, PartialEq, Eq, Structural)]
pub enum Role {
    User,
    Assistant,
}

/// An image as the model service carries it.
#[derive(Debug, PartialEq, Eq)]
pub enum ImageSource {
    Base64 { media_type: String, data: String },
}

/// One action that the model asks of the computer tool. Coordinates are in
/// the pixels of the screenshot that the model saw.
#[derive(Debug, PartialEq, Eq)]
pub enum ToolInput {
    Screenshot,
    MouseMove { coordinate: [u32; 2] },
    LeftClick { coordinate: [u32; 2] },
    RightClick { coordinate: [u32; 2] },
    MiddleClick { coordinate: [u32; 2] },
    DoubleClick { coordinate: [u32; 2] },
    TripleClick { coordinate: [u32; 2] },
    LeftClickDrag { coordinate: [u32; 2] },
    LeftMouseDown,
    LeftMouseUp,
    Scroll { direction: String, amount: u32 },
    Type { text: String },
    Key { text: String },
    HoldKey { text: String, duration_ms: u64 },
    Wait { duration_ms: u64 },
}

/// One block of a message.
#[derive(Debug, PartialEq, Eq)]
pub enum ContentBlock {
    Text { text: String },
    Image { source: ImageSource },
    ToolUse { id: String, name: String, input: ToolInput },
    ToolResult { content: Vec<ContentBlock>, tool_use_id: String, is_error: bool },
    /// A block of a type that this protocol does not know.
    Unsupported { kind: String },
}

#[derive(Debug, PartialEq, Eq)]
pub struct Message {
    pub role: Role,
    pub content: Vec<ContentBlock>,
}

/// One call on the environment, in its own pixels.
#[derive(Debug, PartialEq, Eq)]
pub enum EnvCall {
    MouseMove { x: u32, y: u32 },
    LeftClick,
    RightClick,
    MiddleClick,
    DoubleClick,
    TripleClick,
    LeftClickDrag { x: u32, y: u32 },
    LeftMouseDown,
    LeftMouseUp,
    Scroll { direction: String, amount: u32 },
    TypeText { text: String },
    PressKey { keys: String },
    HoldKey { keys: String, duration_ms: u64 },
    Wait { duration_ms: u64 },
}

/// Why a run stopped.
#[derive(Debug, Clone, PartialEq, Eq)]
pub enum AgentError {
    /// The model service answered with a failure, or could not be reached.
    ModelRequestFailed(String),
    /// The model service's answer did not have the expected shape.
    ModelResponseMalformed(String),
    /// The answer held a block that this protocol does not allow there.
    UnsupportedContentBlock(String),
    /// The environment's size could not be had, or was empty.
    WindowGeometryUnavailable,
}

/// A screenshot, shrunk for the model and encoded as PNG.
#[derive(Debug, PartialEq, Eq)]
pub struct Screenshot {
    /// The width and height of the shrunk image.
    pub width: u32,
    pub height: u32,
    /// The environment's own width.
    pub native_width: u32,
    pub png: Vec<u8>,
}

/// `image/png`
pub open spec fn png_type() -> Seq<char> {
    seq!['i', 'm', 'a', 'g', 'e', '/', 'p', 'n', 'g']
}

/// `source` is the PNG image `png`, base64-encoded.
pub open spec fn is_png_source(source: ImageSource, png: Seq<u8>) -> bool {
    match source {
        ImageSource::Base64 { media_type, data } => media_type@ == png_type() && data@
            == base64_of(png),
    }
}

/// The image source of a PNG image.
pub fn png_source(png: &Vec<u8>) -> (r: ImageSource)
    ensures
        is_png_source(r, png@),
{
    let data = encode_base64(png.as_slice());
    let media_type = String::from_str("image/png");
    proof {
        reveal_strlit("image/png");
        assert(media_type@ =~= png_type());
    }
    ImageSource::Base64 { media_type, data }
}

/// The environment calls for a tool input, coordinates taken to native pixels.
pub open spec fn calls_for(input: ToolInput, s: Scale) -> Seq<EnvCall> {
    match input {
        ToolInput::Screenshot => seq![],
        ToolInput::MouseMove { coordinate } => seq![EnvCall::MouseMove { x: nat_px(coordinate[0], s), y: nat_px(coordinate[1], s) }],
        ToolInput::LeftClick { coordinate } => seq![EnvCall::MouseMove { x: nat_px(coordinate[0], s), y: nat_px(coordinate[1], s) }, EnvCall::LeftClick],
        ToolInput::RightClick { coordinate } => seq![EnvCall::MouseMove { x: nat_px(coordinate[0], s), y: nat_px(coordinate[1], s) }, EnvCall::RightClick],
        ToolInput::MiddleClick { coordinate } => seq![EnvCall::MouseMove { x: nat_px(coordinate[0], s), y: nat_px(coordinate[1], s) }, EnvCall::MiddleClick],
        ToolInput::DoubleClick { coordinate } => seq![EnvCall::MouseMove { x: nat_px(coordinate[0], s), y: nat_px(coordinate[1], s) }, EnvCall::DoubleClick],
        ToolInput::TripleClick { coordinate } => seq![EnvCall::MouseMove { x: nat_px(coordinate[0], s), y: nat_px(coordinate[1], s) }, EnvCall::TripleClick],
        ToolInput::LeftClickDrag { coordinate } => seq![EnvCall::LeftClickDrag { x: nat_px(coordinate[0], s), y: nat_px(coordinate[1], s) }],
        ToolInput::LeftMouseDown => seq![EnvCall::LeftMouseDown],
        ToolInput::LeftMouseUp => seq![EnvCall::LeftMouseUp],
        ToolInput::Scroll { direction, amount } => seq![EnvCall::Scroll { direction, amount }],
        ToolInput::Type { text } => seq![EnvCall::TypeText { text }],
        ToolInput::Key { text } => seq![EnvCall::PressKey { keys: text }],
        ToolInput::HoldKey { text, duration_ms } => seq![EnvCall::HoldKey { keys: text, duration_ms }],
        ToolInput::Wait { duration_ms } => seq![EnvCall::Wait { duration_ms }],
    }
}

/// A model coordinate in native pixels, saturating at `u32::MAX`.
pub open spec fn nat_px(c: u32, s: Scale) -> u32 {
    if to_native(c, s) > u32::MAX {
        u32::MAX
    } else {
        to_native(c, s) as u32
    }
}

fn point(coordinate: &[u32; 2], s: &Scale) -> (r: (u32, u32))
    requires
        s.wf(),
    ensures
        r.0 == nat_px(coordinate@[0], *s),
        r.1 == nat_px(coordinate@[1], *s),
{
    (native_coordinate(coordinate[0], s), native_coordinate(coordinate[1], s))
}

/// The environment calls that carry out a tool input: coordinates are
/// divided by the scale and rounded to the nearest pixel; a click moves
/// the pointer first.
pub fn tool_calls(input: &ToolInput, s: &Scale) -> (r: Vec<EnvCall>)
    requires
        s.wf(),
    ensures
        r@ == calls_for(*input, *s),
{
    let r = match input {
        ToolInput::Screenshot => vec![],
        ToolInput::MouseMove { coordinate } => {
            let (x, y) = point(coordinate, s);
            vec![EnvCall::MouseMove { x, y }]
        },
        ToolInput::LeftClick { coordinate } => {
            let (x, y) = point(coordinate, s);
            vec![EnvCall::MouseMove { x, y }, EnvCall::LeftClick]
        },
        ToolInput::RightClick { coordinate } => {
            let (x, y) = point(coordinate, s);
            vec![EnvCall::MouseMove { x, y }, EnvCall::RightClick]
        },
        ToolInput::MiddleClick { coordinate } => {
            let (x, y) = point(coordinate, s);
            vec![EnvCall::MouseMove { x, y }, EnvCall::MiddleClick]
        },
        ToolInput::DoubleClick { coordinate } => {
            let (x, y) = point(coordinate, s);
            vec![EnvCall::MouseMove { x, y }, EnvCall::DoubleClick]
        },
        ToolInput::TripleClick { coordinate } => {
            let (x, y) = point(coordinate, s);
            vec![EnvCall::MouseMove { x, y }, EnvCall::TripleClick]
        },
        ToolInput::LeftClickDrag { coordinate } => {
            let (x, y) = point(coordinate, s);
            vec![EnvCall::LeftClickDrag { x, y }]
        },
        ToolInput::LeftMouseDown => vec![EnvCall::LeftMouseDown],
        ToolInput::LeftMouseUp => vec![EnvCall::LeftMouseUp],
        ToolInput::Scroll { direction, amount } => vec![
            EnvCall::Scroll { direction: direction.clone(), amount: *amount },
        ],
        ToolInput::Type { text } => vec![EnvCall::TypeText { text: text.clone() }],
        ToolInput::Key { text } => vec![EnvCall::PressKey { keys: text.clone() }],
        ToolInput::HoldKey { text, duration_ms } => vec![
            EnvCall::HoldKey { keys: text.clone(), duration_ms: *duration_ms },
        ],
        ToolInput::Wait { duration_ms } => vec![EnvCall::Wait { duration_ms: *duration_ms }],
    };
    proof {
        assert(r@ =~= calls_for(*input, *s));
    }
    r
}

/// Where the conversation loop stands.
#[derive(Debug, Clone, Copy, PartialEq, Eq, Structural)]
pub enum Phase {
    AwaitingModelResponse,
    DispatchingToolCalls,
    AwaitingUserInput,
    Terminated,
}

/// What the loop asks of its driver next.
#[derive(Debug, PartialEq, Eq)]
pub enum Command {
    /// Send the conversation, declaring a screen of this size, and hand the
    /// answer's blocks to `on_model_reply`.
    CallModel { width: u32, height: u32 },
    /// Show the model's text to the user, then `resume`.
    Show(String),
    /// Carry out the calls in order, wait `settle_ms`, take a screenshot, hand
    /// it to `record_tool_result`, then `resume`.
    Execute { calls: Vec<EnvCall>, settle_ms: u64 },
    /// Read a line from the user and hand it to `on_user_line`.
    ReadLine,
    /// The run is over.
    Finish,
    /// The run failed.
    Fail(AgentError),
}

/// The name of the one tool that the loop declares.
pub open spec fn computer_tool() -> Seq<char> {
    seq!['c', 'o', 'm', 'p', 'u', 't', 'e', 'r']
}

/// A block of the model's answer that the loop passes over: an image, or a
/// call of another tool.
pub open spec fn passed_over(b: ContentBlock) -> bool {
    match b {
        ContentBlock::Image { .. } => true,
        ContentBlock::ToolUse { name, .. } => name@ != computer_tool(),
        _ => false,
    }
}

/// The first block at or after `from` that is not passed over, or the end.
pub open spec fn next_block(resp: Seq<ContentBlock>, from: int) -> int
    decreases resp.len() - from,
{
    if from < 0 || from >= resp.len() {
        resp.len() as int
    } else if passed_over(resp[from]) {
        next_block(resp, from + 1)
    } else {
        from
    }
}

/// `exit`, in any ASCII case.
pub open spec fn is_exit(s: Seq<char>) -> bool {
    spells(s, seq!['e', 'x', 'i', 't'])
}

pub open spec fn bumped(n: u32) -> u32 {
    if n < u32::MAX {
        (n + 1) as u32
    } else {
        n
    }
}

/// `b` is the successful result of tool call `id`: the PNG screenshot `png`.
pub open spec fn is_screenshot_result(b: ContentBlock, id: String, png: Seq<u8>) -> bool {
    match b {
        ContentBlock::ToolResult { content, tool_use_id, is_error } => {
            &&& tool_use_id == id
            &&& !is_error
            &&& content@.len() == 1
            &&& match content@[0] {
                ContentBlock::Image { source } => is_png_source(source, png),
                _ => false,
            }
        },
        _ => false,
    }
}

/// The multi-turn loop between the model, the environment and the user.
pub struct Agent {
    /// The conversation so far, oldest first.
    pub messages: Vec<Message>,
    pub phase: Phase,
    /// Screenshot width over environment width, from the latest screenshot.
    pub scale: Scale,
    /// The size of the latest screenshot, as the model sees it.
    pub display_width: u32,
    pub display_height: u32,
    /// The model's answer being dispatched, and the next block to look at.
    pub response: Vec<ContentBlock>,
    pub cursor: usize,
    /// The id of the tool call being carried out.
    pub in_flight: Option<String>,
    /// Tool results for the next user message.
    pub results: Vec<ContentBlock>,
    /// How many tool calls were carried out.
    pub action_count: u32,
}

/// What `resume` does from state `a`, leaving `b` and asking `cmd`.
pub open spec fn resumed(a: Agent, b: Agent, cmd: Command) -> bool {
    let i = next_block(a.response@, a.cursor as int);
    if i >= a.response@.len() {
        let done = a.messages@.push(Message { role: Role::Assistant, content: a.response });
        &&& b.scale == a.scale
        &&& b.display_width == a.display_width
        &&& b.display_height == a.display_height
        &&& b.action_count == a.action_count
        &&& b.in_flight is None
        &&& b.results@.len() == 0
        &&& if a.results@.len() > 0 {
            &&& b.messages@ == done.push(Message { role: Role::User, content: a.results })
            &&& b.phase == Phase::AwaitingModelResponse
            &&& cmd == (Command::CallModel { width: a.display_width, height: a.display_height })
        } else {
            &&& b.messages@ == done
            &&& b.phase == Phase::AwaitingUserInput
            &&& cmd is ReadLine
        }
    } else {
        match a.response@[i] {
            ContentBlock::Text { text } => {
                &&& b == Agent { cursor: (i + 1) as usize, ..a }
                &&& cmd == Command::Show(text)
            },
            ContentBlock::ToolUse { id, input, .. } => {
                &&& b == Agent {
                    cursor: (i + 1) as usize,
                    in_flight: Some(id),
                    action_count: bumped(a.action_count),
                    ..a
                }
                &&& cmd matches Command::Execute { calls, settle_ms } && calls@ == calls_for(
                    input,
                    a.scale,
                ) && settle_ms == TOOL_SETTLE_MS
            },
            _ => {
                &&& b.phase == Phase::Terminated
                &&& b.messages == a.messages
                &&& cmd matches Command::Fail(AgentError::UnsupportedContentBlock(k)) && k@
                    == kind_name(a.response@[i])
            },
        }
    }
}

/// A block that has no place in the model's answer.
pub open spec fn unsupported(b: ContentBlock) -> bool {
    b is ToolResult || b is Unsupported
}

proof fn lemma_next_block_before(resp: Seq<ContentBlock>, from: int, j: int)
    requires
        0 <= from <= j < resp.len(),
        !passed_over(resp[j]),
    ensures
        from <= next_block(resp, from) <= j,
    decreases j - from,
{
    if from < j && passed_over(resp[from]) {
        lemma_next_block_before(resp, from + 1, j);
    }
}

/// A block that has no place in an answer stops the run before anything
/// after it is carried out: while such a block lies ahead, each step either
/// handles a block before it, moving on, or fails with
/// `UnsupportedContentBlock`; it never ends the turn, calls the model
/// again, or asks the user.
pub proof fn lemma_unsupported_block_stops_run(a: Agent, b: Agent, cmd: Command, j: int)
    requires
        resumed(a, b, cmd),
        a.response@.len() <= usize::MAX,
        a.cursor <= j < a.response@.len(),
        unsupported(a.response@[j]),
    ensures
        !(cmd is CallModel) && !(cmd is ReadLine) && !(cmd is Finish),
        (cmd is Show || cmd is Execute) ==> a.cursor < b.cursor <= j && b.response == a.response
            && b.phase == a.phase,
        cmd is Fail ==> b.phase == Phase::Terminated && b.messages == a.messages && cmd matches Command::Fail(
            AgentError::UnsupportedContentBlock(_),
        ),
{
    lemma_next_block_before(a.response@, a.cursor as int, j);
}

fn is_computer(name: &String) -> (r: bool)
    ensures
        r == (name@ == computer_tool()),
{
    crate::text::is_word(name.as_str(), &['c', 'o', 'm', 'p', 'u', 't', 'e', 'r'])
}

/// The type tag of a block, as the model service writes it.
pub open spec fn kind_name(b: ContentBlock) -> Seq<char> {
    match b {
        ContentBlock::Text { .. } => seq!['t', 'e', 'x', 't'],
        ContentBlock::Image { .. } => seq!['i', 'm', 'a', 'g', 'e'],
        ContentBlock::ToolUse { .. } => seq!['t', 'o', 'o', 'l', '_', 'u', 's', 'e'],
        ContentBlock::ToolResult { .. } => seq!['t', 'o', 'o', 'l', '_', 'r', 'e', 's', 'u', 'l', 't'],
        ContentBlock::Unsupported { kind } => kind@,
    }
}

fn block_kind(b: &ContentBlock) -> (r: String)
    ensures
        r@ == kind_name(*b),
{
    proof {
        reveal_strlit("text");
        reveal_strlit("image");
        reveal_strlit("tool_use");
        reveal_strlit("tool_result");
    }
    let r = match b {
        ContentBlock::Text { .. } => String::from_str("text"),
        ContentBlock::Image { .. } => String::from_str("image"),
        ContentBlock::ToolUse { .. } => String::from_str("tool_use"),
        ContentBlock::ToolResult { .. } => String::from_str("tool_result"),
        ContentBlock::Unsupported { kind } => kind.clone(),
    };
    proof {
        assert(r@ =~= kind_name(*b));
    }
    r
}

fn clone_input(input: &ToolInput) -> (r: ToolInput)
    ensures
        r == *input,
{
    match input {
        ToolInput::Screenshot => ToolInput::Screenshot,
        ToolInput::MouseMove { coordinate } => ToolInput::MouseMove { coordinate: *coordinate },
        ToolInput::LeftClick { coordinate } => ToolInput::LeftClick { coordinate: *coordinate },
        ToolInput::RightClick { coordinate } => ToolInput::RightClick { coordinate: *coordinate },
        ToolInput::MiddleClick { coordinate } => ToolInput::MiddleClick { coordinate: *coordinate },
        ToolInput::DoubleClick { coordinate } => ToolInput::DoubleClick { coordinate: *coordinate },
        ToolInput::TripleClick { coordinate } => ToolInput::TripleClick { coordinate: *coordinate },
        ToolInput::LeftClickDrag { coordinate } => ToolInput::LeftClickDrag {
            coordinate: *coordinate,
        },
        ToolInput::LeftMouseDown => ToolInput::LeftMouseDown,
        ToolInput::LeftMouseUp => ToolInput::LeftMouseUp,
        ToolInput::Scroll { direction, amount } => ToolInput::Scroll {
            direction: direction.clone(),
            amount: *amount,
        },
        ToolInput::Type { text } => ToolInput::Type { text: text.clone() },
        ToolInput::Key { text } => ToolInput::Key { text: text.clone() },
        ToolInput::HoldKey { text, duration_ms } => ToolInput::HoldKey {
            text: text.clone(),
            duration_ms: *duration_ms,
        },
        ToolInput::Wait { duration_ms } => ToolInput::Wait { duration_ms: *duration_ms },
    }
}

/// The roles of a conversation alternate, the user first.
pub open spec fn alternates(ms: Seq<Message>) -> bool {
    forall|i: int|
        0 <= i < ms.len() ==> (#[trigger] ms[i]).role == if i % 2 == 0 {
            Role::User
        } else {
            Role::Assistant
        }
}

proof fn lemma_alternates_push(ms: Seq<Message>, m: Message)
    requires
        alternates(ms),
        m.role == if ms.len() % 2 == 0 {
            Role::User
        } else {
            Role::Assistant
        },
    ensures
        alternates(ms.push(m)),
{
    assert forall|i: int| 0 <= i < ms.push(m).len() implies (#[trigger] ms.push(m)[i]).role
        == if i % 2 == 0 {
        Role::User
    } else {
        Role::Assistant
    } by {
        if i < ms.len() {
            assert(ms.push(m)[i] == ms[i]);
        }
    }
}

impl Agent {
    /// The scale is in (0, 1]; the conversation alternates, the user first,
    /// and its last message is the user's while the model is due to answer,
    /// the model's while the user is.
    pub open spec fn wf(&self) -> bool {
        &&& self.scale.wf()
        &&& self.cursor <= self.response@.len()
        &&& alternates(self.messages@)
        &&& (self.phase == Phase::AwaitingModelResponse || self.phase
            == Phase::DispatchingToolCalls) ==> self.messages@.len() % 2 == 1
        &&& self.phase == Phase::AwaitingUserInput ==> self.messages@.len() % 2 == 0
    }

    /// Seeds the conversation with the prompt and the first screenshot.
    pub fn start(prompt: String, shot: &Screenshot) -> (r: Result<Agent, AgentError>)
        ensures
            r is Ok <==> shot.width > 0 && shot.native_width > 0,
            r matches Err(e) ==> e == AgentError::WindowGeometryUnavailable,
            r matches Ok(a) ==> {
                &&& a.wf()
                &&& a.phase == Phase::AwaitingModelResponse
                &&& a.messages@.len() == 1
                &&& a.messages@[0].role == Role::User
                &&& a.messages@[0].content@.len() == 2
                &&& a.messages@[0].content@[0] == (ContentBlock::Text { text: prompt })
                &&& a.messages@[0].content@[1] matches ContentBlock::Image { source }
                    && is_png_source(source, shot.png@)
                &&& a.scale.native == shot.native_width
                &&& a.scale.scaled == if shot.width <= shot.native_width {
                    shot.width
                } else {
                    shot.native_width
                }
                &&& a.display_width == shot.width
                &&& a.display_height == shot.height
                &&& a.response@.len() == 0
                &&& a.results@.len() == 0
                &&& a.in_flight is None
                &&& a.action_count == 0
            },
    {
        let scale = match Scale::from_widths(shot.width, shot.native_width) {
            Some(s) => s,
            None => {
                return Err(AgentError::WindowGeometryUnavailable);
            },
        };
        let image = ContentBlock::Image { source: png_source(&shot.png) };
        let content = vec![ContentBlock::Text { text: prompt }, image];
        let messages = vec![Message { role: Role::User, content }];
        Ok(Agent {
            messages,
            phase: Phase::AwaitingModelResponse,
            scale,
            display_width: shot.width,
            display_height: shot.height,
            response: Vec::new(),
            cursor: 0,
            in_flight: None,
            results: Vec::new(),
            action_count: 0,
        })
    }

    /// Takes the blocks of the model's answer and dispatches them in order.
    pub fn on_model_reply(&mut self, content: Vec<ContentBlock>) -> (cmd: Command)
        requires
            old(self).wf(),
            old(self).phase == Phase::AwaitingModelResponse,
            old(self).in_flight is None,
        ensures
            final(self).wf(),
            resumed(
                Agent {
                    response: content,
                    cursor: 0,
                    phase: Phase::DispatchingToolCalls,
                    ..*old(self)
                },
                *final(self),
                cmd,
            ),
    {
        self.response = content;
        self.cursor = 0;
        self.phase = Phase::DispatchingToolCalls;
        self.resume()
    }

    /// Goes on with the answer: shows text, hands out the next tool call, or
    /// ends the turn. A block of a kind that has no place in an answer ends
    /// the run.
    pub fn resume(&mut self) -> (cmd: Command)
        requires
            old(self).wf(),
            old(self).phase == Phase::DispatchingToolCalls,
            old(self).in_flight is None,
        ensures
            final(self).wf(),
            resumed(*old(self), *final(self), cmd),
    {
        let n = self.response.len();
        let mut i = self.cursor;
        while i < n
            invariant
                self == old(self),
                n == self.response@.len(),
                self.cursor <= i <= n,
                next_block(self.response@, self.cursor as int) == next_block(
                    self.response@,
                    i as int,
                ),
            ensures
                self == old(self),
                next_block(self.response@, self.cursor as int) == i,
            decreases n - i,
        {
            let skip = match &self.response[i] {
                ContentBlock::Image { .. } => true,
                ContentBlock::ToolUse { name, .. } => !is_computer(name),
                _ => false,
            };
            if !skip {
                break;
            }
            i = i + 1;
        }
        if i >= n {
            let mut answer: Vec<ContentBlock> = Vec::new();
            std::mem::swap(&mut answer, &mut self.response);
            self.cursor = 0;
            let assistant = Message { role: Role::Assistant, content: answer };
            proof {
                lemma_alternates_push(self.messages@, assistant);
            }
            self.messages.push(assistant);
            if self.results.len() > 0 {
                let mut results: Vec<ContentBlock> = Vec::new();
                std::mem::swap(&mut results, &mut self.results);
                let user = Message { role: Role::User, content: results };
                proof {
                    lemma_alternates_push(self.messages@, user);
                }
                self.messages.push(user);
                self.phase = Phase::AwaitingModelResponse;
                return Command::CallModel { width: self.display_width, height: self.display_height };
            } else {
                self.phase = Phase::AwaitingUserInput;
                return Command::ReadLine;
            }
        }
        let cmd = match &self.response[i] {
            ContentBlock::Text { text } => Command::Show(text.clone()),
            ContentBlock::ToolUse { id, input, .. } => {
                let calls = tool_calls(input, &self.scale);
                let id = id.clone();
                self.in_flight = Some(id);
                if self.action_count < u32::MAX {
                    self.action_count = self.action_count + 1;
                }
                Command::Execute { calls, settle_ms: TOOL_SETTLE_MS }
            },
            other => {
                let kind = block_kind(other);
                self.phase = Phase::Terminated;
                return Command::Fail(AgentError::UnsupportedContentBlock(kind));
            },
        };
        self.cursor = i + 1;
        cmd
    }

    /// Records the screenshot taken after the tool call in flight as its
    /// result, and takes the scale from it.
    pub fn record_tool_result(&mut self, shot: &Screenshot) -> (r: Result<(), AgentError>)
        requires
            old(self).wf(),
            old(self).phase == Phase::DispatchingToolCalls,
            old(self).in_flight is Some,
        ensures
            final(self).wf(),
            r is Ok <==> shot.width > 0 && shot.native_width > 0,
            final(self).messages == old(self).messages,
            final(self).response == old(self).response,
            final(self).cursor == old(self).cursor,
            final(self).action_count == old(self).action_count,
            r matches Err(e) ==> e == AgentError::WindowGeometryUnavailable && final(self).phase
                == Phase::Terminated,
            r is Ok ==> {
                &&& final(self).phase == Phase::DispatchingToolCalls
                &&& final(self).in_flight is None
                &&& final(self).display_width == shot.width
                &&& final(self).display_height == shot.height
                &&& final(self).scale.native == shot.native_width
                &&& final(self).scale.scaled == if shot.width <= shot.native_width {
                    shot.width
                } else {
                    shot.native_width
                }
                &&& final(self).results@.len() == old(self).results@.len() + 1
                &&& final(self).results@.drop_last() == old(self).results@
                &&& is_screenshot_result(
                    final(self).results@.last(),
                    old(self).in_flight->Some_0,
                    shot.png@,
                )
            },
    {
        let scale = match Scale::from_widths(shot.width, shot.native_width) {
            Some(s) => s,
            None => {
                self.phase = Phase::Terminated;
                return Err(AgentError::WindowGeometryUnavailable);
            },
        };
        let mut id: Option<String> = None;
        std::mem::swap(&mut id, &mut self.in_flight);
        let tool_use_id = match id {
            Some(t) => t,
            None => String::new(),
        };
        let image = ContentBlock::Image { source: png_source(&shot.png) };
        let block = ContentBlock::ToolResult {
            content: vec![image],
            tool_use_id,
            is_error: false,
        };
        self.results.push(block);
        self.scale = scale;
        self.display_width = shot.width;
        self.display_height = shot.height;
        proof {
            assert(self.results@.drop_last() =~= old(self).results@);
        }
        Ok(())
    }

    /// Takes the user's line, already trimmed; `None` is the end of input.
    /// The end of input, an empty line or `exit` ends the run; any other
    /// line becomes the next user message.
    pub fn on_user_input(&mut self, input: Option<String>) -> (cmd: Command)
        requires
            old(self).wf(),
            old(self).phase == Phase::AwaitingUserInput,
        ensures
            final(self).wf(),
            match input {
                Some(line) if line@.len() > 0 && !is_exit(line@) => {
                    &&& final(self).messages@ == old(self).messages@.push(final(self).messages@.last())
                    &&& final(self).messages@.last().role == Role::User
                    &&& final(self).messages@.last().content@ == seq![ContentBlock::Text { text: line }]
                    &&& final(self).phase == Phase::AwaitingModelResponse
                    &&& cmd == (Command::CallModel {
                        width: old(self).display_width,
                        height: old(self).display_height,
                    })
                },
                _ => {
                    &&& final(self).messages == old(self).messages
                    &&& final(self).phase == Phase::Terminated
                    &&& cmd is Finish
                },
            },
            final(self).scale == old(self).scale,
            final(self).response == old(self).response,
            final(self).cursor == old(self).cursor,
            final(self).in_flight == old(self).in_flight,
            final(self).results == old(self).results,
            final(self).display_width == old(self).display_width,
            final(self).display_height == old(self).display_height,
            final(self).action_count == old(self).action_count,
    {
        let line = match input {
            Some(l) => l,
            None => {
                self.phase = Phase::Terminated;
                return Command::Finish;
            },
        };
        let chars_exit = ['e', 'x', 'i', 't'];
        let n = line.as_str().unicode_len();
        let mut word: Vec<char> = Vec::new();
        let mut i: usize = 0;
        while i < n
            invariant
                n == line@.len(),
                i <= n,
                word@ == line@.subrange(0, i as int),
            decreases n - i,
        {
            word.push(line.as_str().get_char(i));
            proof {
                assert(word@ =~= line@.subrange(0, i + 1));
            }
            i = i + 1;
        }
        proof {
            assert(line@.subrange(0, n as int) =~= line@);
        }
        if n == 0 || crate::text::spells_word(word.as_slice(), &chars_exit) {
            self.phase = Phase::Terminated;
            return Command::Finish;
        }
        let content = vec![ContentBlock::Text { text: line }];
        let user = Message { role: Role::User, content };
        proof {
            lemma_alternates_push(self.messages@, user);
        }
        self.messages.push(user);
        self.phase = Phase::AwaitingModelResponse;
        Command::CallModel { width: self.display_width, height: self.display_height }
    }

    /// Takes a line as read from the user, or `None` at the end of input,
    /// and trims it before `on_user_input` decides.
    pub fn on_user_line(&mut self, line: Option<String>) -> (cmd: Command)
        requires
            old(self).wf(),
            old(self).phase == Phase::AwaitingUserInput,
        ensures
            final(self).wf(),
            final(self).scale == old(self).scale,
            final(self).response == old(self).response,
            final(self).cursor == old(self).cursor,
            final(self).in_flight == old(self).in_flight,
            final(self).results == old(self).results,
            final(self).display_width == old(self).display_width,
            final(self).display_height == old(self).display_height,
            final(self).action_count == old(self).action_count,
            match line {
                Some(l) if trimmed(l@).len() > 0 && !is_exit(trimmed(l@)) => {
                    &&& final(self).messages@ == old(self).messages@.push(final(self).messages@.last())
                    &&& final(self).messages@.last().role == Role::User
                    &&& final(self).messages@.last().content@.len() == 1
                    &&& final(self).messages@.last().content@[0] matches ContentBlock::Text { text }
                        && text@ == trimmed(l@)
                    &&& final(self).phase == Phase::AwaitingModelResponse
                    &&& cmd == (Command::CallModel {
                        width: old(self).display_width,
                        height: old(self).display_height,
                    })
                },
                _ => {
                    &&& final(self).messages == old(self).messages
                    &&& final(self).phase == Phase::Terminated
                    &&& cmd is Finish
                },
            },
    {
        let input = match line {
            Some(l) => Some(trim(l.as_str())),
            None => None,
        };
        self.on_user_input(input)
    }
}

} // verus!
