use ui_act::agent::{
    png_source, tool_calls, Agent, AgentError, Command, ContentBlock, EnvCall, ImageSource,
    Message, Phase, Role, Screenshot, ToolInput, TOOL_SETTLE_MS,
};
use ui_act::geometry::Scale;

fn shot(width: u32, height: u32, native_width: u32) -> Screenshot {
    Screenshot { width, height, native_width, png: vec![1, 2, 3] }
}

fn png_image() -> ContentBlock {
    ContentBlock::Image {
        source: ImageSource::Base64 { media_type: "image/png".to_string(), data: "AQID".to_string() },
    }
}

fn text(t: &str) -> ContentBlock {
    ContentBlock::Text { text: t.to_string() }
}

fn tool_use(id: &str, name: &str, input: ToolInput) -> ContentBlock {
    ContentBlock::ToolUse { id: id.to_string(), name: name.to_string(), input }
}

#[test]
fn image_source_is_base64_png() {
    assert_eq!(
        png_source(&vec![1, 2, 3]),
        ImageSource::Base64 { media_type: "image/png".to_string(), data: "AQID".to_string() }
    );
    assert_eq!(
        png_source(&b"hello".to_vec()),
        ImageSource::Base64 { media_type: "image/png".to_string(), data: "aGVsbG8=".to_string() }
    );
}

#[test]
fn start_seeds_prompt_and_screenshot() {
    let agent = Agent::start("click ok".to_string(), &shot(960, 540, 1920)).unwrap();
    assert_eq!(agent.phase, Phase::AwaitingModelResponse);
    assert_eq!(agent.scale, Scale { scaled: 960, native: 1920 });
    assert_eq!(
        agent.messages,
        vec![Message { role: Role::User, content: vec![text("click ok"), png_image()] }]
    );
    assert_eq!((agent.display_width, agent.display_height), (960, 540));
}

#[test]
fn start_needs_a_screen() {
    assert_eq!(
        Agent::start("x".to_string(), &shot(0, 0, 1920)).err(),
        Some(AgentError::WindowGeometryUnavailable)
    );
    assert_eq!(
        Agent::start("x".to_string(), &shot(10, 10, 0)).err(),
        Some(AgentError::WindowGeometryUnavailable)
    );
}

#[test]
fn click_at_half_scale_moves_then_clicks() {
    let mut agent = Agent::start("click ok".to_string(), &shot(960, 540, 1920)).unwrap();
    let cmd = agent.on_model_reply(vec![tool_use(
        "toolu_1",
        "computer",
        ToolInput::LeftClick { coordinate: [100, 50] },
    )]);
    assert_eq!(
        cmd,
        Command::Execute {
            calls: vec![EnvCall::MouseMove { x: 200, y: 100 }, EnvCall::LeftClick],
            settle_ms: TOOL_SETTLE_MS,
        }
    );
    assert_eq!(agent.action_count, 1);
    assert_eq!(agent.in_flight, Some("toolu_1".to_string()));
    assert_eq!(agent.record_tool_result(&shot(960, 540, 1920)), Ok(()));
    let next = agent.resume();
    assert_eq!(next, Command::CallModel { width: 960, height: 540 });
    assert_eq!(agent.phase, Phase::AwaitingModelResponse);
    assert_eq!(agent.messages.len(), 3);
    assert_eq!(agent.messages[1].role, Role::Assistant);
    assert_eq!(
        agent.messages[2],
        Message {
            role: Role::User,
            content: vec![ContentBlock::ToolResult {
                content: vec![png_image()],
                tool_use_id: "toolu_1".to_string(),
                is_error: false,
            }],
        }
    );
}

#[test]
fn text_is_shown_then_user_is_asked() {
    let mut agent = Agent::start("hi".to_string(), &shot(100, 100, 100)).unwrap();
    let cmd = agent.on_model_reply(vec![text("Hello"), png_image(), text("Bye")]);
    assert_eq!(cmd, Command::Show("Hello".to_string()));
    assert_eq!(agent.resume(), Command::Show("Bye".to_string()));
    assert_eq!(agent.resume(), Command::ReadLine);
    assert_eq!(agent.phase, Phase::AwaitingUserInput);
    assert_eq!(
        agent.messages[1],
        Message { role: Role::Assistant, content: vec![text("Hello"), png_image(), text("Bye")] }
    );
}

#[test]
fn empty_line_terminates_without_model_call() {
    let mut agent = Agent::start("hi".to_string(), &shot(100, 100, 100)).unwrap();
    assert_eq!(agent.on_model_reply(vec![]), Command::ReadLine);
    let before = agent.messages.len();
    assert_eq!(agent.on_user_line(Some("   ".to_string())), Command::Finish);
    assert_eq!(agent.phase, Phase::Terminated);
    assert_eq!(agent.messages.len(), before);
}

#[test]
fn exit_or_end_of_input_terminates() {
    let mut agent = Agent::start("hi".to_string(), &shot(100, 100, 100)).unwrap();
    agent.on_model_reply(vec![]);
    assert_eq!(agent.on_user_line(Some("  ExIt \n".to_string())), Command::Finish);
    let mut agent = Agent::start("hi".to_string(), &shot(100, 100, 100)).unwrap();
    agent.on_model_reply(vec![]);
    assert_eq!(agent.on_user_line(None), Command::Finish);
    assert_eq!(agent.phase, Phase::Terminated);
}

#[test]
fn user_line_becomes_next_message() {
    let mut agent = Agent::start("hi".to_string(), &shot(100, 80, 100)).unwrap();
    agent.on_model_reply(vec![text("What now?")]);
    assert_eq!(agent.resume(), Command::ReadLine);
    assert_eq!(
        agent.on_user_line(Some("  open the menu \n".to_string())),
        Command::CallModel { width: 100, height: 80 }
    );
    assert_eq!(
        agent.messages.last(),
        Some(&Message { role: Role::User, content: vec![text("open the menu")] })
    );
    assert_eq!(agent.phase, Phase::AwaitingModelResponse);
}

#[test]
fn unknown_block_fails_before_later_tool_calls() {
    let mut agent = Agent::start("hi".to_string(), &shot(100, 100, 100)).unwrap();
    let cmd = agent.on_model_reply(vec![
        ContentBlock::Unsupported { kind: "thinking".to_string() },
        tool_use("t1", "computer", ToolInput::LeftClick { coordinate: [1, 1] }),
    ]);
    assert_eq!(cmd, Command::Fail(AgentError::UnsupportedContentBlock("thinking".to_string())));
    assert_eq!(agent.phase, Phase::Terminated);
    assert_eq!(agent.action_count, 0);
}

#[test]
fn tool_result_in_answer_is_unsupported() {
    let mut agent = Agent::start("hi".to_string(), &shot(100, 100, 100)).unwrap();
    let cmd = agent.on_model_reply(vec![ContentBlock::ToolResult {
        content: vec![],
        tool_use_id: "x".to_string(),
        is_error: false,
    }]);
    assert_eq!(cmd, Command::Fail(AgentError::UnsupportedContentBlock("tool_result".to_string())));
}

#[test]
fn other_tools_are_passed_over() {
    let mut agent = Agent::start("hi".to_string(), &shot(100, 100, 100)).unwrap();
    let cmd = agent.on_model_reply(vec![tool_use("t1", "browser", ToolInput::Screenshot)]);
    assert_eq!(cmd, Command::ReadLine);
    assert_eq!(agent.action_count, 0);
}

#[test]
fn tool_result_needs_a_screen() {
    let mut agent = Agent::start("hi".to_string(), &shot(100, 100, 100)).unwrap();
    agent.on_model_reply(vec![tool_use("t1", "computer", ToolInput::Screenshot)]);
    assert_eq!(
        agent.record_tool_result(&shot(0, 0, 100)),
        Err(AgentError::WindowGeometryUnavailable)
    );
    assert_eq!(agent.phase, Phase::Terminated);
}

#[test]
fn scale_follows_latest_screenshot() {
    let mut agent = Agent::start("hi".to_string(), &shot(100, 100, 100)).unwrap();
    agent.on_model_reply(vec![
        tool_use("t1", "computer", ToolInput::Screenshot),
        tool_use("t2", "computer", ToolInput::DoubleClick { coordinate: [10, 20] }),
    ]);
    agent.record_tool_result(&shot(50, 40, 200)).unwrap();
    assert_eq!(agent.scale, Scale { scaled: 50, native: 200 });
    let cmd = agent.resume();
    assert_eq!(
        cmd,
        Command::Execute {
            calls: vec![EnvCall::MouseMove { x: 40, y: 80 }, EnvCall::DoubleClick],
            settle_ms: TOOL_SETTLE_MS,
        }
    );
    agent.record_tool_result(&shot(50, 40, 200)).unwrap();
    assert_eq!(agent.resume(), Command::CallModel { width: 50, height: 40 });
    assert_eq!(agent.messages[2].content.len(), 2);
}

#[test]
fn tool_inputs_map_to_environment_calls() {
    let s = Scale { scaled: 1, native: 1 };
    assert_eq!(tool_calls(&ToolInput::Screenshot, &s), vec![]);
    assert_eq!(
        tool_calls(&ToolInput::LeftClickDrag { coordinate: [3, 4] }, &s),
        vec![EnvCall::LeftClickDrag { x: 3, y: 4 }]
    );
    assert_eq!(
        tool_calls(&ToolInput::Type { text: "hi".to_string() }, &s),
        vec![EnvCall::TypeText { text: "hi".to_string() }]
    );
    assert_eq!(
        tool_calls(&ToolInput::Key { text: "ctrl+c".to_string() }, &s),
        vec![EnvCall::PressKey { keys: "ctrl+c".to_string() }]
    );
    assert_eq!(
        tool_calls(&ToolInput::Scroll { direction: "down".to_string(), amount: 3 }, &s),
        vec![EnvCall::Scroll { direction: "down".to_string(), amount: 3 }]
    );
    assert_eq!(
        tool_calls(&ToolInput::HoldKey { text: "shift".to_string(), duration_ms: 500 }, &s),
        vec![EnvCall::HoldKey { keys: "shift".to_string(), duration_ms: 500 }]
    );
    assert_eq!(tool_calls(&ToolInput::Wait { duration_ms: 5 }, &s), vec![EnvCall::Wait { duration_ms: 5 }]);
    assert_eq!(
        tool_calls(&ToolInput::MiddleClick { coordinate: [7, 8] }, &Scale { scaled: 2, native: 3 }),
        vec![EnvCall::MouseMove { x: 11, y: 12 }, EnvCall::MiddleClick]
    );
}

#[test]
fn unicode_blanks_are_trimmed() {
    let mut agent = Agent::start("hi".to_string(), &shot(100, 100, 100)).unwrap();
    agent.on_model_reply(vec![]);
    assert_eq!(agent.on_user_line(Some("\u{3000}\u{a0}\u{2028}\t".to_string())), Command::Finish);
    let mut agent = Agent::start("hi".to_string(), &shot(100, 100, 100)).unwrap();
    agent.on_model_reply(vec![]);
    assert_eq!(agent.on_user_line(Some("\u{85}Exit\u{205f}".to_string())), Command::Finish);
    let mut agent = Agent::start("hi".to_string(), &shot(100, 100, 100)).unwrap();
    agent.on_model_reply(vec![]);
    assert_eq!(
        agent.on_user_line(Some("\u{2003}go on\u{200b}".to_string())),
        Command::CallModel { width: 100, height: 100 }
    );
    assert_eq!(agent.messages.last().unwrap().content, vec![text("go on\u{200b}")]);
}
