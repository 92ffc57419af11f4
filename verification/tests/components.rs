use std::time::Duration;

use makeup::component::{
    Delivery, MakeupMessage, RawComponentMessage, RenderContext, Style, UpdateContext,
};
use makeup::components::{Container, EchoText, Fps, PositionedText, Spinner, TextInput};
use makeup::console::Keypress;
use makeup::post_office::PostOffice;
use makeup::test::fake_render_ctx;
use makeup::ui::Node;
use makeup::{Component, DrawCommand, LineEraseMode};

fn leaf<M>(component: Box<dyn Component<M>>) -> Node<M> {
    Node { component, children: vec![] }
}


fn static_text(text: &str) -> DrawCommand {
    DrawCommand::TextUnderCursor(text.to_string())
}

fn assert_renders_many<C: Component<()>>(expected: Vec<DrawCommand>, component: &C) {
    let ctx = fake_render_ctx();
    let (key, actual) = component.render(&ctx).unwrap();
    assert_eq!(component.key(), key);
    assert_eq!(expected, actual);
}

fn assert_renders_one<C: Component<()>>(expected: DrawCommand, component: &C) {
    assert_renders_many(vec![expected], component);
}

fn update_with<C: Component<()>>(
    component: &mut C,
    post_office: &mut PostOffice<()>,
) -> Vec<Delivery<()>> {
    let mailbox = post_office.take_mailbox(component.key());
    let mut ctx = UpdateContext::new(mailbox, component.key(), (100, 100));
    component.update(&mut ctx).unwrap();
    ctx.sender.into_sent()
}

#[test]
fn echo_text_test_it_works() {
    let root = EchoText::<()>::new("henol world");
    assert_renders_one(static_text("henol world"), &root);
}

#[test]
fn test_to_string() {
    let root = EchoText::<()>::new("henol world");
    assert_eq!(root.to_string(), "henol world");
    assert_eq!(format!("{}", root.to_string()), "henol world");
}

#[test]
fn echo_text_takes_the_last_text_update() {
    let mut root = EchoText::<()>::new("one");
    let mut post_office = PostOffice::<()>::new();
    post_office.send_makeup(root.key(), MakeupMessage::TextUpdate("two".to_string()));
    post_office.send(root.key(), ());
    post_office.send_makeup(root.key(), MakeupMessage::TextUpdate("three".to_string()));
    post_office.send_makeup(root.key(), MakeupMessage::Keypress(Keypress::Up));
    let sent = update_with(&mut root, &mut post_office);
    assert!(sent.is_empty());
    assert_renders_one(static_text("three"), &root);
    let sent = update_with(&mut root, &mut post_office);
    assert!(sent.is_empty());
    assert_renders_one(static_text("three"), &root);
}

#[test]
fn echo_text_dimensions_are_its_bytes() {
    let root = EchoText::<()>::new("henol world");
    assert_eq!(Ok(Some((11, 1))), root.dimensions());
    let wide = EchoText::<()>::new("h\u{e9}");
    assert_eq!(Ok(Some((3, 1))), wide.dimensions());
    assert_eq!(None, Component::<()>::style(&root));
}

#[test]
fn fps_test_it_works() {
    let root = Fps::<()>::new();
    assert_renders_one(
        static_text("FPS: 0.00 (effective:       0.00), dimensions: (0, 0), cursor (when this render started): (0, 0), last frame: 0ms, frame: 0"),
        &root,
    );
}

#[test]
fn fps_shows_the_context() {
    let root = Fps::<()>::new();
    let ctx = RenderContext {
        last_frame_time: Some(Duration::from_micros(16_999)),
        frame_counter: 42,
        fps: 5_999,
        effective_fps: 1_234_507,
        cursor: (3, 4),
        dimensions: (80, 24),
        focus: 9,
    };
    let (_, commands) = root.render(&ctx).unwrap();
    assert_eq!(
        vec![static_text("FPS: 59.99 (effective:   12345.07), dimensions: (80, 24), cursor (when this render started): (3, 4), last frame: 16ms, frame: 42")],
        commands
    );
    assert_eq!(Ok(Some((0, 0))), Component::<()>::dimensions(&root));
}

#[test]
fn fps_does_not_cut_a_long_rate() {
    let root = Fps::<()>::new();
    let mut ctx = fake_render_ctx();
    ctx.effective_fps = u64::MAX;
    ctx.fps = 6_000;
    let (_, commands) = root.render(&ctx).unwrap();
    assert_eq!(
        vec![static_text("FPS: 60.00 (effective: 184467440737095516.15), dimensions: (0, 0), cursor (when this render started): (0, 0), last frame: 0ms, frame: 0")],
        commands
    );
}

#[test]
fn positioned_text_renders_at_its_position() {
    let root = PositionedText::<()>::new("henol world", 1, 1);
    assert_renders_one(DrawCommand::TextAt { x: 1, y: 1, text: "henol world".to_string() }, &root);
    assert_eq!(Ok(Some((11, 1))), root.dimensions());
}

#[test]
fn positioned_text_takes_text_updates() {
    let mut root = PositionedText::<()>::new("a", 2, 3);
    let mut post_office = PostOffice::<()>::new();
    post_office.send_makeup(root.key(), MakeupMessage::TextUpdate("b".to_string()));
    update_with(&mut root, &mut post_office);
    assert_renders_one(DrawCommand::TextAt { x: 2, y: 3, text: "b".to_string() }, &root);
}

fn spinner_commands(glyph: char) -> Vec<DrawCommand> {
    vec![
        DrawCommand::CharUnderCursor(glyph),
        DrawCommand::CharUnderCursor(' '),
        DrawCommand::TextUnderCursor("henol world".into()),
    ]
}

#[test]
fn spinner_test_it_works() {
    let interval = Duration::from_millis(1);
    let mut root = Spinner::<()>::new("henol world", vec!['-', '\\', '|', '/'], interval);
    let mut post_office = PostOffice::<()>::new();

    assert_renders_many(spinner_commands('-'), &root);

    post_office.send_makeup(root.key(), MakeupMessage::TimerTick(interval));
    update_with(&mut root, &mut post_office);
    assert_renders_many(spinner_commands('\\'), &root);

    post_office.send_makeup(root.key(), MakeupMessage::TimerTick(interval));
    update_with(&mut root, &mut post_office);
    assert_renders_many(spinner_commands('|'), &root);

    post_office.send_makeup(root.key(), MakeupMessage::TimerTick(interval));
    update_with(&mut root, &mut post_office);
    assert_renders_many(spinner_commands('/'), &root);
}

#[test]
fn spinner_wraps_around() {
    let interval = Duration::from_millis(1);
    let mut root = Spinner::<()>::new("henol world", vec!['-', '\\', '|', '/'], interval);
    let mut post_office = PostOffice::<()>::new();
    for _ in 0..4 {
        post_office.send_makeup(root.key(), MakeupMessage::TimerTick(interval));
    }
    post_office.send_makeup(root.key(), MakeupMessage::TextUpdate("ignored".to_string()));
    post_office.send_makeup(root.key(), MakeupMessage::TimerTick(interval));
    update_with(&mut root, &mut post_office);
    assert_renders_many(spinner_commands('\\'), &root);
    assert_eq!(Ok(Some((13, 1))), root.dimensions());
}

fn is_tick(delivery: &Delivery<()>, key: u64, after: Option<Duration>, interval: Duration) -> bool {
    delivery.key == key
        && delivery.after == after
        && matches!(
            &delivery.message,
            RawComponentMessage::Makeup(MakeupMessage::TimerTick(d)) if *d == interval
        )
}

#[test]
fn spinner_orders_its_ticks() {
    let interval = Duration::from_millis(250);
    let mut root = Spinner::<()>::new("x", vec!['a', 'b'], interval);
    let key = root.key();
    let mut post_office = PostOffice::<()>::new();

    let sent = update_with(&mut root, &mut post_office);
    assert_eq!(1, sent.len());
    assert!(is_tick(&sent[0], key, None, interval));

    let sent = update_with(&mut root, &mut post_office);
    assert!(sent.is_empty());

    post_office.send_makeup(key, MakeupMessage::TimerTick(interval));
    post_office.send_makeup(key, MakeupMessage::TimerTick(interval));
    let sent = update_with(&mut root, &mut post_office);
    assert_eq!(2, sent.len());
    assert!(is_tick(&sent[0], key, Some(interval), interval));
    assert!(is_tick(&sent[1], key, Some(interval), interval));
}

#[test]
fn text_input_test_it_works() {
    let mut root = TextInput::<()>::new("henol world");
    let mut post_office = PostOffice::<()>::new();

    assert_renders_many(
        vec![
            DrawCommand::TextUnderCursor("henol world".into()),
            DrawCommand::CharUnderCursor(':'),
            DrawCommand::CharUnderCursor(' '),
            DrawCommand::TextUnderCursor("".into()),
        ],
        &root,
    );

    post_office.send_makeup(root.key(), MakeupMessage::Keypress(Keypress::Char('a')));
    update_with(&mut root, &mut post_office);

    assert_renders_many(
        vec![
            DrawCommand::TextUnderCursor("henol world".into()),
            DrawCommand::CharUnderCursor(':'),
            DrawCommand::CharUnderCursor(' '),
            DrawCommand::TextUnderCursor("a".into()),
        ],
        &root,
    );
}

#[test]
fn text_input_backspace_erases_the_rest_of_the_line() {
    let mut root = TextInput::<()>::new("p");
    let mut post_office = PostOffice::<()>::new();
    let key = root.key();
    post_office.send_makeup(key, MakeupMessage::Keypress(Keypress::Backspace));
    post_office.send_makeup(key, MakeupMessage::Keypress(Keypress::Char('a')));
    post_office.send_makeup(key, MakeupMessage::Keypress(Keypress::Char('b')));
    post_office.send_makeup(key, MakeupMessage::Keypress(Keypress::Backspace));
    post_office.send_makeup(key, MakeupMessage::Keypress(Keypress::Char('c')));
    post_office.send_makeup(key, MakeupMessage::Keypress(Keypress::Left));
    update_with(&mut root, &mut post_office);
    assert_renders_many(
        vec![
            DrawCommand::TextUnderCursor("p".into()),
            DrawCommand::CharUnderCursor(':'),
            DrawCommand::CharUnderCursor(' '),
            DrawCommand::TextUnderCursor("ac".into()),
            DrawCommand::EraseCurrentLine(LineEraseMode::FromCursorToEnd),
        ],
        &root,
    );
    assert_eq!(Ok(Some((5, 1))), root.dimensions());

    update_with(&mut root, &mut post_office);
    assert_renders_many(
        vec![
            DrawCommand::TextUnderCursor("p".into()),
            DrawCommand::CharUnderCursor(':'),
            DrawCommand::CharUnderCursor(' '),
            DrawCommand::TextUnderCursor("ac".into()),
        ],
        &root,
    );
}

#[test]
fn container_holds_its_children_and_draws_nothing() {
    let node = Container::<()>::new(vec![
        leaf(Box::new(EchoText::<()>::new("test 1"))),
        leaf(Box::new(EchoText::<()>::new("test 2"))),
    ]);
    assert_eq!(2, node.children.len());
    let ctx = fake_render_ctx();
    let (key, commands) = node.component.render(&ctx).unwrap();
    assert_eq!(node.key(), key);
    assert!(commands.is_empty());
    assert_eq!(Ok(None), node.component.dimensions());
    assert_eq!(None, node.component.style());

    let styled = Container::<()>::new_with_style(
        vec![],
        Some(Style { flex_direction: makeup::component::FlexDirection::Column }),
    );
    assert_eq!(
        Some(Style { flex_direction: makeup::component::FlexDirection::Column }),
        styled.component.style()
    );
}

#[test]
fn keys_are_not_all_the_same() {
    let keys: Vec<u64> = (0..16).map(|_| EchoText::<()>::new("x").key()).collect();
    assert!(keys.iter().any(|k| *k != keys[0]));
}

#[test]
fn messages_can_be_copied() {
    let tick = MakeupMessage::TimerTick(Duration::from_millis(7));
    let copy = tick.clone();
    assert!(matches!(copy, MakeupMessage::TimerTick(d) if d == Duration::from_millis(7)));
    let raw: RawComponentMessage<u8> = RawComponentMessage::Component(3);
    assert!(matches!(raw.clone(), RawComponentMessage::Component(3)));
    let delivery = Delivery { key: 1, message: raw, after: Some(Duration::from_millis(2)) };
    let again = delivery.clone();
    assert_eq!(1, again.key);
    assert_eq!(Some(Duration::from_millis(2)), again.after);
}
