use sampitor::app::{App, Frame, Playback};
use sampitor::chart::SignalChart;
use sampitor::filters::Filters;
use sampitor::key::{Key, KeyCode};
use sampitor::knob::StepKnob;
use sampitor::file::{File, NavMode};
use sampitor::samples::Samples;
use sampitor::view::{Outcome, Panel, Request};

fn key(code: KeyCode) -> Key {
    Key::plain(code)
}

fn files() -> File {
    File::try_new(
        String::from("/music"),
        Ok(vec![(String::from("/music/kick.wav"), false)]),
    )
    .unwrap()
}

fn filters() -> Filters {
    Filters::new(vec![(
        String::from("Normalize"),
        vec![(String::from("Amplitude"), StepKnob::new(0, 100, 10, 100))],
    )])
}

fn app() -> App<f32> {
    App::new(
        vec![
            (String::from("Chart"), Panel::Chart(SignalChart::new(String::new(), 1, 0))),
            (String::from("File"), Panel::Files(files())),
            (String::from("Filters"), Panel::Filters(filters())),
        ],
        Samples::new(2, 20, vec![-0.5, -0.25, 0.25, 0.0]),
    )
}

fn file_mode(app: &App<f32>) -> NavMode {
    match &app.views()[1].1 {
        Panel::Files(f) => f.mode(),
        _ => panic!("the second view is the navigator"),
    }
}

#[test]
fn menu_switch_view() {
    let mut app = App::<f32>::new(
        vec![
            (String::new(), Panel::Filters(filters())),
            (String::new(), Panel::Filters(filters())),
            (String::new(), Panel::Filters(filters())),
        ],
        Samples::default(),
    );
    (0..7).for_each(|_| {
        app.key_event(key(KeyCode::Tab));
    });

    assert_eq!(1, app.state());
}

#[test]
fn tab_without_views() {
    let mut app = App::<f32>::new(Vec::new(), Samples::default());
    let reaction = app.key_event(key(KeyCode::Tab));
    assert_eq!(reaction.request, None);
    assert_eq!(app.state(), 0);
    assert_eq!(app.process(), Frame::Done);
}

#[test]
fn play_and_pause() {
    assert_eq!(App::<f32>::play(true, false), Playback::Start);
    assert_eq!(App::<f32>::play(false, false), Playback::Pause);
    assert_eq!(App::<f32>::play(false, true), Playback::Resume);
}

#[test]
fn space_asks_for_playback() {
    let mut app = app();
    assert!(app.key_event(key(KeyCode::Char(' '))).toggle_play);
    assert!(!app.key_event(key(KeyCode::Enter)).toggle_play);
}

#[test]
fn chart_keys_go_to_viewport() {
    let mut app = app();
    let reaction = app.key_event(Key::precise(KeyCode::Up));
    assert_eq!(
        reaction.request,
        Some((0, Request::Viewport(Key::precise(KeyCode::Up))))
    );
}

#[test]
fn frame_processes_every_view() {
    let mut app = app();
    assert_eq!(app.process(), Frame::Done);
    match &app.views()[0].1 {
        Panel::Chart(c) => assert_eq!(c.series(), &vec![vec![-0.5, 0.25], vec![-0.25, 0.0]]),
        _ => panic!("the first view is the chart"),
    }
}

#[test]
fn handle_view_error() {
    let mut app = app();
    app.key_event(key(KeyCode::Tab));
    app.key_event(key(KeyCode::Down));
    app.key_event(key(KeyCode::Enter));
    assert_eq!(file_mode(&app), NavMode::Read);

    let frame = app.process();
    assert_eq!(frame, Frame::Pending(1, Request::Load(String::from("/music/kick.wav"))));
    let frame = app.resume(1, Outcome::Loaded(Err(String::from("Error: bad file"))));
    assert_eq!(frame, Frame::Done);
    assert_eq!(app.error(), &Some(String::from("Error: bad file")));
    assert_eq!(file_mode(&app), NavMode::Navigate);

    // no view is processed while the error is pending
    assert_eq!(app.process(), Frame::Done);

    app.key_event(key(KeyCode::Esc));
    assert_eq!(app.error(), &None);
    assert!(!app.is_shutdown());
    assert_eq!(app.process(), Frame::Done);
}

#[test]
fn failure_leaves_later_views_alone() {
    let mut app = app();
    app.key_event(key(KeyCode::Tab));
    app.key_event(key(KeyCode::Down));
    app.key_event(key(KeyCode::Enter));
    app.key_event(key(KeyCode::Tab));
    app.key_event(key(KeyCode::Down));
    app.key_event(key(KeyCode::Enter));

    let frame = app.process();
    assert_eq!(frame, Frame::Pending(1, Request::Load(String::from("/music/kick.wav"))));
    let frame = app.resume(1, Outcome::Loaded(Err(String::from("bad file"))));
    assert_eq!(frame, Frame::Done);
    match &app.views()[2].1 {
        Panel::Filters(f) => assert_eq!(f.mode(), sampitor::filters::FilterMode::Apply),
        _ => panic!("the third view is the filter panel"),
    }
}

#[test]
fn load_then_filter_in_one_frame() {
    let mut app = app();
    app.key_event(key(KeyCode::Tab));
    app.key_event(key(KeyCode::Down));
    app.key_event(key(KeyCode::Enter));
    app.key_event(key(KeyCode::Tab));
    app.key_event(key(KeyCode::Down));
    app.key_event(key(KeyCode::Enter));

    let loaded = Samples::new(1, 8, vec![0.5f32, 0.25]);
    app.process();
    let frame = app.resume(1, Outcome::Loaded(Ok(loaded.clone())));
    assert_eq!(frame, Frame::Pending(2, Request::Filter(0, vec![100])));
    assert_eq!(app.samples(), &loaded);
    let filtered = Samples::new(1, 8, vec![1.0f32, 0.5]);
    assert_eq!(app.resume(2, Outcome::Filtered(filtered.clone())), Frame::Done);
    assert_eq!(app.samples(), &filtered);
    assert_eq!(app.error(), &None);
}

#[test]
fn escape_requests_shutdown() {
    let mut app = app();
    app.key_event(key(KeyCode::Esc));
    assert!(app.is_shutdown());
}

#[test]
fn directory_change_through_deliver() {
    let mut app = App::<f32>::new(
        vec![(
            String::from("File"),
            Panel::Files(
                File::try_new(
                    String::from("/music"),
                    Ok(vec![(String::from("/music/loops"), true)]),
                )
                .unwrap(),
            ),
        )],
        Samples::default(),
    );
    app.key_event(key(KeyCode::Down));
    let reaction = app.key_event(key(KeyCode::Right));
    assert_eq!(
        reaction.request,
        Some((0, Request::List(String::from("/music/loops"))))
    );
    assert!(app.deliver(0, Outcome::Listed(String::from("/music/loops"), Ok(Vec::new()))));
    match &app.views()[0].1 {
        Panel::Files(f) => assert_eq!(f.cwd(), "/music/loops"),
        _ => panic!("the only view is the navigator"),
    }
}
