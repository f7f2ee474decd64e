use sampitor::filters::{FilterMode, Filters};
use sampitor::key::{Key, KeyCode};
use sampitor::knob::{Knob, StepKnob};
use sampitor::file::{File, NavMode};
use sampitor::samples::Samples;
use sampitor::view::{Outcome, Request};

fn raw(entries: &[(&str, bool)]) -> Vec<(String, bool)> {
    entries.iter().map(|(p, d)| (String::from(*p), *d)).collect()
}

fn key(code: KeyCode) -> Key {
    Key::plain(code)
}

fn navigator() -> File {
    File::try_new(
        String::from("/music"),
        Ok(raw(&[
            ("/music/kick.wav", false),
            ("/music/loops", true),
            ("/music/snare.wav", false),
        ])),
    )
    .unwrap()
}

#[test]
fn navigator_lists_directories_first() {
    let nav = navigator();
    assert_eq!(
        nav.entries(),
        &vec![
            (String::from("loops"), true),
            (String::from("kick.wav"), false),
            (String::from("snare.wav"), false)
        ]
    );
    assert_eq!(nav.mode(), NavMode::Navigate);
    assert_eq!(nav.selected(), None);
    assert_eq!(nav.cwd(), "/music");
}

#[test]
fn navigator_fails_on_unreadable_start() {
    let result = File::try_new(String::from("/nope"), Err(String::from("not found")));
    assert_eq!(result.err(), Some(String::from("not found")));
}

#[test]
fn navigator_reads_selected_file() {
    let mut nav = navigator();
    nav.key_event(key(KeyCode::Down));
    nav.key_event(key(KeyCode::Down));
    assert_eq!(nav.selected(), Some(1));
    assert_eq!(nav.key_event(key(KeyCode::Enter)), None);
    assert_eq!(nav.mode(), NavMode::Read);

    let request = nav.process();
    assert_eq!(request, Some(Request::Load(String::from("/music/kick.wav"))));
    assert_eq!(nav.mode(), NavMode::Read);

    let mut samples = Samples::<f32>::default();
    let loaded = Samples::new(2, 44100, vec![0.5, -0.5]);
    let result = nav.complete(Outcome::Loaded(Ok(loaded.clone())), &mut samples);
    assert_eq!(result, Ok(()));
    assert_eq!(samples, loaded);
    assert_eq!(nav.mode(), NavMode::Navigate);
}

#[test]
fn navigator_read_failure_shows_error() {
    let mut nav = navigator();
    nav.key_event(key(KeyCode::Up));
    assert_eq!(nav.selected(), Some(0));
    nav.key_event(key(KeyCode::Up));
    assert_eq!(nav.selected(), Some(2));
    nav.key_event(key(KeyCode::Enter));
    nav.process();

    let mut samples = Samples::<f32>::default();
    let result = nav.complete(Outcome::Loaded(Err(String::from("bad header"))), &mut samples);
    assert_eq!(result, Err(String::from("bad header")));
    assert_eq!(nav.entries(), &vec![(String::from("bad header"), false)]);
    assert_eq!(nav.selected(), None);
    assert_eq!(samples, Samples::default());
}

#[test]
fn navigator_enter_on_directory_stays() {
    let mut nav = navigator();
    nav.key_event(key(KeyCode::Down));
    nav.key_event(key(KeyCode::Enter));
    assert_eq!(nav.mode(), NavMode::Navigate);
    assert_eq!(nav.process(), None);
}

#[test]
fn navigator_moves_between_directories() {
    let mut nav = navigator();
    assert_eq!(nav.key_event(key(KeyCode::Right)), None);
    nav.key_event(key(KeyCode::Down));
    let request = nav.key_event(key(KeyCode::Right));
    assert_eq!(request, Some(Request::List(String::from("/music/loops"))));

    let mut samples = Samples::<f32>::default();
    let listing = Ok(raw(&[("/music/loops/b.wav", false), ("/music/loops/a.wav", false)]));
    nav.complete(Outcome::Listed(String::from("/music/loops"), listing), &mut samples)
        .unwrap();
    assert_eq!(nav.cwd(), "/music/loops");
    assert_eq!(
        nav.entries(),
        &vec![(String::from("a.wav"), false), (String::from("b.wav"), false)]
    );
    assert_eq!(nav.selected(), None);

    let up = nav.key_event(key(KeyCode::Left));
    assert_eq!(up, Some(Request::List(String::from("/music"))));
}

#[test]
fn navigator_unreadable_directory_becomes_entry() {
    let mut nav = navigator();
    let mut samples = Samples::<f32>::default();
    nav.complete(
        Outcome::Listed(String::from("/root"), Err(String::from("Permission denied"))),
        &mut samples,
    )
    .unwrap();
    assert_eq!(nav.entries(), &vec![(String::from("Permission denied"), false)]);
    assert_eq!(nav.cwd(), "/root");
}

#[test]
fn navigator_root_has_no_parent() {
    let mut nav = File::try_new(String::from("/"), Ok(Vec::new())).unwrap();
    assert_eq!(nav.key_event(key(KeyCode::Left)), None);
    assert_eq!(nav.key_event(key(KeyCode::Down)), None);
    assert_eq!(nav.selected(), None);
}

#[test]
fn navigator_types_and_writes() {
    let mut nav = navigator();
    nav.key_event(key(KeyCode::Char('w')));
    assert_eq!(nav.mode(), NavMode::Type);
    for c in "outx".chars() {
        nav.key_event(key(KeyCode::Char(c)));
    }
    nav.key_event(key(KeyCode::Backspace));
    nav.key_event(key(KeyCode::Char('.')));
    nav.key_event(key(KeyCode::Char('w')));
    assert_eq!(nav.typed(), "out.w");
    nav.key_event(key(KeyCode::Delete));
    assert_eq!(nav.typed(), "out.");
    nav.key_event(key(KeyCode::Enter));
    assert_eq!(nav.mode(), NavMode::Write);

    let request = nav.process();
    assert_eq!(
        request,
        Some(Request::Save(String::from("/music/out."), String::from("/music")))
    );

    let mut samples = Samples::<f32>::default();
    let listing = Ok(raw(&[("/music/out.", false)]));
    let result = nav.complete(Outcome::Saved(Ok(()), listing), &mut samples);
    assert_eq!(result, Ok(()));
    assert_eq!(nav.typed(), "");
    assert_eq!(nav.mode(), NavMode::Navigate);
    assert_eq!(nav.entries(), &vec![(String::from("out."), false)]);
}

#[test]
fn navigator_write_failure_is_returned() {
    let mut nav = navigator();
    nav.key_event(key(KeyCode::Char('w')));
    nav.key_event(key(KeyCode::Char('x')));
    nav.key_event(key(KeyCode::Enter));
    nav.process();
    let mut samples = Samples::<f32>::default();
    let result = nav.complete(
        Outcome::Saved(Err(String::from("read-only")), Ok(Vec::new())),
        &mut samples,
    );
    assert_eq!(result, Err(String::from("read-only")));
    assert_eq!(nav.mode(), NavMode::Write);
    nav.reset();
    assert_eq!(nav.mode(), NavMode::Navigate);
    assert_eq!(nav.selected(), None);
}

fn panel() -> Filters {
    Filters::new(vec![
        (
            String::from("Normalize"),
            vec![(String::from("Amplitude"), StepKnob::new(0, 100, 10, 100))],
        ),
        (String::from("Plain"), Vec::new()),
    ])
}

#[test]
fn filters_apply_selected() {
    let mut filters = panel();
    filters.key_event(key(KeyCode::Down));
    filters.key_event(key(KeyCode::Enter));
    assert_eq!(filters.mode(), FilterMode::Apply);
    let request = filters.process();
    assert_eq!(request, Some(Request::Filter(0, vec![100])));

    let mut samples = Samples::new(2, 20, vec![-0.5f32, -0.25, 0.25, 0.0]);
    let filtered = Samples::new(2, 20, vec![-1.0f32, -0.5, 0.5, 0.0]);
    filters.complete(Outcome::Filtered(filtered.clone()), &mut samples);
    assert_eq!(samples, filtered);
    assert_eq!(filters.mode(), FilterMode::Navigate);
}

#[test]
fn filters_apply_without_selection() {
    let mut filters = panel();
    filters.key_event(key(KeyCode::Enter));
    assert_eq!(filters.process(), None);
    assert_eq!(filters.mode(), FilterMode::Navigate);
}

#[test]
fn filters_edit_knob() {
    let mut filters = panel();
    filters.key_event(key(KeyCode::Up));
    filters.key_event(key(KeyCode::Up));
    assert_eq!(filters.selected(), Some(1));
    filters.key_event(key(KeyCode::Down));
    assert_eq!(filters.selected(), Some(0));
    filters.key_event(key(KeyCode::Char('e')));
    assert_eq!(filters.mode(), FilterMode::Edit);
    filters.key_event(key(KeyCode::Down));
    filters.key_event(key(KeyCode::Down));
    filters.key_event(key(KeyCode::Up));
    let knob = filters.filters()[0].1[0].1;
    assert_eq!(knob.value(), 90);
    assert_eq!(knob.text(), "90");
    assert_eq!(filters.selected(), Some(0));

    filters.reset();
    assert_eq!(filters.mode(), FilterMode::Navigate);
    filters.key_event(key(KeyCode::Down));
    filters.key_event(key(KeyCode::Enter));
    assert_eq!(filters.process(), Some(Request::Filter(0, vec![90])));
}
