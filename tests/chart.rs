use sampitor::chart::SignalChart;
use sampitor::samples::Samples;

fn points(chart: &SignalChart<f32>) -> Vec<Vec<(f64, f64)>> {
    chart
        .series()
        .iter()
        .map(|line| {
            line.iter()
                .enumerate()
                .map(|(index, value)| (index as f64, f64::from(*value)))
                .collect()
        })
        .collect()
}

#[test]
fn chart_new_points() {
    let chart = SignalChart::<f32>::new(String::from(""), 2, 3);
    let expected = vec![
        vec![(0.0, 0.0), (1.0, 0.0), (2.0, 0.0)],
        vec![(0.0, 0.0), (1.0, 0.0), (2.0, 0.0)],
    ];

    assert_eq!(points(&chart), expected);
}

#[test]
fn update_points() {
    let mut chart = SignalChart::<f32>::new(String::from(""), 2, 3);
    let expected = vec![
        vec![(0.0, -1.0), (1.0, -0.25), (2.0, 0.5)],
        vec![(0.0, -0.5), (1.0, 0.25), (2.0, 1.0)],
    ];

    let buffer = Samples::new(2, 1, vec![-1.0, -0.5, -0.25, 0.25, 0.5, 1.0]);
    chart.process(&buffer);

    assert_eq!(points(&chart), expected);
}

#[test]
fn signal_new_points() {
    let chart = SignalChart::<f32>::new(String::from(""), 2, 3);
    let expected = vec![
        vec![(0.0, 0.0), (1.0, 0.0), (2.0, 0.0)],
        vec![(0.0, 0.0), (1.0, 0.0), (2.0, 0.0)],
    ];

    assert_eq!(points(&chart), expected);
}

#[test]
fn signal_process_points() {
    let mut chart = SignalChart::<f32>::new(String::from(""), 1, 1);
    let expected = vec![
        vec![(0.0, -1.0), (1.0, -0.25), (2.0, 0.5)],
        vec![(0.0, -0.5), (1.0, 0.25), (2.0, 1.0)],
    ];

    let buffer = Samples::new(2, 20, vec![-1.0, -0.5, -0.25, 0.25, 0.5, 1.0]);
    chart.process(&buffer);

    assert_eq!(points(&chart), expected);
}

#[test]
fn chart_process_points() {
    let mut chart = SignalChart::<f32>::new(String::from(""), 1, 1);
    let expected = vec![
        vec![(0.0, -1.0), (1.0, -0.25), (2.0, 0.5)],
        vec![(0.0, -0.5), (1.0, 0.25), (2.0, 1.0)],
    ];

    let buffer = Samples::new(2, 20, vec![-1.0, -0.5, -0.25, 0.25, 0.5, 1.0]);
    chart.process(&buffer);

    assert_eq!(points(&chart), expected);
}

#[test]
fn chart_keeps_title() {
    let mut chart = SignalChart::<f32>::new(String::from("Signal"), 1, 2);
    chart.process(&Samples::new(1, 8, vec![0.5, 0.25]));
    assert_eq!(chart.title(), "Signal");
}

#[test]
fn process_three_channels() {
    let mut chart = SignalChart::<i32>::new(String::new(), 1, 1);
    let buffer = Samples::new(3, 8, vec![0, 1, 2, 10, 11, 12]);
    chart.process(&buffer);
    assert_eq!(chart.series(), &vec![vec![0, 10], vec![1, 11], vec![2, 12]]);
}

#[test]
fn process_empty_buffer() {
    let mut chart = SignalChart::<f32>::new(String::new(), 2, 4);
    chart.process(&Samples::new(2, 44100, Vec::new()));
    assert_eq!(chart.series(), &vec![Vec::<f32>::new(), Vec::new()]);
}

#[test]
fn process_ignores_partial_frame() {
    let mut chart = SignalChart::<i32>::new(String::new(), 2, 1);
    chart.process(&Samples::new(2, 8, vec![1, 2, 3, 4, 5]));
    assert_eq!(chart.series(), &vec![vec![1, 3], vec![2, 4]]);
}

#[test]
fn process_without_channels() {
    let mut chart = SignalChart::<i32>::new(String::new(), 2, 1);
    chart.process(&Samples::new(0, 8, vec![1, 2]));
    assert!(chart.series().is_empty());
}

#[test]
fn default_samples() {
    let samples = Samples::<f32>::default();
    assert_eq!(samples.channels, 1);
    assert_eq!(samples.sample_rate, 1);
    assert!(samples.data.is_empty());
    assert_eq!(samples.frame_count(), 0);
    assert_eq!(Samples::new(2, 8, vec![1, 2, 3, 4, 5]).frame_count(), 2);
}
