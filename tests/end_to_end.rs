use webp_converter::classify::{which_action, Actions};
use webp_converter::engine::{choose_output, plan_conversion, EncodeParams};
use webp_converter::paths::{copy_destination_for, destination_for};
use webp_converter::scheduler::{Admission, Attempt, JobKind, Next, Phase, Scheduler};

#[test]
fn directory_of_four_files() {
    let files = ["/album/a.jpg", "/album/b.png", "/album/c.webp", "/album/d.txt"];
    let params = EncodeParams::new(7500, true, 2000, false, 4000);
    let mut s = Scheduler::new(8);
    assert!(s.start_walk());
    let mut outputs: Vec<String> = Vec::new();
    let mut started: Vec<(JobKind, &str)> = Vec::new();
    for f in files {
        match s.dispatch(which_action(f)) {
            Admission::Start(JobKind::Convert) => {
                let plan = plan_conversion(f, 1000, &params).unwrap();
                assert!(!plan.resize);
                outputs.push(plan.destination);
                started.push((JobKind::Convert, f));
            }
            Admission::Start(JobKind::Copy) => {
                outputs.push(copy_destination_for(f).unwrap());
                started.push((JobKind::Copy, f));
            }
            Admission::Skip => assert_eq!(f, "/album/d.txt"),
            Admission::Wait => panic!("eight cores give seven permits"),
        }
    }
    assert_eq!(
        outputs,
        vec![
            "/album/webp_converter_output/a.webp".to_string(),
            "/album/webp_converter_output/b.webp".to_string(),
            "/album/webp_converter_output/c.webp".to_string(),
        ]
    );
    assert_eq!(started[2], (JobKind::Copy, "/album/c.webp"));
    assert!(s.finish_walk());
    for (kind, _) in &started {
        assert_eq!(s.job_finished(*kind, Attempt::Primary, true), Next::Released);
    }
    assert!(s.begin_cleanup());
    assert!(s.finish());
    assert_eq!(s.phase(), Phase::Done);
    let summary = s.summary();
    assert_eq!(summary.converted, 2);
    assert_eq!(summary.copied, 1);
    assert_eq!(summary.skipped, 1);
    assert_eq!(summary.failed, 0);
    assert_eq!(which_action("/album/d.txt"), Actions::Nothing);
}

#[test]
fn retry_with_fallback_produces_output() {
    let source = "/album/broken.png";
    let mut s = Scheduler::new(2);
    s.start_walk();
    assert_eq!(s.dispatch(which_action(source)), Admission::Start(JobKind::Convert));
    let primary = EncodeParams::new(10000, true, 0, true, 4000);
    let first = plan_conversion(source, 5000, &primary).unwrap();
    assert!(first.resize);
    assert!(first.settings.lossless);
    let retry = match s.job_finished(JobKind::Convert, Attempt::Primary, false) {
        Next::Retry(p) => p,
        Next::Released => panic!("a failed first try is retried"),
    };
    let second = plan_conversion(source, 5000, &retry).unwrap();
    assert!(!second.resize);
    assert!(!second.settings.lossless);
    assert_eq!(second.settings.quality_hundredths, 7500);
    assert_eq!(second.settings.target_size, 0);
    assert_eq!(second.destination, first.destination);
    let written = choose_output(vec![0x52, 0x49, 0x46, 0x46], None);
    assert_eq!(written, Some(vec![0x52, 0x49, 0x46, 0x46]));
    assert_eq!(s.job_finished(JobKind::Convert, Attempt::Fallback, true), Next::Released);
    assert_eq!(s.summary().converted, 1);
    assert_eq!(destination_for(source), Some("/album/webp_converter_output/broken.webp".to_string()));
}
