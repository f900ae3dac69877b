use qrcode_scanner::CandidateSize;
use qrcode_scanner::Error;
use qrcode_scanner::FourCC;
use qrcode_scanner::TargetFrameSize;
use qrcode_scanner::confirm_format_honored;

fn add_discrete(vec: &mut Vec<(FourCC, CandidateSize)>, fourcc: FourCC, w: u32, h: u32) {
    vec.push((fourcc, CandidateSize::Discrete { width: w, height: h }));
}

fn choose_framesize_input(c: usize) -> Vec<(FourCC, CandidateSize)> {
    let four_a = FourCC::new(b"AAAD");
    let four_b = FourCC::new(b"BBBE");
    let four_c = FourCC::new(b"CCCF");
    let mut input = vec![];
    add_discrete(&mut input, four_a, 640, 80);
    add_discrete(&mut input, four_b, 640, 80);
    add_discrete(&mut input, four_b, 480, 200);
    add_discrete(&mut input, four_a, 580, 400);
    add_discrete(&mut input, four_b, 680, 500);
    add_discrete(&mut input, four_a, 720, 490);
    input.push((
        four_c,
        CandidateSize::Stepwise {
            min_width: 80,
            max_width: 1920,
            step_width: 40,
            min_height: 80,
            max_height: 1080,
            step_height: 40,
        },
    ));
    while input.len() > c {
        input.pop();
    }
    input
}

#[test]
fn choose_framesize() {
    let target = TargetFrameSize {
        width: 640,
        height: 480,
    };
    let result = qrcode_scanner::choose_framesize(vec![], target.clone());
    assert_eq!(result.unwrap_err(), Error::UnsupportedFormat);

    let four_a = FourCC::new(b"AAAD");
    let four_b = FourCC::new(b"BBBE");
    let four_c = FourCC::new(b"CCCF");
    assert_eq!(
        qrcode_scanner::choose_framesize(choose_framesize_input(2), target.clone()).unwrap(),
        (four_a, 640, 80)
    );
    assert_eq!(
        qrcode_scanner::choose_framesize(choose_framesize_input(3), target.clone()).unwrap(),
        (four_b, 480, 200)
    );
    assert_eq!(
        qrcode_scanner::choose_framesize(choose_framesize_input(4), target.clone()).unwrap(),
        (four_a, 580, 400)
    );
    assert_eq!(
        qrcode_scanner::choose_framesize(choose_framesize_input(5), target.clone()).unwrap(),
        (four_b, 680, 500)
    );
    assert_eq!(
        qrcode_scanner::choose_framesize(choose_framesize_input(6), target.clone()).unwrap(),
        (four_b, 680, 500)
    );
    assert_eq!(
        qrcode_scanner::choose_framesize(choose_framesize_input(7), target.clone()).unwrap(),
        (four_c, 640, 480)
    );
    assert_eq!(
        qrcode_scanner::choose_framesize(
            choose_framesize_input(7),
            TargetFrameSize {
                width: 720,
                height: 485,
            }
        )
        .unwrap(),
        (four_a, 720, 490)
    );
}

#[test]
fn picks_lowest_cost_candidate() {
    // Costs against 640x480: (640,80) -> 160000, (480,200) -> 148800,
    // (580,400) -> 14800, so the third entry wins.
    let four_a = FourCC::new(b"AAAA");
    let four_b = FourCC::new(b"BBBB");
    let mut input = vec![];
    add_discrete(&mut input, four_a, 640, 80);
    add_discrete(&mut input, four_b, 480, 200);
    add_discrete(&mut input, four_a, 580, 400);
    let target = TargetFrameSize {
        width: 640,
        height: 480,
    };
    assert_eq!(
        qrcode_scanner::choose_framesize(input, target).unwrap(),
        (four_a, 580, 400)
    );
}

#[test]
fn tie_prefers_first_enumerated() {
    let four_a = FourCC::new(b"AAAA");
    let four_b = FourCC::new(b"BBBB");
    let mut input = vec![];
    add_discrete(&mut input, four_a, 100, 100);
    add_discrete(&mut input, four_b, 100, 100);
    let target = TargetFrameSize {
        width: 100,
        height: 100,
    };
    assert_eq!(
        qrcode_scanner::choose_framesize(input, target).unwrap(),
        (four_a, 100, 100)
    );
    // Equal cost through different differences: against 100x100 both
    // (90,100) and (110,100) cost 100; the first-enumerated one wins.
    let mut input = vec![];
    add_discrete(&mut input, four_b, 110, 100);
    add_discrete(&mut input, four_a, 90, 100);
    let target = TargetFrameSize {
        width: 100,
        height: 100,
    };
    assert_eq!(
        qrcode_scanner::choose_framesize(input, target).unwrap(),
        (four_b, 110, 100)
    );
}

#[test]
fn dominated_candidate_never_wins() {
    // (600,400) differs by (40,80), (500,300) by (140,180): the first
    // dominates on both axes, so it must win.
    let four_a = FourCC::new(b"AAAA");
    let four_b = FourCC::new(b"BBBB");
    let mut input = vec![];
    add_discrete(&mut input, four_b, 500, 300);
    add_discrete(&mut input, four_a, 600, 400);
    let target = TargetFrameSize {
        width: 640,
        height: 480,
    };
    assert_eq!(
        qrcode_scanner::choose_framesize(input, target).unwrap(),
        (four_a, 600, 400)
    );
}

#[test]
fn empty_stepwise_range_is_unsupported() {
    let four_c = FourCC::new(b"CCCF");
    let input = vec![(
        four_c,
        CandidateSize::Stepwise {
            min_width: 100,
            max_width: 50,
            step_width: 10,
            min_height: 100,
            max_height: 50,
            step_height: 10,
        },
    )];
    let target = TargetFrameSize {
        width: 640,
        height: 480,
    };
    assert_eq!(
        qrcode_scanner::choose_framesize(input, target).unwrap_err(),
        Error::UnsupportedFormat
    );
}

#[test]
fn format_honored_checks_equality() {
    let yuyv = FourCC::new(b"YUYV");
    let mjpg = FourCC::new(b"MJPG");
    assert!(confirm_format_honored(&yuyv, &yuyv).is_ok());
    assert_eq!(
        confirm_format_honored(&yuyv, &mjpg).unwrap_err(),
        Error::FormatNotHonored
    );
}
