use polarimetry::frame::RawFrame;
use polarimetry::mosaic::MosaicLayout;
use polarimetry::mosaic::PolarizerAngle;
use polarimetry::mosaic::Quad;
use polarimetry::mosaic::SubOffset;
use polarimetry::sampler::MosaicSampler;

fn at(dx: u8, dy: u8) -> SubOffset {
    SubOffset { dx, dy }
}

fn scenario_frame() -> RawFrame {
    RawFrame::new(
        4,
        4,
        vec![
            100, 200, 50, 150, 80, 160, 40, 120, 100, 200, 50, 150, 80, 160, 40, 120,
        ],
    )
    .unwrap()
}

#[test]
fn standard_layout_places_each_angle() {
    let layout = MosaicLayout::standard();
    assert_eq!(layout.offset_of(PolarizerAngle::Deg090), at(0, 0));
    assert_eq!(layout.offset_of(PolarizerAngle::Deg135), at(1, 0));
    assert_eq!(layout.offset_of(PolarizerAngle::Deg045), at(0, 1));
    assert_eq!(layout.offset_of(PolarizerAngle::Deg000), at(1, 1));
}

#[test]
fn standard_layout_names_each_place() {
    let layout = MosaicLayout::standard();
    assert_eq!(layout.angle_at(at(0, 0)), Some(PolarizerAngle::Deg090));
    assert_eq!(layout.angle_at(at(1, 0)), Some(PolarizerAngle::Deg135));
    assert_eq!(layout.angle_at(at(0, 1)), Some(PolarizerAngle::Deg045));
    assert_eq!(layout.angle_at(at(1, 1)), Some(PolarizerAngle::Deg000));
}

#[test]
fn layout_has_no_angle_outside_the_cell() {
    let layout = MosaicLayout::standard();
    assert_eq!(layout.angle_at(at(2, 0)), None);
    assert_eq!(layout.angle_at(at(0, 2)), None);
    assert_eq!(layout.angle_at(at(255, 255)), None);
}

#[test]
fn layout_refuses_shared_place() {
    assert!(MosaicLayout::new(at(0, 0), at(0, 0), at(1, 0), at(1, 1)).is_none());
    assert!(MosaicLayout::new(at(0, 0), at(0, 1), at(1, 0), at(1, 0)).is_none());
}

#[test]
fn layout_refuses_place_outside_the_cell() {
    assert!(MosaicLayout::new(at(0, 0), at(0, 1), at(1, 0), at(2, 1)).is_none());
    assert!(MosaicLayout::new(at(0, 0), at(0, 1), at(1, 0), at(1, 2)).is_none());
}

#[test]
fn layout_of_the_sensor_can_be_rebuilt() {
    let rebuilt = MosaicLayout::new(at(1, 1), at(0, 1), at(0, 0), at(1, 0)).unwrap();
    assert_eq!(rebuilt, MosaicLayout::standard());
}

#[test]
fn every_valid_layout_names_all_four_places() {
    let places = [at(0, 0), at(1, 0), at(0, 1), at(1, 1)];
    let angles = [
        PolarizerAngle::Deg000,
        PolarizerAngle::Deg045,
        PolarizerAngle::Deg090,
        PolarizerAngle::Deg135,
    ];
    let mut valid = 0;
    for a in places {
        for b in places {
            for c in places {
                for d in places {
                    if let Some(layout) = MosaicLayout::new(a, b, c, d) {
                        valid += 1;
                        for angle in angles {
                            let place = layout.offset_of(angle);
                            assert_eq!(layout.angle_at(place), Some(angle));
                        }
                    }
                }
            }
        }
    }
    assert_eq!(valid, 24);
}

#[test]
fn scenario_first_super_pixel() {
    let frame = scenario_frame();
    let sampler = MosaicSampler::new(&frame, MosaicLayout::standard());
    let quad = sampler.quad_at(0, 0).unwrap();
    assert_eq!(quad.i090, 100);
    assert_eq!(quad.i135, 200);
    assert_eq!(quad.i045, 80);
    assert_eq!(quad.i000, 160);
}

#[test]
fn scenario_second_super_pixel() {
    let frame = scenario_frame();
    let sampler = MosaicSampler::new(&frame, MosaicLayout::standard());
    let quad = sampler.quad_at(1, 0).unwrap();
    assert_eq!(quad.i090, 50);
    assert_eq!(quad.i135, 150);
    assert_eq!(quad.i045, 40);
    assert_eq!(quad.i000, 120);
}

#[test]
fn scenario_walk_has_four_super_pixels() {
    let frame = scenario_frame();
    let sampler = MosaicSampler::new(&frame, MosaicLayout::standard());
    assert_eq!(sampler.cols(), 2);
    assert_eq!(sampler.rows(), 2);
    assert_eq!(sampler.len(), 4);
    assert!(!sampler.is_empty());
    let first = Quad { i000: 160, i045: 80, i090: 100, i135: 200 };
    let second = Quad { i000: 120, i045: 40, i090: 50, i135: 150 };
    assert_eq!(sampler.quads(), vec![first, second, first, second]);
}

#[test]
fn walk_is_row_major() {
    let samples: Vec<u8> = (0..24).collect();
    let frame = RawFrame::new(6, 4, samples).unwrap();
    let sampler = MosaicSampler::new(&frame, MosaicLayout::standard());
    let quads = sampler.quads();
    assert_eq!(quads.len(), 6);
    for row in 0..2u32 {
        for col in 0..3u32 {
            let index = (row * 3 + col) as usize;
            let top_left = (2 * row * 6 + 2 * col) as u8;
            let expected = Quad {
                i090: top_left,
                i135: top_left + 1,
                i045: top_left + 6,
                i000: top_left + 7,
            };
            assert_eq!(quads[index], expected);
            assert_eq!(sampler.quad_at(col, row), Some(expected));
            assert_eq!(sampler.get(index), Some(expected));
        }
    }
}

#[test]
fn walk_leaves_out_odd_column_and_row() {
    let samples: Vec<u8> = (0..15).collect();
    let frame = RawFrame::new(5, 3, samples).unwrap();
    let sampler = MosaicSampler::new(&frame, MosaicLayout::standard());
    assert_eq!(sampler.cols(), 2);
    assert_eq!(sampler.rows(), 1);
    assert_eq!(
        sampler.quads(),
        vec![
            Quad { i090: 0, i135: 1, i045: 5, i000: 6 },
            Quad { i090: 2, i135: 3, i045: 7, i000: 8 },
        ]
    );
    assert_eq!(sampler.quad_at(2, 0), None);
    assert_eq!(sampler.quad_at(0, 1), None);
}

#[test]
fn walk_of_odd_frame_is_walk_of_its_even_part() {
    let odd = RawFrame::new(5, 3, (0..15).collect()).unwrap();
    let even = RawFrame::new(4, 2, vec![0, 1, 2, 3, 5, 6, 7, 8]).unwrap();
    let layout = MosaicLayout::standard();
    assert_eq!(
        MosaicSampler::new(&odd, layout).quads(),
        MosaicSampler::new(&even, layout).quads()
    );
}

#[test]
fn walk_is_empty_below_two_samples() {
    let layout = MosaicLayout::standard();
    let narrow = RawFrame::new(1, 6, vec![9; 6]).unwrap();
    let low = RawFrame::new(6, 1, vec![9; 6]).unwrap();
    let nothing = RawFrame::new(0, 0, Vec::new()).unwrap();
    for frame in [&narrow, &low, &nothing] {
        let mut sampler = MosaicSampler::new(frame, layout);
        assert!(sampler.is_empty());
        assert_eq!(sampler.len(), 0);
        assert_eq!(sampler.quads(), Vec::new());
        assert_eq!(sampler.get(0), None);
        assert_eq!(sampler.quad_at(0, 0), None);
        assert_eq!(sampler.next(), None);
    }
}

#[test]
fn walk_hands_out_each_super_pixel_once() {
    let frame = scenario_frame();
    let mut sampler = MosaicSampler::new(&frame, MosaicLayout::standard());
    let all = sampler.quads();
    let mut seen = Vec::new();
    while let Some(quad) = sampler.next() {
        seen.push(quad);
    }
    assert_eq!(seen, all);
    assert_eq!(sampler.next(), None);
    assert_eq!(sampler.next(), None);
}

#[test]
fn walk_can_be_started_again() {
    let frame = scenario_frame();
    let mut sampler = MosaicSampler::new(&frame, MosaicLayout::standard());
    let first = sampler.next();
    let second = sampler.next();
    assert_ne!(first, second);
    sampler.restart();
    assert_eq!(sampler.next(), first);
    assert_eq!(sampler.next(), second);
}

#[test]
fn walk_follows_the_layout_it_is_given() {
    let frame = RawFrame::new(2, 2, vec![1, 2, 3, 4]).unwrap();
    let turned = MosaicLayout::new(at(0, 0), at(1, 0), at(1, 1), at(0, 1)).unwrap();
    let sampler = MosaicSampler::new(&frame, turned);
    assert_eq!(
        sampler.quad_at(0, 0),
        Some(Quad { i000: 1, i045: 2, i090: 4, i135: 3 })
    );
}

#[test]
fn walk_get_past_the_end_is_none() {
    let frame = scenario_frame();
    let sampler = MosaicSampler::new(&frame, MosaicLayout::standard());
    assert!(sampler.get(3).is_some());
    assert_eq!(sampler.get(4), None);
    assert_eq!(sampler.get(usize::MAX), None);
}
