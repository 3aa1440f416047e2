use rand::rngs::SmallRng;
use rand::seq::SliceRandom;
use rand::Rng;
use rand::SeedableRng;
use wallpapergen::random::{new_rng, RngInitError};
use wallpapergen::raster::{buffer_len, pixel_site, render, PixelSite, RenderError};
use wallpapergen::sampler::{
    anchor_count, coord_from_bits, rng_color_points, select_base, ColorPoint, SampleError,
    COORD_DENOM, MAX_POINTS, MIN_POINTS,
};

fn seeded(seed: u64) -> SmallRng {
    match new_rng(Some(seed)) {
        Ok(g) => g,
        Err(RngInitError::EntropyUnavailable) => panic!("a seeded generator cannot fail"),
    }
}

fn unit(n: u64) -> f64 {
    n as f64 / COORD_DENOM as f64
}

/// The blend of the anchors at a site, in anchor order, as a byte.
fn blend(points: &[ColorPoint], palette: &[[f64; 3]], base: [f64; 3], w: u32, h: u32, s: PixelSite) -> u8 {
    let u = s.x as f64 / w as f64;
    let v = s.y as f64 / h as f64;
    let mut acc = base[s.channel];
    for p in points {
        let d = ((unit(p.u) - u).powi(2) + (unit(p.v) - v).powi(2)).sqrt();
        let t = 1.0 - d;
        acc = (1.0 - t) * acc + t * palette[p.color][s.channel];
    }
    (acc * 255.0) as u8
}

#[test]
fn anchor_count_within_bounds_for_every_palette_size() {
    for len in 1..8usize {
        for seed in 0..50u64 {
            let mut rng = seeded(seed);
            let points = rng_color_points(&mut rng, MAX_POINTS, len).unwrap();
            assert!(points.len() >= usize::min(len, MIN_POINTS));
            assert!(points.len() < MAX_POINTS);
            for p in &points {
                assert!(p.color < len);
                assert!(p.u < COORD_DENOM && p.v < COORD_DENOM);
            }
        }
    }
}

#[test]
fn empty_palette_is_rejected() {
    let mut rng = seeded(3);
    assert_eq!(rng_color_points(&mut rng, MAX_POINTS, 0), Err(SampleError::EmptyPalette));
}

#[test]
fn empty_count_range_takes_the_floor() {
    let mut rng = seeded(5);
    assert_eq!(anchor_count(&mut rng, 5, 3), 3);
    assert_eq!(anchor_count(&mut rng, 2, 1), 2);
    assert_eq!(anchor_count(&mut rng, 7, 0), 3);
}

#[test]
fn drawn_count_lies_in_range() {
    let mut seen = [false; MAX_POINTS];
    for seed in 0..200u64 {
        let mut rng = seeded(seed);
        let n = anchor_count(&mut rng, 4, MAX_POINTS);
        assert!((3..MAX_POINTS).contains(&n));
        seen[n] = true;
    }
    assert!(seen[3..].iter().all(|s| *s));
}

#[test]
fn same_seed_gives_same_anchors_and_base() {
    let mut a = seeded(1234);
    let mut b = seeded(1234);
    let pa = rng_color_points(&mut a, MAX_POINTS, 4).unwrap();
    let pb = rng_color_points(&mut b, MAX_POINTS, 4).unwrap();
    assert_eq!(pa, pb);
    assert_eq!(select_base(&mut a, &pa), select_base(&mut b, &pb));
}

#[test]
fn anchors_follow_the_generator_stream() {
    let mut rng = seeded(77);
    let points = rng_color_points(&mut rng, MAX_POINTS, 5).unwrap();
    let mut reference = SmallRng::seed_from_u64(77);
    let n = reference.gen_range(3..MAX_POINTS);
    assert_eq!(points.len(), n);
    let palette: Vec<usize> = (0..5).collect();
    for p in &points {
        let c = *palette.choose(&mut reference).unwrap();
        let u: f64 = reference.gen();
        let v: f64 = reference.gen();
        assert_eq!(p.color, c);
        assert_eq!(unit(p.u), u);
        assert_eq!(unit(p.v), v);
    }
}

#[test]
fn base_is_the_color_of_some_anchor() {
    for seed in 0..30u64 {
        let mut rng = seeded(seed);
        let points = rng_color_points(&mut rng, MAX_POINTS, 6).unwrap();
        let base = select_base(&mut rng, &points).unwrap();
        assert!(points.iter().any(|p| p.color == base));
    }
}

#[test]
fn base_of_no_anchors_is_black_fallback() {
    let mut rng = seeded(9);
    assert_eq!(select_base(&mut rng, &Vec::new()), None);
}

#[test]
fn single_color_palette_gives_one_color_everywhere() {
    let mut rng = seeded(42);
    let points = rng_color_points(&mut rng, MAX_POINTS, 1).unwrap();
    assert!(!points.is_empty());
    assert!(points.iter().all(|p| p.color == 0));
    assert_eq!(select_base(&mut rng, &points), Some(0));
}

#[test]
fn red_two_by_one_scenario() {
    let palette = [[1.0, 0.0, 0.0]];
    let mut rng = seeded(42);
    let points = rng_color_points(&mut rng, MAX_POINTS, 1).unwrap();
    let base = palette[select_base(&mut rng, &points).unwrap()];
    let buf = render(2, 1, |s| blend(&points, &palette, base, 2, 1, s)).unwrap();
    assert_eq!(buf, vec![255, 0, 0, 255, 0, 0]);
}

#[test]
fn empty_dimensions_give_empty_buffer() {
    assert_eq!(render(0, 7, |_| 1u8), Ok(Vec::new()));
    assert_eq!(render(7, 0, |_| 1u8), Ok(Vec::new()));
    assert_eq!(buffer_len(0, 0), Ok(0));
}

#[test]
fn buffer_length_is_three_bytes_per_pixel() {
    assert_eq!(buffer_len(2, 1), Ok(6));
    assert_eq!(buffer_len(640, 480), Ok(921600));
    assert_eq!(render(5, 3, |_| 0u8).unwrap().len(), 45);
}

#[test]
fn oversized_dimensions_overflow() {
    assert_eq!(buffer_len(u32::MAX, u32::MAX), Err(RenderError::DimensionOverflow));
    assert_eq!(render(u32::MAX, u32::MAX, |_| 0u8), Err(RenderError::DimensionOverflow));
}

#[test]
fn sites_are_row_major_and_interleaved() {
    assert_eq!(pixel_site(0, 4, 2), PixelSite { x: 0, y: 0, channel: 0 });
    assert_eq!(pixel_site(4, 2, 1), PixelSite { x: 1, y: 0, channel: 1 });
    assert_eq!(pixel_site(14, 4, 2), PixelSite { x: 0, y: 1, channel: 2 });
    assert_eq!(pixel_site(23, 4, 2), PixelSite { x: 3, y: 1, channel: 2 });
}

#[test]
fn render_places_each_site_at_its_byte() {
    let buf = render(3, 2, |s| (s.y * 100 + s.x * 10) as u8 + s.channel as u8).unwrap();
    assert_eq!(buf, vec![0, 1, 2, 10, 11, 12, 20, 21, 22, 100, 101, 102, 110, 111, 112, 120, 121, 122]);
}

#[test]
fn any_evaluation_order_gives_the_same_buffer() {
    let palette = [[0.9, 0.2, 0.1], [0.1, 0.8, 0.3], [0.2, 0.3, 1.0]];
    let mut rng = seeded(2024);
    let points = rng_color_points(&mut rng, MAX_POINTS, 3).unwrap();
    let base = palette[select_base(&mut rng, &points).unwrap()];
    let (w, h) = (17u32, 11u32);
    let sequential = render(w, h, |s| blend(&points, &palette, base, w, h, s)).unwrap();
    let n = buffer_len(w, h).unwrap();
    let mut reversed = vec![0u8; n];
    for i in (0..n).rev() {
        reversed[i] = blend(&points, &palette, base, w, h, pixel_site(i, w, h));
    }
    assert_eq!(sequential, reversed);
}

#[test]
fn coordinates_keep_the_top_53_bits() {
    assert_eq!(coord_from_bits(4096), 2);
    assert_eq!(coord_from_bits(2047), 0);
    assert_eq!(coord_from_bits(u64::MAX), COORD_DENOM - 1);
}

#[test]
fn entropy_generator_can_be_made() {
    assert!(new_rng(None).is_ok());
}

#[test]
fn seeded_generator_replays_the_seed_stream() {
    let mut ours = seeded(42);
    let mut reference = SmallRng::seed_from_u64(42);
    for _ in 0..16 {
        assert_eq!(ours.gen::<u64>(), reference.gen::<u64>());
    }
}

#[test]
fn empty_palette_leaves_generator_untouched() {
    let mut rng = seeded(11);
    let mut reference = SmallRng::seed_from_u64(11);
    assert!(rng_color_points(&mut rng, MAX_POINTS, 0).is_err());
    assert_eq!(rng.gen::<u64>(), reference.gen::<u64>());
}
