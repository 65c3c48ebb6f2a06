use lastui::colors::{boost_color, darken_color};

fn clamp_channel(value: f32) -> u8 {
    value.clamp(0.0, 255.0).round() as u8
}

fn scale_channel(value: u8, amount: f32) -> u8 {
    clamp_channel(value as f32 * amount)
}

fn saturate([r, g, b]: [u8; 3], amount: f32) -> [u8; 3] {
    let luma = 0.299 * r as f32 + 0.587 * g as f32 + 0.114 * b as f32;
    [
        clamp_channel(luma + (r as f32 - luma) * amount),
        clamp_channel(luma + (g as f32 - luma) * amount),
        clamp_channel(luma + (b as f32 - luma) * amount),
    ]
}

fn float_boost(c: [u8; 3]) -> [u8; 3] {
    let [r, g, b] = saturate(c, 1.22);
    [scale_channel(r, 1.08), scale_channel(g, 1.08), scale_channel(b, 1.08)]
}

fn float_darken([r, g, b]: [u8; 3]) -> [u8; 3] {
    [scale_channel(r, 0.45), scale_channel(g, 0.45), scale_channel(b, 0.45)]
}

#[test]
fn darken_matches_single_precision_everywhere() {
    for v in 0..=255u8 {
        let c = [v, 255 - v, v / 2];
        assert_eq!(darken_color(c), float_darken(c), "pixel {:?}", c);
    }
    assert_eq!(darken_color([10, 100, 255]), [5, 45, 115]);
}

#[test]
fn boost_matches_single_precision_on_rounding_edges() {
    let edges: [[u8; 3]; 36] = [
        [22, 142, 62], [26, 146, 66], [30, 150, 70], [41, 161, 81], [45, 165, 85], [71, 191, 111],
        [82, 202, 122], [91, 211, 131], [93, 213, 133], [99, 103, 17], [101, 221, 141], [110, 230, 150],
        [115, 119, 33], [119, 123, 37], [120, 240, 160], [121, 29, 7], [121, 241, 161], [124, 128, 42],
        [125, 33, 11], [126, 130, 44], [129, 249, 169], [131, 251, 171], [134, 138, 52], [145, 149, 63],
        [146, 150, 64], [157, 161, 75], [175, 179, 93], [184, 188, 102], [193, 197, 111], [194, 198, 112],
        [195, 199, 113], [213, 217, 131], [215, 219, 133], [222, 226, 140], [223, 227, 141], [226, 230, 144],
    ];
    for c in edges {
        assert_eq!(boost_color(c), float_boost(c), "pixel {:?}", c);
    }
    assert_eq!(saturate([22, 142, 62], 1.22), [5, 152, 54]);
}

#[test]
fn boost_matches_single_precision_on_a_grid() {
    let mut r = 0u32;
    while r <= 255 {
        let mut g = 0u32;
        while g <= 255 {
            let mut b = 0u32;
            while b <= 255 {
                let c = [r as u8, g as u8, b as u8];
                assert_eq!(boost_color(c), float_boost(c), "pixel {:?}", c);
                b += 5;
            }
            g += 5;
        }
        r += 5;
    }
}

#[test]
fn boost_known_values() {
    assert_eq!(boost_color([0, 0, 0]), [0, 0, 0]);
    assert_eq!(boost_color([255, 255, 255]), float_boost([255, 255, 255]));
    assert_eq!(boost_color([255, 0, 0]), float_boost([255, 0, 0]));
    let grey = boost_color([100, 100, 100]);
    assert_eq!(grey[0], grey[1]);
    assert_eq!(grey[1], grey[2]);
}

#[test]
fn boost_matches_single_precision_on_an_offset_grid() {
    let mut r = 1u32;
    while r <= 255 {
        let mut g = 2u32;
        while g <= 255 {
            let mut b = 3u32;
            while b <= 255 {
                let c = [r as u8, g as u8, b as u8];
                assert_eq!(boost_color(c), float_boost(c), "pixel {:?}", c);
                b += 4;
            }
            g += 6;
        }
        r += 6;
    }
}

#[test]
fn greys_are_brightened_greys() {
    for v in 0..=255u8 {
        let w = (v as f32 * 1.08).min(255.0).round() as u8;
        assert_eq!(boost_color([v, v, v]), [w, w, w], "grey {}", v);
    }
}

#[test]
fn channel_order_is_kept() {
    for c in [[10u8, 200, 90], [255, 0, 128], [3, 3, 250], [120, 121, 122], [0, 255, 255]] {
        let f = boost_color(c);
        let b = darken_color(c);
        for i in 0..3 {
            for j in 0..3 {
                if c[i] <= c[j] {
                    assert!(f[i] <= f[j] && b[i] <= b[j], "pixel {:?}", c);
                }
            }
        }
    }
}
