use lastui::layout::{centered_rect, Area};
use ratatui::layout::{Constraint, Layout, Rect};

fn reference(area: Rect, width: u16, height: u16) -> Rect {
    let horizontal = Layout::horizontal([Constraint::Fill(1), Constraint::Length(width), Constraint::Fill(1)]).split(area);
    let vertical = Layout::vertical([Constraint::Fill(1), Constraint::Length(height), Constraint::Fill(1)]).split(horizontal[1]);
    vertical[1]
}

#[test]
fn popup_is_centred() {
    let a = centered_rect(Area { x: 0, y: 0, width: 100, height: 40 }, 50, 10);
    assert_eq!(a, Area { x: 25, y: 15, width: 50, height: 10 });
}

#[test]
fn popup_matches_ratatui() {
    for (w, h) in [(80u16, 24u16), (30, 8), (51, 11), (200, 60), (0, 0)] {
        let r = reference(Rect { x: 2, y: 3, width: w, height: h }, 50, 10);
        let a = centered_rect(Area { x: 2, y: 3, width: w, height: h }, 50, 10);
        assert_eq!((a.x, a.y, a.width, a.height), (r.x, r.y, r.width, r.height));
    }
}

#[test]
fn popup_has_requested_size_and_is_centred() {
    let mut w: u16 = 0;
    while w <= 160 {
        let mut h: u16 = 0;
        while h <= 60 {
            for (pw, ph) in [(50u16, 10u16), (w, h), (w / 3, h / 2), (1, 1), (0, 0)] {
                if pw <= w && ph <= h {
                    let a = centered_rect(Area { x: 7, y: 4, width: w, height: h }, pw, ph);
                    assert_eq!((a.width, a.height), (pw, ph), "area {}x{} popup {}x{}", w, h, pw, ph);
                    let left = 2 * (a.x - 7) as i32;
                    let top = 2 * (a.y - 4) as i32;
                    assert!((w - pw) as i32 <= left && left <= (w - pw) as i32 + 1);
                    assert!((h - ph) as i32 <= top && top <= (h - ph) as i32 + 1);
                }
            }
            h += 3;
        }
        w += 5;
    }
}
