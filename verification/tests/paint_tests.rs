use chromaticity::color_choice::{ColorSpaceChoice, ObserverChoice};
use chromaticity::paint_plan::{draw_calls, hue_line_hues, DrawCall};
use chromaticity::selection::DiagramSelection;
use chromaticity::vertex_cache::VertexCache;
use std::cell::Cell;

#[test]
fn hue_lines_every_twenty_degrees() {
    let hues = hue_line_hues();
    let expected: Vec<u32> = (1..=360).step_by(20).collect();
    assert_eq!(hues, expected);
    assert_eq!(hues.len(), 18);
    assert_eq!(hues[0], 1);
    assert_eq!(hues[17], 341);
}

#[test]
fn frame_draws_background_gamut_then_lines() {
    let calls = draw_calls(241, &vec![5, 7]);
    assert_eq!(
        calls,
        vec![
            DrawCall::Background { index_count: 241 },
            DrawCall::GamutTriangle,
            DrawCall::HueLine { line: 0, vertex_count: 5 },
            DrawCall::HueLine { line: 1, vertex_count: 7 },
        ]
    );
    assert_eq!(draw_calls(0, &vec![]), vec![DrawCall::Background { index_count: 0 }, DrawCall::GamutTriangle]);
}

#[test]
fn cache_computes_once_per_selection() {
    let calls = Cell::new(0);
    let mut cache: VertexCache<u32> = VertexCache::new();
    let a = DiagramSelection { observer: ObserverChoice::Cie1931, colorspace: ColorSpaceChoice::Srgb };
    let b = DiagramSelection { observer: ObserverChoice::Cie1964, colorspace: ColorSpaceChoice::Srgb };
    assert!(!cache.contains(a));
    assert_eq!(cache.get(a), None);
    assert!(cache.ensure_with(a, || {
        calls.set(calls.get() + 1);
        10
    }));
    assert!(!cache.ensure_with(a, || {
        calls.set(calls.get() + 1);
        20
    }));
    assert_eq!(calls.get(), 1);
    assert_eq!(cache.get(a), Some(&10));
    assert!(!cache.contains(b));
    assert!(cache.ensure_with(b, || 30));
    assert_eq!(cache.get(a), Some(&10));
    assert_eq!(cache.get(b), Some(&30));
}
