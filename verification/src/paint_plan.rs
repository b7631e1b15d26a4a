//! What one frame of the diagram draws, and which CIECAM16 hue lines the
//! diagram holds.
//!
//! A frame fills the diagram with its triangle strip, outlines the gamut
//! triangle of the selected RGB space, and then draws each hue line.

use vstd::prelude::*;

verus! {

/// The first hue, in degrees, for which a hue line is drawn.
pub const FIRST_HUE: u32 = 1;

/// The last hue, in degrees, that a hue line may have.
pub const LAST_HUE: u32 = 360;

/// The spacing, in degrees, of the hue lines.
pub const HUE_STEP: u32 = 20;

/// Whether a hue line is drawn for hue `h`: the hues from `FIRST_HUE` to
/// `LAST_HUE`, every `HUE_STEP` degrees.
pub open spec fn is_hue_line_hue(h: int) -> bool {
    FIRST_HUE <= h <= LAST_HUE && (h - FIRST_HUE) % (HUE_STEP as int) == 0
}

/// The hues of the hue lines, in increasing order.
pub open spec fn hue_line_hue_seq() -> Seq<u32> {
    Seq::new(18, |i: int| (FIRST_HUE + HUE_STEP * i) as u32)
}

/// Lists the hues, in degrees, for which the diagram draws a hue line.
pub fn hue_line_hues() -> (hues: Vec<u32>)
    ensures
        hues@ == hue_line_hue_seq(),
        hues@.len() == (LAST_HUE - FIRST_HUE) / (HUE_STEP as int) + 1,
        forall|i: int| 0 <= i < hues@.len() ==> #[trigger] hues@[i] == FIRST_HUE + HUE_STEP * i,
{
    let mut hues: Vec<u32> = Vec::new();
    let mut hue: u32 = FIRST_HUE;
    while hue <= LAST_HUE
        invariant
            FIRST_HUE <= hue <= LAST_HUE + HUE_STEP,
            (hue - FIRST_HUE) % (HUE_STEP as int) == 0,
            hues@.len() == (hue - FIRST_HUE) / (HUE_STEP as int),
            forall|i: int| 0 <= i < hues@.len() ==> hues@[i] == FIRST_HUE + HUE_STEP * i,
        decreases LAST_HUE + HUE_STEP - hue,
    {
        hues.push(hue);
        hue = hue + HUE_STEP;
    }
    assert(hues@ =~= hue_line_hue_seq());
    hues
}

/// The hue lines are exactly the hues `FIRST_HUE`, `FIRST_HUE + HUE_STEP`,
/// ... up to `LAST_HUE`, each once and in increasing order.
pub proof fn lemma_hue_lines_are_every_step()
    ensures
        forall|i: int| 0 <= i < hue_line_hue_seq().len() ==> is_hue_line_hue(#[trigger] hue_line_hue_seq()[i] as int),
        forall|h: int| #[trigger] is_hue_line_hue(h) ==> hue_line_hue_seq().contains(h as u32),
        forall|i: int, j: int|
            0 <= i < j < hue_line_hue_seq().len() ==> hue_line_hue_seq()[i] < hue_line_hue_seq()[j],
{
    assert forall|h: int| #[trigger] is_hue_line_hue(h) implies hue_line_hue_seq().contains(h as u32) by {
        let i = (h - FIRST_HUE) / (HUE_STEP as int);
        assert(0 <= i < 18);
        assert(hue_line_hue_seq()[i] == h);
    }
}

/// One draw call of a frame.
#[derive(Clone, Copy, Debug, PartialEq, Eq)]
pub enum DrawCall {
    /// Fill the diagram: its index buffer as a triangle strip of
    /// `index_count` indices.
    Background { index_count: i32 },
    /// Outline the gamut of the RGB space: its three vertices as a closed
    /// line loop of width 1.5.
    GamutTriangle,
    /// Draw hue line `line`: its `vertex_count` vertices as a line strip of
    /// width 2.
    HueLine { line: usize, vertex_count: i32 },
}

/// The draw calls of a frame, for a background strip of
/// `background_index_count` indices and hue lines with the given vertex
/// counts.
pub open spec fn frame_draw_calls(background_index_count: i32, hue_line_vertex_counts: Seq<i32>) -> Seq<
    DrawCall,
> {
    seq![DrawCall::Background { index_count: background_index_count }, DrawCall::GamutTriangle]
        + Seq::new(
        hue_line_vertex_counts.len(),
        |i: int| DrawCall::HueLine { line: i as usize, vertex_count: hue_line_vertex_counts[i] },
    )
}

/// Plans the draw calls of one frame: the background first, then the gamut
/// triangle on top of it, then the hue lines in their order.
pub fn draw_calls(background_index_count: i32, hue_line_vertex_counts: &Vec<i32>) -> (calls: Vec<
    DrawCall,
>)
    ensures
        calls@ == frame_draw_calls(background_index_count, hue_line_vertex_counts@),
        calls@.len() == hue_line_vertex_counts@.len() + 2,
        calls@[0] == (DrawCall::Background { index_count: background_index_count }),
        calls@[1] == DrawCall::GamutTriangle,
        forall|line: int|
            0 <= line < hue_line_vertex_counts@.len() ==> #[trigger] calls@[line + 2] == (DrawCall::HueLine {
                line: line as usize,
                vertex_count: hue_line_vertex_counts@[line],
            }),
{
    let mut calls: Vec<DrawCall> = Vec::new();
    calls.push(DrawCall::Background { index_count: background_index_count });
    calls.push(DrawCall::GamutTriangle);
    let mut line: usize = 0;
    while line < hue_line_vertex_counts.len()
        invariant
            line <= hue_line_vertex_counts@.len(),
            calls@ =~= frame_draw_calls(background_index_count, hue_line_vertex_counts@.take(line as int)),
        decreases hue_line_vertex_counts@.len() - line,
    {
        calls.push(DrawCall::HueLine { line, vertex_count: hue_line_vertex_counts[line] });
        line += 1;
        assert(calls@ =~= frame_draw_calls(background_index_count, hue_line_vertex_counts@.take(line as int)));
    }
    assert(hue_line_vertex_counts@.take(line as int) =~= hue_line_vertex_counts@);
    calls
}

/// Each frame draws the background before anything else, the gamut
/// triangle next, and each hue line exactly once, with its own vertex
/// count.
pub proof fn lemma_frame_draws_each_line_once(background_index_count: i32, hue_line_vertex_counts: Seq<i32>)
    requires
        hue_line_vertex_counts.len() <= usize::MAX,
    ensures
        frame_draw_calls(background_index_count, hue_line_vertex_counts).len() == hue_line_vertex_counts.len() + 2,
        frame_draw_calls(background_index_count, hue_line_vertex_counts)[0] == (DrawCall::Background {
            index_count: background_index_count,
        }),
        frame_draw_calls(background_index_count, hue_line_vertex_counts)[1] == DrawCall::GamutTriangle,
        forall|line: int, j: int|
            0 <= line < hue_line_vertex_counts.len() && 0 <= j < hue_line_vertex_counts.len() + 2 ==> (
            (#[trigger] frame_draw_calls(background_index_count, hue_line_vertex_counts)[j] == (DrawCall::HueLine {
                line: line as usize,
                vertex_count: #[trigger] hue_line_vertex_counts[line],
            })) <==> j == line + 2),
{
    let calls = frame_draw_calls(background_index_count, hue_line_vertex_counts);
    assert forall|line: int, j: int|
        0 <= line < hue_line_vertex_counts.len() && 0 <= j < hue_line_vertex_counts.len() + 2 implies (
        (#[trigger] frame_draw_calls(background_index_count, hue_line_vertex_counts)[j] == (DrawCall::HueLine {
            line: line as usize,
            vertex_count: #[trigger] hue_line_vertex_counts[line],
        })) <==> j == line + 2) by {
        if j >= 2 {
            assert(calls[j] == DrawCall::HueLine {
                line: (j - 2) as usize,
                vertex_count: hue_line_vertex_counts[j - 2],
            });
        }
    }
}

} // verus!
