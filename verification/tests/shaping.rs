//! Tests of the shaping adaptation core: scaling, extraction, accumulation,
//! break-safety decoding, and the two entry points.

use skribo::geom::scale_component;
use skribo::session::{FontRef, LayoutError, TextStyle};
use skribo::shaping::{
    build_fragment, extract_glyphs, layout_fragment, layout_run, GlyphInfo, GlyphPos,
};

fn info(glyph_id: u32, cluster: u32, flags: u32) -> GlyphInfo {
    GlyphInfo {
        glyph_id,
        cluster,
        flags,
    }
}

fn pos(x_advance: i32, y_advance: i32, x_offset: i32, y_offset: i32) -> GlyphPos {
    GlyphPos {
        x_advance,
        y_advance,
        x_offset,
        y_offset,
    }
}

#[test]
fn scale_full_em_is_size() {
    // A raw advance of one full em must scale to exactly the style size.
    assert_eq!(scale_component(1000, 24, 1000), 24);
    assert_eq!(scale_component(2048, 36, 2048), 36);
}

#[test]
fn scale_zero_is_zero() {
    assert_eq!(scale_component(0, 24, 1000), 0);
    assert_eq!(scale_component(1000, 0, 1000), 0);
}

#[test]
fn scale_truncates_toward_zero() {
    assert_eq!(scale_component(7, 1, 2), 3);
    assert_eq!(scale_component(-7, 1, 2), -3);
    assert_eq!(scale_component(-1000, 24, 1000), -24);
}

#[test]
fn scale_half_em() {
    assert_eq!(scale_component(500, 24, 1000), 12);
}

#[test]
fn empty_input_yields_empty_fragment() {
    let style = TextStyle { size: 24 };
    let font = FontRef { units_per_em: 1000 };
    let infos: Vec<GlyphInfo> = Vec::new();
    let positions: Vec<GlyphPos> = Vec::new();
    let frag = layout_fragment(&style, &font, 5, 0, &infos, &positions).unwrap();
    assert_eq!(frag.glyphs.len(), 0);
    assert_eq!(frag.advance.x, 0);
    assert_eq!(frag.advance.y, 0);
    assert_eq!(frag.substr_len, 0);

    let lay = layout_run(&style, &font, &infos, &positions).unwrap();
    assert_eq!(lay.glyphs.len(), 0);
    assert_eq!(lay.advance.x, 0);
    assert_eq!(lay.advance.y, 0);
}

#[test]
fn advance_is_sum_of_glyph_advances() {
    let style = TextStyle { size: 10 };
    let font = FontRef { units_per_em: 10 };
    let infos = vec![info(1, 0, 0), info(2, 1, 0), info(3, 2, 0)];
    let positions = vec![pos(5, 1, 0, 0), pos(7, 2, 0, 0), pos(11, 3, 0, 0)];
    let frag = layout_fragment(&style, &font, 5, 3, &infos, &positions).unwrap();
    // units_per_em == size, so raw values pass through unscaled.
    let mut sum_x: i128 = 0;
    let mut sum_y: i128 = 0;
    for g in &frag.glyphs {
        sum_x += g.advance.x;
        sum_y += g.advance.y;
    }
    assert_eq!(frag.advance.x, sum_x);
    assert_eq!(frag.advance.y, sum_y);
    assert_eq!(frag.advance.x, 23);
    assert_eq!(frag.advance.y, 6);
}

#[test]
fn offset_is_prefix_advance_plus_own_offset() {
    let style = TextStyle { size: 10 };
    let font = FontRef { units_per_em: 10 };
    let infos = vec![info(1, 0, 0), info(2, 1, 0), info(3, 2, 0)];
    // advances 10, 20, 30; own offsets 1, 2, 3 on x.
    let positions = vec![pos(10, 0, 1, 5), pos(20, 0, 2, 6), pos(30, 0, 3, 7)];
    let frag = layout_fragment(&style, &font, 5, 3, &infos, &positions).unwrap();
    assert_eq!(frag.glyphs[0].offset.x, 1); // 0 + 1
    assert_eq!(frag.glyphs[1].offset.x, 12); // 10 + 2
    assert_eq!(frag.glyphs[2].offset.x, 33); // 10 + 20 + 3
    assert_eq!(frag.glyphs[0].offset.y, 5);
    assert_eq!(frag.glyphs[1].offset.y, 6);
    assert_eq!(frag.glyphs[2].offset.y, 7);
}

#[test]
fn scale_correctness_through_fragment() {
    // unitsPerEm U, size S: raw advance (U, 0) scales to (S, 0).
    let style = TextStyle { size: 17 };
    let font = FontRef { units_per_em: 2048 };
    let infos = vec![info(1, 0, 0)];
    let positions = vec![pos(2048, 0, 0, 0)];
    let frag = layout_fragment(&style, &font, 5, 1, &infos, &positions).unwrap();
    assert_eq!(frag.glyphs[0].advance.x, 17);
    assert_eq!(frag.glyphs[0].advance.y, 0);
    assert_eq!(frag.advance.x, 17);
    assert_eq!(frag.advance.y, 0);
}

#[test]
fn cluster_ids_preserved_in_order() {
    let style = TextStyle { size: 12 };
    let font = FontRef { units_per_em: 12 };
    let infos = vec![info(1, 0, 0), info(2, 0, 0), info(3, 3, 0), info(4, 5, 0)];
    let positions = vec![
        pos(1, 0, 0, 0),
        pos(1, 0, 0, 0),
        pos(1, 0, 0, 0),
        pos(1, 0, 0, 0),
    ];
    let frag = layout_fragment(&style, &font, 5, 6, &infos, &positions).unwrap();
    let clusters: Vec<u32> = frag.glyphs.iter().map(|g| g.cluster).collect();
    assert_eq!(clusters, vec![0, 0, 3, 5]);
    // Non-decreasing, as a left-to-right run's output must be.
    for w in clusters.windows(2) {
        assert!(w[0] <= w[1]);
    }
}

#[test]
fn break_flag_set_propagates() {
    let style = TextStyle { size: 12 };
    let font = FontRef { units_per_em: 12 };
    let infos = vec![info(1, 0, 1), info(2, 1, 0), info(3, 2, 2)];
    let positions = vec![pos(1, 0, 0, 0), pos(1, 0, 0, 0), pos(1, 0, 0, 0)];
    let frag = layout_fragment(&style, &font, 5, 3, &infos, &positions).unwrap();
    assert!(frag.glyphs[0].unsafe_to_break);
    assert!(!frag.glyphs[1].unsafe_to_break);
    // Another bit in the mask is not the unsafe-to-break bit.
    assert!(!frag.glyphs[2].unsafe_to_break);
}

#[test]
fn zero_units_per_em_is_rejected() {
    let style = TextStyle { size: 24 };
    let font = FontRef { units_per_em: 0 };
    let infos = vec![info(1, 0, 0)];
    let positions = vec![pos(1000, 0, 0, 0)];
    assert_eq!(
        layout_fragment(&style, &font, 5, 1, &infos, &positions).unwrap_err(),
        LayoutError::InvalidUnitsPerEm
    );
    assert_eq!(
        layout_run(&style, &font, &infos, &positions).unwrap_err(),
        LayoutError::InvalidUnitsPerEm
    );
}

#[test]
fn same_inputs_shape_identically() {
    let style = TextStyle { size: 14 };
    let font = FontRef { units_per_em: 1000 };
    let infos = vec![info(1, 0, 1), info(2, 2, 0)];
    let positions = vec![pos(600, 10, 3, -4), pos(-550, 0, -7, 8)];
    let a = layout_fragment(&style, &font, 9, 4, &infos, &positions).unwrap();
    let b = layout_fragment(&style, &font, 9, 4, &infos, &positions).unwrap();
    assert_eq!(a.glyphs, b.glyphs);
    assert_eq!(a.advance, b.advance);
    assert_eq!(a.substr_len, b.substr_len);
    assert_eq!(a.script, b.script);
    assert_eq!(a.font, b.font);
}

#[test]
fn parallel_arrays_clamp_to_shorter() {
    let style = TextStyle { size: 10 };
    let font = FontRef { units_per_em: 10 };
    let infos = vec![info(1, 0, 0), info(2, 1, 0), info(3, 2, 0)];
    let positions = vec![pos(10, 0, 0, 0), pos(20, 0, 0, 0)];
    let frag = layout_fragment(&style, &font, 5, 3, &infos, &positions).unwrap();
    assert_eq!(frag.glyphs.len(), 2);
    assert_eq!(frag.advance.x, 30);

    let two_infos = vec![info(1, 0, 0), info(2, 1, 0)];
    let one_pos = vec![pos(4, 0, 0, 0)];
    let extracted = extract_glyphs(&two_infos, &one_pos, 10, 10);
    assert_eq!(extracted.len(), 1);
}

#[test]
fn extraction_scales_each_entry() {
    let extracted = extract_glyphs(
        &vec![info(9, 4, 1)],
        &vec![pos(1000, -500, 250, -250)],
        24,
        1000,
    );
    assert_eq!(extracted.len(), 1);
    assert_eq!(extracted[0].glyph_id, 9);
    assert_eq!(extracted[0].cluster, 4);
    assert!(extracted[0].unsafe_to_break);
    assert_eq!(extracted[0].advance.x, 24);
    assert_eq!(extracted[0].advance.y, -12);
    assert_eq!(extracted[0].offset.x, 6);
    assert_eq!(extracted[0].offset.y, -6);
}

#[test]
fn fragment_metadata_carried() {
    let style = TextStyle { size: 10 };
    let font = FontRef { units_per_em: 20 };
    let infos = vec![info(1, 0, 0)];
    let positions = vec![pos(40, 0, 0, 0)];
    let frag = layout_fragment(&style, &font, 77, 13, &infos, &positions).unwrap();
    assert_eq!(frag.script, 77);
    assert_eq!(frag.substr_len, 13);
    assert_eq!(frag.font, font);
    assert_eq!(frag.glyphs[0].advance.x, 20);
}

#[test]
fn build_fragment_from_extracted_records() {
    let shaped = extract_glyphs(
        &vec![info(1, 0, 0), info(2, 3, 1)],
        &vec![pos(10, 0, 0, 0), pos(20, 0, 5, 0)],
        10,
        10,
    );
    let font = FontRef { units_per_em: 10 };
    let frag = build_fragment(&font, 42, 6, &shaped);
    assert_eq!(frag.glyphs.len(), 2);
    assert_eq!(frag.glyphs[1].offset.x, 15);
    assert_eq!(frag.advance.x, 30);
    assert!(frag.glyphs[1].unsafe_to_break);
}

#[test]
fn layout_run_simple_path() {
    let style = TextStyle { size: 10 };
    let font = FontRef { units_per_em: 10 };
    let infos = vec![info(8, 0, 0), info(9, 1, 0)];
    let positions = vec![pos(12, 0, 1, 0), pos(14, 0, 2, 0)];
    let lay = layout_run(&style, &font, &infos, &positions).unwrap();
    assert_eq!(lay.size, 10);
    assert_eq!(lay.glyphs.len(), 2);
    assert_eq!(lay.glyphs[0].glyph_id, 8);
    assert_eq!(lay.glyphs[0].font, font);
    assert_eq!(lay.glyphs[0].offset.x, 1); // 0 + 1
    assert_eq!(lay.glyphs[1].offset.x, 14); // 12 + 2
    assert_eq!(lay.advance.x, 26);
}

#[test]
fn negative_advances_accumulate() {
    // A right-to-left-like synthetic run with negative x advances.
    let style = TextStyle { size: 10 };
    let font = FontRef { units_per_em: 10 };
    let infos = vec![info(1, 0, 0), info(2, 1, 0)];
    let positions = vec![pos(-10, 0, 0, 0), pos(-5, 0, 1, 0)];
    let frag = layout_fragment(&style, &font, 5, 2, &infos, &positions).unwrap();
    assert_eq!(frag.glyphs[1].offset.x, -9); // -10 + 1
    assert_eq!(frag.advance.x, -15);
}
