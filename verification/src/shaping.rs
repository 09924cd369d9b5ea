//! Extraction of shaped glyphs from the engine's parallel output arrays,
//! and assembly of runs and fragments.

use vstd::prelude::*;

use crate::geom::{scale_component, scale_val, vec2_in_range, Vec2};
use crate::session::{FontRef, FragmentGlyph, Glyph, Layout, LayoutError, LayoutFragment, TextStyle};

verus! {

/// The bit of a glyph-info flag word that marks a glyph as unsafe to break
/// before; the value the shaping engine reserves for that flag.
pub const UNSAFE_TO_BREAK_FLAG: u32 = 1;

/// One entry of the engine's glyph-info array, as plain values.
#[derive(Clone, Copy, Debug, PartialEq, Eq, Structural)]
pub struct GlyphInfo {
    /// The engine-assigned glyph index.
    pub glyph_id: u32,
    /// Byte offset of the source cluster this glyph came from.
    pub cluster: u32,
    /// The engine's per-glyph flag bitmask.
    pub flags: u32,
}

/// One entry of the engine's glyph-position array, in font design units.
#[derive(Clone, Copy, Debug, PartialEq, Eq, Structural)]
pub struct GlyphPos {
    pub x_advance: i32,
    pub y_advance: i32,
    pub x_offset: i32,
    pub y_offset: i32,
}

/// An extracted glyph record: engine data with positions already scaled to
/// device units, but offsets not yet accumulated.
#[derive(Clone, Copy, Debug, PartialEq, Eq, Structural)]
pub struct ShapedGlyph {
    pub glyph_id: u32,
    pub cluster: u32,
    /// This glyph's own advance, scaled.
    pub advance: Vec2,
    /// This glyph's own offset from the pen position, scaled.
    pub offset: Vec2,
    /// Decoded from the engine's flag bitmask.
    pub unsafe_to_break: bool,
}

/// The smaller of two lengths: how many entries the two parallel arrays
/// can be trusted to share.
pub open spec fn min_len(a: int, b: int) -> int {
    if a <= b {
        a
    } else {
        b
    }
}

/// An extracted record within the component range scaling guarantees.
pub open spec fn shaped_in_range(g: ShapedGlyph) -> bool {
    &&& vec2_in_range(g.advance)
    &&& vec2_in_range(g.offset)
}

/// What extraction makes of one pair of parallel entries.
pub open spec fn glyph_extracted(g: ShapedGlyph, info: GlyphInfo, pos: GlyphPos, size: int, upem: int) -> bool {
    &&& g.glyph_id == info.glyph_id
    &&& g.cluster == info.cluster
    &&& g.unsafe_to_break == ((info.flags & UNSAFE_TO_BREAK_FLAG) != 0)
    &&& g.advance.x == scale_val(pos.x_advance as int, size, upem)
    &&& g.advance.y == scale_val(pos.y_advance as int, size, upem)
    &&& g.offset.x == scale_val(pos.x_offset as int, size, upem)
    &&& g.offset.y == scale_val(pos.y_offset as int, size, upem)
}

/// Walk the engine's two parallel arrays together, clamped to the shorter
/// of the two reported lengths; scale each position entry and decode each
/// break-safety flag.
pub fn extract_glyphs(infos: &Vec<GlyphInfo>, positions: &Vec<GlyphPos>, size: u32, upem: u32) -> (r: Vec<ShapedGlyph>)
    requires
        upem >= 1,
    ensures
        r@.len() == min_len(infos@.len() as int, positions@.len() as int),
        forall|i: int| 0 <= i < r@.len() ==> glyph_extracted(
            #[trigger] r@[i],
            infos@[i],
            positions@[i],
            size as int,
            upem as int,
        ),
        forall|i: int| 0 <= i < r@.len() ==> shaped_in_range(#[trigger] r@[i]),
{
    let n: usize = if infos.len() <= positions.len() {
        infos.len()
    } else {
        positions.len()
    };
    let mut out: Vec<ShapedGlyph> = Vec::new();
    let mut i: usize = 0;
    while i < n
        invariant
            upem >= 1,
            i <= n,
            n == min_len(infos@.len() as int, positions@.len() as int),
            out@.len() == i,
            forall|j: int| 0 <= j < i ==> glyph_extracted(
                #[trigger] out@[j],
                infos@[j],
                positions@[j],
                size as int,
                upem as int,
            ),
            forall|j: int| 0 <= j < i ==> shaped_in_range(#[trigger] out@[j]),
        decreases n - i,
    {
        let info = infos[i];
        let pos = positions[i];
        let g = ShapedGlyph {
            glyph_id: info.glyph_id,
            cluster: info.cluster,
            advance: Vec2 {
                x: scale_component(pos.x_advance, size, upem),
                y: scale_component(pos.y_advance, size, upem),
            },
            offset: Vec2 {
                x: scale_component(pos.x_offset, size, upem),
                y: scale_component(pos.y_offset, size, upem),
            },
            unsafe_to_break: (info.flags & UNSAFE_TO_BREAK_FLAG) != 0,
        };
        out.push(g);
        i = i + 1;
    }
    out
}

/// Sum of the first `n` extracted advances, x component.
pub open spec fn sum_adv_x(s: Seq<ShapedGlyph>, n: int) -> int
    decreases n,
{
    if n <= 0 {
        0
    } else {
        sum_adv_x(s, n - 1) + s[n - 1].advance.x
    }
}

/// Sum of the first `n` extracted advances, y component.
pub open spec fn sum_adv_y(s: Seq<ShapedGlyph>, n: int) -> int
    decreases n,
{
    if n <= 0 {
        0
    } else {
        sum_adv_y(s, n - 1) + s[n - 1].advance.y
    }
}

/// Sum of the first `n` fragment glyphs' advances, x component.
pub open spec fn frag_adv_sum_x(gs: Seq<FragmentGlyph>, n: int) -> int
    decreases n,
{
    if n <= 0 {
        0
    } else {
        frag_adv_sum_x(gs, n - 1) + gs[n - 1].advance.x
    }
}

/// Sum of the first `n` fragment glyphs' advances, y component.
pub open spec fn frag_adv_sum_y(gs: Seq<FragmentGlyph>, n: int) -> int
    decreases n,
{
    if n <= 0 {
        0
    } else {
        frag_adv_sum_y(gs, n - 1) + gs[n - 1].advance.y
    }
}

/// Sum of the first `n` raw x advances, each scaled.
pub open spec fn scaled_adv_sum_x(ps: Seq<GlyphPos>, size: int, upem: int, n: int) -> int
    decreases n,
{
    if n <= 0 {
        0
    } else {
        scaled_adv_sum_x(ps, size, upem, n - 1) + scale_val(ps[n - 1].x_advance as int, size, upem)
    }
}

/// Sum of the first `n` raw y advances, each scaled.
pub open spec fn scaled_adv_sum_y(ps: Seq<GlyphPos>, size: int, upem: int, n: int) -> int
    decreases n,
{
    if n <= 0 {
        0
    } else {
        scaled_adv_sum_y(ps, size, upem, n - 1) + scale_val(ps[n - 1].y_advance as int, size, upem)
    }
}

/// What assembly makes of the `i`th extracted record: the identifying fields
/// carried over unchanged, and the stored offset equal to the pen position
/// before this glyph — the sum of the earlier advances — plus the glyph's
/// own offset.
pub open spec fn assembled_glyph(g: FragmentGlyph, s: Seq<ShapedGlyph>, i: int) -> bool {
    &&& g.glyph_id == s[i].glyph_id
    &&& g.cluster == s[i].cluster
    &&& g.unsafe_to_break == s[i].unsafe_to_break
    &&& g.advance == s[i].advance
    &&& g.offset.x == sum_adv_x(s, i) + s[i].offset.x
    &&& g.offset.y == sum_adv_y(s, i) + s[i].offset.y
}

/// Advance accumulation: a fragment's total advance is the vector sum of its
/// own glyphs' advances.
pub open spec fn fragment_advance_consistent(frag: LayoutFragment) -> bool {
    &&& frag.advance.x == frag_adv_sum_x(frag.glyphs@, frag.glyphs@.len() as int)
    &&& frag.advance.y == frag_adv_sum_y(frag.glyphs@, frag.glyphs@.len() as int)
}

/// A running total over in-range records grows by at most one component
/// limit per glyph.
proof fn lemma_sum_adv_bound(s: Seq<ShapedGlyph>, n: int)
    requires
        0 <= n <= s.len(),
        forall|i: int| 0 <= i < s.len() ==> shaped_in_range(#[trigger] s[i]),
    ensures
        -(n * 0x7FFF_FFFF_8000_0000) <= sum_adv_x(s, n) <= n * 0x7FFF_FFFF_8000_0000,
        -(n * 0x7FFF_FFFF_8000_0000) <= sum_adv_y(s, n) <= n * 0x7FFF_FFFF_8000_0000,
    decreases n,
{
    if n > 0 {
        lemma_sum_adv_bound(s, n - 1);
    }
}

/// Extraction preserves advance sums: summing the extracted advances gives
/// the sum of the scaled raw advances.
proof fn lemma_extracted_sums(
    s: Seq<ShapedGlyph>,
    infos: Seq<GlyphInfo>,
    positions: Seq<GlyphPos>,
    size: int,
    upem: int,
    n: int,
)
    requires
        0 <= n <= s.len(),
        n <= infos.len(),
        n <= positions.len(),
        forall|i: int| 0 <= i < n ==> glyph_extracted(#[trigger] s[i], infos[i], positions[i], size, upem),
    ensures
        sum_adv_x(s, n) == scaled_adv_sum_x(positions, size, upem, n),
        sum_adv_y(s, n) == scaled_adv_sum_y(positions, size, upem, n),
    decreases n,
{
    if n > 0 {
        lemma_extracted_sums(s, infos, positions, size, upem, n - 1);
    }
}

/// Pointwise-equal advances give equal sums.
proof fn lemma_frag_sums(gs: Seq<FragmentGlyph>, s: Seq<ShapedGlyph>, n: int)
    requires
        0 <= n <= gs.len(),
        n <= s.len(),
        forall|i: int| 0 <= i < n ==> (#[trigger] gs[i]).advance == s[i].advance,
    ensures
        frag_adv_sum_x(gs, n) == sum_adv_x(s, n),
        frag_adv_sum_y(gs, n) == sum_adv_y(s, n),
    decreases n,
{
    if n > 0 {
        lemma_frag_sums(gs, s, n - 1);
    }
}

/// Assemble extracted records into a fragment. Each glyph's stored offset is
/// the pen position before its own advance is applied — the running total of
/// the earlier advances plus the glyph's own offset — and the final running
/// total becomes the fragment's advance.
pub fn build_fragment(font: &FontRef, script: u32, substr_len: usize, shaped: &Vec<ShapedGlyph>) -> (r: LayoutFragment)
    requires
        forall|i: int| 0 <= i < shaped@.len() ==> shaped_in_range(#[trigger] shaped@[i]),
    ensures
        r.font == *font,
        r.script == script,
        r.substr_len == substr_len,
        r.glyphs@.len() == shaped@.len(),
        forall|i: int| 0 <= i < shaped@.len() ==> assembled_glyph(#[trigger] r.glyphs@[i], shaped@, i),
        r.advance.x == sum_adv_x(shaped@, shaped@.len() as int),
        r.advance.y == sum_adv_y(shaped@, shaped@.len() as int),
        fragment_advance_consistent(r),
{
    let ghost s = shaped@;
    let mut glyphs: Vec<FragmentGlyph> = Vec::new();
    let mut total_x: i128 = 0;
    let mut total_y: i128 = 0;
    let mut idx: usize = 0;
    while idx < shaped.len()
        invariant
            shaped@ == s,
            idx <= s.len(),
            glyphs@.len() == idx,
            forall|i: int| 0 <= i < s.len() ==> shaped_in_range(#[trigger] s[i]),
            forall|j: int| 0 <= j < idx ==> assembled_glyph(#[trigger] glyphs@[j], s, j),
            total_x == sum_adv_x(s, idx as int),
            total_y == sum_adv_y(s, idx as int),
        decreases s.len() - idx,
    {
        proof {
            lemma_sum_adv_bound(s, idx as int);
            assert(s.len() <= 0xFFFF_FFFF_FFFF_FFFF);
        }
        let g = shaped[idx];
        let off = Vec2 { x: total_x + g.offset.x, y: total_y + g.offset.y };
        glyphs.push(FragmentGlyph {
            glyph_id: g.glyph_id,
            cluster: g.cluster,
            advance: g.advance,
            offset: off,
            unsafe_to_break: g.unsafe_to_break,
        });
        total_x = total_x + g.advance.x;
        total_y = total_y + g.advance.y;
        idx = idx + 1;
    }
    let r = LayoutFragment {
        substr_len,
        script,
        glyphs,
        advance: Vec2 { x: total_x, y: total_y },
        font: *font,
    };
    proof {
        lemma_frag_sums(r.glyphs@, s, s.len() as int);
    }
    r
}

/// What the simple path makes of the `i`th extracted record: the owning
/// font and the glyph index, with the same accumulated offset as the
/// fragment path, and no cluster or break-safety data.
pub open spec fn assembled_layout_glyph(g: Glyph, s: Seq<ShapedGlyph>, i: int, font: FontRef) -> bool {
    &&& g.font == font
    &&& g.glyph_id == s[i].glyph_id
    &&& g.offset.x == sum_adv_x(s, i) + s[i].offset.x
    &&& g.offset.y == sum_adv_y(s, i) + s[i].offset.y
}

/// Assemble extracted records into the simple, flat layout.
pub fn build_layout(style: &TextStyle, font: &FontRef, shaped: &Vec<ShapedGlyph>) -> (r: Layout)
    requires
        forall|i: int| 0 <= i < shaped@.len() ==> shaped_in_range(#[trigger] shaped@[i]),
    ensures
        r.size == style.size,
        r.glyphs@.len() == shaped@.len(),
        forall|i: int| 0 <= i < shaped@.len() ==> assembled_layout_glyph(
            #[trigger] r.glyphs@[i],
            shaped@,
            i,
            *font,
        ),
        r.advance.x == sum_adv_x(shaped@, shaped@.len() as int),
        r.advance.y == sum_adv_y(shaped@, shaped@.len() as int),
{
    let ghost s = shaped@;
    let mut glyphs: Vec<Glyph> = Vec::new();
    let mut total_x: i128 = 0;
    let mut total_y: i128 = 0;
    let mut idx: usize = 0;
    while idx < shaped.len()
        invariant
            shaped@ == s,
            idx <= s.len(),
            glyphs@.len() == idx,
            forall|i: int| 0 <= i < s.len() ==> shaped_in_range(#[trigger] s[i]),
            forall|j: int| 0 <= j < idx ==> assembled_layout_glyph(#[trigger] glyphs@[j], s, j, *font),
            total_x == sum_adv_x(s, idx as int),
            total_y == sum_adv_y(s, idx as int),
        decreases s.len() - idx,
    {
        proof {
            lemma_sum_adv_bound(s, idx as int);
            assert(s.len() <= 0xFFFF_FFFF_FFFF_FFFF);
        }
        let g = shaped[idx];
        let off = Vec2 { x: total_x + g.offset.x, y: total_y + g.offset.y };
        glyphs.push(Glyph { font: *font, glyph_id: g.glyph_id, offset: off });
        total_x = total_x + g.advance.x;
        total_y = total_y + g.advance.y;
        idx = idx + 1;
    }
    Layout { size: style.size, glyphs, advance: Vec2 { x: total_x, y: total_y } }
}

/// What one fragment glyph says of the engine entries it came from.
pub open spec fn extracted_glyph_matches(
    g: FragmentGlyph,
    infos: Seq<GlyphInfo>,
    positions: Seq<GlyphPos>,
    i: int,
    size: int,
    upem: int,
) -> bool {
    &&& g.glyph_id == infos[i].glyph_id
    &&& g.cluster == infos[i].cluster
    &&& g.unsafe_to_break == ((infos[i].flags & UNSAFE_TO_BREAK_FLAG) != 0)
    &&& g.advance.x == scale_val(positions[i].x_advance as int, size, upem)
    &&& g.advance.y == scale_val(positions[i].y_advance as int, size, upem)
    &&& g.offset.x == scaled_adv_sum_x(positions, size, upem, i) + scale_val(
        positions[i].x_offset as int,
        size,
        upem,
    )
    &&& g.offset.y == scaled_adv_sum_y(positions, size, upem, i) + scale_val(
        positions[i].y_offset as int,
        size,
        upem,
    )
}

/// The full functional statement of the fragment path: what every field of
/// the fragment is, as a function of the inputs alone.
pub open spec fn fragment_matches(
    frag: LayoutFragment,
    style: TextStyle,
    font: FontRef,
    script: u32,
    substr_len: int,
    infos: Seq<GlyphInfo>,
    positions: Seq<GlyphPos>,
) -> bool {
    let size = style.size as int;
    let upem = font.units_per_em as int;
    let n = min_len(infos.len() as int, positions.len() as int);
    &&& frag.font == font
    &&& frag.script == script
    &&& frag.substr_len == substr_len
    &&& frag.glyphs@.len() == n
    &&& forall|i: int| 0 <= i < n ==> extracted_glyph_matches(
        #[trigger] frag.glyphs@[i],
        infos,
        positions,
        i,
        size,
        upem,
    )
    &&& frag.advance.x == scaled_adv_sum_x(positions, size, upem, n)
    &&& frag.advance.y == scaled_adv_sum_y(positions, size, upem, n)
}

/// What one simple-path glyph says of the engine entries it came from.
pub open spec fn layout_glyph_matches(
    g: Glyph,
    font: FontRef,
    infos: Seq<GlyphInfo>,
    positions: Seq<GlyphPos>,
    i: int,
    size: int,
    upem: int,
) -> bool {
    &&& g.font == font
    &&& g.glyph_id == infos[i].glyph_id
    &&& g.offset.x == scaled_adv_sum_x(positions, size, upem, i) + scale_val(
        positions[i].x_offset as int,
        size,
        upem,
    )
    &&& g.offset.y == scaled_adv_sum_y(positions, size, upem, i) + scale_val(
        positions[i].y_offset as int,
        size,
        upem,
    )
}

/// The full functional statement of the simple path.
pub open spec fn layout_matches(
    lay: Layout,
    style: TextStyle,
    font: FontRef,
    infos: Seq<GlyphInfo>,
    positions: Seq<GlyphPos>,
) -> bool {
    let size = style.size as int;
    let upem = font.units_per_em as int;
    let n = min_len(infos.len() as int, positions.len() as int);
    &&& lay.size == style.size
    &&& lay.glyphs@.len() == n
    &&& forall|i: int| 0 <= i < n ==> layout_glyph_matches(
        #[trigger] lay.glyphs@[i],
        font,
        infos,
        positions,
        i,
        size,
        upem,
    )
    &&& lay.advance.x == scaled_adv_sum_x(positions, size, upem, n)
    &&& lay.advance.y == scaled_adv_sum_y(positions, size, upem, n)
}

/// The primary entry point's computational core: validate the font's
/// design-unit scale, extract the engine's parallel arrays, and assemble
/// the fragment. Fails exactly when the font reports zero units per em.
pub fn layout_fragment(
    style: &TextStyle,
    font: &FontRef,
    script: u32,
    substr_len: usize,
    infos: &Vec<GlyphInfo>,
    positions: &Vec<GlyphPos>,
) -> (r: Result<LayoutFragment, LayoutError>)
    ensures
        r is Ok <==> font.units_per_em != 0,
        r is Err ==> r->Err_0 == LayoutError::InvalidUnitsPerEm,
        r is Ok ==> fragment_matches(
            r->Ok_0,
            *style,
            *font,
            script,
            substr_len as int,
            infos@,
            positions@,
        ),
        r is Ok ==> fragment_advance_consistent(r->Ok_0),
{
    if font.units_per_em == 0 {
        return Err(LayoutError::InvalidUnitsPerEm);
    }
    let shaped = extract_glyphs(infos, positions, style.size, font.units_per_em);
    let frag = build_fragment(font, script, substr_len, &shaped);
    proof {
        let size = style.size as int;
        let upem = font.units_per_em as int;
        lemma_extracted_sums(shaped@, infos@, positions@, size, upem, shaped@.len() as int);
        assert forall|i: int| 0 <= i < frag.glyphs@.len() implies extracted_glyph_matches(
            #[trigger] frag.glyphs@[i],
            infos@,
            positions@,
            i,
            size,
            upem,
        ) by {
            lemma_extracted_sums(shaped@, infos@, positions@, size, upem, i);
        }
    }
    Ok(frag)
}

/// Cluster monotonicity: extraction keeps cluster ids in engine order, so a
/// left-to-right run whose engine output carries non-decreasing cluster ids
/// yields a fragment whose cluster ids are non-decreasing in glyph order.
/// (Whether the engine's output is non-decreasing is a property of the
/// script and direction shaped with, not of this assembly.)
pub proof fn lemma_cluster_monotonic(
    frag: LayoutFragment,
    style: TextStyle,
    font: FontRef,
    script: u32,
    substr_len: int,
    infos: Seq<GlyphInfo>,
    positions: Seq<GlyphPos>,
)
    requires
        fragment_matches(frag, style, font, script, substr_len, infos, positions),
        forall|i: int, j: int| 0 <= i <= j < infos.len() ==> (#[trigger] infos[i]).cluster <= (
        #[trigger] infos[j]).cluster,
    ensures
        forall|i: int, j: int| 0 <= i <= j < frag.glyphs@.len() ==> (#[trigger] frag.glyphs@[i]).cluster
            <= (#[trigger] frag.glyphs@[j]).cluster,
{
    let size = style.size as int;
    let upem = font.units_per_em as int;
    assert forall|i: int, j: int| 0 <= i <= j < frag.glyphs@.len() implies (
    #[trigger] frag.glyphs@[i]).cluster <= (#[trigger] frag.glyphs@[j]).cluster by {
        assert(extracted_glyph_matches(frag.glyphs@[i], infos, positions, i, size, upem));
        assert(extracted_glyph_matches(frag.glyphs@[j], infos, positions, j, size, upem));
    }
}

/// The right-to-left counterpart: a run whose engine output carries
/// non-increasing cluster ids yields a fragment whose cluster ids are
/// non-increasing in glyph order. Together with the left-to-right case,
/// cluster order in a fragment follows the run direction and is never
/// arbitrary.
pub proof fn lemma_cluster_monotonic_rtl(
    frag: LayoutFragment,
    style: TextStyle,
    font: FontRef,
    script: u32,
    substr_len: int,
    infos: Seq<GlyphInfo>,
    positions: Seq<GlyphPos>,
)
    requires
        fragment_matches(frag, style, font, script, substr_len, infos, positions),
        forall|i: int, j: int| 0 <= i <= j < infos.len() ==> (#[trigger] infos[i]).cluster >= (
        #[trigger] infos[j]).cluster,
    ensures
        forall|i: int, j: int| 0 <= i <= j < frag.glyphs@.len() ==> (#[trigger] frag.glyphs@[i]).cluster
            >= (#[trigger] frag.glyphs@[j]).cluster,
{
    let size = style.size as int;
    let upem = font.units_per_em as int;
    assert forall|i: int, j: int| 0 <= i <= j < frag.glyphs@.len() implies (
    #[trigger] frag.glyphs@[i]).cluster >= (#[trigger] frag.glyphs@[j]).cluster by {
        assert(extracted_glyph_matches(frag.glyphs@[i], infos, positions, i, size, upem));
        assert(extracted_glyph_matches(frag.glyphs@[j], infos, positions, j, size, upem));
    }
}

/// Idempotence of assembly: the fragment is a pure function of its inputs.
/// Two fragments that match the same style, font, script, substring length,
/// and engine output agree in every field of every glyph, and in their
/// total advance.
pub proof fn lemma_fragment_deterministic(
    a: LayoutFragment,
    b: LayoutFragment,
    style: TextStyle,
    font: FontRef,
    script: u32,
    substr_len: int,
    infos: Seq<GlyphInfo>,
    positions: Seq<GlyphPos>,
)
    requires
        fragment_matches(a, style, font, script, substr_len, infos, positions),
        fragment_matches(b, style, font, script, substr_len, infos, positions),
    ensures
        a.glyphs@ == b.glyphs@,
        a.advance == b.advance,
        a.substr_len == b.substr_len,
        a.script == b.script,
        a.font == b.font,
{
    let size = style.size as int;
    let upem = font.units_per_em as int;
    assert forall|i: int| 0 <= i < a.glyphs@.len() implies a.glyphs@[i] == b.glyphs@[i] by {
        assert(extracted_glyph_matches(a.glyphs@[i], infos, positions, i, size, upem));
        assert(extracted_glyph_matches(b.glyphs@[i], infos, positions, i, size, upem));
    }
    assert(a.glyphs@ =~= b.glyphs@);
}

/// The legacy entry point's computational core: the same extraction and
/// accumulation as the fragment path, producing the flat layout with no
/// cluster or break-safety data. Fails exactly when the font reports zero
/// units per em.
pub fn layout_run(
    style: &TextStyle,
    font: &FontRef,
    infos: &Vec<GlyphInfo>,
    positions: &Vec<GlyphPos>,
) -> (r: Result<Layout, LayoutError>)
    ensures
        r is Ok <==> font.units_per_em != 0,
        r is Err ==> r->Err_0 == LayoutError::InvalidUnitsPerEm,
        r is Ok ==> layout_matches(r->Ok_0, *style, *font, infos@, positions@),
{
    if font.units_per_em == 0 {
        return Err(LayoutError::InvalidUnitsPerEm);
    }
    let shaped = extract_glyphs(infos, positions, style.size, font.units_per_em);
    let lay = build_layout(style, font, &shaped);
    proof {
        let size = style.size as int;
        let upem = font.units_per_em as int;
        lemma_extracted_sums(shaped@, infos@, positions@, size, upem, shaped@.len() as int);
        assert forall|i: int| 0 <= i < lay.glyphs@.len() implies layout_glyph_matches(
            #[trigger] lay.glyphs@[i],
            *font,
            infos@,
            positions@,
            i,
            size,
            upem,
        ) by {
            lemma_extracted_sums(shaped@, infos@, positions@, size, upem, i);
        }
    }
    Ok(lay)
}

} // verus!
