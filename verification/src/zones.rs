//! Zone roles: the semantic tag an operator puts on a mask polygon, the
//! closed palette that sets it, and how the layer rail badges it; and the
//! mask polygon's vertex edits.

use vstd::prelude::*;
use vstd::string::*;

use crate::glossary::{glossary_headline, GlossaryTerm};
use crate::text::{dec, push_decimal};

verus! {

/// What a masked region of the surface is, as zone-aware effects read it.
#[derive(Debug, Clone, Copy, PartialEq, Eq, Structural)]
pub enum ZoneRole {
    Window,
    Portal,
    Void,
    Spill,
    Edge,
    Highlight,
    LightSource,
}

/// Palette label of a zone tag; an untagged mask reads "None".
pub open spec fn role_label(role: Option<ZoneRole>) -> Seq<char> {
    match role {
        None => "None"@,
        Some(ZoneRole::Window) => "Window"@,
        Some(ZoneRole::Portal) => "Portal"@,
        Some(ZoneRole::Void) => "Void"@,
        Some(ZoneRole::Spill) => "Spill"@,
        Some(ZoneRole::Edge) => "Edge"@,
        Some(ZoneRole::Highlight) => "Highlight"@,
        Some(ZoneRole::LightSource) => "Light Source"@,
    }
}

/// Text of the zone-role combo box for the current tag.
pub fn zone_role_label(role: Option<ZoneRole>) -> (r: &'static str)
    ensures
        r@ == role_label(role),
{
    match role {
        None => "None",
        Some(ZoneRole::Window) => "Window",
        Some(ZoneRole::Portal) => "Portal",
        Some(ZoneRole::Void) => "Void",
        Some(ZoneRole::Spill) => "Spill",
        Some(ZoneRole::Edge) => "Edge",
        Some(ZoneRole::Highlight) => "Highlight",
        Some(ZoneRole::LightSource) => "Light Source",
    }
}

/// The glossary entry that explains a role.
pub open spec fn role_term(role: ZoneRole) -> GlossaryTerm {
    match role {
        ZoneRole::Window => GlossaryTerm::ZoneRoleWindow,
        ZoneRole::Portal => GlossaryTerm::ZoneRolePortal,
        ZoneRole::Void => GlossaryTerm::ZoneRoleVoid,
        ZoneRole::Spill => GlossaryTerm::ZoneRoleSpill,
        ZoneRole::Edge => GlossaryTerm::ZoneRoleEdge,
        ZoneRole::Highlight => GlossaryTerm::ZoneRoleHighlight,
        ZoneRole::LightSource => GlossaryTerm::ZoneRoleLightSource,
    }
}

/// Position of a role in the palette, below the "None" row.
pub open spec fn role_position(role: ZoneRole) -> int {
    match role {
        ZoneRole::Window => 0,
        ZoneRole::Portal => 1,
        ZoneRole::Void => 2,
        ZoneRole::Spill => 3,
        ZoneRole::Edge => 4,
        ZoneRole::Highlight => 5,
        ZoneRole::LightSource => 6,
    }
}

/// The seven role rows of the palette in display order: the tag each row
/// sets, the glossary term of its tooltip, and its label.
pub fn zone_role_palette() -> (r: [(Option<ZoneRole>, GlossaryTerm, &'static str); 7])
    ensures
        forall|role: ZoneRole|
            #![trigger role_position(role)]
            {
                let row = r@[role_position(role)];
                &&& row.0 == Some(role)
                &&& row.1 == role_term(role)
                &&& row.2@ == role_label(Some(role))
            },
{
    [
        (Some(ZoneRole::Window), GlossaryTerm::ZoneRoleWindow, "Window"),
        (Some(ZoneRole::Portal), GlossaryTerm::ZoneRolePortal, "Portal"),
        (Some(ZoneRole::Void), GlossaryTerm::ZoneRoleVoid, "Void"),
        (Some(ZoneRole::Spill), GlossaryTerm::ZoneRoleSpill, "Spill"),
        (Some(ZoneRole::Edge), GlossaryTerm::ZoneRoleEdge, "Edge"),
        (Some(ZoneRole::Highlight), GlossaryTerm::ZoneRoleHighlight, "Highlight"),
        (Some(ZoneRole::LightSource), GlossaryTerm::ZoneRoleLightSource, "Light Source"),
    ]
}

/// The palette lists every role exactly once, each in its own row.
pub proof fn lemma_palette_rows_distinct(a: ZoneRole, b: ZoneRole)
    ensures
        0 <= role_position(a) < 7,
        role_position(a) == role_position(b) ==> a == b,
{
}

/// A row's label agrees with the headline of the glossary entry its tooltip
/// shows: "Zone Role: " followed by the label.
pub proof fn lemma_palette_label_matches_glossary(role: ZoneRole)
    ensures
        glossary_headline(role_term(role)) == "Zone Role: "@ + role_label(Some(role)),
{
    reveal_strlit("Zone Role: ");
    match role {
        ZoneRole::Window => {
            reveal_strlit("Zone Role: Window");
            reveal_strlit("Window");
        },
        ZoneRole::Portal => {
            reveal_strlit("Zone Role: Portal");
            reveal_strlit("Portal");
        },
        ZoneRole::Void => {
            reveal_strlit("Zone Role: Void");
            reveal_strlit("Void");
        },
        ZoneRole::Spill => {
            reveal_strlit("Zone Role: Spill");
            reveal_strlit("Spill");
        },
        ZoneRole::Edge => {
            reveal_strlit("Zone Role: Edge");
            reveal_strlit("Edge");
        },
        ZoneRole::Highlight => {
            reveal_strlit("Zone Role: Highlight");
            reveal_strlit("Highlight");
        },
        ZoneRole::LightSource => {
            reveal_strlit("Zone Role: Light Source");
            reveal_strlit("Light Source");
        },
    }
    assert(glossary_headline(role_term(role)) =~= "Zone Role: "@ + role_label(Some(role)));
}

/// The tag change a palette click commits: the clicked tag, or nothing when
/// it is already the current one.
pub open spec fn spec_zone_pick(current: Option<ZoneRole>, clicked: Option<ZoneRole>) -> Option<
    Option<ZoneRole>,
> {
    if clicked == current {
        None
    } else {
        Some(clicked)
    }
}

/// The change to commit when the operator clicks `clicked` in the palette
/// (`None` the role, or the "None" row); re-clicking the current tag
/// commits nothing, so the undo stack gets no empty entry.
pub fn zone_pick(current: Option<ZoneRole>, clicked: Option<ZoneRole>) -> (r: Option<
    Option<ZoneRole>,
>)
    ensures
        r == spec_zone_pick(current, clicked),
{
    if clicked == current {
        None
    } else {
        Some(clicked)
    }
}

/// Badge of a tagged layer under its thumbnail in the layer rail.
pub open spec fn badge_text(role: ZoneRole) -> Seq<char> {
    match role {
        ZoneRole::Window => "[window]"@,
        ZoneRole::Portal => "[portal]"@,
        ZoneRole::Void => "[void]"@,
        ZoneRole::Spill => "[spill]"@,
        ZoneRole::Edge => "[edge]"@,
        ZoneRole::Highlight => "[highlight]"@,
        ZoneRole::LightSource => "[light-src]"@,
    }
}

/// Short badge text that fits under a rail thumbnail.
pub fn zone_badge(role: ZoneRole) -> (r: &'static str)
    ensures
        r@ == badge_text(role),
{
    match role {
        ZoneRole::Window => "[window]",
        ZoneRole::Portal => "[portal]",
        ZoneRole::Void => "[void]",
        ZoneRole::Spill => "[spill]",
        ZoneRole::Edge => "[edge]",
        ZoneRole::Highlight => "[highlight]",
        ZoneRole::LightSource => "[light-src]",
    }
}

/// The mask summary under the palette: the vertex count and whether the
/// polygon is in effect (it needs at least three vertices).
pub open spec fn mask_summary_text(vertices: nat) -> Seq<char> {
    "mask: "@ + dec(vertices) + " vertices ("@ + (if vertices >= 3 {
        "active"@
    } else {
        "none \u{2014} needs \u{2265} 3 vertices"@
    }) + ")"@
}

/// "mask: N vertices (active)" or "... (none — needs ≥ 3 vertices)".
pub fn mask_summary(vertices: usize) -> (r: String)
    ensures
        r@ == mask_summary_text(vertices as nat),
{
    let mut s = String::from_str("mask: ");
    push_decimal(&mut s, vertices as u64);
    s.append(" vertices (");
    if vertices >= 3 {
        s.append("active");
    } else {
        s.append("none \u{2014} needs \u{2265} 3 vertices");
    }
    s.append(")");
    s
}

/// Whether shift-clicking a mask vertex removes it: only while the polygon
/// has more than three vertices, so removal never leaves fewer than three
/// (below three the mask switches off).
pub fn can_remove_mask_vertex(vertices: usize) -> (r: bool)
    ensures
        r == (vertices > 3),
{
    vertices > 3
}

/// The mask polygon after a shift-click on vertex `idx`: without that
/// vertex when more than three remain, unchanged otherwise.
pub fn polygon_after_vertex_click<T>(polygon: Vec<T>, idx: usize) -> (r: Vec<T>)
    requires
        idx < polygon@.len(),
    ensures
        r@ == (if polygon@.len() > 3 {
            polygon@.remove(idx as int)
        } else {
            polygon@
        }),
        polygon@.len() >= 3 ==> r@.len() >= 3,
{
    let mut polygon = polygon;
    if can_remove_mask_vertex(polygon.len()) {
        polygon.remove(idx);
    }
    polygon
}

/// Where a double-click on the mask edge after vertex `after` inserts the
/// new vertex: right after it, at most at the end of the polygon.
pub fn mask_insert_position(after: usize, vertices: usize) -> (r: usize)
    requires
        after < usize::MAX,
    ensures
        r == (if after + 1 < vertices {
            (after + 1) as int
        } else {
            vertices as int
        }),
        r <= vertices,
{
    if after + 1 < vertices {
        after + 1
    } else {
        vertices
    }
}

} // verus!
