//! What the minimap shows: a picture recomposed each simulation tick from the
//! terrain, the local team's knowledge of it, remembered buildings, live
//! entity blips and the camera's viewport outline — layered in that order, so
//! nothing that matters is buried.
use vstd::prelude::*;
use crate::canvas::{Canvas, Point, outline_covers, in_block};

verus! {

/// A building the local team remembers but cannot currently see, matching the
/// grey the world view outlines its ghost in.
pub const GHOST: [u8; 4] = [140, 140, 158, 255];

/// What a cell reads as before the local team has ever seen it: the void the
/// world draws outside the playable field.
pub const VOID: [u8; 4] = [23, 23, 28, 255];

/// The camera's viewport outline.
pub const VIEWPORT: [u8; 4] = [235, 235, 235, 255];

/// A blip whose entity was hurt a moment ago.
pub const HURT: [u8; 4] = [255, 60, 50, 255];

/// A blip belonging to the current selection.
pub const SELECTED: [u8; 4] = [255, 255, 255, 255];

/// Ticks a blip keeps answering for a hit: seven seconds at the nominal
/// cadence, counted in ticks because it marks something the simulation did.
pub const HURT_TICKS: u32 = 140;

/// Ticks at the start of that during which the blip stays solid rather than
/// blinking, so a single hit registers even if it lands mid-blink.
pub const HURT_SOLID_TICKS: u32 = 20;

/// Ticks per half-cycle of the blink: a full cycle a second.
pub const HURT_PHASE_TICKS: u32 = 10;

/// What the local team knows of a cell.
#[derive(Clone, Copy, Debug, PartialEq, Eq, Structural)]
pub enum Visibility {
    /// Never seen.
    Unexplored,
    /// Seen before, not seen now.
    Explored,
    /// In sight now.
    Visible,
}

/// How much a blip matters, in the order blips are painted: what matters more
/// is painted later, so it is never buried under what matters less.
#[derive(Clone, Copy, Debug, PartialEq, Eq, Structural)]
pub enum Significance {
    /// Nobody the local team stands with.
    Stranger,
    /// An ally of the local player.
    Team,
    /// The local player's own.
    Own,
    /// Part of the current selection.
    Selected,
}

/// The painting rank of a significance, lowest first.
pub open spec fn rank(significance: Significance) -> int {
    match significance {
        Significance::Stranger => 0,
        Significance::Team => 1,
        Significance::Own => 2,
        Significance::Selected => 3,
    }
}

/// The significance at painting rank `level`.
pub open spec fn level_significance(level: int) -> Significance {
    if level <= 0 {
        Significance::Stranger
    } else if level == 1 {
        Significance::Team
    } else if level == 2 {
        Significance::Own
    } else {
        Significance::Selected
    }
}

/// A live entity's mark on the minimap: its footprint, its color, and how
/// much it matters.
#[derive(Clone, Copy, Debug)]
pub struct Blip {
    pub significance: Significance,
    pub x: u32,
    pub y: u32,
    pub width: u32,
    pub height: u32,
    pub color: [u8; 4],
}

/// A remembered building's footprint: where it stood and how much ground it
/// covered.
#[derive(Clone, Copy, Debug)]
pub struct Footprint {
    pub x: u32,
    pub y: u32,
    pub width: u32,
    pub height: u32,
}

/// A block anchored at `(x, y)` can be painted without its far edge leaving
/// the coordinate range.
pub open spec fn block_fits(x: u32, y: u32, width: u32, height: u32) -> bool {
    width == 0 || height == 0 || (x + width - 1 <= u32::MAX && y + height - 1 <= u32::MAX)
}

/// Whether an entity was hurt recently enough to answer for it: solid for an
/// opening stretch after the hit, then blinking once a second until the hit
/// is old news.
pub open spec fn spec_hurt_recently(last_hit: Option<u32>, tick: u32) -> bool {
    match last_hit {
        None => false,
        Some(hit) => {
            let since = if tick >= hit {
                tick - hit
            } else {
                0
            };
            since < HURT_TICKS && (since < HURT_SOLID_TICKS || (since / (HURT_PHASE_TICKS as int))
                % 2 == 0)
        },
    }
}

/// Whether an entity last hit on `last_hit` (if ever) blips as hurt on `tick`.
pub fn hurt_recently(last_hit: Option<u32>, tick: u32) -> (hurt: bool)
    ensures
        hurt == spec_hurt_recently(last_hit, tick),
{
    match last_hit {
        None => false,
        Some(hit) => {
            let since = tick.saturating_sub(hit);
            since < HURT_TICKS && (since < HURT_SOLID_TICKS || (since / HURT_PHASE_TICKS) % 2 == 0)
        },
    }
}

/// How much a blip matters: selected above own, own above allied, allied above
/// the rest.
pub fn significance(team: bool, own: bool, selected: bool) -> (significance: Significance)
    ensures
        significance == if selected {
            Significance::Selected
        } else if own {
            Significance::Own
        } else if team {
            Significance::Team
        } else {
            Significance::Stranger
        },
{
    match (team, own, selected) {
        (_, _, true) => Significance::Selected,
        (_, true, _) => Significance::Own,
        (true, _, _) => Significance::Team,
        (false, false, false) => Significance::Stranger,
    }
}

/// The color a blip is painted: white when selected, red for the local
/// player's own recently hurt entity, and otherwise the color of whoever owns
/// it.
pub fn blip_color(selected: bool, own: bool, hurt: bool, owner_color: [u8; 4]) -> (color: [u8; 4])
    ensures
        color == if selected {
            SELECTED
        } else if own && hurt {
            HURT
        } else {
            owner_color
        },
{
    if selected {
        SELECTED
    } else if own && hurt {
        HURT
    } else {
        owner_color
    }
}

/// Whether the picture must be composed again: a new tick, a fog reveal
/// toggled since, or a camera that has moved since the last compose.
pub fn needs_compose(
    composed: Option<u32>,
    tick: u32,
    reveal_changed: bool,
    last_viewport: Option<[Point; 4]>,
    viewport: Option<[Point; 4]>,
) -> (needed: bool)
    ensures
        needed == !(composed == Some(tick) && !reveal_changed && last_viewport == viewport),
{
    let same_tick = match composed {
        Some(at) => at == tick,
        None => false,
    };
    let same_view = match (last_viewport, viewport) {
        (None, None) => true,
        (Some(a), Some(b)) => {
            let same = a[0] == b[0] && a[1] == b[1] && a[2] == b[2] && a[3] == b[3];
            proof {
                broadcast use vstd::array::axiom_array_ext_equal;
                if same {
                    assert(a =~= b);
                }
            }
            same
        },
        _ => false,
    };
    !(same_tick && !reveal_changed && same_view)
}

/// The color a cell takes from the fog layer: the void where the local team has
/// never been, the dimmed terrain where it has been but cannot see, and the
/// terrain itself where it sees — or the terrain everywhere when the map is
/// revealed.
pub open spec fn fog_layer(
    base: Canvas,
    explored: Canvas,
    fog: Option<Seq<Visibility>>,
    x: int,
    y: int,
) -> Seq<u8> {
    match fog {
        None => base.color(x, y),
        Some(cells) => match cells[y * base.spec_width() + x] {
            Visibility::Unexplored => VOID@,
            Visibility::Explored => explored.color(x, y),
            Visibility::Visible => base.color(x, y),
        },
    }
}

/// Whether any remembered footprint covers a cell.
pub open spec fn ghost_covers(ghosts: Seq<Footprint>, x: int, y: int) -> bool {
    exists|k: int|
        0 <= k < ghosts.len() && #[trigger] in_block(
            ghosts[k].x as int,
            ghosts[k].y as int,
            ghosts[k].width as int,
            ghosts[k].height as int,
            x,
            y,
        )
}

/// The color a cell takes after remembered buildings are laid over the fog:
/// they show only while the map is not revealed.
pub open spec fn ghost_layer(
    base: Canvas,
    explored: Canvas,
    fog: Option<Seq<Visibility>>,
    ghosts: Seq<Footprint>,
    x: int,
    y: int,
) -> Seq<u8> {
    if fog is Some && ghost_covers(ghosts, x, y) {
        GHOST@
    } else {
        fog_layer(base, explored, fog, x, y)
    }
}

/// Whether a blip covers a cell.
pub open spec fn blip_covers(blip: Blip, x: int, y: int) -> bool {
    in_block(blip.x as int, blip.y as int, blip.width as int, blip.height as int, x, y)
}

/// The color a cell shows after painting, in order, the blips of the first
/// `count` whose significance is `level`, over `below`: the last such blip to
/// cover the cell wins.
pub open spec fn level_pass(
    blips: Seq<Blip>,
    count: int,
    level: Significance,
    x: int,
    y: int,
    below: Seq<u8>,
) -> Seq<u8>
    decreases count,
{
    if count <= 0 {
        below
    } else {
        let earlier = level_pass(blips, count - 1, level, x, y, below);
        let blip = blips[count - 1];
        if blip.significance == level && blip_covers(blip, x, y) {
            blip.color@
        } else {
            earlier
        }
    }
}

/// The color a cell shows after painting every blip of rank below `levels`,
/// least significant first and, within a rank, in the order given — the order
/// a stable sort by significance puts them in.
pub open spec fn blips_layer(blips: Seq<Blip>, levels: int, x: int, y: int, below: Seq<u8>) -> Seq<
    u8,
>
    decreases levels,
{
    if levels <= 0 {
        below
    } else {
        level_pass(
            blips,
            blips.len() as int,
            level_significance(levels - 1),
            x,
            y,
            blips_layer(blips, levels - 1, x, y, below),
        )
    }
}

/// The color a composed minimap shows at a cell: terrain under the fog, the
/// remembered buildings over that, live blips in ascending significance over
/// those, and the camera's viewport outline on top.
pub open spec fn composed_color(
    base: Canvas,
    explored: Canvas,
    fog: Option<Seq<Visibility>>,
    ghosts: Seq<Footprint>,
    blips: Seq<Blip>,
    viewport: Option<[Point; 4]>,
    x: int,
    y: int,
) -> Seq<u8> {
    let blipped = blips_layer(blips, 4, x, y, ghost_layer(base, explored, fog, ghosts, x, y));
    match viewport {
        Some(corners) => if outline_covers(corners@, x, y) {
            VIEWPORT@
        } else {
            blipped
        },
        None => blipped,
    }
}

/// Recomposes `canvas` from the terrain `base` and its dimmed copy `explored`:
/// the fog over the terrain (unless `fog` is `None`, a revealed map), the
/// remembered buildings over that (likewise only while not revealed), the live
/// blips in ascending significance, and the viewport outline on top.
pub fn compose(
    canvas: &mut Canvas,
    base: &Canvas,
    explored: &Canvas,
    fog: Option<&Vec<Visibility>>,
    ghosts: &Vec<Footprint>,
    blips: &Vec<Blip>,
    viewport: Option<[Point; 4]>,
)
    requires
        old(canvas).wf(),
        base.wf(),
        explored.wf(),
        old(canvas).spec_width() == base.spec_width() == explored.spec_width(),
        old(canvas).spec_height() == base.spec_height() == explored.spec_height(),
        fog matches Some(cells) ==> cells@.len() == base.spec_width() * base.spec_height(),
        forall|k: int|
            0 <= k < ghosts@.len() ==> #[trigger] block_fits(
                ghosts@[k].x,
                ghosts@[k].y,
                ghosts@[k].width,
                ghosts@[k].height,
            ),
        forall|k: int|
            0 <= k < blips@.len() ==> #[trigger] block_fits(
                blips@[k].x,
                blips@[k].y,
                blips@[k].width,
                blips@[k].height,
            ),
    ensures
        final(canvas).wf(),
        final(canvas).spec_width() == base.spec_width(),
        final(canvas).spec_height() == base.spec_height(),
        forall|x: int, y: int| #[trigger]
            final(canvas).contains(x, y) ==> final(canvas).color(x, y) == composed_color(
                *base,
                *explored,
                match fog {
                    Some(cells) => Some(cells@),
                    None => None,
                },
                ghosts@,
                blips@,
                viewport,
                x,
                y,
            ),
{
    let ghost fog_view: Option<Seq<Visibility>> = match fog {
        Some(cells) => Some(cells@),
        None => None,
    };
    canvas.restore(base);
    assert forall|x: int, y: int| #[trigger] canvas.contains(x, y) implies canvas.color(x, y)
        == base.color(x, y) by {}
    let width = canvas.width();
    let height = canvas.height();

    // Fog. Unexplored cells fall back to the void rather than to dimmed
    // terrain: what has never been seen is not known to be there at all.
    match fog {
        Some(cells) => {
            let mut y: u32 = 0;
            while y < height
                invariant
                    canvas.wf(),
                    base.wf(),
                    explored.wf(),
                    width == canvas.spec_width() == base.spec_width() == explored.spec_width(),
                    height == canvas.spec_height() == base.spec_height() == explored.spec_height(),
                    cells@.len() == base.spec_width() * base.spec_height(),
                    fog_view == Some(cells@),
                    y <= height,
                    forall|cx: int, cy: int| #[trigger]
                        canvas.contains(cx, cy) ==> canvas.color(cx, cy) == if cy < y {
                            fog_layer(*base, *explored, fog_view, cx, cy)
                        } else {
                            base.color(cx, cy)
                        },
                decreases height - y,
            {
                let mut x: u32 = 0;
                while x < width
                    invariant
                        canvas.wf(),
                        base.wf(),
                        explored.wf(),
                        width == canvas.spec_width() == base.spec_width() == explored.spec_width(),
                        height == canvas.spec_height() == base.spec_height()
                            == explored.spec_height(),
                        cells@.len() == base.spec_width() * base.spec_height(),
                        fog_view == Some(cells@),
                        y < height,
                        x <= width,
                        forall|cx: int, cy: int| #[trigger]
                            canvas.contains(cx, cy) ==> canvas.color(cx, cy) == if cy < y || (cy
                                == y && cx < x) {
                                fog_layer(*base, *explored, fog_view, cx, cy)
                            } else {
                                base.color(cx, cy)
                            },
                    decreases width - x,
                {
                    proof {
                        assert((y as int) * (width as int) + (x as int) < (width as int) * (
                        height as int)) by (nonlinear_arith)
                            requires
                                x < width,
                                y < height,
                        ;
                        assert((y as int) * (width as int) <= (y as int) * (width as int) + (x as int));
                    }
                    let n_cells = cells.len();
                    let at: usize = (y as usize) * (width as usize) + (x as usize);
                    let ghost before = *canvas;
                    match cells[at] {
                        Visibility::Unexplored => canvas.put(x, y, VOID),
                        Visibility::Explored => {
                            match explored.get(x, y) {
                                Some(color) => canvas.put(x, y, color),
                                None => {},
                            }
                        },
                        Visibility::Visible => {},
                    }
                    proof {
                        assert forall|cx: int, cy: int| #[trigger]
                            canvas.contains(cx, cy) implies canvas.color(cx, cy) == if cy < y || (
                            cy == y && cx < x + 1) {
                                fog_layer(*base, *explored, fog_view, cx, cy)
                            } else {
                                base.color(cx, cy)
                            } by {
                            assert(before.contains(cx, cy));
                        }
                    }
                    x = x + 1;
                }
                y = y + 1;
            }
        },
        None => {},
    }
    assert forall|x: int, y: int| #[trigger] canvas.contains(x, y) implies canvas.color(x, y)
        == fog_layer(*base, *explored, fog_view, x, y) by {}

    // Remembered enemy buildings, under the live blips so a rediscovered
    // building's real blip wins. A revealed map shows the real entities, so
    // the memory steps aside.
    if fog.is_some() {
        let mut k: usize = 0;
        while k < ghosts.len()
            invariant
                canvas.wf(),
                canvas.spec_width() == base.spec_width(),
                canvas.spec_height() == base.spec_height(),
                fog_view is Some,
                k <= ghosts@.len(),
                forall|n: int|
                    0 <= n < ghosts@.len() ==> #[trigger] block_fits(
                        ghosts@[n].x,
                        ghosts@[n].y,
                        ghosts@[n].width,
                        ghosts@[n].height,
                    ),
                forall|x: int, y: int| #[trigger]
                    canvas.contains(x, y) ==> canvas.color(x, y) == if ghost_covers(
                        ghosts@.take(k as int),
                        x,
                        y,
                    ) {
                        GHOST@
                    } else {
                        fog_layer(*base, *explored, fog_view, x, y)
                    },
            decreases ghosts@.len() - k,
        {
            let ghost before = *canvas;
            let footprint = ghosts[k];
            assert(block_fits(footprint.x, footprint.y, footprint.width, footprint.height));
            canvas.fill(footprint.x, footprint.y, footprint.width, footprint.height, GHOST);
            proof {
                assert forall|x: int, y: int| #[trigger]
                    canvas.contains(x, y) implies canvas.color(x, y) == if ghost_covers(
                        ghosts@.take(k + 1),
                        x,
                        y,
                    ) {
                        GHOST@
                    } else {
                        fog_layer(*base, *explored, fog_view, x, y)
                    } by {
                    assert(before.contains(x, y));
                    let prefix = ghosts@.take(k as int);
                    let longer = ghosts@.take(k + 1);
                    assert(longer[k as int] == footprint);
                    assert forall|n: int| 0 <= n < k implies #[trigger] longer[n] == prefix[n] by {}
                    if ghost_covers(longer, x, y) {
                        let n = choose|n: int|
                            0 <= n < longer.len() && #[trigger] in_block(
                                longer[n].x as int,
                                longer[n].y as int,
                                longer[n].width as int,
                                longer[n].height as int,
                                x,
                                y,
                            );
                        if n < k {
                            assert(in_block(
                                prefix[n].x as int,
                                prefix[n].y as int,
                                prefix[n].width as int,
                                prefix[n].height as int,
                                x,
                                y,
                            ));
                        }
                    }
                    if ghost_covers(prefix, x, y) {
                        let n = choose|n: int|
                            0 <= n < prefix.len() && #[trigger] in_block(
                                prefix[n].x as int,
                                prefix[n].y as int,
                                prefix[n].width as int,
                                prefix[n].height as int,
                                x,
                                y,
                            );
                        assert(in_block(
                            longer[n].x as int,
                            longer[n].y as int,
                            longer[n].width as int,
                            longer[n].height as int,
                            x,
                            y,
                        ));
                    }
                    if in_block(
                        footprint.x as int,
                        footprint.y as int,
                        footprint.width as int,
                        footprint.height as int,
                        x,
                        y,
                    ) {
                        assert(in_block(
                            longer[k as int].x as int,
                            longer[k as int].y as int,
                            longer[k as int].width as int,
                            longer[k as int].height as int,
                            x,
                            y,
                        ));
                    }
                }
            }
            k = k + 1;
        }
        assert(ghosts@.take(ghosts@.len() as int) =~= ghosts@);
    }
    assert forall|x: int, y: int| #[trigger] canvas.contains(x, y) implies canvas.color(x, y)
        == ghost_layer(*base, *explored, fog_view, ghosts@, x, y) by {
        if fog_view is Some {
            assert(ghosts@.take(ghosts@.len() as int) =~= ghosts@);
        }
    }

    // Live blips, painted in ascending significance so nothing that matters is
    // buried: strangers first, then allies, then the local player's own, then
    // what is selected.
    let levels: [Significance; 4] = [
        Significance::Stranger,
        Significance::Team,
        Significance::Own,
        Significance::Selected,
    ];
    let mut level: usize = 0;
    while level < 4
        invariant
            canvas.wf(),
            canvas.spec_width() == base.spec_width(),
            canvas.spec_height() == base.spec_height(),
            level <= 4,
            levels@ == seq![
                Significance::Stranger,
                Significance::Team,
                Significance::Own,
                Significance::Selected,
            ],
            forall|n: int|
                0 <= n < blips@.len() ==> #[trigger] block_fits(
                    blips@[n].x,
                    blips@[n].y,
                    blips@[n].width,
                    blips@[n].height,
                ),
            forall|x: int, y: int| #[trigger]
                canvas.contains(x, y) ==> canvas.color(x, y) == blips_layer(
                    blips@,
                    level as int,
                    x,
                    y,
                    ghost_layer(*base, *explored, fog_view, ghosts@, x, y),
                ),
        decreases 4 - level,
    {
        let wanted = levels[level];
        assert(wanted == level_significance(level as int));
        let ghost pass_start = *canvas;
        let mut k: usize = 0;
        while k < blips.len()
            invariant
                canvas.wf(),
                pass_start.wf(),
                canvas.spec_width() == base.spec_width() == pass_start.spec_width(),
                canvas.spec_height() == base.spec_height() == pass_start.spec_height(),
                k <= blips@.len(),
                forall|n: int|
                    0 <= n < blips@.len() ==> #[trigger] block_fits(
                        blips@[n].x,
                        blips@[n].y,
                        blips@[n].width,
                        blips@[n].height,
                    ),
                forall|x: int, y: int| #[trigger]
                    canvas.contains(x, y) ==> canvas.color(x, y) == level_pass(
                        blips@,
                        k as int,
                        wanted,
                        x,
                        y,
                        pass_start.color(x, y),
                    ),
            decreases blips@.len() - k,
        {
            let blip = blips[k];
            let ghost before = *canvas;
            if blip.significance == wanted {
                assert(block_fits(blip.x, blip.y, blip.width, blip.height));
                canvas.fill(blip.x, blip.y, blip.width, blip.height, blip.color);
            }
            proof {
                assert forall|x: int, y: int| #[trigger]
                    canvas.contains(x, y) implies canvas.color(x, y) == level_pass(
                        blips@,
                        k + 1,
                        wanted,
                        x,
                        y,
                        pass_start.color(x, y),
                    ) by {
                    assert(before.contains(x, y));
                }
            }
            k = k + 1;
        }
        proof {
            assert forall|x: int, y: int| #[trigger]
                canvas.contains(x, y) implies canvas.color(x, y) == blips_layer(
                    blips@,
                    level + 1,
                    x,
                    y,
                    ghost_layer(*base, *explored, fog_view, ghosts@, x, y),
                ) by {
                assert(pass_start.contains(x, y));
            }
        }
        level = level + 1;
    }

    // The camera's viewport, as the quad it really covers: under the diamond
    // look the visible region is a turned square, and its bounding box would
    // claim about twice the ground.
    match viewport {
        Some(corners) => {
            let ghost before = *canvas;
            canvas.outline(corners, VIEWPORT);
            assert forall|x: int, y: int| #[trigger] canvas.contains(x, y) implies canvas.color(
                x,
                y,
            ) == composed_color(*base, *explored, fog_view, ghosts@, blips@, viewport, x, y) by {
                assert(before.contains(x, y));
            }
        },
        None => {},
    }
}

} // verus!
