//! The debug overlay's decisions: its starting options, which navigation
//! layer it shows next, how the readout names the selection, and how each
//! queued order is drawn.
use vstd::prelude::*;
use crate::input::InputMode;
use crate::settings::MovementModel;
use crate::text::{decimal, decimal_text, join_all, join_text, owned, str_eq, texts_of};

verus! {

broadcast use vstd::string::group_string_axioms;

/// How many selected entities the readout names outright before it falls back
/// to counting them.
pub const NAMED_SELECTION: usize = 6;

/// The type the sandbox spawn key places.
pub const SPAWN_TYPE: &'static str = "archer";

/// Toggleable debug options.
pub struct DebugState {
    /// Draw the debug overlay — nav grid and order lines.
    pub grid: bool,
    /// Which navigation layer the occupancy fill shows, by registered name.
    pub layer: String,
    /// Type spawned.
    pub spawn_type: String,
}

impl DebugState {
    /// The overlay on, showing the ground layer, spawning archers.
    pub fn initial() -> (state: DebugState)
        ensures
            state.grid,
            state.layer@ == crate::map::GROUND@,
            state.spawn_type@ == SPAWN_TYPE@,
    {
        DebugState { grid: true, layer: owned(crate::map::GROUND), spawn_type: owned(SPAWN_TYPE) }
    }
}

/// The index of the first of `names` equal to `current`, if any.
pub open spec fn first_index(names: Seq<Seq<char>>, current: Seq<char>) -> Option<int> {
    if exists|k: int| 0 <= k < names.len() && names[k] == current {
        Some(
            choose|k: int|
                0 <= k < names.len() && names[k] == current && forall|j: int|
                    0 <= j < k ==> names[j] != current,
        )
    } else {
        None
    }
}

/// The layer the cycle moves to from `current`: the one after it in the
/// registered order, wrapping round; the first when `current` is not among
/// them; none when nothing is registered.
pub open spec fn layer_after(names: Seq<Seq<char>>, current: Seq<char>) -> Option<Seq<char>> {
    match first_index(names, current) {
        Some(at) => Some(names[(at + 1) % names.len() as int]),
        None => if names.len() > 0 {
            Some(names[0])
        } else {
            None
        },
    }
}

/// Cycles which navigation layer the occupancy fill shows. `names` holds the
/// registered layers in name order, so the cycle is stable across runs.
pub fn next_layer(names: &Vec<String>, current: &str) -> (next: Option<String>)
    ensures
        match layer_after(texts_of(names@), current@) {
            Some(layer) => next matches Some(n) && n@ == layer,
            None => next is None,
        },
{
    let ghost views = texts_of(names@);
    let mut k: usize = 0;
    while k < names.len()
        invariant
            k <= names@.len(),
            views == texts_of(names@),
            forall|j: int| 0 <= j < k ==> views[j] != current@,
        decreases names@.len() - k,
    {
        if str_eq(names[k].as_str(), current) {
            proof {
                assert(views[k as int] == current@);
                assert(exists|i: int| 0 <= i < views.len() && views[i] == current@);
                let at = first_index(views, current@)->0;
                assert(0 <= at < views.len() && views[at] == current@ && forall|j: int|
                    0 <= j < at ==> views[j] != current@);
                if at < k {
                    assert(views[at] != current@);
                }
                if at > k {
                    assert(views[k as int] != current@);
                }
                assert(at == k);
            }
            let after = (k + 1) % names.len();
            return Some(owned(names[after].as_str()));
        }
        k = k + 1;
    }
    proof {
        assert(!(exists|i: int| 0 <= i < views.len() && views[i] == current@));
    }
    if names.len() > 0 {
        Some(owned(names[0].as_str()))
    } else {
        None
    }
}

/// The selection as the readout names it: `-` for none, each simulation id
/// for a handful, a count past that.
pub open spec fn selection_names(ids: Seq<u64>) -> Seq<char> {
    if ids.len() == 0 {
        "-"@
    } else if ids.len() <= NAMED_SELECTION {
        join_text(ids.map_values(|id: u64| "#"@ + decimal_text(id as nat)), " "@)
    } else {
        decimal_text(ids.len()) + " units"@
    }
}

/// Names the selection by simulation id rather than counting it: a report
/// about one unit of a crowd has to be able to say which. Past a handful the
/// ids stop being readable and stop fitting, so the count is what the line
/// carries.
pub fn selection_label(ids: &Vec<u64>) -> (label: String)
    ensures
        label@ == selection_names(ids@),
{
    if ids.len() == 0 {
        return String::from_str("-");
    }
    if ids.len() > NAMED_SELECTION {
        let mut label = decimal(ids.len() as u64);
        label.append(" units");
        return label;
    }
    let mut names: Vec<String> = Vec::new();
    let mut k: usize = 0;
    while k < ids.len()
        invariant
            k <= ids@.len(),
            texts_of(names@) == ids@.take(k as int).map_values(
                |id: u64| "#"@ + decimal_text(id as nat),
            ),
        decreases ids@.len() - k,
    {
        let mut name = String::from_str("#");
        let n = decimal(ids[k]);
        name.append(n.as_str());
        let ghost before = names@;
        names.push(name);
        assert(texts_of(names@) =~= texts_of(before).push(name@));
        assert(ids@.take(k + 1).map_values(|id: u64| "#"@ + decimal_text(id as nat))
            =~= ids@.take(k as int).map_values(|id: u64| "#"@ + decimal_text(id as nat)).push(
            "#"@ + decimal_text(ids@[k as int] as nat),
        ));
        k = k + 1;
    }
    assert(ids@.take(ids@.len() as int) =~= ids@);
    join_all(&names, " ")
}

/// The input mode's word in the readout.
pub open spec fn mode_word(mode: InputMode) -> Seq<char> {
    match mode {
        InputMode::Normal => "normal"@,
        InputMode::PlacingBuild(_) => "placing"@,
        InputMode::Targeting(_) => "targeting"@,
    }
}

/// The input mode as the readout names it.
pub fn mode_label(mode: &InputMode) -> (word: &'static str)
    ensures
        word@ == mode_word(*mode),
{
    match mode {
        InputMode::Normal => "normal",
        InputMode::PlacingBuild(_) => "placing",
        InputMode::Targeting(_) => "targeting",
    }
}

/// The movement model's word in the readout.
pub open spec fn model_word(model: MovementModel) -> Seq<char> {
    match model {
        MovementModel::Cell => "cell"@,
        MovementModel::Continuous => "continuous"@,
    }
}

/// The movement model as the readout names it.
pub fn model_label(model: MovementModel) -> (word: &'static str)
    ensures
        word@ == model_word(model),
{
    match model {
        MovementModel::Cell => "cell",
        MovementModel::Continuous => "continuous",
    }
}

/// The grid cell under the cursor, written out, or `-` off the playable area.
pub open spec fn cell_words(cell: Option<(u32, u32)>) -> Seq<char> {
    match cell {
        None => "-"@,
        Some((x, y)) => "("@ + decimal_text(x as nat) + ","@ + decimal_text(y as nat) + ")"@,
    }
}

/// Writes out the grid cell under the cursor.
pub fn cell_label(cell: Option<(u32, u32)>) -> (text: String)
    ensures
        text@ == cell_words(cell),
{
    match cell {
        None => String::from_str("-"),
        Some((x, y)) => {
            let mut text = String::from_str("(");
            let a = decimal(x as u64);
            text.append(a.as_str());
            text.append(",");
            let b = decimal(y as u64);
            text.append(b.as_str());
            text.append(")");
            text
        },
    }
}

/// An entity's footprint on the grid: its anchor cell and its size.
#[derive(Clone, Copy, Debug, PartialEq, Eq, Structural)]
pub struct Footprint {
    pub x: u32,
    pub y: u32,
    pub width: u32,
    pub height: u32,
}

/// Whether a footprint covers a cell.
pub open spec fn covers(foot: Footprint, cx: int, cy: int) -> bool {
    foot.x <= cx < foot.x + foot.width && foot.y <= cy < foot.y + foot.height
}

/// What the hit-test finds under the cursor — the same test selection uses:
/// the first of the visible entities whose footprint covers the cell.
pub fn hovered(footprints: &Vec<Footprint>, cx: u32, cy: u32) -> (found: Option<usize>)
    ensures
        match found {
            Some(k) => k < footprints@.len() && covers(footprints@[k as int], cx as int, cy as int)
                && forall|j: int| 0 <= j < k ==> !covers(#[trigger] footprints@[j], cx as int, cy as int),
            None => forall|j: int|
                0 <= j < footprints@.len() ==> !covers(#[trigger] footprints@[j], cx as int, cy as int),
        },
{
    let mut k: usize = 0;
    while k < footprints.len()
        invariant
            k <= footprints@.len(),
            forall|j: int| 0 <= j < k ==> !covers(#[trigger] footprints@[j], cx as int, cy as int),
        decreases footprints@.len() - k,
    {
        let foot = footprints[k];
        let inside_x = cx >= foot.x && (cx - foot.x) < foot.width;
        let inside_y = cy >= foot.y && (cy - foot.y) < foot.height;
        if inside_x && inside_y {
            return Some(k);
        }
        k = k + 1;
    }
    None
}

/// The hue an order's debug line is drawn in.
#[derive(Clone, Copy, Debug, PartialEq, Eq, Structural)]
pub enum OrderHue {
    Move,
    Combat,
    Guard,
    Harvest,
    Build,
    Repair,
}

/// A queued order, by what its line points at.
#[derive(Clone, Copy, Debug, PartialEq, Eq, Structural)]
pub enum QueuedOrder {
    Move,
    AttackMove,
    AttackEntity,
    AttackPosition,
    Guard,
    Follow,
    Harvest,
    Build,
    Repair,
    Patrol,
    Board,
    Load,
    /// An unload, at a place or (`false`) where the transporter stands.
    Unload { at_place: bool },
    Train,
    Research,
    Morph,
    Die,
}

/// Where an order's line ends.
#[derive(Clone, Copy, Debug, PartialEq, Eq, Structural)]
pub enum LineEnd {
    /// The middle of the footprint the order's destination names.
    Footprint,
    /// The middle of the one cell it names.
    Cell,
    /// The middle of the entity it names, if that entity is still there.
    Entity,
    /// Both patrol endpoints, joined and ringed.
    PatrolLeg,
}

/// How an order is drawn: the hue and where its line ends, or nothing for an
/// order that happens where the unit stands.
pub open spec fn order_line_spec(order: QueuedOrder) -> Option<(OrderHue, LineEnd)> {
    match order {
        QueuedOrder::Move => Some((OrderHue::Move, LineEnd::Footprint)),
        QueuedOrder::AttackMove => Some((OrderHue::Combat, LineEnd::Cell)),
        QueuedOrder::AttackEntity => Some((OrderHue::Combat, LineEnd::Entity)),
        QueuedOrder::AttackPosition => Some((OrderHue::Combat, LineEnd::Cell)),
        QueuedOrder::Guard | QueuedOrder::Follow | QueuedOrder::Board | QueuedOrder::Load => Some(
            (OrderHue::Guard, LineEnd::Entity),
        ),
        QueuedOrder::Harvest => Some((OrderHue::Harvest, LineEnd::Entity)),
        QueuedOrder::Build => Some((OrderHue::Build, LineEnd::Footprint)),
        QueuedOrder::Repair => Some((OrderHue::Repair, LineEnd::Entity)),
        QueuedOrder::Patrol => Some((OrderHue::Combat, LineEnd::PatrolLeg)),
        QueuedOrder::Unload { at_place } => if at_place {
            Some((OrderHue::Guard, LineEnd::Cell))
        } else {
            None
        },
        QueuedOrder::Train | QueuedOrder::Research | QueuedOrder::Morph | QueuedOrder::Die => None,
    }
}

/// How the overlay draws a queued order: a line to its target coloured by the
/// order's kind, both endpoints of a patrol, and nothing for an order carried
/// out where the unit stands.
pub fn order_line(order: QueuedOrder) -> (line: Option<(OrderHue, LineEnd)>)
    ensures
        line == order_line_spec(order),
{
    match order {
        QueuedOrder::Move => Some((OrderHue::Move, LineEnd::Footprint)),
        QueuedOrder::AttackMove => Some((OrderHue::Combat, LineEnd::Cell)),
        QueuedOrder::AttackEntity => Some((OrderHue::Combat, LineEnd::Entity)),
        QueuedOrder::AttackPosition => Some((OrderHue::Combat, LineEnd::Cell)),
        QueuedOrder::Guard | QueuedOrder::Follow | QueuedOrder::Board | QueuedOrder::Load => Some(
            (OrderHue::Guard, LineEnd::Entity),
        ),
        QueuedOrder::Harvest => Some((OrderHue::Harvest, LineEnd::Entity)),
        QueuedOrder::Build => Some((OrderHue::Build, LineEnd::Footprint)),
        QueuedOrder::Repair => Some((OrderHue::Repair, LineEnd::Entity)),
        QueuedOrder::Patrol => Some((OrderHue::Combat, LineEnd::PatrolLeg)),
        QueuedOrder::Unload { at_place } => if at_place {
            Some((OrderHue::Guard, LineEnd::Cell))
        } else {
            None
        },
        QueuedOrder::Train | QueuedOrder::Research | QueuedOrder::Morph | QueuedOrder::Die => None,
    }
}

} // verus!
