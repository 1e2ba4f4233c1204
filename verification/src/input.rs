//! The decisions behind mouse and keyboard input: which entity a click picks,
//! which selected entity leads, what a hotkey arms, what a control-group key
//! does, and what a right-click or an armed order's click turns into. The
//! world positions under the cursor are the caller's to work out; everything
//! here works on cells, ids and flags.
use vstd::prelude::*;

verus! {

/// An entity a click can land on: its id and the footprint it covers.
#[derive(Clone, Copy, Debug)]
pub struct Pickable {
    pub id: u64,
    pub x: u32,
    pub y: u32,
    pub width: u32,
    pub height: u32,
}

/// Whether an entity's footprint covers a cell.
pub open spec fn covers(entity: Pickable, cell: (u32, u32)) -> bool {
    entity.x <= cell.0 < entity.x + entity.width && entity.y <= cell.1 < entity.y + entity.height
}

/// The footprint's area.
pub open spec fn area(entity: Pickable) -> int {
    entity.width * entity.height
}

/// The smallest footprint among the first `n` entities covering `cell`, as
/// (area, id): the earliest wins a tie.
pub open spec fn best_pick(entities: Seq<Pickable>, cell: (u32, u32), n: int) -> Option<(int, u64)>
    decreases n,
{
    if n <= 0 {
        None
    } else {
        let earlier = best_pick(entities, cell, n - 1);
        let entity = entities[n - 1];
        if covers(entity, cell) && match earlier {
            None => true,
            Some((best_area, _)) => area(entity) < best_area,
        } {
            Some((area(entity), entity.id))
        } else {
            earlier
        }
    }
}

/// The entity whose footprint covers `cell`, preferring the smallest
/// footprint: a unit standing on or near a building wins over the building.
pub fn entity_at(cell: (u32, u32), entities: &Vec<Pickable>) -> (picked: Option<u64>)
    ensures
        picked == match best_pick(entities@, cell, entities@.len() as int) {
            Some((_, id)) => Some(id),
            None => None,
        },
{
    let mut best: Option<(u64, u64)> = None;
    let mut k: usize = 0;
    while k < entities.len()
        invariant
            k <= entities@.len(),
            match best_pick(entities@, cell, k as int) {
                Some((a, id)) => 0 <= a <= u64::MAX && best == Some((a as u64, id)),
                None => best is None,
            },
        decreases entities@.len() - k,
    {
        let entity = entities[k];
        let inside = cell.0 >= entity.x && (cell.0 as u64) < entity.x as u64 + entity.width as u64
            && cell.1 >= entity.y && (cell.1 as u64) < entity.y as u64 + entity.height as u64;
        if inside {
            assert(0 <= area(entity) <= u64::MAX) by (nonlinear_arith)
                requires
                    0 <= entity.width <= u32::MAX,
                    0 <= entity.height <= u32::MAX,
            ;
            let size = entity.width as u64 * entity.height as u64;
            let better = match best {
                None => true,
                Some((best_area, _)) => size < best_area,
            };
            if better {
                best = Some((size, entity.id));
            }
        }
        k = k + 1;
    }
    match best {
        Some((_, id)) => Some(id),
        None => None,
    }
}

/// Whether `a` leads `b` as a primary: a higher selection priority, or the
/// same priority and a lower id.
pub open spec fn leads(a: (u32, u64), b: (u32, u64)) -> bool {
    a.0 > b.0 || (a.0 == b.0 && a.1 < b.1)
}

/// The priority of the first known entity with `id`, if any is known.
pub open spec fn priority_of(known: Seq<(u64, u32)>, id: u64) -> Option<u32>
    decreases known.len(),
{
    if known.len() == 0 {
        None
    } else if known[0].0 == id {
        Some(known[0].1)
    } else {
        priority_of(known.drop_first(), id)
    }
}

/// The leading candidate among the first `n` selected ids: the highest
/// priority, ties to the lowest id; ids no known entity carries are skipped.
pub open spec fn lead_of(selected: Seq<u64>, known: Seq<(u64, u32)>, n: int) -> Option<(u32, u64)>
    decreases n,
{
    if n <= 0 {
        None
    } else {
        let earlier = lead_of(selected, known, n - 1);
        let id = selected[n - 1];
        match priority_of(known, id) {
            None => earlier,
            Some(priority) => match earlier {
                None => Some((priority, id)),
                Some(best) => if leads(best, (priority, id)) {
                    earlier
                } else {
                    Some((priority, id))
                },
            },
        }
    }
}

/// The priority of the first entry of `known` carrying `id`.
fn find_priority(known: &Vec<(u64, u32)>, id: u64) -> (priority: Option<u32>)
    ensures
        priority == priority_of(known@, id),
{
    let mut k: usize = 0;
    assert(known@.skip(0) =~= known@);
    while k < known.len()
        invariant
            k <= known@.len(),
            priority_of(known@, id) == priority_of(known@.skip(k as int), id),
        decreases known@.len() - k,
    {
        let entry = known[k];
        let ghost rest = known@.skip(k as int);
        assert(rest[0] == entry);
        assert(rest.drop_first() =~= known@.skip(k + 1));
        if entry.0 == id {
            return Some(entry.1);
        }
        k = k + 1;
    }
    assert(known@.skip(k as int) =~= Seq::<(u64, u32)>::empty());
    None
}

/// The local player's primary selected entity: the one hotkeys and panels act
/// on. The selection's highest-priority entity leads, ties to the lowest id, so
/// a mixed selection leads with its most significant unit. `known` pairs each
/// entity's id with its selection priority.
pub fn primary(selected: &Vec<u64>, known: &Vec<(u64, u32)>) -> (lead: Option<u64>)
    ensures
        lead == match lead_of(selected@, known@, selected@.len() as int) {
            Some((_, id)) => Some(id),
            None => None,
        },
{
    let mut best: Option<(u32, u64)> = None;
    let mut k: usize = 0;
    while k < selected.len()
        invariant
            k <= selected@.len(),
            best == lead_of(selected@, known@, k as int),
        decreases selected@.len() - k,
    {
        let id = selected[k];
        match find_priority(known, id) {
            None => {},
            Some(priority) => {
                best = match best {
                    None => Some((priority, id)),
                    Some(current) => {
                        if current.0 > priority || (current.0 == priority && current.1 < id) {
                            Some(current)
                        } else {
                            Some((priority, id))
                        }
                    },
                };
            },
        }
        k = k + 1;
    }
    match best {
        Some((_, id)) => Some(id),
        None => None,
    }
}

/// The primary leads every other known selected entity: none has a higher
/// priority, and none of the same priority has a lower id.
pub proof fn law_primary_leads(selected: Seq<u64>, known: Seq<(u64, u32)>, n: int, k: int)
    requires
        0 <= k < n <= selected.len(),
        priority_of(known, selected[k]) is Some,
    ensures
        lead_of(selected, known, n) matches Some(best) && (best == (
            priority_of(known, selected[k])->0,
            selected[k],
        ) || leads(best, (priority_of(known, selected[k])->0, selected[k]))),
    decreases n,
{
    if k < n - 1 {
        law_primary_leads(selected, known, n - 1, k);
    }
}

/// How a unit answers threats.
#[derive(Clone, Copy, Debug, PartialEq, Eq, Structural)]
pub enum Stance {
    Flee,
    HoldFire,
    StandGround,
    Defend,
}

/// The stance the `X` key cycles to: flee, hold fire, stand ground, defend,
/// then flee again.
pub fn next_stance(stance: Stance) -> (next: Stance)
    ensures
        next == match stance {
            Stance::Flee => Stance::HoldFire,
            Stance::HoldFire => Stance::StandGround,
            Stance::StandGround => Stance::Defend,
            Stance::Defend => Stance::Flee,
        },
{
    match stance {
        Stance::Flee => Stance::HoldFire,
        Stance::HoldFire => Stance::StandGround,
        Stance::StandGround => Stance::Defend,
        Stance::Defend => Stance::Flee,
    }
}

/// How a selection command combines with the current selection.
#[derive(Clone, Copy, Debug, PartialEq, Eq, Structural)]
pub enum SelectMode {
    Replace,
    Add,
    Toggle,
}

/// What a control-group key does.
#[derive(Clone, Copy, Debug, PartialEq, Eq, Structural)]
pub enum GroupCommand {
    /// Adds the current selection to the group.
    Append { group: u8 },
    /// Makes the group the current selection.
    Assign { group: u8 },
    /// Selects the group, replacing or adding to the selection.
    Recall { group: u8, mode: SelectMode },
}

/// The command for a press of control-group key `group` (keys 1–9 and 0 are
/// groups 0 to 9): `Ctrl` assigns the selection, `Ctrl+Shift` appends to it,
/// `Shift` recalls into the current selection, and a bare press recalls
/// replacing it.
pub fn group_command(group: u8, ctrl: bool, shift: bool) -> (command: GroupCommand)
    ensures
        command == if ctrl {
            if shift {
                GroupCommand::Append { group }
            } else {
                GroupCommand::Assign { group }
            }
        } else {
            GroupCommand::Recall {
                group,
                mode: if shift {
                    SelectMode::Add
                } else {
                    SelectMode::Replace
                },
            }
        },
{
    if ctrl {
        if shift {
            GroupCommand::Append { group }
        } else {
            GroupCommand::Assign { group }
        }
    } else {
        GroupCommand::Recall {
            group,
            mode: if shift {
                SelectMode::Add
            } else {
                SelectMode::Replace
            },
        }
    }
}

/// The key a group is recalled by: groups 0 to 8 by keys 1 to 9, group 9 by 0.
pub fn group_key(group: u8) -> (key: u8)
    requires
        group < 10,
    ensures
        key == (group + 1) % 10,
{
    (group + 1) % 10
}

/// A combat order armed by hotkey or by a command-card button, waiting for its
/// target click.
#[derive(Clone, Copy, Debug, PartialEq, Eq, Structural)]
pub enum TargetedOrder {
    /// `F`: attack-move to the clicked position.
    AttackMove,
    /// `R`: patrol between here and the clicked position.
    Patrol,
    /// `G`: guard the clicked entity.
    Guard,
    /// Fetch the clicked entity aboard.
    Load,
    /// Unload at the clicked position.
    Unload,
    /// Cast the skill at the clicked target.
    Skill(u32),
}

/// What the next left-click does.
#[derive(Clone, Debug)]
pub enum InputMode {
    /// Left-click selects.
    Normal,
    /// Left-click places the named building.
    PlacingBuild(String),
    /// Left-click issues the armed order.
    Targeting(TargetedOrder),
}

/// A combat hotkey.
#[derive(Clone, Copy, Debug, PartialEq, Eq, Structural)]
pub enum OrderKey {
    F,
    R,
    G,
}

/// The order a combat hotkey arms.
pub open spec fn key_order(key: OrderKey) -> TargetedOrder {
    match key {
        OrderKey::F => TargetedOrder::AttackMove,
        OrderKey::R => TargetedOrder::Patrol,
        OrderKey::G => TargetedOrder::Guard,
    }
}

/// The order a combat hotkey arms for the current selection, or `None` when the
/// key arms nothing: an empty selection has nobody to order, and an
/// in-progress building placement is never stolen. Re-arming a different
/// order, or arming from an armed one, is allowed.
pub fn arm_order(placing: bool, selection_empty: bool, key: Option<OrderKey>) -> (armed: Option<
    TargetedOrder,
>)
    ensures
        armed == if placing || selection_empty {
            None
        } else {
            match key {
                Some(key) => Some(key_order(key)),
                None => None,
            }
        },
{
    if placing || selection_empty {
        return None;
    }
    match key {
        Some(OrderKey::F) => Some(TargetedOrder::AttackMove),
        Some(OrderKey::R) => Some(TargetedOrder::Patrol),
        Some(OrderKey::G) => Some(TargetedOrder::Guard),
        None => None,
    }
}

/// What an armed order's left-click issues.
#[derive(Clone, Copy, Debug, PartialEq, Eq, Structural)]
pub enum TargetCommand {
    /// Attack-move to the clicked position.
    AttackMove { flush: bool },
    /// Patrol to the clicked position.
    Patrol { flush: bool },
    /// Guard the clicked entity.
    Guard { target: u64, flush: bool },
}

/// What the left-click of an armed attack-move, patrol or guard order issues,
/// given the entity under the cursor, if any. A guard needs an entity: a miss
/// issues nothing and keeps the order armed so the player can click again.
/// Holding Shift (`flush` false) queues the order instead of replacing.
pub fn targeted_click(armed: TargetedOrder, under_cursor: Option<u64>, flush: bool) -> (issued: Option<
    TargetCommand,
>)
    requires
        armed == TargetedOrder::AttackMove || armed == TargetedOrder::Patrol || armed
            == TargetedOrder::Guard,
    ensures
        issued == match armed {
            TargetedOrder::AttackMove => Some(TargetCommand::AttackMove { flush }),
            TargetedOrder::Patrol => Some(TargetCommand::Patrol { flush }),
            _ => match under_cursor {
                Some(target) => Some(TargetCommand::Guard { target, flush }),
                None => None,
            },
        },
{
    match armed {
        TargetedOrder::AttackMove => Some(TargetCommand::AttackMove { flush }),
        TargetedOrder::Patrol => Some(TargetCommand::Patrol { flush }),
        _ => match under_cursor {
            Some(target) => Some(TargetCommand::Guard { target, flush }),
            None => None,
        },
    }
}

/// Where a producer's units rally.
#[derive(Clone, Copy, Debug, PartialEq, Eq, Structural)]
pub enum RallyChoice {
    /// The rally point is cleared.
    Clear,
    /// Units rally to the entity.
    Entity(u64),
    /// Units rally to the clicked position.
    Position,
}

/// What a right-click on the map orders.
#[derive(Clone, Copy, Debug, PartialEq, Eq, Structural)]
pub enum RightClick {
    /// Every selected producer re-targets its rally point.
    Rally(RallyChoice),
    /// The selection is sent to the entity.
    SendToEntity { target: u64, flush: bool },
    /// The selection moves to the clicked position.
    Move { flush: bool },
}

/// Whether every selected entity is one of the local player's producers — and
/// there is a selection at all.
pub open spec fn all_producers(selected: Seq<u64>, producers: Seq<u64>) -> bool {
    selected.len() > 0 && forall|k: int| 0 <= k < selected.len() ==> producers.contains(
        #[trigger] selected[k],
    )
}

/// What a right-click orders. An all-producer selection captures the click to
/// re-target its rally points — clicking one of the selected producers clears
/// them, another entity becomes the target, and open ground the position. Any
/// other selection is sent to the entity under the cursor, or moved to the
/// clicked position.
pub fn right_click(
    selected: &Vec<u64>,
    producers: &Vec<u64>,
    under_cursor: Option<u64>,
    flush: bool,
) -> (order: RightClick)
    ensures
        order == if all_producers(selected@, producers@) {
            RightClick::Rally(
                match under_cursor {
                    Some(id) => if selected@.contains(id) {
                        RallyChoice::Clear
                    } else {
                        RallyChoice::Entity(id)
                    },
                    None => RallyChoice::Position,
                },
            )
        } else {
            match under_cursor {
                Some(target) => RightClick::SendToEntity { target, flush },
                None => RightClick::Move { flush },
            }
        },
{
    let mut every = selected.len() > 0;
    let mut k: usize = 0;
    while k < selected.len()
        invariant
            k <= selected@.len(),
            every == (selected@.len() > 0 && forall|n: int|
                0 <= n < k ==> producers@.contains(#[trigger] selected@[n])),
        decreases selected@.len() - k,
    {
        let found = contains_id(producers, selected[k]);
        every = every && found;
        k = k + 1;
    }
    if every {
        let choice = match under_cursor {
            Some(id) => {
                if contains_id(selected, id) {
                    RallyChoice::Clear
                } else {
                    RallyChoice::Entity(id)
                }
            },
            None => RallyChoice::Position,
        };
        return RightClick::Rally(choice);
    }
    match under_cursor {
        Some(target) => RightClick::SendToEntity { target, flush },
        None => RightClick::Move { flush },
    }
}

/// Whether a list of ids holds `id`.
pub fn contains_id(ids: &Vec<u64>, id: u64) -> (found: bool)
    ensures
        found == ids@.contains(id),
{
    let mut k: usize = 0;
    while k < ids.len()
        invariant
            k <= ids@.len(),
            forall|n: int| 0 <= n < k ==> ids@[n] != id,
        decreases ids@.len() - k,
    {
        if ids[k] == id {
            return true;
        }
        k = k + 1;
    }
    false
}

/// How a left-click or a drag on the map selects.
#[derive(Clone, Debug)]
pub enum Selecting {
    /// Every on-screen entity of the class, on a double-click.
    ByType { class: String, mode: SelectMode },
    /// The clicked entity alone.
    ById { id: u64, mode: SelectMode },
    /// Everything in the dragged (or clicked) cell rectangle, which finds
    /// nothing on empty ground and so clears the selection.
    ByRect { mode: SelectMode },
}

/// How a released left-click selects. A click on an entity selects just it —
/// or, on a double-click, every on-screen entity of its class (`double_class`);
/// a click on empty ground, or a drag, selects by rectangle. Holding Shift
/// combines with the current selection instead of replacing it: a click
/// toggles the entity, a double-click or a box adds.
pub fn select_on_release(hit: Option<u64>, double_class: Option<String>, shift: bool) -> (selecting:
    Selecting)
    ensures
        match hit {
            Some(id) => match double_class {
                Some(class) => selecting matches Selecting::ByType { class: c, mode } && c@
                    == class@ && mode == (if shift {
                    SelectMode::Add
                } else {
                    SelectMode::Replace
                }),
                None => selecting matches Selecting::ById { id: i, mode } && i == id && mode == (
                if shift {
                    SelectMode::Toggle
                } else {
                    SelectMode::Replace
                }),
            },
            None => selecting matches Selecting::ByRect { mode } && mode == (if shift {
                SelectMode::Add
            } else {
                SelectMode::Replace
            }),
        },
{
    match hit {
        Some(id) => match double_class {
            Some(class) => Selecting::ByType {
                class,
                mode: if shift {
                    SelectMode::Add
                } else {
                    SelectMode::Replace
                },
            },
            None => Selecting::ById {
                id,
                mode: if shift {
                    SelectMode::Toggle
                } else {
                    SelectMode::Replace
                },
            },
        },
        None => Selecting::ByRect {
            mode: if shift {
                SelectMode::Add
            } else {
                SelectMode::Replace
            },
        },
    }
}

/// Every control group has a key of its own: no two of the ten groups are
/// recalled by the same key, and every key 0 to 9 recalls one.
pub proof fn law_group_keys_distinct(a: u8, b: u8)
    requires
        a < 10,
        b < 10,
        a != b,
    ensures
        (a + 1) % 10 != (b + 1) % 10,
        (a + 1) % 10 < 10,
{
}

proof fn lemma_best_pick_is_smallest(entities: Seq<Pickable>, cell: (u32, u32), n: int)
    requires
        0 <= n <= entities.len(),
    ensures
        match best_pick(entities, cell, n) {
            Some((a, id)) => exists|k: int|
                #![trigger entities[k]]
                0 <= k < n && entities[k].id == id && entities[k].x <= cell.0 < entities[k].x
                    + entities[k].width && entities[k].y <= cell.1 < entities[k].y
                    + entities[k].height && a == entities[k].width * entities[k].height
                    && (forall|j: int|
                    0 <= j < n && entities[j].x <= cell.0 < entities[j].x + entities[j].width
                        && entities[j].y <= cell.1 < entities[j].y + entities[j].height
                        ==> #[trigger] (entities[j].width * entities[j].height) >= a) && (forall|
                    j: int,
                |
                    0 <= j < k && entities[j].x <= cell.0 < entities[j].x + entities[j].width
                        && entities[j].y <= cell.1 < entities[j].y + entities[j].height
                        ==> #[trigger] (entities[j].width * entities[j].height) > a),
            None => forall|j: int|
                0 <= j < n ==> !(#[trigger] entities[j].x <= cell.0 < entities[j].x
                    + entities[j].width && entities[j].y <= cell.1 < entities[j].y
                    + entities[j].height),
        },
    decreases n,
{
    if n > 0 {
        lemma_best_pick_is_smallest(entities, cell, n - 1);
    }
}

/// A click picks the smallest footprint that covers the cell: the entity
/// picked covers it, no covering entity has a smaller area, and among equal
/// areas the first in the list wins; nothing is picked exactly when nothing
/// covers the cell.
pub proof fn law_pick_smallest_cover(entities: Seq<Pickable>, cell: (u32, u32))
    ensures
        match best_pick(entities, cell, entities.len() as int) {
            Some((a, id)) => exists|k: int|
                #![trigger entities[k]]
                0 <= k < entities.len() && entities[k].id == id && entities[k].x <= cell.0
                    < entities[k].x + entities[k].width && entities[k].y <= cell.1 < entities[k].y
                    + entities[k].height && a == entities[k].width * entities[k].height
                    && (forall|j: int|
                    0 <= j < entities.len() && entities[j].x <= cell.0 < entities[j].x
                        + entities[j].width && entities[j].y <= cell.1 < entities[j].y
                        + entities[j].height ==> #[trigger] (entities[j].width
                        * entities[j].height) >= a) && (forall|j: int|
                    0 <= j < k && entities[j].x <= cell.0 < entities[j].x + entities[j].width
                        && entities[j].y <= cell.1 < entities[j].y + entities[j].height
                        ==> #[trigger] (entities[j].width * entities[j].height) > a),
            None => forall|j: int|
                0 <= j < entities.len() ==> !(#[trigger] entities[j].x <= cell.0 < entities[j].x
                    + entities[j].width && entities[j].y <= cell.1 < entities[j].y
                    + entities[j].height),
        },
{
    lemma_best_pick_is_smallest(entities, cell, entities.len() as int);
}

} // verus!
