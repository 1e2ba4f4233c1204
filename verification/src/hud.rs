//! The overlay's texts and its command card: the resource and supply lines,
//! the selection readout, the standing notes, the roster, the verdict and the
//! final tallies, and which buttons the card holds and how each is tinted.
use vstd::prelude::*;
use crate::text::{decimal, decimal_text, join_all, join_text, texts_of};
use crate::time::{SpeedStep, label_of};

verus! {

broadcast use vstd::string::group_string_axioms;

/// The characters `c` turns into when written in upper case.
pub uninterp spec fn uppercase(c: char) -> Seq<char>;

/// Calls `char::to_uppercase` on `c` and collects what it yields: the
/// character's upper-case mapping, one or more characters. The mapping is
/// Unicode's and is not restated here; the contract names it.
#[verifier::external_body]
fn upper(c: char) -> (text: String)
    ensures
        text@ == uppercase(c),
{
    c.to_uppercase().collect::<String>()
}

/// What the character at `i` of a type name becomes in its display name: an
/// underscore turns into a space, the first letter of each word is put in
/// upper case, and the rest stay as they are.
pub open spec fn display_piece(name: Seq<char>, i: int) -> Seq<char> {
    if name[i] == '_' {
        seq![' ']
    } else if i == 0 || name[i - 1] == '_' {
        uppercase(name[i])
    } else {
        seq![name[i]]
    }
}

/// The display name of the first `n` characters of a type name.
pub open spec fn display_prefix(name: Seq<char>, n: int) -> Seq<char>
    decreases n,
{
    if n <= 0 {
        Seq::empty()
    } else {
        display_prefix(name, n - 1) + display_piece(name, n - 1)
    }
}

/// The display name of a type id: `town_hall` reads `Town Hall`.
pub open spec fn display_name(name: Seq<char>) -> Seq<char> {
    display_prefix(name, name.len() as int)
}

/// Turns a type id like `town_hall` into a display name like `Town Hall`:
/// the words between underscores, each with its first letter in upper case,
/// joined by spaces.
pub fn pretty_name(id_text: &str) -> (pretty: String)
    ensures
        pretty@ == display_name(id_text@),
{
    let n = id_text.unicode_len();
    let mut pretty = String::new();
    let mut i: usize = 0;
    while i < n
        invariant
            n == id_text@.len(),
            i <= n,
            pretty@ == display_prefix(id_text@, i as int),
        decreases n - i,
    {
        let c = id_text.get_char(i);
        if c == '_' {
            proof {
                reveal_strlit(" ");
            }
            pretty.append(" ");
        } else if i == 0 || id_text.get_char(i - 1) == '_' {
            let capital = upper(c);
            pretty.append(capital.as_str());
        } else {
            pretty.append(id_text.substring_char(i, i + 1));
            assert(id_text@.subrange(i as int, i + 1) =~= seq![c]);
        }
        i = i + 1;
    }
    pretty
}

/// Whole seconds a cooldown of `ticks` lasts at twenty ticks a second,
/// rounded up.
pub open spec fn cooldown_seconds(ticks: nat) -> nat {
    (ticks + 19) / 20
}

/// A skill button's label: the bare name when ready, `name (Ns)` while the
/// cast recharges.
pub open spec fn cooldown_text(name: Seq<char>, remaining: nat) -> Seq<char> {
    if remaining == 0 {
        name
    } else {
        name + " ("@ + decimal_text(cooldown_seconds(remaining)) + "s)"@
    }
}

/// A skill button's label: the bare name when ready, "name (Ns)" while the
/// cast recharges. Ticks are 20 Hz, so seconds are the remaining ticks over
/// twenty, rounded up.
pub fn cooldown_label(name: String, remaining: u32) -> (label: String)
    ensures
        label@ == cooldown_text(name@, remaining as nat),
{
    if remaining == 0 {
        name
    } else {
        let seconds = remaining / 20 + if remaining % 20 == 0 {
            0
        } else {
            1
        };
        assert(seconds == cooldown_seconds(remaining as nat));
        let mut label = name;
        label.append(" (");
        let count = decimal(seconds as u64);
        label.append(count.as_str());
        label.append("s)");
        label
    }
}

/// How many control groups a player holds.
pub const CONTROL_GROUP_COUNT: u8 = 10;

/// The key that recalls a group: groups 0 to 8 on keys 1 to 9, group 9 on 0.
pub open spec fn recall_key(group: int) -> int {
    (group + 1) % (CONTROL_GROUP_COUNT as int)
}

/// A roster chip's label: the recall key and how many the group holds.
pub open spec fn chip_text(group: int, count: nat) -> Seq<char> {
    decimal_text(recall_key(group) as nat) + ": "@ + decimal_text(count)
}

/// A chip of the control-group roster: the group it recalls and its label.
pub struct GroupChip {
    pub group: u8,
    pub label: String,
}

/// The indices of the non-empty groups among the first `n`, in order.
pub open spec fn filled_groups(counts: Seq<usize>, n: int) -> Seq<int>
    decreases n,
{
    if n <= 0 {
        Seq::empty()
    } else if counts[n - 1] > 0 {
        filled_groups(counts, n - 1).push(n - 1)
    } else {
        filled_groups(counts, n - 1)
    }
}

/// The roster's chips: one per non-empty group, in group order, labelled with
/// its recall key and member count. `counts` holds each group's size.
pub fn group_chips(counts: &Vec<usize>) -> (chips: Vec<GroupChip>)
    requires
        counts@.len() == CONTROL_GROUP_COUNT as int,
    ensures
        chips@.len() == filled_groups(counts@, counts@.len() as int).len(),
        forall|k: int|
            #![trigger chips@[k]]
            0 <= k < chips@.len() ==> {
                let group = filled_groups(counts@, counts@.len() as int)[k];
                &&& chips@[k].group as int == group
                &&& chips@[k].label@ == chip_text(group, counts@[group] as nat)
            },
{
    let mut chips: Vec<GroupChip> = Vec::new();
    let mut group: u8 = 0;
    while group < CONTROL_GROUP_COUNT
        invariant
            counts@.len() == CONTROL_GROUP_COUNT as int,
            group <= CONTROL_GROUP_COUNT,
            chips@.len() == filled_groups(counts@, group as int).len(),
            forall|k: int|
                #![trigger chips@[k]]
                0 <= k < chips@.len() ==> {
                    let g = filled_groups(counts@, group as int)[k];
                    &&& chips@[k].group as int == g
                    &&& chips@[k].label@ == chip_text(g, counts@[g] as nat)
                },
        decreases CONTROL_GROUP_COUNT - group,
    {
        let count = counts[group as usize];
        if count > 0 {
            let key = (group + 1) % CONTROL_GROUP_COUNT;
            let mut label = decimal(key as u64);
            label.append(": ");
            let size = decimal(count as u64);
            label.append(size.as_str());
            chips.push(GroupChip { group, label });
        }
        group = group + 1;
    }
    chips
}

/// The replay note's text: a divergence or the end of playback, else the
/// pause or the rescaled speed, else nothing.
pub open spec fn replay_note_text(
    playback: Option<(Option<u64>, bool)>,
    paused: bool,
    speed: SpeedStep,
) -> Seq<char> {
    match playback {
        Some((Some(tick), _)) => "Replay diverged at tick "@ + decimal_text(tick as nat),
        Some((None, true)) => "Replay ended"@,
        _ => if paused {
            "Paused"@
        } else if speed != SpeedStep::Normal {
            "Speed "@ + label_of(speed)
        } else {
            Seq::empty()
        },
    }
}

/// Shows replay-playback status: nothing during a live game, an "ended" note
/// once playback freezes, or a divergence warning if a recorded checksum
/// failed. A paused or rescaled game says so too, whichever it is.
/// `playback` holds, during a replay, the tick of a failed checksum if any and
/// whether playback is done.
pub fn replay_note(playback: Option<(Option<u64>, bool)>, paused: bool, speed: SpeedStep) -> (note:
    String)
    ensures
        note@ == replay_note_text(playback, paused, speed),
{
    match playback {
        Some((Some(tick), _)) => {
            let mut note = String::from_str("Replay diverged at tick ");
            let number = decimal(tick);
            note.append(number.as_str());
            return note;
        },
        Some((None, true)) => {
            return String::from_str("Replay ended");
        },
        _ => {},
    }
    if paused {
        String::from_str("Paused")
    } else if speed != SpeedStep::Normal {
        let mut note = String::from_str("Speed ");
        note.append(speed.label());
        note
    } else {
        String::new()
    }
}

/// The resource bar: the local player's gold and wood, or nothing for a
/// watcher, who has no stockpile.
pub open spec fn resources_text(stock: Option<(u64, u64)>) -> Seq<char> {
    match stock {
        None => Seq::empty(),
        Some((gold, wood)) => "Gold: "@ + decimal_text(gold as nat) + "   Wood: "@ + decimal_text(
            wood as nat,
        ),
    }
}

/// The resource bar's line from the local player's gold and wood.
pub fn resources_line(stock: Option<(u64, u64)>) -> (line: String)
    ensures
        line@ == resources_text(stock),
{
    match stock {
        None => String::new(),
        Some((gold, wood)) => {
            let mut line = String::from_str("Gold: ");
            let g = decimal(gold);
            line.append(g.as_str());
            line.append("   Wood: ");
            let w = decimal(wood);
            line.append(w.as_str());
            line
        },
    }
}

/// The supply line, and whether it shows as blocked: no headroom left.
pub open spec fn supply_text(used: nat, provided: nat) -> Seq<char> {
    "Supply: "@ + decimal_text(used) + "/"@ + decimal_text(provided)
}

/// The supply readout from the local player's used and provided totals, and
/// whether it turns red: used has reached what is provided. A watcher, with
/// no supply of its own, gets `None` and the line is cleared.
pub fn supply_readout(totals: Option<(u32, u32)>) -> (readout: Option<(String, bool)>)
    ensures
        match totals {
            None => readout is None,
            Some((used, provided)) => readout matches Some((line, blocked)) && line@
                == supply_text(used as nat, provided as nat) && blocked == (used >= provided),
        },
{
    match totals {
        None => None,
        Some((used, provided)) => {
            let mut line = String::from_str("Supply: ");
            let u = decimal(used as u64);
            line.append(u.as_str());
            line.append("/");
            let p = decimal(provided as u64);
            line.append(p.as_str());
            Some((line, used >= provided))
        },
    }
}

/// What the first selected entity offers, when it is one of the local
/// player's own: whether it trains, whether it builds, and whether it has
/// skills.
#[derive(Clone, Copy, Debug, PartialEq, Eq, Structural)]
pub struct ProducerFacts {
    pub trains: bool,
    pub builds: bool,
    pub has_skills: bool,
}

/// The context line: the controls, or — for the local player's own producer
/// first in the selection — how to use its card. Skills win over building,
/// and building over training.
pub open spec fn help_text(producer: Option<ProducerFacts>) -> Seq<char> {
    match producer {
        Some(facts) if facts.has_skills => "Skill: click a command-card button"@,
        Some(facts) if facts.builds => "Build: click a command-card button   |   click the map to place"@,
        Some(facts) if facts.trains => "Train: click a command-card button   |   RMB set rally (on self clears)"@,
        _ => "LMB select (Shift add, dbl-click all of type) | RMB move/harvest/attack | F/R/G/T/B/Q orders | X stance | 1-0 groups (Ctrl set)\nMinimap: LMB look (drag pans), RMB order | V reveal | P pause | -/= speed | . step | ] seek | M sound | F1 debug | F2 spawn | F3 layer"@,
    }
}

/// The context line with the selection's train/build options. The options
/// only appear for the local player's own producers — a selected enemy
/// building shows what it is, not orders it would refuse — so the caller
/// passes `None` for anything else.
pub fn help_line(producer: Option<ProducerFacts>) -> (line: &'static str)
    ensures
        line@ == help_text(producer),
{
    match producer {
        Some(facts) if facts.has_skills => "Skill: click a command-card button",
        Some(facts) if facts.builds => "Build: click a command-card button   |   click the map to place",
        Some(facts) if facts.trains => "Train: click a command-card button   |   RMB set rally (on self clears)",
        _ => "LMB select (Shift add, dbl-click all of type) | RMB move/harvest/attack | F/R/G/T/B/Q orders | X stance | 1-0 groups (Ctrl set)\nMinimap: LMB look (drag pans), RMB order | V reveal | P pause | -/= speed | . step | ] seek | M sound | F1 debug | F2 spawn | F3 layer",
    }
}

/// A name with each underscore read as a space.
pub open spec fn spaced_text(name: Seq<char>) -> Seq<char> {
    name.map_values(|c: char| if c == '_' { ' ' } else { c })
}

/// A name with each underscore replaced by a space.
pub fn spaced(name: &str) -> (text: String)
    ensures
        text@ == spaced_text(name@),
{
    let n = name.unicode_len();
    let mut text = String::new();
    let mut i: usize = 0;
    while i < n
        invariant
            n == name@.len(),
            i <= n,
            text@ == spaced_text(name@.take(i as int)),
        decreases n - i,
    {
        let c = name.get_char(i);
        if c == '_' {
            proof {
                reveal_strlit(" ");
            }
            text.append(" ");
        } else {
            text.append(name.substring_char(i, i + 1));
            assert(name@.subrange(i as int, i + 1) =~= seq![c]);
        }
        assert(spaced_text(name@.take(i + 1)) =~= spaced_text(name@.take(i as int)).push(
            if c == '_' {
                ' '
            } else {
                c
            },
        ));
        i = i + 1;
    }
    assert(name@.take(n as int) =~= name@);
    text
}

fn push_text(parts: &mut Vec<String>, text: String)
    ensures
        texts_of(final(parts)@) == texts_of(old(parts)@).push(text@),
{
    let ghost before = parts@;
    parts.push(text);
    assert(texts_of(parts@) =~= texts_of(before).push(text@));
}

/// What the readout knows of the single selected entity. The speed comes
/// already written out, to two decimals, by the caller that holds it.
pub struct InspectedFacts {
    /// The entity's type id.
    pub name: String,
    /// The simulation id a replay or a log line names it by.
    pub id: u64,
    /// Its health and the effective ceiling.
    pub health: Option<(u32, u32)>,
    /// Its effective attack.
    pub attack: Option<u32>,
    /// Its effective speed, written out.
    pub speed: Option<String>,
    /// What it carries: the amount and the kind.
    pub carrying: Option<(u32, String)>,
    /// What a resource source has left: the amount and the kind.
    pub source_left: Option<(u32, String)>,
    /// Its stance's name.
    pub stance: Option<String>,
    /// Its energy.
    pub energy: Option<u32>,
    /// Its running buffs: each buff's type id and its stacks.
    pub buffs: Vec<(String, u32)>,
    /// Whether it is still going up.
    pub under_construction: bool,
    /// Whether it stands outside the field it needs to operate.
    pub disabled: bool,
}

/// A running buff as the readout names it: `Name` or, stacked, `Name xN`.
pub open spec fn buff_text(buff: (String, u32)) -> Seq<char> {
    if buff.1 > 1 {
        display_name(buff.0@) + " x"@ + decimal_text(buff.1 as nat)
    } else {
        display_name(buff.0@)
    }
}

/// `parts`, with `extra` after them when there is one.
pub open spec fn pushed(parts: Seq<Seq<char>>, extra: Option<Seq<char>>) -> Seq<Seq<char>> {
    match extra {
        Some(part) => parts.push(part),
        None => parts,
    }
}

/// The readout's parts for one entity, in order: name and id, health,
/// attack, speed, cargo, what a source has left, stance, energy, buffs, and
/// whether it is out of operation.
pub open spec fn inspected_parts(facts: InspectedFacts) -> Seq<Seq<char>> {
    let head = seq![display_name(facts.name@) + " #"@ + decimal_text(facts.id as nat)];
    let with_health = pushed(
        head,
        match facts.health {
            Some((hp, max)) => Some("HP "@ + decimal_text(hp as nat) + "/"@ + decimal_text(max as nat)),
            None => None,
        },
    );
    let with_attack = pushed(
        with_health,
        match facts.attack {
            Some(damage) => Some("attack "@ + decimal_text(damage as nat)),
            None => None,
        },
    );
    let with_speed = pushed(
        with_attack,
        match facts.speed {
            Some(speed) => Some("speed "@ + speed@),
            None => None,
        },
    );
    let with_cargo = pushed(
        with_speed,
        match facts.carrying {
            Some((amount, kind)) => Some("carrying "@ + decimal_text(amount as nat) + " "@ + kind@),
            None => None,
        },
    );
    let with_source = pushed(
        with_cargo,
        match facts.source_left {
            Some((amount, kind)) => Some(decimal_text(amount as nat) + " "@ + kind@ + " left"@),
            None => None,
        },
    );
    let with_stance = pushed(
        with_source,
        match facts.stance {
            Some(stance) => Some("stance: "@ + spaced_text(stance@)),
            None => None,
        },
    );
    let with_energy = pushed(
        with_stance,
        match facts.energy {
            Some(energy) => Some("energy "@ + decimal_text(energy as nat)),
            None => None,
        },
    );
    let with_buffs = pushed(
        with_energy,
        if facts.buffs@.len() > 0 {
            Some(join_text(facts.buffs@.map_values(|buff: (String, u32)| buff_text(buff)), ", "@))
        } else {
            None
        },
    );
    pushed(
        with_buffs,
        if facts.under_construction {
            Some("under construction"@)
        } else if facts.disabled {
            Some("disabled"@)
        } else {
            None
        },
    )
}

/// The selection readout: nothing for an empty selection, the one entity's
/// details for a single one (nothing if it is gone), a count for several.
pub open spec fn selection_text(selected: nat, single: Option<InspectedFacts>) -> Seq<char> {
    if selected == 0 {
        Seq::empty()
    } else if selected == 1 {
        match single {
            Some(facts) => join_text(inspected_parts(facts), "   "@),
            None => Seq::empty(),
        }
    } else {
        decimal_text(selected) + " units selected"@
    }
}

/// The buff list of the readout, each by its display name and stacks.
fn buff_names(buffs: &Vec<(String, u32)>) -> (names: Vec<String>)
    ensures
        texts_of(names@) == buffs@.map_values(|buff: (String, u32)| buff_text(buff)),
{
    let mut names: Vec<String> = Vec::new();
    let mut k: usize = 0;
    while k < buffs.len()
        invariant
            k <= buffs@.len(),
            texts_of(names@) == buffs@.take(k as int).map_values(
                |buff: (String, u32)| buff_text(buff),
            ),
        decreases buffs@.len() - k,
    {
        let mut name = pretty_name(buffs[k].0.as_str());
        if buffs[k].1 > 1 {
            name.append(" x");
            let stacks = decimal(buffs[k].1 as u64);
            name.append(stacks.as_str());
        }
        let ghost before = texts_of(names@);
        push_text(&mut names, name);
        assert(buffs@.take(k + 1).map_values(|buff: (String, u32)| buff_text(buff))
            =~= buffs@.take(k as int).map_values(|buff: (String, u32)| buff_text(buff)).push(
            buff_text(buffs@[k as int]),
        ));
        k = k + 1;
    }
    assert(buffs@.take(buffs@.len() as int) =~= buffs@);
    names
}

/// The readout's parts for the one selected entity.
fn inspected_lines(facts: &InspectedFacts) -> (parts: Vec<String>)
    ensures
        texts_of(parts@) == inspected_parts(*facts),
{
    let mut parts: Vec<String> = Vec::new();
    let mut head = pretty_name(facts.name.as_str());
    head.append(" #");
    let id = decimal(facts.id);
    head.append(id.as_str());
    push_text(&mut parts, head);
    assert(texts_of(parts@) =~= seq![display_name(facts.name@) + " #"@ + decimal_text(facts.id as nat)]);
    match facts.health {
        Some((hp, max)) => {
            let mut line = String::from_str("HP ");
            let a = decimal(hp as u64);
            line.append(a.as_str());
            line.append("/");
            let b = decimal(max as u64);
            line.append(b.as_str());
            push_text(&mut parts, line);
        },
        None => {},
    }
    match facts.attack {
        Some(damage) => {
            let mut line = String::from_str("attack ");
            let a = decimal(damage as u64);
            line.append(a.as_str());
            push_text(&mut parts, line);
        },
        None => {},
    }
    match &facts.speed {
        Some(speed) => {
            let mut line = String::from_str("speed ");
            line.append(speed.as_str());
            push_text(&mut parts, line);
        },
        None => {},
    }
    match &facts.carrying {
        Some((amount, kind)) => {
            let mut line = String::from_str("carrying ");
            let a = decimal(*amount as u64);
            line.append(a.as_str());
            line.append(" ");
            line.append(kind.as_str());
            push_text(&mut parts, line);
        },
        None => {},
    }
    match &facts.source_left {
        Some((amount, kind)) => {
            let mut line = decimal(*amount as u64);
            line.append(" ");
            line.append(kind.as_str());
            line.append(" left");
            push_text(&mut parts, line);
        },
        None => {},
    }
    match &facts.stance {
        Some(stance) => {
            let mut line = String::from_str("stance: ");
            let name = spaced(stance.as_str());
            line.append(name.as_str());
            push_text(&mut parts, line);
        },
        None => {},
    }
    match facts.energy {
        Some(energy) => {
            let mut line = String::from_str("energy ");
            let a = decimal(energy as u64);
            line.append(a.as_str());
            push_text(&mut parts, line);
        },
        None => {},
    }
    if facts.buffs.len() > 0 {
        let names = buff_names(&facts.buffs);
        let line = join_all(&names, ", ");
        push_text(&mut parts, line);
    }
    if facts.under_construction {
        push_text(&mut parts, String::from_str("under construction"));
    } else if facts.disabled {
        push_text(&mut parts, String::from_str("disabled"));
    }
    parts
}

/// Shows details about the current selection: name, id, health and the rest
/// for a single selected entity — `single`, or `None` if it is gone — or a
/// count when several are selected.
pub fn selection_readout(selected: usize, single: Option<&InspectedFacts>) -> (text: String)
    ensures
        text@ == selection_text(
            selected as nat,
            match single {
                Some(facts) => Some(*facts),
                None => None,
            },
        ),
{
    if selected == 0 {
        String::new()
    } else if selected == 1 {
        match single {
            Some(facts) => {
                let parts = inspected_lines(facts);
                join_all(&parts, "   ")
            },
            None => String::new(),
        }
    } else {
        let mut text = decimal(selected as u64);
        text.append(" units selected");
        text
    }
}

/// An objective's checklist row: `[x] label` once done, `[ ] label` before.
pub open spec fn objective_text(objective: (bool, String)) -> Seq<char> {
    (if objective.0 {
        "[x] "@
    } else {
        "[ ] "@
    }) + objective.1@
}

/// The scenario objectives checklist: a heading and a row per objective, or
/// nothing outside a scripted mission or when it lists none.
pub open spec fn objectives_text(objectives: Seq<(bool, String)>) -> Seq<char> {
    if objectives.len() == 0 {
        Seq::empty()
    } else {
        join_text(
            seq!["Objectives:"@] + objectives.map_values(
                |objective: (bool, String)| objective_text(objective),
            ),
            "\n"@,
        )
    }
}

/// The scenario objectives checklist from each objective's state and label.
pub fn objectives_checklist(objectives: &Vec<(bool, String)>) -> (text: String)
    ensures
        text@ == objectives_text(objectives@),
{
    if objectives.len() == 0 {
        return String::new();
    }
    let mut lines: Vec<String> = Vec::new();
    push_text(&mut lines, String::from_str("Objectives:"));
    let mut k: usize = 0;
    while k < objectives.len()
        invariant
            k <= objectives@.len(),
            texts_of(lines@) == seq!["Objectives:"@] + objectives@.take(k as int).map_values(
                |objective: (bool, String)| objective_text(objective),
            ),
        decreases objectives@.len() - k,
    {
        let mut line = String::from_str(
            if objectives[k].0 {
                "[x] "
            } else {
                "[ ] "
            },
        );
        line.append(objectives[k].1.as_str());
        let ghost before = texts_of(lines@);
        push_text(&mut lines, line);
        assert(seq!["Objectives:"@] + objectives@.take(k + 1).map_values(
            |objective: (bool, String)| objective_text(objective),
        ) =~= before.push(objective_text(objectives@[k as int])));
        k = k + 1;
    }
    assert(objectives@.take(objectives@.len() as int) =~= objectives@);
    join_all(&lines, "\n")
}

/// How the local node stands toward a game it cannot play: watching by role
/// through a perspective (a side, with that side's team if it has one), out
/// of the game with or without a side still playing for it, or playing.
#[derive(Clone, Copy, Debug, PartialEq, Eq, Structural)]
pub enum Onlooker {
    Observer { side: Option<u8>, team: Option<u8> },
    Eliminated { side_plays_on: bool },
    Playing,
}

/// The standing can't-play note: which view an observer watches through;
/// for an eliminated player, defeat wording only once its whole side is out;
/// nothing for a player still playing, and nothing once the game has ended —
/// the verdict banner takes over.
pub open spec fn spectator_text(finished: bool, onlooker: Onlooker) -> Seq<char> {
    if finished {
        Seq::empty()
    } else {
        match onlooker {
            Onlooker::Observer { side: None, .. } => "Observing - everything (Tab: next view)"@,
            Onlooker::Observer { side: Some(_), team: Some(team) } => "Observing - team "@
                + decimal_text(team as nat) + "'s view (Tab: next view)"@,
            Onlooker::Observer { side: Some(side), team: None } => "Observing - player "@
                + decimal_text(side as nat) + "'s view (Tab: next view)"@,
            Onlooker::Eliminated { side_plays_on: true } => "Eliminated - spectating (your side plays on)"@,
            Onlooker::Eliminated { side_plays_on: false } => "Defeat - spectating"@,
            Onlooker::Playing => Seq::empty(),
        }
    }
}

/// The spectator note for a node in the given standing.
pub fn spectator_note(finished: bool, onlooker: Onlooker) -> (note: String)
    ensures
        note@ == spectator_text(finished, onlooker),
{
    if finished {
        return String::new();
    }
    match onlooker {
        Onlooker::Observer { side: None, .. } => String::from_str(
            "Observing - everything (Tab: next view)",
        ),
        Onlooker::Observer { side: Some(_), team: Some(team) } => {
            let mut note = String::from_str("Observing - team ");
            let t = decimal(team as u64);
            note.append(t.as_str());
            note.append("'s view (Tab: next view)");
            note
        },
        Onlooker::Observer { side: Some(side), team: None } => {
            let mut note = String::from_str("Observing - player ");
            let p = decimal(side as u64);
            note.append(p.as_str());
            note.append("'s view (Tab: next view)");
            note
        },
        Onlooker::Eliminated { side_plays_on: true } => String::from_str(
            "Eliminated - spectating (your side plays on)",
        ),
        Onlooker::Eliminated { side_plays_on: false } => String::from_str("Defeat - spectating"),
        Onlooker::Playing => String::new(),
    }
}

/// Whether an eliminated player's side plays on: some seat allied with it is
/// still live. Each seat is given as whether it is allied with the player and
/// whether it is live.
pub fn side_plays_on(seats: &Vec<(bool, bool)>) -> (plays_on: bool)
    ensures
        plays_on == exists|k: int| 0 <= k < seats@.len() && #[trigger] seats@[k].0 && seats@[k].1,
{
    let mut k: usize = 0;
    while k < seats.len()
        invariant
            k <= seats@.len(),
            forall|j: int| 0 <= j < k ==> !(#[trigger] seats@[j].0 && seats@[j].1),
        decreases seats@.len() - k,
    {
        if seats[k].0 && seats[k].1 {
            return true;
        }
        k = k + 1;
    }
    false
}

/// A seat of the match as the roster shows it.
#[derive(Clone, Copy, Debug, PartialEq, Eq, Structural)]
pub struct RosterSeat {
    pub id: u8,
    pub team: Option<u8>,
    /// The environment's combatants: scenery, kept off the list.
    pub environment: bool,
    pub dropped: bool,
    pub eliminated: bool,
}

/// A roster row: `P{id}`, the team tag if any, how the seat stands, and a
/// marker on the local player's own row.
pub open spec fn roster_row(seat: RosterSeat, local: Option<u8>) -> Seq<char> {
    "P"@ + decimal_text(seat.id as nat) + match seat.team {
        Some(team) => " [T"@ + decimal_text(team as nat) + "]"@,
        None => Seq::empty(),
    } + ": "@ + (if seat.dropped {
        "left"@
    } else if seat.eliminated {
        "eliminated"@
    } else {
        "playing"@
    }) + (if local == Some(seat.id) {
        " (you)"@
    } else {
        Seq::empty()
    })
}

/// The roster rows of the first `n` seats, the environment's left out.
pub open spec fn roster_rows(seats: Seq<RosterSeat>, local: Option<u8>, n: int) -> Seq<Seq<char>>
    decreases n,
{
    if n <= 0 {
        Seq::empty()
    } else if seats[n - 1].environment {
        roster_rows(seats, local, n - 1)
    } else {
        roster_rows(seats, local, n - 1).push(roster_row(seats[n - 1], local))
    }
}

/// The player roster: every occupied seat of the match, one row each, and how
/// it stands. The environment's combatants are scenery, not participants, so
/// they stay off the list.
pub fn roster(seats: &Vec<RosterSeat>, local: Option<u8>) -> (text: String)
    ensures
        text@ == join_text(roster_rows(seats@, local, seats@.len() as int), "\n"@),
{
    let mut lines: Vec<String> = Vec::new();
    let mut k: usize = 0;
    while k < seats.len()
        invariant
            k <= seats@.len(),
            texts_of(lines@) == roster_rows(seats@, local, k as int),
        decreases seats@.len() - k,
    {
        let seat = seats[k];
        if !seat.environment {
            let mut line = String::from_str("P");
            let id = decimal(seat.id as u64);
            line.append(id.as_str());
            match seat.team {
                Some(team) => {
                    line.append(" [T");
                    let t = decimal(team as u64);
                    line.append(t.as_str());
                    line.append("]");
                },
                None => {},
            }
            line.append(": ");
            line.append(
                if seat.dropped {
                    "left"
                } else if seat.eliminated {
                    "eliminated"
                } else {
                    "playing"
                },
            );
            if local == Some(seat.id) {
                line.append(" (you)");
            }
            assert(line@ =~= roster_row(seat, local));
            push_text(&mut lines, line);
        }
        k = k + 1;
    }
    join_all(&lines, "\n")
}

/// Who won a victory: a team, or a lone player.
#[derive(Clone, Copy, Debug, PartialEq, Eq, Structural)]
pub enum Winner {
    Team(u8),
    Player(u8),
}

/// How a finished session ended.
#[derive(Clone, Copy, Debug, PartialEq, Eq, Structural)]
pub enum Verdict {
    Draw,
    /// The nodes' simulations disagreed at this tick.
    Desynchronization { tick: u64 },
    Aborted,
    Defeat,
    Victory { winner: Winner },
}

/// The banner once the session has finished: the ending's own word, and for
/// a victory "Victory!" to the winning side, "Defeat" to every other player,
/// and the verdict itself to a watcher, on nobody's side. `local_won` is
/// `None` for a watcher and, for a player, whether it is among the winners.
pub open spec fn game_over_text(result: Option<Verdict>, local_won: Option<bool>) -> Seq<char> {
    match result {
        None => Seq::empty(),
        Some(Verdict::Draw) => "Draw"@,
        Some(Verdict::Desynchronization { .. }) => "Desynchronization!"@,
        Some(Verdict::Aborted) => "Aborted"@,
        Some(Verdict::Defeat) => "Defeat"@,
        Some(Verdict::Victory { winner }) => match local_won {
            None => match winner {
                Winner::Team(team) => "Team "@ + decimal_text(team as nat) + " wins"@,
                Winner::Player(player) => "Player "@ + decimal_text(player as nat) + " wins"@,
            },
            Some(true) => "Victory!"@,
            Some(false) => "Defeat"@,
        },
    }
}

/// The Victory/Defeat/Draw banner for the session's result.
pub fn game_over_message(result: Option<Verdict>, local_won: Option<bool>) -> (text: String)
    ensures
        text@ == game_over_text(result, local_won),
{
    match result {
        None => String::new(),
        Some(Verdict::Draw) => String::from_str("Draw"),
        Some(Verdict::Desynchronization { .. }) => String::from_str("Desynchronization!"),
        Some(Verdict::Aborted) => String::from_str("Aborted"),
        Some(Verdict::Defeat) => String::from_str("Defeat"),
        Some(Verdict::Victory { winner }) => match local_won {
            None => match winner {
                Winner::Team(team) => {
                    let mut text = String::from_str("Team ");
                    let t = decimal(team as u64);
                    text.append(t.as_str());
                    text.append(" wins");
                    text
                },
                Winner::Player(player) => {
                    let mut text = String::from_str("Player ");
                    let p = decimal(player as u64);
                    text.append(p.as_str());
                    text.append(" wins");
                    text
                },
            },
            Some(true) => String::from_str("Victory!"),
            Some(false) => String::from_str("Defeat"),
        },
    }
}

/// One resource kind's flow over a game: what came in, what went out, and
/// what came back.
pub struct KindFlow {
    pub kind: String,
    pub gathered: u64,
    pub spent: u64,
    pub refunded: u64,
}

/// A kind's entry in the economy line: `kind +in/-out`, with what came back
/// when anything did.
pub open spec fn flow_text(flow: KindFlow) -> Seq<char> {
    flow.kind@ + " +"@ + decimal_text(flow.gathered as nat) + "/-"@ + decimal_text(
        flow.spent as nat,
    ) + if flow.refunded > 0 {
        " (back "@ + decimal_text(flow.refunded as nat) + ")"@
    } else {
        Seq::empty()
    }
}

/// One player's resource flow, by kind, in the order given; "no economy" when
/// no kind moved at all.
pub open spec fn economy_text(flows: Seq<KindFlow>) -> Seq<char> {
    if flows.len() == 0 {
        "no economy"@
    } else {
        join_text(flows.map_values(|flow: KindFlow| flow_text(flow)), ", "@)
    }
}

/// One player's resource flow, by kind: what came in, what went out, and what
/// came back. `flows` holds each kind that moved at all, in the order the line
/// lists them.
pub fn economy_line(flows: &Vec<KindFlow>) -> (line: String)
    ensures
        line@ == economy_text(flows@),
{
    if flows.len() == 0 {
        return String::from_str("no economy");
    }
    let mut entries: Vec<String> = Vec::new();
    let mut k: usize = 0;
    while k < flows.len()
        invariant
            k <= flows@.len(),
            texts_of(entries@) == flows@.take(k as int).map_values(|flow: KindFlow| flow_text(flow)),
        decreases flows@.len() - k,
    {
        let flow = &flows[k];
        let mut entry = String::from_str(flow.kind.as_str());
        entry.append(" +");
        let g = decimal(flow.gathered);
        entry.append(g.as_str());
        entry.append("/-");
        let sp = decimal(flow.spent);
        entry.append(sp.as_str());
        if flow.refunded > 0 {
            entry.append(" (back ");
            let r = decimal(flow.refunded);
            entry.append(r.as_str());
            entry.append(")");
        }
        assert(entry@ =~= flow_text(flows@[k as int]));
        let ghost before = texts_of(entries@);
        push_text(&mut entries, entry);
        assert(flows@.take(k + 1).map_values(|flow: KindFlow| flow_text(flow)) =~= before.push(
            flow_text(flows@[k as int]),
        ));
        k = k + 1;
    }
    assert(flows@.take(flows@.len() as int) =~= flows@);
    join_all(&entries, ", ")
}

/// The sum of the counts.
pub open spec fn total(counts: Seq<u32>) -> nat
    decreases counts.len(),
{
    if counts.len() == 0 {
        0
    } else {
        total(counts.drop_last()) + counts.last() as nat
    }
}

proof fn lemma_total_prefix(counts: Seq<u32>, k: int)
    requires
        0 <= k < counts.len(),
    ensures
        total(counts.take(k + 1)) == total(counts.take(k)) + counts[k],
{
    assert(counts.take(k + 1).drop_last() =~= counts.take(k));
}

proof fn lemma_total_grows(counts: Seq<u32>, k: int)
    requires
        0 <= k <= counts.len(),
    ensures
        total(counts.take(k)) <= total(counts),
    decreases counts.len() - k,
{
    if k < counts.len() {
        lemma_total_prefix(counts, k);
        lemma_total_grows(counts, k + 1);
    } else {
        assert(counts.take(k) =~= counts);
    }
}

/// Sums the per-type counts.
fn sum_counts(counts: &Vec<u32>) -> (sum: u32)
    requires
        total(counts@) <= u32::MAX,
    ensures
        sum == total(counts@),
{
    let mut sum: u32 = 0;
    let mut k: usize = 0;
    while k < counts.len()
        invariant
            k <= counts@.len(),
            total(counts@) <= u32::MAX,
            sum == total(counts@.take(k as int)),
        decreases counts@.len() - k,
    {
        proof {
            lemma_total_prefix(counts@, k as int);
            lemma_total_grows(counts@, k + 1);
        }
        sum = sum + counts[k];
        k = k + 1;
    }
    assert(counts@.take(counts@.len() as int) =~= counts@);
    sum
}

/// What one player did over a game: per-type counts of what it produced, lost
/// and killed, the damage it dealt and took, the research it completed, the
/// skills it cast, and its resource flow.
pub struct Tally {
    pub produced: Vec<u32>,
    pub lost: Vec<u32>,
    pub killed: Vec<u32>,
    pub dealt: u32,
    pub taken: u32,
    pub research: u32,
    pub skills: u32,
    pub flows: Vec<KindFlow>,
}

/// Whether a tally's per-type counts sum within a `u32` each.
pub open spec fn tally_fits(tally: Tally) -> bool {
    &&& total(tally.produced@) <= u32::MAX
    &&& total(tally.lost@) <= u32::MAX
    &&& total(tally.killed@) <= u32::MAX
}

/// A player's rows of the final report: the headline — per-type counts summed,
/// damage, research and skills — and, indented beneath, its economy.
pub open spec fn stats_text(id: u8, you: bool, tally: Tally) -> Seq<char> {
    "P"@ + decimal_text(id as nat) + (if you {
        " (you)"@
    } else {
        Seq::empty()
    }) + ": built "@ + decimal_text(total(tally.produced@)) + ", lost "@ + decimal_text(
        total(tally.lost@),
    ) + ", killed "@ + decimal_text(total(tally.killed@)) + ", damage "@ + decimal_text(
        tally.dealt as nat,
    ) + "/"@ + decimal_text(tally.taken as nat) + ", research "@ + decimal_text(
        tally.research as nat,
    ) + ", skills "@ + decimal_text(tally.skills as nat) + "\n    "@ + economy_text(tally.flows@)
}

/// One player's entry in the final statistics.
pub fn stats_entry(id: u8, you: bool, tally: &Tally) -> (text: String)
    requires
        tally_fits(*tally),
    ensures
        text@ == stats_text(id, you, *tally),
{
    let mut text = String::from_str("P");
    let n = decimal(id as u64);
    text.append(n.as_str());
    if you {
        text.append(" (you)");
    }
    text.append(": built ");
    let produced = decimal(sum_counts(&tally.produced) as u64);
    text.append(produced.as_str());
    text.append(", lost ");
    let lost = decimal(sum_counts(&tally.lost) as u64);
    text.append(lost.as_str());
    text.append(", killed ");
    let killed = decimal(sum_counts(&tally.killed) as u64);
    text.append(killed.as_str());
    text.append(", damage ");
    let dealt = decimal(tally.dealt as u64);
    text.append(dealt.as_str());
    text.append("/");
    let taken = decimal(tally.taken as u64);
    text.append(taken.as_str());
    text.append(", research ");
    let research = decimal(tally.research as u64);
    text.append(research.as_str());
    text.append(", skills ");
    let skills = decimal(tally.skills as u64);
    text.append(skills.as_str());
    text.append("\n    ");
    let economy = economy_line(&tally.flows);
    text.append(economy.as_str());
    assert(text@ =~= stats_text(id, you, *tally));
    text
}

/// A seat's row in the final statistics: its id, whether it is the local
/// player, and its tally.
pub struct FinalRow {
    pub id: u8,
    pub you: bool,
    pub tally: Tally,
}

/// What each seated player did, one entry per row, once the session has
/// finished; empty while a game is still running. `rows` holds the seats that
/// play — free seats and environment combatants get no row.
pub fn final_report(finished: bool, rows: &Vec<FinalRow>) -> (text: String)
    requires
        forall|k: int| 0 <= k < rows@.len() ==> tally_fits(#[trigger] rows@[k].tally),
    ensures
        text@ == if finished {
            join_text(
                rows@.map_values(|row: FinalRow| stats_text(row.id, row.you, row.tally)),
                "\n"@,
            )
        } else {
            Seq::empty()
        },
{
    if !finished {
        return String::new();
    }
    let mut entries: Vec<String> = Vec::new();
    let mut k: usize = 0;
    while k < rows.len()
        invariant
            k <= rows@.len(),
            forall|j: int| 0 <= j < rows@.len() ==> tally_fits(#[trigger] rows@[j].tally),
            texts_of(entries@) == rows@.take(k as int).map_values(
                |row: FinalRow| stats_text(row.id, row.you, row.tally),
            ),
        decreases rows@.len() - k,
    {
        let row = &rows[k];
        let entry = stats_entry(row.id, row.you, &row.tally);
        let ghost before = texts_of(entries@);
        push_text(&mut entries, entry);
        assert(rows@.take(k + 1).map_values(|row: FinalRow| stats_text(row.id, row.you, row.tally))
            =~= before.push(stats_text(rows@[k as int].id, rows@[k as int].you, rows@[k as int].tally)));
        k = k + 1;
    }
    assert(rows@.take(rows@.len() as int) =~= rows@);
    join_all(&entries, "\n")
}

/// The tints the overlay paints its buttons and readouts in; the window side
/// holds the colours themselves.
#[derive(Clone, Copy, Debug, PartialEq, Eq, Structural)]
pub enum Swatch {
    ButtonNormal,
    ButtonHovered,
    /// Build buttons get a cooler tint, distinct from train buttons on an
    /// entity that can do both.
    BuildNormal,
    BuildHovered,
    /// Skill buttons get a warm violet tint.
    SkillNormal,
    SkillHovered,
    /// Research buttons get a teal tint.
    ResearchNormal,
    ResearchHovered,
    /// A button whose action the executor would refuse right now.
    CardDisabled,
}

/// What a command-card button does when clicked. Names and ids refer to the
/// entry of the card's source the button was made from.
#[derive(Clone, Copy, Debug, PartialEq, Eq, Structural)]
pub enum CardAction {
    /// Queues the `k`-th trainable type on the primary producer.
    Train(usize),
    /// Starts placing the `k`-th buildable type with the primary builder.
    Build(usize),
    /// Starts the research with this id on the primary researcher.
    Research(u32),
    /// Casts the skill with this id from the selection.
    Skill(u32),
    /// Changes the selection into the `k`-th declared transition's type.
    Morph(usize),
    /// Arms the click naming the unit the transporter fetches aboard.
    Load,
    /// Unloads the transporter in place.
    Unload,
    /// Arms the click naming where the transporter unloads.
    UnloadTo,
}

/// What the primary selected entity can be ordered to do, by its type: the
/// types it trains and builds, the researches and skills it has (each with
/// its id and name), the types it can change into, and whether it carries
/// passengers.
pub struct CardSource {
    pub trains: Vec<String>,
    pub builds: Vec<String>,
    pub researches: Vec<(u32, String)>,
    pub skills: Vec<(u32, String)>,
    pub morphs: Vec<String>,
    pub transports: bool,
}

/// A command-card button: what it does, its label and its resting tint.
pub struct CardButton {
    pub action: CardAction,
    pub label: String,
    pub swatch: Swatch,
}

/// The card's buttons, in order, for what the primary can do: a train button
/// per trainable type, a build button per building, a research button per
/// research, a skill button per skill, a button per transition, and the three
/// transport buttons for a transporter.
pub open spec fn card_plan(source: CardSource) -> Seq<(CardAction, Seq<char>, Swatch)> {
    let trains = source.trains@;
    let builds = source.builds@;
    let researches = source.researches@;
    let skills = source.skills@;
    let morphs = source.morphs@;
    Seq::new(
        trains.len(),
        |k: int| (CardAction::Train(k as usize), display_name(trains[k]@), Swatch::ButtonNormal),
    ) + Seq::new(
        builds.len(),
        |k: int| (CardAction::Build(k as usize), display_name(builds[k]@), Swatch::BuildNormal),
    ) + Seq::new(
        researches.len(),
        |k: int|
            (
                CardAction::Research(researches[k].0),
                display_name(researches[k].1@),
                Swatch::ResearchNormal,
            ),
    ) + Seq::new(
        skills.len(),
        |k: int| (CardAction::Skill(skills[k].0), display_name(skills[k].1@), Swatch::SkillNormal),
    ) + Seq::new(
        morphs.len(),
        |k: int| (CardAction::Morph(k as usize), display_name(morphs[k]@), Swatch::SkillNormal),
    ) + if source.transports {
        seq![
            (CardAction::Load, "Load"@, Swatch::ButtonNormal),
            (CardAction::Unload, "Unload"@, Swatch::ButtonNormal),
            (CardAction::UnloadTo, "Unload To"@, Swatch::ButtonNormal),
        ]
    } else {
        Seq::empty()
    }
}

/// Whether the buttons are the plan's, one for one.
pub open spec fn card_matches(
    buttons: Seq<CardButton>,
    plan: Seq<(CardAction, Seq<char>, Swatch)>,
) -> bool {
    &&& buttons.len() == plan.len()
    &&& forall|k: int|
        #![trigger buttons[k]]
        0 <= k < buttons.len() ==> {
            &&& buttons[k].action == plan[k].0
            &&& buttons[k].label@ == plan[k].1
            &&& buttons[k].swatch == plan[k].2
        }
}

fn add_button(
    buttons: &mut Vec<CardButton>,
    action: CardAction,
    label: String,
    swatch: Swatch,
    Ghost(plan): Ghost<Seq<(CardAction, Seq<char>, Swatch)>>,
)
    requires
        card_matches(old(buttons)@, plan),
    ensures
        card_matches(final(buttons)@, plan.push((action, label@, swatch))),
{
    let ghost before = buttons@;
    buttons.push(CardButton { action, label, swatch });
    assert forall|k: int| 0 <= k < buttons@.len() implies {
        &&& #[trigger] buttons@[k].action == plan.push((action, label@, swatch))[k].0
        &&& buttons@[k].label@ == plan.push((action, label@, swatch))[k].1
        &&& buttons@[k].swatch == plan.push((action, label@, swatch))[k].2
    } by {
        if k < before.len() {
            assert(buttons@[k] == before[k]);
        }
    }
}

/// Lays out the command card for the primary selected entity.
pub fn command_card(source: &CardSource) -> (buttons: Vec<CardButton>)
    ensures
        card_matches(buttons@, card_plan(*source)),
{
    let ghost trains = source.trains@;
    let ghost builds = source.builds@;
    let ghost researches = source.researches@;
    let ghost skills = source.skills@;
    let ghost morphs = source.morphs@;
    let ghost seg_train = Seq::new(
        trains.len(),
        |k: int| (CardAction::Train(k as usize), display_name(trains[k]@), Swatch::ButtonNormal),
    );
    let ghost seg_build = Seq::new(
        builds.len(),
        |k: int| (CardAction::Build(k as usize), display_name(builds[k]@), Swatch::BuildNormal),
    );
    let ghost seg_research = Seq::new(
        researches.len(),
        |k: int|
            (
                CardAction::Research(researches[k].0),
                display_name(researches[k].1@),
                Swatch::ResearchNormal,
            ),
    );
    let ghost seg_skill = Seq::new(
        skills.len(),
        |k: int| (CardAction::Skill(skills[k].0), display_name(skills[k].1@), Swatch::SkillNormal),
    );
    let ghost seg_morph = Seq::new(
        morphs.len(),
        |k: int| (CardAction::Morph(k as usize), display_name(morphs[k]@), Swatch::SkillNormal),
    );
    let mut buttons: Vec<CardButton> = Vec::new();
    let mut k: usize = 0;
    while k < source.trains.len()
        invariant
            k <= trains.len(),
            trains == source.trains@,
            seg_train.len() == trains.len(),
            forall|j: int| 0 <= j < trains.len() ==> #[trigger] seg_train[j] == (CardAction::Train(j as usize), display_name(trains[j]@), Swatch::ButtonNormal),
            card_matches(buttons@, seg_train.take(k as int)),
        decreases trains.len() - k,
    {
        let label = pretty_name(source.trains[k].as_str());
        add_button(&mut buttons, CardAction::Train(k), label, Swatch::ButtonNormal, Ghost(seg_train.take(k as int)));
        assert(seg_train.take(k as int).push(seg_train[k as int]) =~= seg_train.take(k + 1));
        k = k + 1;
    }
    assert(seg_train.take(trains.len() as int) =~= seg_train);
    let ghost done = seg_train;
    let mut k: usize = 0;
    while k < source.builds.len()
        invariant
            k <= builds.len(),
            builds == source.builds@,
            seg_build.len() == builds.len(),
            forall|j: int| 0 <= j < builds.len() ==> #[trigger] seg_build[j] == (CardAction::Build(j as usize), display_name(builds[j]@), Swatch::BuildNormal),
            card_matches(buttons@, done + seg_build.take(k as int)),
        decreases builds.len() - k,
    {
        let label = pretty_name(source.builds[k].as_str());
        add_button(&mut buttons, CardAction::Build(k), label, Swatch::BuildNormal, Ghost(done + seg_build.take(k as int)));
        assert((done + seg_build.take(k as int)).push(seg_build[k as int]) =~= done + seg_build.take(k + 1));
        k = k + 1;
    }
    assert(seg_build.take(builds.len() as int) =~= seg_build);
    let ghost done = done + seg_build;
    let mut k: usize = 0;
    while k < source.researches.len()
        invariant
            k <= researches.len(),
            researches == source.researches@,
            seg_research.len() == researches.len(),
            forall|j: int| 0 <= j < researches.len() ==> #[trigger] seg_research[j] == (CardAction::Research(researches[j].0), display_name(researches[j].1@), Swatch::ResearchNormal),
            card_matches(buttons@, done + seg_research.take(k as int)),
        decreases researches.len() - k,
    {
        let label = pretty_name(source.researches[k].1.as_str());
        add_button(&mut buttons, CardAction::Research(source.researches[k].0), label, Swatch::ResearchNormal, Ghost(done + seg_research.take(k as int)));
        assert((done + seg_research.take(k as int)).push(seg_research[k as int]) =~= done + seg_research.take(k + 1));
        k = k + 1;
    }
    assert(seg_research.take(researches.len() as int) =~= seg_research);
    let ghost done = done + seg_research;
    let mut k: usize = 0;
    while k < source.skills.len()
        invariant
            k <= skills.len(),
            skills == source.skills@,
            seg_skill.len() == skills.len(),
            forall|j: int| 0 <= j < skills.len() ==> #[trigger] seg_skill[j] == (CardAction::Skill(skills[j].0), display_name(skills[j].1@), Swatch::SkillNormal),
            card_matches(buttons@, done + seg_skill.take(k as int)),
        decreases skills.len() - k,
    {
        let label = pretty_name(source.skills[k].1.as_str());
        add_button(&mut buttons, CardAction::Skill(source.skills[k].0), label, Swatch::SkillNormal, Ghost(done + seg_skill.take(k as int)));
        assert((done + seg_skill.take(k as int)).push(seg_skill[k as int]) =~= done + seg_skill.take(k + 1));
        k = k + 1;
    }
    assert(seg_skill.take(skills.len() as int) =~= seg_skill);
    let ghost done = done + seg_skill;
    let mut k: usize = 0;
    while k < source.morphs.len()
        invariant
            k <= morphs.len(),
            morphs == source.morphs@,
            seg_morph.len() == morphs.len(),
            forall|j: int| 0 <= j < morphs.len() ==> #[trigger] seg_morph[j] == (CardAction::Morph(j as usize), display_name(morphs[j]@), Swatch::SkillNormal),
            card_matches(buttons@, done + seg_morph.take(k as int)),
        decreases morphs.len() - k,
    {
        let label = pretty_name(source.morphs[k].as_str());
        add_button(&mut buttons, CardAction::Morph(k), label, Swatch::SkillNormal, Ghost(done + seg_morph.take(k as int)));
        assert((done + seg_morph.take(k as int)).push(seg_morph[k as int]) =~= done + seg_morph.take(k + 1));
        k = k + 1;
    }
    assert(seg_morph.take(morphs.len() as int) =~= seg_morph);
    let ghost done = done + seg_morph;
    if source.transports {
        add_button(&mut buttons, CardAction::Load, String::from_str("Load"), Swatch::ButtonNormal, Ghost(done));
        let ghost done1 = done.push((CardAction::Load, "Load"@, Swatch::ButtonNormal));
        add_button(&mut buttons, CardAction::Unload, String::from_str("Unload"), Swatch::ButtonNormal, Ghost(done1));
        let ghost done2 = done1.push((CardAction::Unload, "Unload"@, Swatch::ButtonNormal));
        add_button(&mut buttons, CardAction::UnloadTo, String::from_str("Unload To"), Swatch::ButtonNormal, Ghost(done2));
        assert(done2.push((CardAction::UnloadTo, "Unload To"@, Swatch::ButtonNormal)) =~= card_plan(*source));
    } else {
        assert(done =~= card_plan(*source));
    }
    buttons
}

/// What the card should do this frame.
#[derive(Clone, Copy, Debug, PartialEq, Eq, Structural)]
pub enum CardRefresh {
    /// Leave the buttons as they are.
    Keep,
    /// Take every button down and put none up.
    Clear,
    /// Take every button down and lay the card out for this entity.
    Rebuild(u64),
}

/// When the command card is rebuilt: a spectator commands nothing, so its
/// card is cleared; otherwise the card is laid out again whenever the primary
/// selection changes or the primary's own type is rewritten (a gryphon that
/// takes off swaps its take-off button for the landing one on the spot), and
/// left empty when nothing is primary.
pub fn card_refresh(
    local_plays: bool,
    primary_changed: bool,
    primary_type_changed: bool,
    primary: Option<u64>,
) -> (refresh: CardRefresh)
    ensures
        refresh == if !local_plays {
            CardRefresh::Clear
        } else if !primary_changed && !primary_type_changed {
            CardRefresh::Keep
        } else {
            match primary {
                Some(id) => CardRefresh::Rebuild(id),
                None => CardRefresh::Clear,
            }
        },
{
    if !local_plays {
        CardRefresh::Clear
    } else if !primary_changed && !primary_type_changed {
        CardRefresh::Keep
    } else {
        match primary {
            Some(id) => CardRefresh::Rebuild(id),
            None => CardRefresh::Clear,
        }
    }
}

/// A card button whose action the executor judges before it runs.
#[derive(Clone, Copy, Debug, PartialEq, Eq, Structural)]
pub enum GatedCard {
    Train,
    Build,
    Research,
    /// A skill cast from the primary entity.
    Skill,
    /// A skill cast as the player.
    PlayerSkill,
}

/// What the executor would read to judge a gated button right now: whether
/// the type's, research's or skill's requirements are met, whether the
/// primary entity may start the order, whether the research is done or
/// already under way, and whether the primary entity is operating.
#[derive(Clone, Copy, Debug, PartialEq, Eq, Structural)]
pub struct CardFacts {
    pub requirements_met: bool,
    pub starts: bool,
    pub completed: bool,
    pub under_way: bool,
    pub operating: bool,
}

/// Whether a gated button's action would be allowed now: a train or build
/// needs its requirements and a primary that may start it; a research also
/// must be neither done nor under way; an entity skill needs its
/// requirements and an operating caster; a player skill its requirements.
pub open spec fn available(card: GatedCard, facts: CardFacts) -> bool {
    match card {
        GatedCard::Train | GatedCard::Build => facts.requirements_met && facts.starts,
        GatedCard::Research => !facts.completed && !facts.under_way && facts.requirements_met
            && facts.starts,
        GatedCard::Skill => facts.requirements_met && facts.operating,
        GatedCard::PlayerSkill => facts.requirements_met,
    }
}

/// How the pointer rests on a button.
#[derive(Clone, Copy, Debug, PartialEq, Eq, Structural)]
pub enum Pointer {
    Away,
    Hovered,
    Pressed,
}

/// A gated button's tint: greyed out when the action is refused, else its
/// kind's resting tint, or the hovered one under the pointer.
pub open spec fn gated_swatch(card: GatedCard, allowed: bool, pointer: Pointer) -> Swatch {
    if !allowed {
        Swatch::CardDisabled
    } else {
        let hovered = pointer != Pointer::Away;
        match card {
            GatedCard::Train => if hovered {
                Swatch::ButtonHovered
            } else {
                Swatch::ButtonNormal
            },
            GatedCard::Build => if hovered {
                Swatch::BuildHovered
            } else {
                Swatch::BuildNormal
            },
            GatedCard::Research => if hovered {
                Swatch::ResearchHovered
            } else {
                Swatch::ResearchNormal
            },
            GatedCard::Skill | GatedCard::PlayerSkill => if hovered {
                Swatch::SkillHovered
            } else {
                Swatch::SkillNormal
            },
        }
    }
}

/// Recolors a gated card button from what the executor would currently allow:
/// a train, build, research or skill the primary entity may not start now, or
/// whose requirements are unmet, greys out, as does a research that is done or
/// already under way.
pub fn card_swatch(card: GatedCard, facts: CardFacts, pointer: Pointer) -> (swatch: Swatch)
    ensures
        swatch == gated_swatch(card, available(card, facts), pointer),
{
    let allowed = match card {
        GatedCard::Train | GatedCard::Build => facts.requirements_met && facts.starts,
        GatedCard::Research => !facts.completed && !facts.under_way && facts.requirements_met
            && facts.starts,
        GatedCard::Skill => facts.requirements_met && facts.operating,
        GatedCard::PlayerSkill => facts.requirements_met,
    };
    if !allowed {
        return Swatch::CardDisabled;
    }
    let hovered = pointer != Pointer::Away;
    match card {
        GatedCard::Train => if hovered {
            Swatch::ButtonHovered
        } else {
            Swatch::ButtonNormal
        },
        GatedCard::Build => if hovered {
            Swatch::BuildHovered
        } else {
            Swatch::BuildNormal
        },
        GatedCard::Research => if hovered {
            Swatch::ResearchHovered
        } else {
            Swatch::ResearchNormal
        },
        GatedCard::Skill | GatedCard::PlayerSkill => if hovered {
            Swatch::SkillHovered
        } else {
            Swatch::SkillNormal
        },
    }
}

/// Whether a queue holds a research order for `research`. Each queued order
/// is given as the research it starts, or `None` for any other order.
pub open spec fn queues_research(queue: Seq<Option<u32>>, research: u32) -> bool {
    exists|j: int| 0 <= j < queue.len() && #[trigger] queue[j] == Some(research)
}

/// Whether any of the player's entities is working on or queued for the
/// given research. Each entity is given by its owner and its order queue.
pub fn research_under_way(
    entities: &Vec<(u8, Vec<Option<u32>>)>,
    player: u8,
    research: u32,
) -> (found: bool)
    ensures
        found == exists|k: int|
            0 <= k < entities@.len() && (#[trigger] entities@[k]).0 == player && queues_research(
                entities@[k].1@,
                research,
            ),
{
    let mut k: usize = 0;
    while k < entities.len()
        invariant
            k <= entities@.len(),
            forall|i: int|
                0 <= i < k ==> !((#[trigger] entities@[i]).0 == player && queues_research(
                    entities@[i].1@,
                    research,
                )),
        decreases entities@.len() - k,
    {
        if entities[k].0 == player {
            let queue = &entities[k].1;
            let mut j: usize = 0;
            while j < queue.len()
                invariant
                    j <= queue@.len(),
                    k < entities@.len(),
                    entities@[k as int].0 == player,
                    queue@ == entities@[k as int].1@,
                    forall|i: int| 0 <= i < j ==> #[trigger] queue@[i] != Some(research),
                decreases queue@.len() - j,
            {
                if queue[j] == Some(research) {
                    assert(queue@[j as int] == Some(research));
                    assert(queues_research(entities@[k as int].1@, research));
                    assert(entities@[k as int].0 == player);
                    return true;
                }
                j = j + 1;
            }
        }
        k = k + 1;
    }
    false
}

/// The command card holds a button per thing the primary can do, in a fixed
/// order, each naming its own subject: the `k`-th train button trains the
/// `k`-th trainable type and is labelled with it, and likewise for the build
/// and transition buttons; a research or skill button starts its own
/// research or skill; a transporter ends the card with Load, Unload and
/// Unload To. So no two train, build or transition buttons do the same.
pub proof fn law_card_buttons_name_their_subjects(source: CardSource)
    requires
        source.trains@.len() <= usize::MAX,
        source.builds@.len() <= usize::MAX,
        source.morphs@.len() <= usize::MAX,
    ensures
        ({
            let plan = card_plan(source);
            let t = source.trains@.len() as int;
            let b = source.builds@.len() as int;
            let r = source.researches@.len() as int;
            let sk = source.skills@.len() as int;
            let m = source.morphs@.len() as int;
            let before_morphs = t + b + r + sk;
            &&& plan.len() == before_morphs + m + if source.transports {
                3int
            } else {
                0
            }
            &&& forall|k: int|
                0 <= k < t ==> #[trigger] plan[k].0 == CardAction::Train(k as usize) && plan[k].1
                    == display_name(source.trains@[k]@)
            &&& forall|k: int|
                0 <= k < b ==> #[trigger] plan[t + k].0 == CardAction::Build(k as usize) && plan[t
                    + k].1 == display_name(source.builds@[k]@)
            &&& forall|k: int|
                0 <= k < r ==> #[trigger] plan[t + b + k].0 == CardAction::Research(
                    source.researches@[k].0,
                ) && plan[t + b + k].1 == display_name(source.researches@[k].1@)
            &&& forall|k: int|
                0 <= k < sk ==> #[trigger] plan[t + b + r + k].0 == CardAction::Skill(
                    source.skills@[k].0,
                ) && plan[t + b + r + k].1 == display_name(source.skills@[k].1@)
            &&& forall|k: int|
                0 <= k < m ==> #[trigger] plan[before_morphs + k].0 == CardAction::Morph(
                    k as usize,
                ) && plan[before_morphs + k].1 == display_name(source.morphs@[k]@)
            &&& source.transports ==> plan[before_morphs + m].0 == CardAction::Load && plan[before_morphs
                + m + 1].0 == CardAction::Unload && plan[before_morphs + m + 2].0
                == CardAction::UnloadTo
            &&& forall|i: int, j: int|
                0 <= i < plan.len() && 0 <= j < plan.len() && i != j && (plan[i].0 is Train
                    || plan[i].0 is Build || plan[i].0 is Morph) ==> #[trigger] plan[i].0
                    != #[trigger] plan[j].0
        }),
{
    let trains = source.trains@;
    let builds = source.builds@;
    let researches = source.researches@;
    let skills = source.skills@;
    let morphs = source.morphs@;
    let sa = Seq::new(
        trains.len(),
        |k: int| (CardAction::Train(k as usize), display_name(trains[k]@), Swatch::ButtonNormal),
    );
    let sb = Seq::new(
        builds.len(),
        |k: int| (CardAction::Build(k as usize), display_name(builds[k]@), Swatch::BuildNormal),
    );
    let sc = Seq::new(
        researches.len(),
        |k: int|
            (
                CardAction::Research(researches[k].0),
                display_name(researches[k].1@),
                Swatch::ResearchNormal,
            ),
    );
    let sd = Seq::new(
        skills.len(),
        |k: int| (CardAction::Skill(skills[k].0), display_name(skills[k].1@), Swatch::SkillNormal),
    );
    let se = Seq::new(
        morphs.len(),
        |k: int| (CardAction::Morph(k as usize), display_name(morphs[k]@), Swatch::SkillNormal),
    );
    let sf: Seq<(CardAction, Seq<char>, Swatch)> = if source.transports {
        seq![
            (CardAction::Load, "Load"@, Swatch::ButtonNormal),
            (CardAction::Unload, "Unload"@, Swatch::ButtonNormal),
            (CardAction::UnloadTo, "Unload To"@, Swatch::ButtonNormal),
        ]
    } else {
        Seq::empty()
    };
    let plan = card_plan(source);
    let t = trains.len() as int;
    let b = builds.len() as int;
    let r = researches.len() as int;
    let sk = skills.len() as int;
    let m = morphs.len() as int;
    let p1 = sa + sb;
    let p2 = p1 + sc;
    let p3 = p2 + sd;
    let p4 = p3 + se;
    assert(plan == p4 + sf);
    assert forall|k: int| 0 <= k < plan.len() implies (#[trigger] plan[k]) == (if k < t {
        sa[k]
    } else if k < t + b {
        sb[k - t]
    } else if k < t + b + r {
        sc[k - t - b]
    } else if k < t + b + r + sk {
        sd[k - t - b - r]
    } else if k < t + b + r + sk + m {
        se[k - t - b - r - sk]
    } else {
        sf[k - t - b - r - sk - m]
    }) by {
        if k < t + b + r + sk + m {
            assert(plan[k] == p4[k]);
            if k < t + b + r + sk {
                assert(p4[k] == p3[k]);
                if k < t + b + r {
                    assert(p3[k] == p2[k]);
                    if k < t + b {
                        assert(p2[k] == p1[k]);
                    }
                }
            }
        }
    }
    assert forall|i: int, j: int|
        0 <= i < plan.len() && 0 <= j < plan.len() && i != j && (plan[i].0 is Train || plan[i].0 is Build
            || plan[i].0 is Morph) implies #[trigger] plan[i].0 != #[trigger] plan[j].0 by {
        assert(plan[i] == plan[i]);
        assert(plan[j] == plan[j]);
        assert(t + b + r + sk + m <= plan.len());
        if i < t && j < t {
            assert(sa[i].0 == CardAction::Train(i as usize));
            assert(sa[j].0 == CardAction::Train(j as usize));
        } else if t <= i < t + b && t <= j < t + b {
            assert(sb[i - t].0 == CardAction::Build((i - t) as usize));
            assert(sb[j - t].0 == CardAction::Build((j - t) as usize));
        } else if t + b + r + sk <= i < t + b + r + sk + m && t + b + r + sk <= j < t + b + r + sk + m {
            assert(se[i - t - b - r - sk].0 == CardAction::Morph((i - t - b - r - sk) as usize));
            assert(se[j - t - b - r - sk].0 == CardAction::Morph((j - t - b - r - sk) as usize));
        }
    }
}

} // verus!
