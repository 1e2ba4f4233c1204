//! Which sound cues the simulation's announcements are worth, whose ears a
//! milestone is for, how many may sound at once, and the fixed grain the
//! generated waveforms are mixed with.
//!
//! Field sounds — hits, explosions, deliveries, casts, form changes — follow
//! the fog: anyone who can see the cell hears them. Milestone sounds —
//! research and construction completions, a player's own skills — are
//! progress reports, heard only on their owner's node; a node with no player
//! of its own (an observer) hears every player's.
use vstd::prelude::*;
use crate::lobby::LocalRole;

verus! {

/// How many cues may be sounding at once — a seek running many ticks inside
/// one frame, or one big fight, fills it in a single pass.
pub const MAX_CONCURRENT_CUES: usize = 12;

/// Samples per second every generated cue is built at.
pub const SAMPLE_RATE: u32 = 44_100;

/// The cues the demo can play, one per kind of thing worth hearing.
#[derive(Clone, Copy, Debug, PartialEq, Eq, Structural)]
pub enum Cue {
    /// A hit landing on something.
    Hit,
    /// Something coming apart.
    Explosion,
    /// A load of resources reaching a stockpile.
    Delivery,
    /// A skill going off, heard at whoever cast it.
    Cast,
    /// That skill taking hold, heard at whatever it was applied to.
    Effect,
    /// A form change completing.
    Morph,
    /// A construction site finishing its building.
    Completed,
    /// A research topic finishing.
    Research,
}

/// A place on the map a cue comes from, as the simulation's fixed-point
/// coordinates hold it.
#[derive(Clone, Copy, Debug, PartialEq, Eq, Structural)]
pub struct Spot {
    pub x: u64,
    pub y: u64,
}

/// A building as an announcement names it: its owner, if any, and where it
/// stands.
#[derive(Clone, Copy, Debug, PartialEq, Eq, Structural)]
pub struct Standing {
    pub owner: Option<u8>,
    pub at: Spot,
}

/// A tick's announcement, with the places of the entities it names already
/// looked up (`None` where the entity is gone).
#[derive(Clone, Copy, Debug, PartialEq, Eq, Structural)]
pub enum Announcement {
    /// A hit landed here.
    DamageLanded { at: Spot },
    /// Something died here; `killed` when an enemy caused it.
    Died { at: Spot, killed: bool },
    /// An entity changed form.
    Morphed { place: Option<Spot> },
    /// A building finished: its owner and where it stands, if it is still
    /// there.
    ConstructionCompleted { building: Option<Standing> },
    /// A load reached a stockpile.
    Gathered { storage: Option<Spot> },
    /// A player finished a research, worked at the researcher's place or
    /// granted outright.
    ResearchCompleted { player: u8, researcher: Option<Spot> },
    /// An entity cast a skill onto a target.
    SkillCast { caster: Option<Spot>, target: Option<Spot> },
    /// A player cast one of its own skills.
    PlayerSkillCast { player: u8 },
    /// Anything else: spawns, hidings, spending.
    Quiet,
}

/// Whether a milestone belonging to `player` is this node's to hear: an
/// observer hears every player's, and a milestone with no owner has no side
/// to keep it from.
pub open spec fn own_milestone_spec(local: LocalRole, player: Option<u8>) -> bool {
    match local {
        LocalRole::Observer => true,
        LocalRole::Player(own) => match player {
            Some(player) => player == own,
            None => true,
        },
    }
}

/// Whether a milestone belonging to `player` is this node's to hear.
pub fn own_milestone(local: LocalRole, player: Option<u8>) -> (heard: bool)
    ensures
        heard == own_milestone_spec(local, player),
{
    match local {
        LocalRole::Observer => true,
        LocalRole::Player(own) => match player {
            Some(player) => player == own,
            None => true,
        },
    }
}

/// The cues one announcement is worth, each with the place it should come
/// from — `None` for one that concerns a player rather than a place. A death
/// is an explosion only when an enemy caused it; a cast is heard at whoever
/// made it and, in its own voice, at whatever it was applied to, once when
/// the two are one place; milestones only for their owner's node.
pub open spec fn cues_of(local: LocalRole, event: Announcement) -> Seq<(Cue, Option<Spot>)> {
    match event {
        Announcement::DamageLanded { at } => seq![(Cue::Hit, Some(at))],
        Announcement::Died { at, killed } => if killed {
            seq![(Cue::Explosion, Some(at))]
        } else {
            Seq::empty()
        },
        Announcement::Morphed { place } => match place {
            Some(place) => seq![(Cue::Morph, Some(place))],
            None => Seq::empty(),
        },
        Announcement::ConstructionCompleted { building } => match building {
            Some(standing) => if own_milestone_spec(local, standing.owner) {
                seq![(Cue::Completed, Some(standing.at))]
            } else {
                Seq::empty()
            },
            None => Seq::empty(),
        },
        Announcement::Gathered { storage } => match storage {
            Some(place) => seq![(Cue::Delivery, Some(place))],
            None => Seq::empty(),
        },
        Announcement::ResearchCompleted { player, researcher } => if own_milestone_spec(
            local,
            Some(player),
        ) {
            seq![(Cue::Research, researcher)]
        } else {
            Seq::empty()
        },
        Announcement::SkillCast { caster, target } => {
            let cast = match caster {
                Some(place) => seq![(Cue::Cast, Some(place))],
                None => Seq::empty(),
            };
            if target != caster {
                match target {
                    Some(place) => cast.push((Cue::Effect, Some(place))),
                    None => cast,
                }
            } else {
                cast
            }
        },
        Announcement::PlayerSkillCast { player } => if own_milestone_spec(local, Some(player)) {
            seq![(Cue::Cast, None)]
        } else {
            Seq::empty()
        },
        Announcement::Quiet => Seq::empty(),
    }
}

/// Appends the cues one announcement is worth to `out`.
pub fn cues_for(local: LocalRole, event: Announcement, out: &mut Vec<(Cue, Option<Spot>)>)
    ensures
        final(out)@ == old(out)@ + cues_of(local, event),
{
    let ghost before = out@;
    match event {
        Announcement::DamageLanded { at } => out.push((Cue::Hit, Some(at))),
        Announcement::Died { at, killed } => {
            if killed {
                out.push((Cue::Explosion, Some(at)));
            }
        },
        Announcement::Morphed { place } => match place {
            Some(place) => out.push((Cue::Morph, Some(place))),
            None => {},
        },
        Announcement::ConstructionCompleted { building } => match building {
            Some(standing) => {
                if own_milestone(local, standing.owner) {
                    out.push((Cue::Completed, Some(standing.at)));
                }
            },
            None => {},
        },
        Announcement::Gathered { storage } => match storage {
            Some(place) => out.push((Cue::Delivery, Some(place))),
            None => {},
        },
        Announcement::ResearchCompleted { player, researcher } => {
            if own_milestone(local, Some(player)) {
                out.push((Cue::Research, researcher));
            }
        },
        Announcement::SkillCast { caster, target } => {
            match caster {
                Some(place) => out.push((Cue::Cast, Some(place))),
                None => {},
            }
            if target != caster {
                match target {
                    Some(place) => out.push((Cue::Effect, Some(place))),
                    None => {},
                }
            }
        },
        Announcement::PlayerSkillCast { player } => {
            if own_milestone(local, Some(player)) {
                out.push((Cue::Cast, None));
            }
        },
        Announcement::Quiet => {},
    }
    assert(out@ =~= before + cues_of(local, event));
}

/// A cue the tick asked for, as the player would meet it: whether it comes
/// from a place, and — for one that does — whether the viewer both sees the
/// cell and is within earshot of it.
#[derive(Clone, Copy, Debug, PartialEq, Eq, Structural)]
pub struct CueRequest {
    pub cue: Cue,
    pub placed: bool,
    pub heard: bool,
}

/// Whether a requested cue would reach the viewer at all: a flat one always
/// does, a placed one when its cell is seen and in earshot.
pub open spec fn reaches(request: CueRequest) -> bool {
    !request.placed || request.heard
}

/// The requests from `i` on that get played when `sounding` are already
/// playing: in order, skipping those that would not reach the viewer, and
/// stopping once the cap is full. Skipped ones do not count against the cap.
pub open spec fn admitted_from(wanted: Seq<CueRequest>, i: int, sounding: int) -> Seq<int>
    decreases wanted.len() - i,
{
    if i >= wanted.len() || i < 0 || sounding >= MAX_CONCURRENT_CUES as int {
        Seq::empty()
    } else if !reaches(wanted[i]) {
        admitted_from(wanted, i + 1, sounding)
    } else {
        seq![i] + admitted_from(wanted, i + 1, sounding + 1)
    }
}

/// Which of the tick's requested cues play, by index, when `sounding` are
/// already playing: a placed cue over a cell the viewer cannot see, or out of
/// earshot, is skipped and does not count against the cap, which caps only
/// what actually sounds.
pub fn admit_cues(sounding: usize, wanted: &Vec<CueRequest>) -> (played: Vec<usize>)
    ensures
        played@.map_values(|k: usize| k as int) == admitted_from(wanted@, 0, sounding as int),
{
    let mut played: Vec<usize> = Vec::new();
    let mut count = sounding;
    let mut i: usize = 0;
    while i < wanted.len() && count < MAX_CONCURRENT_CUES
        invariant
            i <= wanted@.len(),
            played@.map_values(|k: usize| k as int) + admitted_from(wanted@, i as int, count as int)
                == admitted_from(wanted@, 0, sounding as int),
        decreases wanted@.len() - i,
    {
        let request = wanted[i];
        if !request.placed || request.heard {
            let ghost before = played@.map_values(|k: usize| k as int);
            played.push(i);
            assert(played@.map_values(|k: usize| k as int) =~= before.push(i as int));
            assert(before + admitted_from(wanted@, i as int, count as int) =~= before.push(i as int)
                + admitted_from(wanted@, i + 1, count + 1));
            count = count + 1;
        }
        i = i + 1;
    }
    assert(admitted_from(wanted@, i as int, count as int) =~= Seq::<int>::empty());
    assert(played@.map_values(|k: usize| k as int) + Seq::<int>::empty()
        =~= played@.map_values(|k: usize| k as int));
    played
}

/// Never more sound at once than the cap allows: with `sounding` already
/// playing, at most the cap's remaining room is admitted.
pub proof fn law_cue_cap(wanted: Seq<CueRequest>, i: int, sounding: int)
    requires
        0 <= i,
        0 <= sounding,
    ensures
        admitted_from(wanted, i, sounding).len() <= if sounding >= MAX_CONCURRENT_CUES as int {
            0
        } else {
            MAX_CONCURRENT_CUES as int - sounding
        },
    decreases wanted.len() - i,
{
    if i < wanted.len() && sounding < MAX_CONCURRENT_CUES as int {
        if !reaches(wanted[i]) {
            law_cue_cap(wanted, i + 1, sounding);
        } else {
            law_cue_cap(wanted, i + 1, sounding + 1);
        }
    }
}

/// Only what reaches the viewer sounds, and in the order it was asked for:
/// every admitted index names a request that reaches the viewer, and the
/// indices rise.
pub proof fn law_admitted_reach_in_order(wanted: Seq<CueRequest>, i: int, sounding: int)
    requires
        0 <= i,
    ensures
        forall|k: int|
            0 <= k < admitted_from(wanted, i, sounding).len() ==> {
                let at = #[trigger] admitted_from(wanted, i, sounding)[k];
                &&& i <= at < wanted.len()
                &&& reaches(wanted[at])
            },
        forall|j: int, k: int|
            0 <= j < k < admitted_from(wanted, i, sounding).len() ==> admitted_from(
                wanted,
                i,
                sounding,
            )[j] < admitted_from(wanted, i, sounding)[k],
    decreases wanted.len() - i,
{
    if i < wanted.len() && sounding < MAX_CONCURRENT_CUES as int {
        if !reaches(wanted[i]) {
            law_admitted_reach_in_order(wanted, i + 1, sounding);
            assert(admitted_from(wanted, i, sounding) == admitted_from(wanted, i + 1, sounding));
        } else {
            law_admitted_reach_in_order(wanted, i + 1, sounding + 1);
            let rest = admitted_from(wanted, i + 1, sounding + 1);
            assert(admitted_from(wanted, i, sounding) == seq![i] + rest);
            assert forall|k: int| 0 <= k < admitted_from(wanted, i, sounding).len() implies {
                let at = #[trigger] admitted_from(wanted, i, sounding)[k];
                &&& i <= at < wanted.len()
                &&& reaches(wanted[at])
            } by {
                if k > 0 {
                    assert(admitted_from(wanted, i, sounding)[k] == rest[k - 1]);
                }
            }
            assert forall|j: int, k: int|
                0 <= j < k < admitted_from(wanted, i, sounding).len() implies admitted_from(
                wanted,
                i,
                sounding,
            )[j] < admitted_from(wanted, i, sounding)[k] by {
                assert(admitted_from(wanted, i, sounding)[k] == rest[k - 1]);
                if j > 0 {
                    assert(admitted_from(wanted, i, sounding)[j] == rest[j - 1]);
                } else {
                    let at = rest[k - 1];
                    assert(i + 1 <= at);
                }
            }
        }
    }
}

/// What becomes of a cue entity this frame.
#[derive(Clone, Copy, Debug, PartialEq, Eq, Structural)]
pub enum CueCleanup {
    /// Still playing, or just spawned: leave it.
    Keep,
    /// Seen with no sink yet: mark it, to tell "not wired up yet" from "never
    /// will be" next frame.
    Mark,
    /// Finished, or never going to sound: despawn it.
    Despawn,
}

/// Clears cue entities the audio side has finished with: one whose flat or
/// spatial sink has run dry, and one that never received a sink at all — no
/// audio device, for instance — recognised by still having none a frame after
/// it was marked. `flat` and `spatial` give each sink, if any, as whether it
/// has run dry.
pub fn cue_cleanup(flat: Option<bool>, spatial: Option<bool>, marked: bool) -> (step: CueCleanup)
    ensures
        step == match (flat, spatial) {
            (Some(empty), _) => if empty {
                CueCleanup::Despawn
            } else {
                CueCleanup::Keep
            },
            (None, Some(empty)) => if empty {
                CueCleanup::Despawn
            } else {
                CueCleanup::Keep
            },
            (None, None) => if marked {
                CueCleanup::Despawn
            } else {
                CueCleanup::Mark
            },
        },
{
    match (flat, spatial) {
        (Some(empty), _) => if empty {
            CueCleanup::Despawn
        } else {
            CueCleanup::Keep
        },
        (None, Some(empty)) => if empty {
            CueCleanup::Despawn
        } else {
            CueCleanup::Keep
        },
        (None, None) => if marked {
            CueCleanup::Despawn
        } else {
            CueCleanup::Mark
        },
    }
}

/// The grain every cue's noise starts from.
pub const GRIT_SEED: u32 = 0x2545_f491;

/// One xorshift step of the noise grain: shift left 13, right 17, left 5,
/// each folded in by exclusive or, bits shifted past the top dropped.
pub open spec fn grit_after(grit: u32) -> u32 {
    let a = grit ^ (grit << 13u32);
    let b = a ^ (a >> 17u32);
    b ^ (b << 5u32)
}

/// The next value of the noise grain, so a cue's grain is the same on every
/// run and every machine.
pub fn next_grit(grit: u32) -> (next: u32)
    ensures
        next == grit_after(grit),
{
    let a = grit ^ (grit << 13u32);
    let b = a ^ (a >> 17u32);
    b ^ (b << 5u32)
}

/// The grain after `n` steps from the seed.
pub open spec fn grit_at(n: nat) -> u32
    decreases n,
{
    if n == 0 {
        GRIT_SEED
    } else {
        grit_after(grit_at((n - 1) as nat))
    }
}

/// The first `count` grains of a cue's noise, one per sample.
pub fn grit_run(count: usize) -> (grains: Vec<u32>)
    ensures
        grains@.len() == count,
        forall|k: int| 0 <= k < count ==> #[trigger] grains@[k] == grit_at((k + 1) as nat),
{
    let mut grains: Vec<u32> = Vec::new();
    let mut grit = GRIT_SEED;
    let mut k: usize = 0;
    while k < count
        invariant
            k <= count,
            grains@.len() == k,
            grit == grit_at(k as nat),
            forall|j: int| 0 <= j < k ==> #[trigger] grains@[j] == grit_at((j + 1) as nat),
        decreases count - k,
    {
        grit = next_grit(grit);
        grains.push(grit);
        k = k + 1;
    }
    grains
}

/// The xorshift grain never reaches zero from a non-zero start, so the noise
/// never falls silent.
pub proof fn law_grit_never_zero(grit: u32)
    requires
        grit != 0,
    ensures
        grit_after(grit) != 0,
{
    assert(grit != 0 ==> {
        let a = grit ^ (grit << 13u32);
        let b = a ^ (a >> 17u32);
        b ^ (b << 5u32) != 0
    }) by (bit_vector);
}

/// Whether cues start out silenced: silent until asked for.
pub const STARTS_MUTED: bool = true;

/// Every announcement sounds what it is and where it happened. A hit sounds
/// once at the spot, a death an explosion only when an enemy caused it, a form
/// change, a delivery, a finished building and a finished research once each
/// where they happened, a cast at its caster and its effect at a distinct
/// target, and a player's own skill once with no place; anything quiet stays
/// silent. Field sounds are the same for every listener; a milestone (a
/// building, a research, a player's skill) sounds only on its owner's node or
/// an observer's.
pub proof fn law_cues_follow_announcements(local: LocalRole, event: Announcement)
    ensures
        forall|i: int|
            0 <= i < cues_of(local, event).len() ==> match event {
                Announcement::DamageLanded { at } => #[trigger] cues_of(local, event)[i] == (
                    Cue::Hit,
                    Some(at),
                ),
                Announcement::Died { at, .. } => cues_of(local, event)[i] == (Cue::Explosion, Some(at)),
                Announcement::Morphed { place } => place is Some && cues_of(local, event)[i] == (
                    Cue::Morph,
                    place,
                ),
                Announcement::ConstructionCompleted { building } => building matches Some(
                    standing,
                ) && cues_of(local, event)[i] == (Cue::Completed, Some(standing.at)),
                Announcement::Gathered { storage } => storage is Some && cues_of(local, event)[i]
                    == (Cue::Delivery, storage),
                Announcement::ResearchCompleted { researcher, .. } => cues_of(local, event)[i] == (
                    Cue::Research,
                    researcher,
                ),
                Announcement::SkillCast { caster, target } => (caster is Some && cues_of(
                    local,
                    event,
                )[i] == (Cue::Cast, caster)) || (target is Some && target != caster && cues_of(
                    local,
                    event,
                )[i] == (Cue::Effect, target)),
                Announcement::PlayerSkillCast { .. } => cues_of(local, event)[i] == (Cue::Cast, None::<Spot>),
                Announcement::Quiet => false,
            },
        cues_of(local, event).len() == match event {
            Announcement::DamageLanded { .. } => 1int,
            Announcement::Died { killed, .. } => if killed {
                1int
            } else {
                0
            },
            Announcement::Morphed { place } => if place is Some {
                1int
            } else {
                0
            },
            Announcement::ConstructionCompleted { building } => match building {
                Some(standing) => if local == LocalRole::Observer || standing.owner is None
                    || local == LocalRole::Player(standing.owner->0) {
                    1int
                } else {
                    0
                },
                None => 0,
            },
            Announcement::Gathered { storage } => if storage is Some {
                1int
            } else {
                0
            },
            Announcement::ResearchCompleted { player, .. } => if local == LocalRole::Observer
                || local == LocalRole::Player(player) {
                1int
            } else {
                0
            },
            Announcement::SkillCast { caster, target } => (if caster is Some {
                1int
            } else {
                0
            }) + (if target is Some && target != caster {
                1int
            } else {
                0
            }),
            Announcement::PlayerSkillCast { player } => if local == LocalRole::Observer || local
                == LocalRole::Player(player) {
                1int
            } else {
                0
            },
            Announcement::Quiet => 0,
        },
        !(event is ConstructionCompleted) && !(event is ResearchCompleted) && !(
        event is PlayerSkillCast) ==> cues_of(local, event) == cues_of(LocalRole::Observer, event),
{
}

} // verus!
