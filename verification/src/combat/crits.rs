//! Attack timing and critical-hit decisions.
//!
//! Java scales every hit by the attack-strength cooldown, so damage per
//! second is maximised by swinging the instant the weapon has recharged and
//! not one tick before ([`attack_ready`]); the recharge time depends on the
//! weapon in hand ([`weapon_cooldown`]). A crit needs the bot to be falling
//! as it swings, so the jump is fired [`CRIT_JUMP_LEAD`] before the
//! cooldown expires ([`should_prejump_for_crit`]), and a ready sword swing
//! on the ground is held for a jump ([`should_force_crit_jump`]) for at most
//! [`CRIT_HOLD_TIMEOUT`].
//!
//! All times here are monotonic clock readings and durations in
//! nanoseconds.
use vstd::prelude::*;
use crate::text::{chars_equal, chars_end_with, chars_of, ends_with, strip_minecraft, strip_minecraft_prefix};

verus! {

/// Recharge time of a sword (attack speed 1.6/s), in nanoseconds.
pub const SWORD_COOLDOWN: u64 = 625_000_000;

/// How long before the cooldown expires the crit jump is fired (ns).
pub const CRIT_JUMP_LEAD: u64 = 320_000_000;

/// Minimum spacing between two crit-seeking jumps (ns).
pub const JUMP_COOLDOWN: u64 = 400_000_000;

/// How long a ready swing is held waiting to become a crit (ns).
pub const CRIT_HOLD_TIMEOUT: u64 = 400_000_000;

/// Retry spacing for the forced crit jump while a swing is held (ns).
pub const FORCED_CRIT_JUMP_RETRY: u64 = 150_000_000;

/// Java's attack-speed attribute for the item with bare id `bare` (the
/// `minecraft:` prefix removed), in tenths of an attack per second.
pub open spec fn attack_speed_tenths(bare: Seq<char>) -> u64 {
    if ends_with(bare, "_sword"@) {
        16
    } else if bare == "trident"@ {
        11
    } else if bare == "wooden_axe"@ || bare == "stone_axe"@ {
        8
    } else if bare == "iron_axe"@ {
        9
    } else if bare == "golden_axe"@ || bare == "diamond_axe"@ || bare == "netherite_axe"@ {
        10
    } else if ends_with(bare, "_pickaxe"@) {
        12
    } else if ends_with(bare, "_shovel"@) {
        10
    } else if bare == "wooden_hoe"@ || bare == "golden_hoe"@ {
        10
    } else if bare == "stone_hoe"@ {
        20
    } else if bare == "iron_hoe"@ {
        30
    } else {
        40
    }
}

/// Recharge time in nanoseconds for the held item: `1s / attack_speed`,
/// with vanilla's default attack speed of 4.0/s for an empty hand or any
/// item without its own attribute.
pub open spec fn cooldown_for(item: Option<Seq<char>>) -> u64 {
    match item {
        None => 250_000_000,
        Some(id) => (10_000_000_000u64 / attack_speed_tenths(strip_minecraft_prefix(id))) as u64,
    }
}

fn attack_speed_tenths_of(bare: &[char]) -> (t: u64)
    ensures
        t == attack_speed_tenths(bare@),
        t > 0,
{
    if chars_end_with(bare, chars_of("_sword").as_slice()) {
        16
    } else if chars_equal(bare, chars_of("trident").as_slice()) {
        11
    } else if chars_equal(bare, chars_of("wooden_axe").as_slice()) || chars_equal(bare, chars_of("stone_axe").as_slice()) {
        8
    } else if chars_equal(bare, chars_of("iron_axe").as_slice()) {
        9
    } else if chars_equal(bare, chars_of("golden_axe").as_slice()) || chars_equal(bare, chars_of("diamond_axe").as_slice())
        || chars_equal(bare, chars_of("netherite_axe").as_slice()) {
        10
    } else if chars_end_with(bare, chars_of("_pickaxe").as_slice()) {
        12
    } else if chars_end_with(bare, chars_of("_shovel").as_slice()) {
        10
    } else if chars_equal(bare, chars_of("wooden_hoe").as_slice()) || chars_equal(bare, chars_of("golden_hoe").as_slice()) {
        10
    } else if chars_equal(bare, chars_of("stone_hoe").as_slice()) {
        20
    } else if chars_equal(bare, chars_of("iron_hoe").as_slice()) {
        30
    } else {
        40
    }
}

/// Recharge time for `item_id`, in nanoseconds.
pub fn weapon_cooldown(item_id: Option<&str>) -> (cooldown: u64)
    ensures
        cooldown == cooldown_for(match item_id {
            Some(s) => Some(s@),
            None => None,
        }),
{
    match item_id {
        None => 250_000_000,
        Some(id) => {
            let chars = chars_of(id);
            let bare = strip_minecraft(chars.as_slice());
            let speed = attack_speed_tenths_of(bare.as_slice());
            10_000_000_000u64 / speed
        },
    }
}

/// Whether `item` is a sword.
pub open spec fn is_sword_id(item: Option<Seq<char>>) -> bool {
    match item {
        None => false,
        Some(id) => ends_with(strip_minecraft_prefix(id), "_sword"@),
    }
}

/// Whether `item_id` is a sword -- the weapon `always_crit_with_sword`
/// applies to.
pub fn is_sword(item_id: Option<&str>) -> (r: bool)
    ensures
        r == is_sword_id(match item_id {
            Some(s) => Some(s@),
            None => None,
        }),
{
    match item_id {
        None => false,
        Some(id) => {
            let chars = chars_of(id);
            let bare = strip_minecraft(chars.as_slice());
            chars_end_with(bare.as_slice(), chars_of("_sword").as_slice())
        },
    }
}

/// Nanoseconds from `since` to `now`, zero if the clock reads earlier.
pub open spec fn since_ns(now: u64, since: u64) -> int {
    if now >= since {
        now - since
    } else {
        0
    }
}

/// Nanoseconds until the next attack may be sent; zero once ready.
pub open spec fn remaining_cooldown(last_attack: Option<u64>, now: u64, cooldown: u64) -> u64 {
    match last_attack {
        None => 0,
        Some(last) => if since_ns(now, last) >= cooldown {
            0
        } else {
            (cooldown - since_ns(now, last)) as u64
        },
    }
}

/// Whether to jump now and hold a ready swing until it lands as a crit:
/// on the ground, in range, not held past [`CRIT_HOLD_TIMEOUT`], and not
/// within [`FORCED_CRIT_JUMP_RETRY`] of the last jump.
pub fn should_force_crit_jump(
    on_ground: bool,
    within_attack_range: bool,
    last_jump: Option<u64>,
    now: u64,
    held_for: Option<u64>,
) -> (r: bool)
    ensures
        r == (on_ground && within_attack_range
            && !(held_for is Some && held_for->0 >= CRIT_HOLD_TIMEOUT)
            && (last_jump is None || since_ns(now, last_jump->0) >= FORCED_CRIT_JUMP_RETRY)),
{
    if !on_ground || !within_attack_range {
        return false;
    }
    match held_for {
        Some(held) => {
            if held >= CRIT_HOLD_TIMEOUT {
                return false;
            }
        },
        None => {},
    }
    match last_jump {
        None => true,
        Some(last) => {
            let since: u64 = if now >= last { now - last } else { 0 };
            since >= FORCED_CRIT_JUMP_RETRY
        },
    }
}

/// How long until the next attack may be sent (ns). Zero once ready.
pub fn time_until_ready(last_attack: Option<u64>, now: u64, cooldown: u64) -> (left: u64)
    ensures
        left == remaining_cooldown(last_attack, now, cooldown),
        left <= cooldown,
{
    match last_attack {
        None => 0,
        Some(last) => {
            let since: u64 = if now >= last { now - last } else { 0 };
            if since >= cooldown {
                0
            } else {
                cooldown - since
            }
        },
    }
}

/// Whether the whole configured cooldown has elapsed -- no early-swing
/// allowance.
pub fn attack_ready(last_attack: Option<u64>, now: u64, cooldown: u64) -> (r: bool)
    ensures
        r == (last_attack is None || since_ns(now, last_attack->0) >= cooldown),
{
    time_until_ready(last_attack, now, cooldown) == 0
}

/// Whether attacking right now lands as a critical hit: airborne and
/// already descending (vertical velocity in thousandths of a block per
/// tick, negative while falling).
pub fn is_critical_window(on_ground: bool, velocity_y_milli: i64) -> (r: bool)
    ensures
        r == (!on_ground && velocity_y_milli < 0),
{
    !on_ground && velocity_y_milli < 0
}

/// The pre-jump decision of [`should_prejump_for_crit`].
pub open spec fn prejump_wanted(
    on_ground: bool,
    within_attack_range: bool,
    last_attack: Option<u64>,
    last_jump: Option<u64>,
    now: u64,
    cooldown: u64,
) -> bool {
    &&& on_ground && within_attack_range
    &&& !(last_jump is Some && since_ns(now, last_jump->0) < JUMP_COOLDOWN)
    &&& cooldown > CRIT_JUMP_LEAD
    &&& remaining_cooldown(last_attack, now, cooldown) <= CRIT_JUMP_LEAD
}

/// Whether to fire the crit jump now, while the cooldown is still running,
/// so the fall coincides with it expiring: from the ground, in range,
/// never within [`JUMP_COOLDOWN`] of the last jump, never for a cooldown
/// no longer than the jump lead, and only once at most [`CRIT_JUMP_LEAD`]
/// of the cooldown remains.
pub fn should_prejump_for_crit(
    on_ground: bool,
    within_attack_range: bool,
    last_attack: Option<u64>,
    last_jump: Option<u64>,
    now: u64,
    cooldown: u64,
) -> (r: bool)
    ensures
        r == prejump_wanted(on_ground, within_attack_range, last_attack, last_jump, now, cooldown),
{
    if !on_ground || !within_attack_range {
        return false;
    }
    match last_jump {
        Some(last) => {
            let since: u64 = if now >= last { now - last } else { 0 };
            if since < JUMP_COOLDOWN {
                return false;
            }
        },
        None => {},
    }
    if cooldown <= CRIT_JUMP_LEAD {
        return false;
    }
    time_until_ready(last_attack, now, cooldown) <= CRIT_JUMP_LEAD
}

/// The time left on a cooldown only counts down: a later clock reading
/// never leaves more of it, and it never exceeds the cooldown itself.
pub proof fn lemma_cooldown_counts_down(last: u64, earlier: u64, later: u64, cooldown: u64)
    requires
        last <= earlier <= later,
    ensures
        remaining_cooldown(Some(last), later, cooldown) <= remaining_cooldown(Some(last), earlier, cooldown),
        remaining_cooldown(Some(last), earlier, cooldown) <= cooldown,
{
}

/// A cadence no longer than the jump lead never pre-jumps, whatever the
/// rest of the situation.
pub proof fn lemma_short_cadence_never_prejumps(
    on_ground: bool,
    within_attack_range: bool,
    last_attack: Option<u64>,
    last_jump: Option<u64>,
    now: u64,
    cooldown: u64,
)
    requires
        cooldown <= CRIT_JUMP_LEAD,
    ensures
        !prejump_wanted(on_ground, within_attack_range, last_attack, last_jump, now, cooldown),
{
}

/// Once the cooldown is up, a grounded bot in range with no recent jump
/// always pre-jumps: catching up late is better than never jumping.
pub proof fn lemma_ready_swing_prejumps(last_attack: u64, now: u64, cooldown: u64)
    requires
        cooldown > CRIT_JUMP_LEAD,
        last_attack <= now,
        now - last_attack >= cooldown,
    ensures
        prejump_wanted(true, true, Some(last_attack), None, now, cooldown),
{
}

/// The jump spacing never blocks a sword crit: it is shorter than a
/// sword's recharge.
pub proof fn lemma_jump_cooldown_fits_a_sword_cycle()
    ensures
        JUMP_COOLDOWN < SWORD_COOLDOWN,
{
}

/// Each weapon recharges in one second divided by its vanilla attack-speed
/// attribute, whatever the namespace on its id: a sword (1.6/s) in
/// 0.625 s, a trident (1.1/s) in 0.909 s, a wooden or stone axe (0.8/s) in
/// 1.25 s, an iron axe (0.9/s) in 1.111 s, a golden, diamond or netherite
/// axe (1.0/s) in 1 s, a pickaxe (1.2/s) in 0.833 s, a shovel (1.0/s) in
/// 1 s, a wooden or golden hoe (1.0/s) in 1 s, a stone hoe (2.0/s) in
/// 0.5 s, an iron hoe (3.0/s) in 0.333 s, and a diamond or netherite hoe
/// like an empty hand (4.0/s) in 0.25 s. Durations in nanoseconds.
pub proof fn lemma_weapon_recharge(id: Seq<char>)
    ensures
        ({
            let bare = strip_minecraft_prefix(id);
            let c = cooldown_for(Some(id));
            &&& ends_with(bare, "_sword"@) ==> c == 625_000_000
            &&& bare == "trident"@ ==> c == 909_090_909
            &&& bare == "wooden_axe"@ || bare == "stone_axe"@ ==> c == 1_250_000_000
            &&& bare == "iron_axe"@ ==> c == 1_111_111_111
            &&& bare == "golden_axe"@ || bare == "diamond_axe"@ || bare == "netherite_axe"@ ==> c == 1_000_000_000
            &&& ends_with(bare, "_pickaxe"@) ==> c == 833_333_333
            &&& ends_with(bare, "_shovel"@) ==> c == 1_000_000_000
            &&& bare == "wooden_hoe"@ || bare == "golden_hoe"@ ==> c == 1_000_000_000
            &&& bare == "stone_hoe"@ ==> c == 500_000_000
            &&& bare == "iron_hoe"@ ==> c == 333_333_333
            &&& bare == "diamond_hoe"@ || bare == "netherite_hoe"@ ==> c == 250_000_000
        }),
        cooldown_for(None) == 250_000_000,
{
    reveal_strlit("_sword");
    reveal_strlit("trident");
    reveal_strlit("wooden_axe");
    reveal_strlit("stone_axe");
    reveal_strlit("iron_axe");
    reveal_strlit("golden_axe");
    reveal_strlit("diamond_axe");
    reveal_strlit("netherite_axe");
    reveal_strlit("_pickaxe");
    reveal_strlit("_shovel");
    reveal_strlit("wooden_hoe");
    reveal_strlit("golden_hoe");
    reveal_strlit("stone_hoe");
    reveal_strlit("iron_hoe");
    reveal_strlit("diamond_hoe");
    reveal_strlit("netherite_hoe");
    let bare = strip_minecraft_prefix(id);
    let n = bare.len() as int;
    lemma_named_speeds(bare);
    assert(10_000_000_000u64 / 16u64 == 625_000_000u64);
    assert(10_000_000_000u64 / 11u64 == 909_090_909u64);
    assert(10_000_000_000u64 / 8u64 == 1_250_000_000u64);
    assert(10_000_000_000u64 / 9u64 == 1_111_111_111u64);
    assert(10_000_000_000u64 / 10u64 == 1_000_000_000u64);
    assert(10_000_000_000u64 / 12u64 == 833_333_333u64);
    assert(10_000_000_000u64 / 20u64 == 500_000_000u64);
    assert(10_000_000_000u64 / 30u64 == 333_333_333u64);
    assert(10_000_000_000u64 / 40u64 == 250_000_000u64);
    if ends_with(bare, "_sword"@) {
        assert(bare.subrange(n - 6, n)[0] == bare[n - 6]);
        lemma_not_ending(bare, "_pickaxe"@, 2);
        lemma_not_ending(bare, "_shovel"@, 1);
    } else if ends_with(bare, "_pickaxe"@) {
        assert(bare.subrange(n - 8, n)[2] == bare[n - 6]);
        assert(bare.subrange(n - 8, n)[0] == bare[n - 8]);
        assert(bare.subrange(n - 8, n)[7] == bare[n - 1]);
        lemma_not_ending(bare, "_shovel"@, 6);
        assert(bare[n - 8] == '_');
    } else if ends_with(bare, "_shovel"@) {
        assert(bare.subrange(n - 7, n)[1] == bare[n - 6]);
        assert(bare.subrange(n - 7, n)[6] == bare[n - 1]);
        assert(bare.subrange(n - 7, n)[0] == bare[n - 7]);
        lemma_not_ending(bare, "_pickaxe"@, 7);
        assert(bare[n - 7] == '_');
    }
}

/// A text whose character facing `suffix[k]` differs does not end with
/// `suffix`.
proof fn lemma_not_ending(s: Seq<char>, suffix: Seq<char>, k: int)
    requires
        0 <= k < suffix.len(),
        suffix.len() <= s.len() ==> s[s.len() - suffix.len() + k] != suffix[k],
    ensures
        !ends_with(s, suffix),
{
    if ends_with(s, suffix) {
        assert(s.subrange(s.len() - suffix.len(), s.len() as int)[k] == s[s.len() - suffix.len() + k]);
    }
}

/// Whether `bare` is one of the weapons known by their full names.
spec fn named_weapon(bare: Seq<char>) -> bool {
    bare == "trident"@ || bare == "wooden_axe"@ || bare == "stone_axe"@ || bare == "iron_axe"@
        || bare == "golden_axe"@ || bare == "diamond_axe"@ || bare == "netherite_axe"@ || bare == "wooden_hoe"@
        || bare == "golden_hoe"@ || bare == "stone_hoe"@ || bare == "iron_hoe"@ || bare == "diamond_hoe"@
        || bare == "netherite_hoe"@
}

/// The attack speeds of the weapons known by their full names.
proof fn lemma_named_speeds(bare: Seq<char>)
    ensures
        bare == "trident"@ ==> attack_speed_tenths(bare) == 11,
        bare == "wooden_axe"@ || bare == "stone_axe"@ ==> attack_speed_tenths(bare) == 8,
        bare == "iron_axe"@ ==> attack_speed_tenths(bare) == 9,
        bare == "golden_axe"@ || bare == "diamond_axe"@ || bare == "netherite_axe"@ ==> attack_speed_tenths(bare) == 10,
        bare == "wooden_hoe"@ || bare == "golden_hoe"@ ==> attack_speed_tenths(bare) == 10,
        bare == "stone_hoe"@ ==> attack_speed_tenths(bare) == 20,
        bare == "iron_hoe"@ ==> attack_speed_tenths(bare) == 30,
        bare == "diamond_hoe"@ || bare == "netherite_hoe"@ ==> attack_speed_tenths(bare) == 40,
        named_weapon(bare) ==> !ends_with(bare, "_sword"@) && !ends_with(bare, "_pickaxe"@) && !ends_with(bare, "_shovel"@),
{
    reveal_strlit("_sword");
    reveal_strlit("_pickaxe");
    reveal_strlit("_shovel");
    reveal_strlit("trident");
    reveal_strlit("wooden_axe");
    reveal_strlit("stone_axe");
    reveal_strlit("iron_axe");
    reveal_strlit("golden_axe");
    reveal_strlit("diamond_axe");
    reveal_strlit("netherite_axe");
    reveal_strlit("wooden_hoe");
    reveal_strlit("golden_hoe");
    reveal_strlit("stone_hoe");
    reveal_strlit("iron_hoe");
    reveal_strlit("diamond_hoe");
    reveal_strlit("netherite_hoe");
    let named = bare == "trident"@ || bare == "wooden_axe"@ || bare == "stone_axe"@ || bare == "iron_axe"@
        || bare == "golden_axe"@ || bare == "diamond_axe"@ || bare == "netherite_axe"@ || bare == "wooden_hoe"@
        || bare == "golden_hoe"@ || bare == "stone_hoe"@ || bare == "iron_hoe"@ || bare == "diamond_hoe"@
        || bare == "netherite_hoe"@;
    assert("wooden_hoe"@[7] != "wooden_axe"@[7]);
    assert("golden_hoe"@[7] != "golden_axe"@[7]);
    assert("stone_hoe"@[6] != "stone_axe"@[6]);
    assert("iron_hoe"@[5] != "iron_axe"@[5]);
    assert("diamond_hoe"@[8] != "diamond_axe"@[8]);
    assert("netherite_hoe"@[10] != "netherite_axe"@[10]);
    if named {
        let n = bare.len() as int;
        assert(bare[n - 6] != '_');
        lemma_not_ending(bare, "_sword"@, 0);
        if n >= 8 {
            assert(bare[n - 8] != '_');
        }
        lemma_not_ending(bare, "_pickaxe"@, 0);
        assert(bare[n - 7] != '_');
        lemma_not_ending(bare, "_shovel"@, 0);
    }
}

} // verus!
