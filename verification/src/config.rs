//! The bot's configuration: the plain settings every subsystem reads, and
//! the output-verbosity levels.
//!
//! Reading the TOML file is the application's job; the types here carry
//! the settings the library's decisions take as input, with the documented
//! defaults, and the checks on the integer settings that configuration
//! validation runs.
use vstd::prelude::*;
use crate::error::AppError;
use crate::text::{chars_equal, chars_of, lower_chars, lower_seq, trim, trim_chars};

verus! {

/// How much of the bot's own status narration reaches a destination. Each
/// level shows everything the levels below it show, plus more.
#[derive(Clone, Copy, Debug, Default, PartialEq, Eq, PartialOrd, Ord, Structural)]
pub enum OutputMode {
    /// Nothing at all.
    Off,
    /// Only a task's start and its final outcome.
    Light,
    /// `Light`, plus running progress reports. The default.
    #[default]
    Info,
    /// `Info`, plus every other diagnostic line.
    Debug,
    /// `Debug`, without collapsing repeated lines.
    FullDebug,
}

/// The position of a mode in the verbosity order, least verbose first.
pub open spec fn verbosity(mode: OutputMode) -> int {
    match mode {
        OutputMode::Off => 0,
        OutputMode::Light => 1,
        OutputMode::Info => 2,
        OutputMode::Debug => 3,
        OutputMode::FullDebug => 4,
    }
}

/// Where the bot's own status narration may reach -- the local console and
/// Minecraft chat -- each independently levelled.
#[derive(Clone, Debug, Default)]
pub struct OutputConfig {
    pub console: OutputMode,
    pub chat: OutputMode,
}

/// Access control and rate limiting for `#`-prefixed console commands
/// typed in Minecraft chat.
#[derive(Clone, Debug)]
pub struct ChatCommandsConfig {
    pub access: ChatCommandsAccessConfig,
    pub rate_limit: ChatCommandsRateLimitConfig,
}

/// Who may run chat commands.
#[derive(Clone, Debug)]
pub struct ChatCommandsAccessConfig {
    pub operators_only: bool,
    pub allowed_players: Vec<String>,
    pub blocked_players: Vec<String>,
}

/// How often chat commands may be run.
#[derive(Clone, Copy, Debug)]
pub struct ChatCommandsRateLimitConfig {
    pub enabled: bool,
    pub requests: usize,
    pub window_seconds: u64,
}

/// The default number of chat commands per window.
pub fn default_chat_command_rate_limit_requests() -> (n: usize)
    ensures
        n == 3,
{
    3
}

/// The default rate-limit window, in seconds.
pub fn default_chat_command_rate_limit_window() -> (n: u64)
    ensures
        n == 30,
{
    30
}

/// `true`, the default of every switch that is on unless configured off.
pub fn default_true() -> (b: bool)
    ensures
        b,
{
    true
}

impl Default for ChatCommandsRateLimitConfig {
    fn default() -> (c: Self)
        ensures
            c.enabled,
            c.requests == 3,
            c.window_seconds == 30,
    {
        ChatCommandsRateLimitConfig {
            enabled: default_true(),
            requests: default_chat_command_rate_limit_requests(),
            window_seconds: default_chat_command_rate_limit_window(),
        }
    }
}

impl Default for ChatCommandsAccessConfig {
    fn default() -> (c: Self)
        ensures
            !c.operators_only,
            c.allowed_players@.len() == 0,
            c.blocked_players@.len() == 0,
    {
        ChatCommandsAccessConfig { operators_only: false, allowed_players: Vec::new(), blocked_players: Vec::new() }
    }
}

impl Default for ChatCommandsConfig {
    fn default() -> (c: Self)
        ensures
            !c.access.operators_only,
            c.access.allowed_players@.len() == 0,
            c.access.blocked_players@.len() == 0,
            c.rate_limit.enabled,
            c.rate_limit.requests == 3,
            c.rate_limit.window_seconds == 30,
    {
        ChatCommandsConfig { access: ChatCommandsAccessConfig::default(), rate_limit: ChatCommandsRateLimitConfig::default() }
    }
}

/// How armor pieces are ranked: `Score` weighs material and durability
/// together; `Rarity` ranks by material alone.
#[derive(Clone, Copy, Debug, Default, PartialEq, Eq, Structural)]
pub enum ArmorMode {
    #[default]
    Score,
    Rarity,
}

/// Which of a Totem of Undying or a Shield the offhand prefers.
#[derive(Clone, Copy, Debug, Default, PartialEq, Eq, Structural)]
pub enum OffhandPriority {
    #[default]
    Totem,
    Shield,
}

/// How tool and weapon candidates are ranked: by material tier alone, or
/// by the durability-penalised score.
#[derive(Clone, Copy, Debug, Default, PartialEq, Eq, Structural)]
pub enum ToolRankingMode {
    #[default]
    Rarity,
    Score,
}

/// Armor settings.
#[derive(Clone, Copy, Debug, Default)]
pub struct EquipmentArmorConfig {
    pub mode: ArmorMode,
}

/// Offhand settings.
#[derive(Clone, Copy, Debug, Default)]
pub struct EquipmentOffhandConfig {
    pub priority: OffhandPriority,
}

/// Tool ranking settings.
#[derive(Clone, Copy, Debug, Default)]
pub struct ToolEquipmentConfig {
    pub ranking_mode: ToolRankingMode,
}

/// An extra item kept stocked in a specific hotbar slot.
#[derive(Clone, Debug)]
pub struct UtilityItemConfig {
    pub item_id: String,
    pub slot: u8,
}

/// The 1-9 hotbar slot each built-in category is kept in; `None` leaves
/// that category unmanaged.
#[derive(Clone, Copy, Debug)]
pub struct HotbarSlotsConfig {
    pub sword: Option<u8>,
    pub pickaxe: Option<u8>,
    pub axe: Option<u8>,
    pub shovel: Option<u8>,
    pub blocks: Option<u8>,
    pub water_bucket: Option<u8>,
}

/// The default sword slot.
pub fn default_slot_1() -> (s: Option<u8>)
    ensures
        s == Some(1u8),
{
    Some(1)
}

/// The default pickaxe slot.
pub fn default_slot_2() -> (s: Option<u8>)
    ensures
        s == Some(2u8),
{
    Some(2)
}

/// The default axe slot.
pub fn default_slot_3() -> (s: Option<u8>)
    ensures
        s == Some(3u8),
{
    Some(3)
}

/// The default shovel slot.
pub fn default_slot_4() -> (s: Option<u8>)
    ensures
        s == Some(4u8),
{
    Some(4)
}

/// The default building-block slot.
pub fn default_slot_5() -> (s: Option<u8>)
    ensures
        s == Some(5u8),
{
    Some(5)
}

/// The default water-bucket slot.
pub fn default_slot_6() -> (s: Option<u8>)
    ensures
        s == Some(6u8),
{
    Some(6)
}

impl Default for HotbarSlotsConfig {
    fn default() -> (c: Self)
        ensures
            c.sword == Some(1u8),
            c.pickaxe == Some(2u8),
            c.axe == Some(3u8),
            c.shovel == Some(4u8),
            c.blocks == Some(5u8),
            c.water_bucket == Some(6u8),
    {
        HotbarSlotsConfig {
            sword: default_slot_1(),
            pickaxe: default_slot_2(),
            axe: default_slot_3(),
            shovel: default_slot_4(),
            blocks: default_slot_5(),
            water_bucket: default_slot_6(),
        }
    }
}

/// Automatic hotbar equipment settings.
#[derive(Clone, Debug)]
pub struct HotbarEquipmentConfig {
    pub enabled: bool,
    pub slots: HotbarSlotsConfig,
    pub utility_items: Vec<UtilityItemConfig>,
    /// Seconds between fallback re-scans.
    pub periodic_scan_seconds: u64,
}

/// The default fallback re-scan period, in seconds.
pub fn default_hotbar_periodic_scan_seconds() -> (n: u64)
    ensures
        n == 10,
{
    10
}

impl Default for HotbarEquipmentConfig {
    fn default() -> (c: Self)
        ensures
            c.enabled,
            c.slots.sword == Some(1u8),
            c.slots.pickaxe == Some(2u8),
            c.slots.axe == Some(3u8),
            c.slots.shovel == Some(4u8),
            c.slots.blocks == Some(5u8),
            c.slots.water_bucket == Some(6u8),
            c.utility_items@.len() == 0,
            c.periodic_scan_seconds == 10,
    {
        HotbarEquipmentConfig {
            enabled: default_true(),
            slots: HotbarSlotsConfig::default(),
            utility_items: Vec::new(),
            periodic_scan_seconds: default_hotbar_periodic_scan_seconds(),
        }
    }
}

/// Whether a category's displaced items may be dropped.
#[derive(Clone, Copy, Debug, PartialEq, Eq, Structural)]
pub struct AutoDropCategoryConfig {
    pub enabled: bool,
    pub drop_when_better_available: bool,
}

/// Automatic dropping of what a replacement displaced.
#[derive(Clone, Debug)]
pub struct AutoDropConfig {
    pub enabled: bool,
    /// Item ids never dropped.
    pub protected_items: Vec<String>,
    /// Off by default: players often keep backup armor.
    pub armor: AutoDropCategoryConfig,
    pub tools: AutoDropCategoryConfig,
    pub weapons: AutoDropCategoryConfig,
}

/// The armor default: disabled.
pub fn default_autodrop_armor() -> (c: AutoDropCategoryConfig)
    ensures
        c == (AutoDropCategoryConfig { enabled: false, drop_when_better_available: true }),
{
    AutoDropCategoryConfig { enabled: false, drop_when_better_available: true }
}

/// The tools/weapons default: enabled.
pub fn default_autodrop_enabled() -> (c: AutoDropCategoryConfig)
    ensures
        c == (AutoDropCategoryConfig { enabled: true, drop_when_better_available: true }),
{
    AutoDropCategoryConfig { enabled: true, drop_when_better_available: true }
}

impl Default for AutoDropConfig {
    fn default() -> (c: Self)
        ensures
            c.enabled,
            c.protected_items@.len() == 0,
            c.armor == (AutoDropCategoryConfig { enabled: false, drop_when_better_available: true }),
            c.tools == (AutoDropCategoryConfig { enabled: true, drop_when_better_available: true }),
            c.weapons == (AutoDropCategoryConfig { enabled: true, drop_when_better_available: true }),
    {
        AutoDropConfig {
            enabled: default_true(),
            protected_items: Vec::new(),
            armor: default_autodrop_armor(),
            tools: default_autodrop_enabled(),
            weapons: default_autodrop_enabled(),
        }
    }
}

/// Everything the automatic equipment system needs.
#[derive(Clone, Debug)]
pub struct EquipmentConfig {
    pub armor: EquipmentArmorConfig,
    pub offhand: EquipmentOffhandConfig,
    pub hotbar: HotbarEquipmentConfig,
    pub tools: ToolEquipmentConfig,
    pub autodrop: AutoDropConfig,
}

impl Default for EquipmentConfig {
    fn default() -> (c: Self)
        ensures
            c.armor.mode == ArmorMode::Score,
            c.offhand.priority == OffhandPriority::Totem,
            c.tools.ranking_mode == ToolRankingMode::Rarity,
            c.hotbar.enabled,
            c.autodrop.enabled,
    {
        EquipmentConfig {
            armor: EquipmentArmorConfig { mode: ArmorMode::Score },
            offhand: EquipmentOffhandConfig { priority: OffhandPriority::Totem },
            hotbar: HotbarEquipmentConfig::default(),
            tools: ToolEquipmentConfig { ranking_mode: ToolRankingMode::Rarity },
            autodrop: AutoDropConfig::default(),
        }
    }
}

/// Which Minecraft server and account to use.
#[derive(Clone, Debug)]
pub struct MinecraftConfig {
    pub server: String,
    pub username: String,
    pub account_mode: AccountMode,
}

/// How the bot authenticates.
#[derive(Clone, Copy, Debug, PartialEq, Eq, Structural)]
pub enum AccountMode {
    Offline,
    Microsoft,
}

/// Reconnection policy.
#[derive(Clone, Copy, Debug)]
pub struct ReconnectConfig {
    pub enabled: bool,
    pub delay_seconds: u64,
    pub maximum_attempts: u32,
}

/// Local console settings.
#[derive(Clone, Copy, Debug)]
pub struct ConsoleConfig {
    pub enabled: bool,
    pub send_plain_input_to_chat: bool,
    pub show_system_messages: bool,
    pub show_action_bar_messages: bool,
}

impl Default for ConsoleConfig {
    fn default() -> (c: Self)
        ensures
            c.enabled,
            !c.send_plain_input_to_chat,
            c.show_system_messages,
            !c.show_action_bar_messages,
    {
        ConsoleConfig {
            enabled: true,
            send_plain_input_to_chat: false,
            show_system_messages: true,
            show_action_bar_messages: false,
        }
    }
}

/// Log filtering.
#[derive(Clone, Debug)]
pub struct LoggingConfig {
    pub level: String,
    pub debug: bool,
}

/// `s` without its `-` and `_` characters.
pub open spec fn without_separators(s: Seq<char>) -> Seq<char>
    decreases s.len(),
{
    if s.len() == 0 {
        s
    } else if s.last() == '-' || s.last() == '_' {
        without_separators(s.drop_last())
    } else {
        without_separators(s.drop_last()).push(s.last())
    }
}

/// The mode a normalised name denotes.
pub open spec fn mode_named(name: Seq<char>) -> Option<OutputMode> {
    if name == "none"@ {
        Some(OutputMode::Off)
    } else if name == "light"@ {
        Some(OutputMode::Light)
    } else if name == "info"@ {
        Some(OutputMode::Info)
    } else if name == "debug"@ {
        Some(OutputMode::Debug)
    } else if name == "fulldebug"@ {
        Some(OutputMode::FullDebug)
    } else {
        None
    }
}

/// The canonical name of each mode.
pub open spec fn mode_name(mode: OutputMode) -> Seq<char> {
    match mode {
        OutputMode::Off => "none"@,
        OutputMode::Light => "light"@,
        OutputMode::Info => "info"@,
        OutputMode::Debug => "debug"@,
        OutputMode::FullDebug => "fulldebug"@,
    }
}

/// Every mode's canonical name names that mode again.
pub proof fn lemma_mode_names_round_trip(mode: OutputMode)
    ensures
        mode_named(mode_name(mode)) == Some(mode),
{
    reveal_strlit("none");
    reveal_strlit("light");
    reveal_strlit("info");
    reveal_strlit("debug");
    reveal_strlit("fulldebug");
    assert("none"@[0] == 'n' && "light"@[0] == 'l' && "info"@[0] == 'i' && "debug"@[0] == 'd'
        && "fulldebug"@[0] == 'f');
}

fn drop_separators(s: &[char]) -> (r: Vec<char>)
    ensures
        r@ == without_separators(s@),
{
    let mut r: Vec<char> = Vec::new();
    let mut i: usize = 0;
    while i < s.len()
        invariant
            i <= s.len(),
            r@ == without_separators(s@.take(i as int)),
        decreases s.len() - i,
    {
        assert(s@.take(i + 1).drop_last() =~= s@.take(i as int));
        if s[i] != '-' && s[i] != '_' {
            r.push(s[i]);
        }
        i = i + 1;
    }
    assert(s@.take(s@.len() as int) =~= s@);
    r
}

impl OutputMode {
    /// Parses a mode name case-insensitively, ignoring surrounding
    /// whitespace and accepting `-`/`_` anywhere (so `full-debug` and
    /// `full_debug` spell `fulldebug`). `None` when `text` names no mode.
    pub fn parse(text: &str) -> (mode: Option<Self>)
        ensures
            mode == mode_named(without_separators(lower_seq(trim(text@)))),
    {
        let raw = chars_of(text);
        let trimmed = trim_chars(raw.as_slice());
        let lowered = lower_chars(trimmed.as_slice());
        let name = drop_separators(lowered.as_slice());
        let n = name.as_slice();
        if chars_equal(n, chars_of("none").as_slice()) {
            Some(OutputMode::Off)
        } else if chars_equal(n, chars_of("light").as_slice()) {
            Some(OutputMode::Light)
        } else if chars_equal(n, chars_of("info").as_slice()) {
            Some(OutputMode::Info)
        } else if chars_equal(n, chars_of("debug").as_slice()) {
            Some(OutputMode::Debug)
        } else if chars_equal(n, chars_of("fulldebug").as_slice()) {
            Some(OutputMode::FullDebug)
        } else {
            None
        }
    }

    /// The canonical name of the mode.
    pub fn as_str(self) -> (s: &'static str)
        ensures
            s@ == mode_name(self),
    {
        match self {
            OutputMode::Off => "none",
            OutputMode::Light => "light",
            OutputMode::Info => "info",
            OutputMode::Debug => "debug",
            OutputMode::FullDebug => "fulldebug",
        }
    }
}

/// Movement that builds up, digs down, or bridges to reach a target.
#[derive(Clone, Debug)]
pub struct VerticalNavigationConfig {
    pub enabled: bool,
    pub allow_pillaring: bool,
    pub allow_digging_down: bool,
    pub allow_bridging: bool,
    pub prefer_staircase_descent: bool,
    pub max_pillar_height: u32,
    pub max_dig_depth: u32,
    pub minimum_building_blocks: u32,
    /// The lowest Y the bot ever deliberately targets.
    pub minimum_y: i32,
    /// Blocks never used as building material, beyond the built-in list.
    pub denied_building_blocks: Vec<String>,
}

/// The default tallest pillar.
pub fn default_vertical_pillar_height() -> (n: u32)
    ensures
        n == 32,
{
    32
}

/// The default deepest dig.
pub fn default_vertical_dig_depth() -> (n: u32)
    ensures
        n == 64,
{
    64
}

/// The default fewest building blocks to start building with.
pub fn default_minimum_building_blocks() -> (n: u32)
    ensures
        n == 4,
{
    4
}

/// The default lowest target Y: just above the overworld's bedrock band.
pub fn default_minimum_y() -> (y: i32)
    ensures
        y == -59,
{
    -59
}

/// The default extra blocks never built with.
pub fn default_denied_building_blocks() -> (v: Vec<String>)
    ensures
        v@.len() == 3,
        v@[0]@ == "minecraft:diamond_block"@,
        v@[1]@ == "minecraft:chest"@,
        v@[2]@ == "minecraft:crafting_table"@,
{
    let mut v: Vec<String> = Vec::new();
    v.push(String::from_str("minecraft:diamond_block"));
    v.push(String::from_str("minecraft:chest"));
    v.push(String::from_str("minecraft:crafting_table"));
    v
}

impl Default for VerticalNavigationConfig {
    fn default() -> (c: Self)
        ensures
            c.enabled && c.allow_pillaring && c.allow_digging_down && c.allow_bridging && c.prefer_staircase_descent,
            c.max_pillar_height == 32,
            c.max_dig_depth == 64,
            c.minimum_building_blocks == 4,
            c.minimum_y == -59,
            c.denied_building_blocks@.len() == 3,
    {
        VerticalNavigationConfig {
            enabled: default_true(),
            allow_pillaring: default_true(),
            allow_digging_down: default_true(),
            allow_bridging: default_true(),
            prefer_staircase_descent: default_true(),
            max_pillar_height: default_vertical_pillar_height(),
            max_dig_depth: default_vertical_dig_depth(),
            minimum_building_blocks: default_minimum_building_blocks(),
            minimum_y: default_minimum_y(),
            denied_building_blocks: default_denied_building_blocks(),
        }
    }
}

/// Limits of the loaded-block search.
#[derive(Clone, Copy, Debug)]
pub struct BlockSearchConfig {
    pub default_radius: u32,
    pub maximum_radius: u32,
    pub default_result_limit: usize,
    pub maximum_result_limit: usize,
    pub default_vertical_range: u32,
}

/// The default search radius.
pub fn default_block_search_radius() -> (n: u32)
    ensures
        n == 32,
{
    32
}

/// The default largest search radius.
pub fn default_block_search_maximum_radius() -> (n: u32)
    ensures
        n == 128,
{
    128
}

/// The default result count.
pub fn default_block_search_result_limit() -> (n: usize)
    ensures
        n == 20,
{
    20
}

/// The default largest result count.
pub fn default_block_search_maximum_result_limit() -> (n: usize)
    ensures
        n == 256,
{
    256
}

/// The default vertical search range.
pub fn default_block_search_vertical_range() -> (n: u32)
    ensures
        n == 32,
{
    32
}

impl Default for BlockSearchConfig {
    fn default() -> (c: Self)
        ensures
            c.default_radius == 32,
            c.maximum_radius == 128,
            c.default_result_limit == 20,
            c.maximum_result_limit == 256,
            c.default_vertical_range == 32,
    {
        BlockSearchConfig {
            default_radius: default_block_search_radius(),
            maximum_radius: default_block_search_maximum_radius(),
            default_result_limit: default_block_search_result_limit(),
            maximum_result_limit: default_block_search_maximum_result_limit(),
            default_vertical_range: default_block_search_vertical_range(),
        }
    }
}

/// A `String` holding `s`.
fn message(s: &str) -> (r: String)
    ensures
        r@ == s@,
{
    String::from_str(s)
}

/// The server and username must be more than whitespace; an enabled
/// reconnect needs at least one attempt.
pub fn check_connection(minecraft: &MinecraftConfig, reconnect: &ReconnectConfig) -> (r: Result<(), AppError>)
    ensures
        trim(minecraft.server@).len() == 0 ==> (r matches Err(AppError::InvalidConfiguration(m))
            && m@ == "minecraft.server must not be empty"@),
        trim(minecraft.server@).len() > 0 && trim(minecraft.username@).len() == 0 ==> (r matches Err(AppError::InvalidConfiguration(m))
            && m@ == "minecraft.username must not be empty"@),
        trim(minecraft.server@).len() > 0 && trim(minecraft.username@).len() > 0 && reconnect.enabled && reconnect.maximum_attempts == 0
            ==> (r matches Err(AppError::InvalidConfiguration(m))
                && m@ == "reconnect.maximum_attempts must be greater than zero when reconnect is enabled"@),
        trim(minecraft.server@).len() > 0 && trim(minecraft.username@).len() > 0 && !(reconnect.enabled && reconnect.maximum_attempts == 0)
            ==> r is Ok,
{
    let server = trim_chars(chars_of(minecraft.server.as_str()).as_slice());
    if server.len() == 0 {
        return Err(AppError::InvalidConfiguration(message("minecraft.server must not be empty")));
    }
    let username = trim_chars(chars_of(minecraft.username.as_str()).as_slice());
    if username.len() == 0 {
        return Err(AppError::InvalidConfiguration(message("minecraft.username must not be empty")));
    }
    if reconnect.enabled && reconnect.maximum_attempts == 0 {
        return Err(AppError::InvalidConfiguration(message(
            "reconnect.maximum_attempts must be greater than zero when reconnect is enabled",
        )));
    }
    Ok(())
}

/// The re-path interval must be 50..=10000 ms.
pub fn check_repath_interval(repath_interval_ms: u64) -> (r: Result<(), AppError>)
    ensures
        50 <= repath_interval_ms <= 10_000 ==> r is Ok,
        !(50 <= repath_interval_ms <= 10_000) ==> (r matches Err(AppError::InvalidMovementConfiguration(m))
            && m@ == "repath_interval_ms must be between 50 and 10000"@),
{
    if !(50 <= repath_interval_ms && repath_interval_ms <= 10_000) {
        return Err(AppError::InvalidMovementConfiguration(message("repath_interval_ms must be between 50 and 10000")));
    }
    Ok(())
}

/// The stuck timeout must be 1..=3600 s; the navigation backstop 1..=3600 s
/// and no shorter than the stuck timeout.
pub fn check_movement_timeouts(stuck_timeout_seconds: u64, maximum_navigation_seconds: u64) -> (r: Result<(), AppError>)
    ensures
        !(1 <= stuck_timeout_seconds <= 3600) ==> (r matches Err(AppError::InvalidMovementConfiguration(m))
            && m@ == "stuck_timeout_seconds must be between 1 and 3600"@),
        1 <= stuck_timeout_seconds <= 3600 && !(1 <= maximum_navigation_seconds <= 3600
            && maximum_navigation_seconds >= stuck_timeout_seconds) ==> (r matches Err(AppError::InvalidMovementConfiguration(m))
                && m@ == "maximum_navigation_seconds must be between 1 and 3600, and at least stuck_timeout_seconds"@),
        1 <= stuck_timeout_seconds <= 3600 && 1 <= maximum_navigation_seconds <= 3600
            && maximum_navigation_seconds >= stuck_timeout_seconds ==> r is Ok,
{
    if stuck_timeout_seconds == 0 || stuck_timeout_seconds > 3600 {
        return Err(AppError::InvalidMovementConfiguration(message("stuck_timeout_seconds must be between 1 and 3600")));
    }
    if maximum_navigation_seconds == 0 || maximum_navigation_seconds > 3600 || maximum_navigation_seconds < stuck_timeout_seconds {
        return Err(AppError::InvalidMovementConfiguration(message(
            "maximum_navigation_seconds must be between 1 and 3600, and at least stuck_timeout_seconds",
        )));
    }
    Ok(())
}

/// Block navigation's integer limits: target attempts 1..=64, the stuck
/// timeout and the navigation backstop 1..=3600 s each, the re-path
/// interval 100..=10000 ms.
pub fn check_block_navigation_limits(
    maximum_target_attempts: usize,
    stuck_timeout_seconds: u64,
    maximum_navigation_seconds: u64,
    repath_interval_ms: u64,
) -> (r: Result<(), AppError>)
    ensures
        (r is Ok) == (1 <= maximum_target_attempts <= 64 && 1 <= stuck_timeout_seconds <= 3600
            && 1 <= maximum_navigation_seconds <= 3600 && 100 <= repath_interval_ms <= 10_000),
        r is Err ==> (r matches Err(AppError::InvalidBlockNavigationConfiguration(m))
            && m@ == "navigation distances, attempts, timeouts, or repath interval are invalid"@),
{
    if maximum_target_attempts == 0 || maximum_target_attempts > 64 || stuck_timeout_seconds == 0
        || stuck_timeout_seconds > 3600 || maximum_navigation_seconds == 0 || maximum_navigation_seconds > 3600
        || repath_interval_ms < 100 || repath_interval_ms > 10_000 {
        return Err(AppError::InvalidBlockNavigationConfiguration(message(
            "navigation distances, attempts, timeouts, or repath interval are invalid",
        )));
    }
    Ok(())
}

/// Look timing's integer rules: an update rate of 1..=120 per second, the
/// reaction delay's maximum no shorter than its minimum, and a positive
/// minimum hold no longer than the maximum hold.
pub fn check_look_timing(
    update_rate: u32,
    reaction_delay_min_ms: u64,
    reaction_delay_max_ms: u64,
    minimum_hold_time_ms: u64,
    maximum_hold_time_ms: u64,
) -> (r: Result<(), AppError>)
    ensures
        (r is Ok) == (1 <= update_rate <= 120 && reaction_delay_min_ms <= reaction_delay_max_ms
            && minimum_hold_time_ms > 0 && minimum_hold_time_ms <= maximum_hold_time_ms),
        r is Err ==> (r matches Err(AppError::InvalidLookConfiguration(m))
            && m@ == "look randomization or motion configuration is invalid"@),
{
    if update_rate == 0 || update_rate > 120 || reaction_delay_max_ms < reaction_delay_min_ms || minimum_hold_time_ms == 0
        || maximum_hold_time_ms < minimum_hold_time_ms {
        return Err(AppError::InvalidLookConfiguration(message("look randomization or motion configuration is invalid")));
    }
    Ok(())
}

/// Interaction's integer limits: at most 10 retries, a retry delay of
/// 1..=10000 ms, a verification timeout of 1..=30000 ms, 1..=6 face
/// attempts and 1..=5 hit points per face.
pub fn check_interaction_limits(
    retry_limit: u32,
    retry_delay_ms: u64,
    verification_timeout_ms: u64,
    maximum_face_attempts: usize,
    maximum_hit_points_per_face: usize,
) -> (r: Result<(), AppError>)
    ensures
        (r is Ok) == (retry_limit <= 10 && 1 <= retry_delay_ms <= 10_000 && 1 <= verification_timeout_ms <= 30_000
            && 1 <= maximum_face_attempts <= 6 && 1 <= maximum_hit_points_per_face <= 5),
        r is Err ==> (r matches Err(AppError::InvalidInteractionConfiguration(m))
            && m@ == "reach, retry, or verification values are invalid"@),
{
    if retry_limit > 10 || retry_delay_ms == 0 || retry_delay_ms > 10_000 || verification_timeout_ms == 0
        || verification_timeout_ms > 30_000 || maximum_face_attempts == 0 || maximum_face_attempts > 6
        || maximum_hit_points_per_face == 0 || maximum_hit_points_per_face > 5 {
        return Err(AppError::InvalidInteractionConfiguration(message("reach, retry, or verification values are invalid")));
    }
    Ok(())
}

/// The survival placement latency compensation may be at most 2000 ms.
pub fn check_survival_latency(placement_latency_compensation_ms: u64) -> (r: Result<(), AppError>)
    ensures
        (r is Ok) == (placement_latency_compensation_ms <= 2000),
        r is Err ==> (r matches Err(AppError::InvalidSurvivalConfiguration(m))
            && m@ == "min_fall_distance, placement_offset_blocks, or placement_latency_compensation_ms is out of range"@),
{
    if placement_latency_compensation_ms > 2000 {
        return Err(AppError::InvalidSurvivalConfiguration(message(
            "min_fall_distance, placement_offset_blocks, or placement_latency_compensation_ms is out of range",
        )));
    }
    Ok(())
}

impl BlockSearchConfig {
    /// Radii positive, the default within the maximum, the maximum at most
    /// 256; result limits likewise with a maximum of 4096; the vertical
    /// range 1..=384 -- checked in that order.
    pub fn check(&self) -> (r: Result<(), AppError>)
        ensures
            !(0 < self.default_radius <= self.maximum_radius <= 256) ==> (r matches Err(AppError::InvalidBlockSearchConfiguration(m))
                && m@ == "radius must be positive, default_radius <= maximum_radius, and maximum_radius <= 256"@),
            0 < self.default_radius <= self.maximum_radius <= 256
                && !(0 < self.default_result_limit <= self.maximum_result_limit <= 4096)
                ==> (r matches Err(AppError::InvalidBlockSearchConfiguration(m))
                    && m@ == "result limits must be positive, default_result_limit <= maximum_result_limit, and maximum_result_limit <= 4096"@),
            0 < self.default_radius <= self.maximum_radius <= 256
                && 0 < self.default_result_limit <= self.maximum_result_limit <= 4096
                && !(1 <= self.default_vertical_range <= 384) ==> (r matches Err(AppError::InvalidBlockSearchConfiguration(m))
                    && m@ == "default_vertical_range must be between 1 and 384"@),
            0 < self.default_radius <= self.maximum_radius <= 256
                && 0 < self.default_result_limit <= self.maximum_result_limit <= 4096
                && 1 <= self.default_vertical_range <= 384 ==> r is Ok,
    {
        if self.default_radius == 0 || self.maximum_radius == 0 || self.default_radius > self.maximum_radius
            || self.maximum_radius > 256 {
            return Err(AppError::InvalidBlockSearchConfiguration(message(
                "radius must be positive, default_radius <= maximum_radius, and maximum_radius <= 256",
            )));
        }
        if self.default_result_limit == 0 || self.maximum_result_limit == 0
            || self.default_result_limit > self.maximum_result_limit || self.maximum_result_limit > 4096 {
            return Err(AppError::InvalidBlockSearchConfiguration(message(
                "result limits must be positive, default_result_limit <= maximum_result_limit, and maximum_result_limit <= 4096",
            )));
        }
        if self.default_vertical_range == 0 || self.default_vertical_range > 384 {
            return Err(AppError::InvalidBlockSearchConfiguration(message("default_vertical_range must be between 1 and 384")));
        }
        Ok(())
    }
}

/// The navigation search radii: positive, the default within the maximum,
/// the maximum at most 256; then the candidate limit 1..=4096.
pub fn check_navigation_search(default_search_radius: u32, maximum_search_radius: u32, candidate_limit: usize) -> (r: Result<(), AppError>)
    ensures
        !(0 < default_search_radius <= maximum_search_radius <= 256) ==> (r matches Err(AppError::InvalidBlockNavigationConfiguration(m))
            && m@ == "search radius values are invalid"@),
        0 < default_search_radius <= maximum_search_radius <= 256 && !(1 <= candidate_limit <= 4096)
            ==> (r matches Err(AppError::InvalidBlockNavigationConfiguration(m)) && m@ == "candidate_limit must be between 1 and 4096"@),
        0 < default_search_radius <= maximum_search_radius <= 256 && 1 <= candidate_limit <= 4096 ==> r is Ok,
{
    if default_search_radius == 0 || maximum_search_radius == 0 || default_search_radius > maximum_search_radius
        || maximum_search_radius > 256 {
        return Err(AppError::InvalidBlockNavigationConfiguration(message("search radius values are invalid")));
    }
    if candidate_limit == 0 || candidate_limit > 4096 {
        return Err(AppError::InvalidBlockNavigationConfiguration(message("candidate_limit must be between 1 and 4096")));
    }
    Ok(())
}

impl VerticalNavigationConfig {
    /// The lowest target Y must lie within the world's technical height
    /// limits, -2032..=2032.
    pub fn check(&self) -> (r: Result<(), AppError>)
        ensures
            -2032 <= self.minimum_y <= 2032 ==> r is Ok,
            !(-2032 <= self.minimum_y <= 2032) ==> (r matches Err(AppError::InvalidVerticalNavigationConfiguration(m))
                && m@ == "minimum_y must be within the technical world height limits (-2032..=2032)"@),
    {
        if !(-2032 <= self.minimum_y && self.minimum_y <= 2032) {
            return Err(AppError::InvalidVerticalNavigationConfiguration(message(
                "minimum_y must be within the technical world height limits (-2032..=2032)",
            )));
        }
        Ok(())
    }
}

/// The hotbar slots in use: the configured category slots, in category
/// order, then each utility item's slot.
pub open spec fn configured_slots(slots: HotbarSlotsConfig, utility: Seq<UtilityItemConfig>) -> Seq<u8> {
    let categories = seq![slots.sword, slots.pickaxe, slots.axe, slots.shovel, slots.blocks, slots.water_bucket];
    categories.filter(|s: Option<u8>| s is Some).map_values(|s: Option<u8>| s->0)
        + utility.map_values(|u: UtilityItemConfig| u.slot)
}

/// Whether no value occurs twice in `s`.
pub open spec fn all_distinct(s: Seq<u8>) -> bool {
    forall|i: int, j: int| 0 <= i < j < s.len() ==> s[i] != s[j]
}

impl HotbarEquipmentConfig {
    /// The fallback scan period must be 1..=3600 s; every configured slot
    /// must be 1..=9; no slot may be used twice.
    pub fn check(&self) -> (r: Result<(), AppError>)
        ensures
            !(1 <= self.periodic_scan_seconds <= 3600) ==> (r matches Err(AppError::InvalidEquipmentConfiguration(m))
                && m@ == "hotbar.periodic_scan_seconds must be between 1 and 3600"@),
            1 <= self.periodic_scan_seconds <= 3600
                && (exists|i: int| 0 <= i < configured_slots(self.slots, self.utility_items@).len()
                    && !(1 <= #[trigger] configured_slots(self.slots, self.utility_items@)[i] <= 9))
                ==> (r matches Err(AppError::InvalidEquipmentConfiguration(m)) && m@ == "hotbar slots must be between 1 and 9"@),
            1 <= self.periodic_scan_seconds <= 3600
                && (forall|i: int| 0 <= i < configured_slots(self.slots, self.utility_items@).len()
                    ==> 1 <= #[trigger] configured_slots(self.slots, self.utility_items@)[i] <= 9)
                && !all_distinct(configured_slots(self.slots, self.utility_items@))
                ==> (r matches Err(AppError::InvalidEquipmentConfiguration(m)) && m@ == "hotbar slots must not overlap"@),
            1 <= self.periodic_scan_seconds <= 3600
                && (forall|i: int| 0 <= i < configured_slots(self.slots, self.utility_items@).len()
                    ==> 1 <= #[trigger] configured_slots(self.slots, self.utility_items@)[i] <= 9)
                && all_distinct(configured_slots(self.slots, self.utility_items@)) ==> r is Ok,
    {
        if self.periodic_scan_seconds == 0 || self.periodic_scan_seconds > 3600 {
            return Err(AppError::InvalidEquipmentConfiguration(message("hotbar.periodic_scan_seconds must be between 1 and 3600")));
        }
        let mut used: Vec<u8> = Vec::new();
        let categories = [self.slots.sword, self.slots.pickaxe, self.slots.axe, self.slots.shovel, self.slots.blocks,
            self.slots.water_bucket];
        let ghost cat_seq = seq![self.slots.sword, self.slots.pickaxe, self.slots.axe, self.slots.shovel, self.slots.blocks, self.slots.water_bucket];
        proof {
            assert(categories@ =~= cat_seq);
        }
        let mut i: usize = 0;
        while i < 6
            invariant
                1 <= self.periodic_scan_seconds <= 3600,
                i <= 6,
                categories@ == cat_seq,
                used@ == cat_seq.take(i as int).filter(|s: Option<u8>| s is Some).map_values(|s: Option<u8>| s->0),
            decreases 6 - i,
        {
            proof {
                assert(cat_seq.take(i + 1).drop_last() =~= cat_seq.take(i as int));
                assert(cat_seq.take(i + 1).last() == cat_seq[i as int]);
                reveal_with_fuel(Seq::filter, 2);
            }
            match categories[i] {
                Some(slot) => {
                    used.push(slot);
                    proof {
                        assert(cat_seq.take(i + 1).filter(|s: Option<u8>| s is Some)
                            =~= cat_seq.take(i as int).filter(|s: Option<u8>| s is Some).push(cat_seq[i as int]));
                    }
                },
                None => {
                    proof {
                        assert(cat_seq.take(i + 1).filter(|s: Option<u8>| s is Some)
                            =~= cat_seq.take(i as int).filter(|s: Option<u8>| s is Some));
                    }
                },
            }
            i = i + 1;
        }
        let ghost cats_used = used@;
        proof {
            assert(cat_seq.take(6) =~= cat_seq);
        }
        let mut k: usize = 0;
        while k < self.utility_items.len()
            invariant
                1 <= self.periodic_scan_seconds <= 3600,
                k <= self.utility_items@.len(),
                used@ == cats_used + self.utility_items@.take(k as int).map_values(|u: UtilityItemConfig| u.slot),
            decreases self.utility_items@.len() - k,
        {
            used.push(self.utility_items[k].slot);
            proof {
                assert(self.utility_items@.take(k + 1).map_values(|u: UtilityItemConfig| u.slot)
                    =~= self.utility_items@.take(k as int).map_values(|u: UtilityItemConfig| u.slot).push(self.utility_items@[k as int].slot));
            }
            k = k + 1;
        }
        proof {
            assert(self.utility_items@.take(self.utility_items@.len() as int) =~= self.utility_items@);
            assert(used@ =~= configured_slots(self.slots, self.utility_items@));
        }
        let ghost all = used@;
        let mut j: usize = 0;
        while j < used.len()
            invariant
                j <= used@.len(),
                all == used@,
                all == configured_slots(self.slots, self.utility_items@),
                1 <= self.periodic_scan_seconds <= 3600,
                forall|q: int| 0 <= q < j ==> 1 <= #[trigger] all[q] <= 9,
            decreases used@.len() - j,
        {
            if used[j] < 1 || used[j] > 9 {
                return Err(AppError::InvalidEquipmentConfiguration(message("hotbar slots must be between 1 and 9")));
            }
            j = j + 1;
        }
        let mut a: usize = 0;
        while a < used.len()
            invariant
                a <= used@.len(),
                all == used@,
                all == configured_slots(self.slots, self.utility_items@),
                1 <= self.periodic_scan_seconds <= 3600,
                forall|q: int| 0 <= q < all.len() ==> 1 <= #[trigger] all[q] <= 9,
                forall|p: int, q: int| 0 <= p < a && p < q < all.len() ==> all[p] != all[q],
            decreases used@.len() - a,
        {
            let mut b: usize = a + 1;
            while b < used.len()
                invariant
                    a < used@.len(),
                    a + 1 <= b <= used@.len(),
                    all == used@,
                    all == configured_slots(self.slots, self.utility_items@),
                    1 <= self.periodic_scan_seconds <= 3600,
                    forall|q: int| 0 <= q < all.len() ==> 1 <= #[trigger] all[q] <= 9,
                    forall|p: int, q: int| 0 <= p < a && p < q < all.len() ==> all[p] != all[q],
                    forall|q: int| a < q < b ==> all[a as int] != all[q],
                decreases used@.len() - b,
            {
                if used[a] == used[b] {
                    return Err(AppError::InvalidEquipmentConfiguration(message("hotbar slots must not overlap")));
                }
                b = b + 1;
            }
            a = a + 1;
        }
        Ok(())
    }
}

/// Whether two names are equal ignoring ASCII case.
pub open spec fn same_name(a: Seq<char>, b: Seq<char>) -> bool {
    lower_seq(a) == lower_seq(b)
}

impl ChatCommandsConfig {
    /// An enabled rate limit needs a positive request count and window; no
    /// player may be both allowed and blocked (names compared ignoring
    /// ASCII case).
    pub fn check(&self) -> (r: Result<(), AppError>)
        ensures
            r is Ok <==> !((self.rate_limit.enabled && (self.rate_limit.requests == 0 || self.rate_limit.window_seconds == 0))
                || exists|i: int, j: int| 0 <= i < self.access.allowed_players@.len() && 0 <= j < self.access.blocked_players@.len()
                    && same_name(#[trigger] self.access.allowed_players@[i]@, #[trigger] self.access.blocked_players@[j]@)),
            r matches Err(e) ==> (e matches AppError::InvalidConfiguration(m) && m@ == "chat_commands rate limit or access lists are invalid"@),
    {
        let limit = &self.rate_limit;
        let mut invalid = limit.enabled && (limit.requests == 0 || limit.window_seconds == 0);
        let allowed = &self.access.allowed_players;
        let blocked = &self.access.blocked_players;
        let mut i: usize = 0;
        while i < allowed.len() && !invalid
            invariant
                i <= allowed@.len(),
                invalid == ((limit.enabled && (limit.requests == 0 || limit.window_seconds == 0))
                    || exists|p: int, q: int| 0 <= p < i && 0 <= q < blocked@.len()
                        && same_name(#[trigger] allowed@[p]@, #[trigger] blocked@[q]@)),
            decreases allowed@.len() - i,
        {
            let a = lower_chars(chars_of(allowed[i].as_str()).as_slice());
            let mut j: usize = 0;
            while j < blocked.len() && !invalid
                invariant
                    i < allowed@.len(),
                    j <= blocked@.len(),
                    a@ == lower_seq(allowed@[i as int]@),
                    invalid ==> ((limit.enabled && (limit.requests == 0 || limit.window_seconds == 0))
                        || exists|p: int, q: int| 0 <= p <= i && 0 <= q < blocked@.len()
                            && same_name(#[trigger] allowed@[p]@, #[trigger] blocked@[q]@)),
                    !invalid ==> !((limit.enabled && (limit.requests == 0 || limit.window_seconds == 0))
                        || exists|p: int, q: int| 0 <= p < i && 0 <= q < blocked@.len()
                            && same_name(#[trigger] allowed@[p]@, #[trigger] blocked@[q]@)),
                    !invalid ==> forall|q: int| 0 <= q < j ==> !same_name(allowed@[i as int]@, #[trigger] blocked@[q]@),
                decreases blocked@.len() - j,
            {
                let b = lower_chars(chars_of(blocked[j].as_str()).as_slice());
                if chars_equal(a.as_slice(), b.as_slice()) {
                    invalid = true;
                }
                j = j + 1;
            }
            proof {
                if !invalid {
                    assert forall|p: int, q: int| 0 <= p < i + 1 && 0 <= q < blocked@.len()
                        implies !same_name(#[trigger] allowed@[p]@, #[trigger] blocked@[q]@) by {
                        if p == i {
                        }
                    }
                }
            }
            i = i + 1;
        }
        if invalid {
            return Err(AppError::InvalidConfiguration(message("chat_commands rate limit or access lists are invalid")));
        }
        Ok(())
    }
}

} // verus!
