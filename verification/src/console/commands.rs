//! What a console line means. Plain text is chat; a line starting with
//! `/` is a command, its name matched case-insensitively; a command that
//! does not fit its grammar is refused with the reason.
use vstd::prelude::*;
use crate::error::{AppError, ErrorView};
use crate::text::{chars_of, chars_equal, string_from_chars, trim, trim_chars, lower_seq, lower_chars};
use crate::console::tokens::{split_ws, split_whitespace, token_views, parse_unsigned, parse_signed,
    parse_u32, parse_usize, parse_i32, well_formed_id, namespaced, canonical_id, split_commas,
    comma_pieces, split_first_ws, split_at_first_ws};

verus! {

/// A parsed console command.
#[derive(Clone, Debug, PartialEq, Eq)]
pub enum ConsoleCommand {
    Help,
    Status,
    Where,
    Health,
    Chat { message: String },
    Players,
    Inventory,
    ObservedContainerStatus,
    Entities { radius: Option<u32> },
    Goto { x: i32, y: i32, z: i32 },
    GotoMine { x: i32, y: i32, z: i32 },
    PathStatus,
    Stop,
    Follow { player: String },
    Movement,
    FindBlock { block_id: String, radius: Option<u32>, limit: Option<usize> },
    NearestBlock { block_id: String, radius: Option<u32> },
    GotoBlock { block_id: String, search_radius: Option<u32>, allow_mining: bool },
    GotoBlockStatus,
    CancelGotoBlock,
    GetResource { resource_id: String, amount: u32 },
    Mine { block_ids: Vec<String>, amount: u32 },
    Look { x: i32, y: i32, z: i32 },
    LookBlock { block_id: String },
    LookPlayer { player: String },
    LookEntity { entity_type: String },
    LookStop,
    LookStatus,
    BreakBlock,
    Break { x: i32, y: i32, z: i32 },
    BreakNearest { block_id: String },
    /// Scores the hotbar and selects the best tool for a block.
    SelectTool { block_id: String },
    PlaceLooked { block_id: String },
    PlaceAt { x: i32, y: i32, z: i32, block_id: String },
    InteractNearest { block_id: String, items: Vec<String>, radius: u32 },
    StopInteraction,
    InteractionStatus,
    Equip { item: String },
    TestOakLog,
    OpenChest { x: i32, y: i32, z: i32 },
    TakeItem { item_id: String, count: u32 },
    StoreItem { item_id: String, count: u32 },
    ContainerStatus,
    CloseContainer,
    Reconnect,
    Quit,
}

/// The plain content of a [`ConsoleCommand`].
pub enum CommandView {
    Help,
    Status,
    Where,
    Health,
    Chat(Seq<char>),
    Players,
    Inventory,
    ObservedContainerStatus,
    Entities(Option<u32>),
    Goto(i32, i32, i32),
    GotoMine(i32, i32, i32),
    PathStatus,
    Stop,
    Follow(Seq<char>),
    Movement,
    FindBlock(Seq<char>, Option<u32>, Option<usize>),
    NearestBlock(Seq<char>, Option<u32>),
    GotoBlock(Seq<char>, Option<u32>, bool),
    GotoBlockStatus,
    CancelGotoBlock,
    GetResource(Seq<char>, u32),
    Mine(Seq<Seq<char>>, u32),
    Look(i32, i32, i32),
    LookBlock(Seq<char>),
    LookPlayer(Seq<char>),
    LookEntity(Seq<char>),
    LookStop,
    LookStatus,
    BreakBlock,
    Break(i32, i32, i32),
    BreakNearest(Seq<char>),
    SelectTool(Seq<char>),
    PlaceLooked(Seq<char>),
    PlaceAt(i32, i32, i32, Seq<char>),
    InteractNearest(Seq<char>, Seq<Seq<char>>, u32),
    StopInteraction,
    InteractionStatus,
    Equip(Seq<char>),
    TestOakLog,
    OpenChest(i32, i32, i32),
    TakeItem(Seq<char>, u32),
    StoreItem(Seq<char>, u32),
    ContainerStatus,
    CloseContainer,
    Reconnect,
    Quit,
}

/// The characters of each string.
pub open spec fn string_views(v: Seq<String>) -> Seq<Seq<char>> {
    v.map_values(|s: String| s@)
}

impl View for ConsoleCommand {
    type V = CommandView;

    open spec fn view(&self) -> CommandView {
        match self {
            ConsoleCommand::Help => CommandView::Help,
            ConsoleCommand::Status => CommandView::Status,
            ConsoleCommand::Where => CommandView::Where,
            ConsoleCommand::Health => CommandView::Health,
            ConsoleCommand::Chat { message } => CommandView::Chat(message@),
            ConsoleCommand::Players => CommandView::Players,
            ConsoleCommand::Inventory => CommandView::Inventory,
            ConsoleCommand::ObservedContainerStatus => CommandView::ObservedContainerStatus,
            ConsoleCommand::Entities { radius } => CommandView::Entities(*radius),
            ConsoleCommand::Goto { x, y, z } => CommandView::Goto(*x, *y, *z),
            ConsoleCommand::GotoMine { x, y, z } => CommandView::GotoMine(*x, *y, *z),
            ConsoleCommand::PathStatus => CommandView::PathStatus,
            ConsoleCommand::Stop => CommandView::Stop,
            ConsoleCommand::Follow { player } => CommandView::Follow(player@),
            ConsoleCommand::Movement => CommandView::Movement,
            ConsoleCommand::FindBlock { block_id, radius, limit } => CommandView::FindBlock(block_id@, *radius, *limit),
            ConsoleCommand::NearestBlock { block_id, radius } => CommandView::NearestBlock(block_id@, *radius),
            ConsoleCommand::GotoBlock { block_id, search_radius, allow_mining } => CommandView::GotoBlock(block_id@, *search_radius, *allow_mining),
            ConsoleCommand::GotoBlockStatus => CommandView::GotoBlockStatus,
            ConsoleCommand::CancelGotoBlock => CommandView::CancelGotoBlock,
            ConsoleCommand::GetResource { resource_id, amount } => CommandView::GetResource(resource_id@, *amount),
            ConsoleCommand::Mine { block_ids, amount } => CommandView::Mine(string_views(block_ids@), *amount),
            ConsoleCommand::Look { x, y, z } => CommandView::Look(*x, *y, *z),
            ConsoleCommand::LookBlock { block_id } => CommandView::LookBlock(block_id@),
            ConsoleCommand::LookPlayer { player } => CommandView::LookPlayer(player@),
            ConsoleCommand::LookEntity { entity_type } => CommandView::LookEntity(entity_type@),
            ConsoleCommand::LookStop => CommandView::LookStop,
            ConsoleCommand::LookStatus => CommandView::LookStatus,
            ConsoleCommand::BreakBlock => CommandView::BreakBlock,
            ConsoleCommand::Break { x, y, z } => CommandView::Break(*x, *y, *z),
            ConsoleCommand::BreakNearest { block_id } => CommandView::BreakNearest(block_id@),
            ConsoleCommand::SelectTool { block_id } => CommandView::SelectTool(block_id@),
            ConsoleCommand::PlaceLooked { block_id } => CommandView::PlaceLooked(block_id@),
            ConsoleCommand::PlaceAt { x, y, z, block_id } => CommandView::PlaceAt(*x, *y, *z, block_id@),
            ConsoleCommand::InteractNearest { block_id, items, radius } => CommandView::InteractNearest(block_id@, string_views(items@), *radius),
            ConsoleCommand::StopInteraction => CommandView::StopInteraction,
            ConsoleCommand::InteractionStatus => CommandView::InteractionStatus,
            ConsoleCommand::Equip { item } => CommandView::Equip(item@),
            ConsoleCommand::TestOakLog => CommandView::TestOakLog,
            ConsoleCommand::OpenChest { x, y, z } => CommandView::OpenChest(*x, *y, *z),
            ConsoleCommand::TakeItem { item_id, count } => CommandView::TakeItem(item_id@, *count),
            ConsoleCommand::StoreItem { item_id, count } => CommandView::StoreItem(item_id@, *count),
            ConsoleCommand::ContainerStatus => CommandView::ContainerStatus,
            ConsoleCommand::CloseContainer => CommandView::CloseContainer,
            ConsoleCommand::Reconnect => CommandView::Reconnect,
            ConsoleCommand::Quit => CommandView::Quit,
        }
    }
}

/// A console line: a command, chat, or nothing.
#[derive(Clone, Debug, PartialEq, Eq)]
pub enum ConsoleInput {
    Command(ConsoleCommand),
    ChatMessage(String),
    Empty,
}

/// The plain content of a [`ConsoleInput`].
pub enum InputView {
    Command(CommandView),
    ChatMessage(Seq<char>),
    Empty,
}

impl View for ConsoleInput {
    type V = InputView;

    open spec fn view(&self) -> InputView {
        match self {
            ConsoleInput::Command(c) => InputView::Command(c@),
            ConsoleInput::ChatMessage(m) => InputView::ChatMessage(m@),
            ConsoleInput::Empty => InputView::Empty,
        }
    }
}

/// The plain content of a parse outcome.
pub open spec fn outcome<T: View>(r: Result<T, AppError>) -> Result<T::V, ErrorView> {
    match r {
        Ok(v) => Ok(v@),
        Err(e) => Err(e@),
    }
}

/// The text of a chat line, when forwarding plain input is enabled.
pub fn plain_chat_message(input: &ConsoleInput, enabled: bool) -> (r: Option<&str>)
    ensures
        match r {
            Some(m) => enabled && input@ == InputView::ChatMessage(m@),
            None => !enabled || !(input@ is ChatMessage),
        },
{
    if enabled {
        if let ConsoleInput::ChatMessage(message) = input {
            return Some(message.as_str());
        }
    }
    None
}

// ---------------------------------------------------------------------
// The grammar.
// ---------------------------------------------------------------------

/// The commands that take no arguments, by lower-cased name.
pub open spec fn bare_command(name: Seq<char>) -> Option<CommandView> {
    if name == "help"@ {
        Some(CommandView::Help)
    } else if name == "status"@ {
        Some(CommandView::Status)
    } else if name == "where"@ {
        Some(CommandView::Where)
    } else if name == "health"@ {
        Some(CommandView::Health)
    } else if name == "players"@ {
        Some(CommandView::Players)
    } else if name == "inventory"@ {
        Some(CommandView::Inventory)
    } else if name == "containerstatus"@ {
        Some(CommandView::ObservedContainerStatus)
    } else if name == "path-status"@ {
        Some(CommandView::PathStatus)
    } else if name == "stop"@ || name == "stopmovement"@ {
        Some(CommandView::Stop)
    } else if name == "movement"@ {
        Some(CommandView::Movement)
    } else if name == "gotoblockstatus"@ {
        Some(CommandView::GotoBlockStatus)
    } else if name == "cancelgotoblock"@ {
        Some(CommandView::CancelGotoBlock)
    } else if name == "lookstop"@ {
        Some(CommandView::LookStop)
    } else if name == "lookstatus"@ {
        Some(CommandView::LookStatus)
    } else if name == "breakblock"@ {
        Some(CommandView::BreakBlock)
    } else if name == "stopinteraction"@ {
        Some(CommandView::StopInteraction)
    } else if name == "interactionstatus"@ {
        Some(CommandView::InteractionStatus)
    } else if name == "testoaklog"@ {
        Some(CommandView::TestOakLog)
    } else if name == "container-status"@ {
        Some(CommandView::ContainerStatus)
    } else if name == "close-container"@ {
        Some(CommandView::CloseContainer)
    } else if name == "reconnect"@ {
        Some(CommandView::Reconnect)
    } else if name == "quit"@ {
        Some(CommandView::Quit)
    } else {
        None
    }
}

/// A command that takes no arguments: refused when any are given.
pub open spec fn no_arguments_spec(command: Seq<char>, arguments: Seq<char>, parsed: CommandView) -> Result<CommandView, ErrorView> {
    if arguments.len() == 0 {
        Ok(parsed)
    } else {
        Err(ErrorView::InvalidConsoleSyntax("/"@ + command + " does not accept arguments"@))
    }
}

/// A command's single argument: missing when there is none, refused when
/// there are more.
pub open spec fn single_argument_spec(command: Seq<char>, arguments: Seq<char>, usage: Seq<char>) -> Result<Seq<char>, ErrorView> {
    let parts = split_ws(arguments);
    if parts.len() == 0 {
        Err(ErrorView::MissingConsoleArgument(usage))
    } else if parts.len() > 1 {
        Err(ErrorView::InvalidConsoleSyntax("/"@ + command + " accepts one argument"@))
    } else {
        Ok(parts[0])
    }
}

/// A block id in canonical form; a malformed one is refused.
pub open spec fn block_id_spec(value: Seq<char>) -> Result<Seq<char>, ErrorView> {
    if well_formed_id(value) {
        Ok(namespaced(value))
    } else {
        Err(ErrorView::InvalidBlockIdentifier(value))
    }
}

/// An item id in canonical form; a malformed one is refused.
pub open spec fn item_id_spec(value: Seq<char>) -> Result<Seq<char>, ErrorView> {
    if well_formed_id(value) {
        Ok(namespaced(value))
    } else {
        Err(ErrorView::InvalidConsoleSyntax("invalid namespaced identifier"@))
    }
}

/// Three integer coordinates.
pub open spec fn coordinates_spec(arguments: Seq<char>) -> Result<(i32, i32, i32), ErrorView> {
    let parts = split_ws(arguments);
    if parts.len() != 3 {
        Err(ErrorView::InvalidCoordinates("expected <x> <y> <z>"@))
    } else {
        coordinate_triple(parts[0], parts[1], parts[2])
    }
}

/// `x`, `y` and `z` as integers, checked in that order.
pub open spec fn coordinate_triple(x: Seq<char>, y: Seq<char>, z: Seq<char>) -> Result<(i32, i32, i32), ErrorView> {
    match parse_signed(x) {
        None => Err(ErrorView::InvalidCoordinates("x must be an integer"@)),
        Some(xv) => match parse_signed(y) {
            None => Err(ErrorView::InvalidCoordinates("y must be an integer"@)),
            Some(yv) => match parse_signed(z) {
                None => Err(ErrorView::InvalidCoordinates("z must be an integer"@)),
                Some(zv) => Ok((xv as i32, yv as i32, zv as i32)),
            },
        },
    }
}

/// A player name: exactly one argument.
pub open spec fn player_spec(arguments: Seq<char>) -> Result<Seq<char>, ErrorView> {
    let parts = split_ws(arguments);
    if parts.len() == 0 {
        Err(ErrorView::MissingConsoleArgument("<player>"@))
    } else if parts.len() > 1 {
        Err(ErrorView::InvalidConsoleSyntax("expected a single player name"@))
    } else {
        Ok(parts[0])
    }
}

/// An optional radius for `/entities`: the whole argument text as a
/// number in `1..=256`.
pub open spec fn entities_spec(arguments: Seq<char>) -> Result<CommandView, ErrorView> {
    if arguments.len() == 0 {
        Ok(CommandView::Entities(None))
    } else {
        match parse_unsigned(arguments, u32::MAX as int) {
            None => Err(ErrorView::InvalidEntityQuery("radius must be a positive integer no greater than 256"@)),
            Some(r) => if r == 0 || r > 256 {
                Err(ErrorView::InvalidEntityQuery("radius must be between 1 and 256"@))
            } else {
                Ok(CommandView::Entities(Some(r as u32)))
            },
        }
    }
}

/// An optional positive-integer argument of the block queries.
pub open spec fn optional_number(parts: Seq<Seq<char>>, i: int, max: int, message: Seq<char>) -> Result<Option<int>, ErrorView> {
    if i >= parts.len() {
        Ok(None)
    } else {
        match parse_unsigned(parts[i], max) {
            None => Err(ErrorView::InvalidEntityQuery(message)),
            Some(v) => Ok(Some(v)),
        }
    }
}

/// `/findblock <block_id> [radius] [limit]`.
pub open spec fn find_block_spec(arguments: Seq<char>) -> Result<CommandView, ErrorView> {
    let parts = split_ws(arguments);
    if parts.len() == 0 {
        Err(ErrorView::MissingConsoleArgument("/findblock <block_id> [radius] [limit]"@))
    } else {
        match optional_number(parts, 1, u32::MAX as int, "radius must be a positive integer"@) {
            Err(e) => Err(e),
            Ok(radius) => match optional_number(parts, 2, usize::MAX as int, "limit must be a positive integer"@) {
                Err(e) => Err(e),
                Ok(limit) => if parts.len() > 3 {
                    Err(ErrorView::InvalidConsoleSyntax("/findblock <block_id> [radius] [limit]"@))
                } else {
                    match block_id_spec(parts[0]) {
                        Err(e) => Err(e),
                        Ok(b) => Ok(CommandView::FindBlock(
                            b,
                            match radius { Some(v) => Some(v as u32), None => None },
                            match limit { Some(v) => Some(v as usize), None => None },
                        )),
                    }
                },
            },
        }
    }
}

/// `/nearestblock <block_id> [radius]`.
pub open spec fn nearest_block_spec(arguments: Seq<char>) -> Result<CommandView, ErrorView> {
    let parts = split_ws(arguments);
    if parts.len() == 0 {
        Err(ErrorView::MissingConsoleArgument("/nearestblock <block_id> [radius]"@))
    } else {
        match optional_number(parts, 1, u32::MAX as int, "radius must be a positive integer"@) {
            Err(e) => Err(e),
            Ok(radius) => if parts.len() > 2 {
                Err(ErrorView::InvalidConsoleSyntax("/nearestblock <block_id> [radius]"@))
            } else {
                match block_id_spec(parts[0]) {
                    Err(e) => Err(e),
                    Ok(b) => Ok(CommandView::NearestBlock(b, match radius { Some(v) => Some(v as u32), None => None })),
                }
            },
        }
    }
}

/// `/gotoblock <block_id> [search_radius] [mine]`: `mine` may stand in the
/// radius's place; after a radius, a third argument other than `mine` is
/// tolerated, a fourth is not.
pub open spec fn goto_block_spec(arguments: Seq<char>) -> Result<CommandView, ErrorView> {
    let parts = split_ws(arguments);
    if parts.len() == 0 {
        Err(ErrorView::MissingConsoleArgument("/gotoblock <block_id> [search_radius]"@))
    } else {
        let second: Result<(Option<u32>, bool), ErrorView> = if parts.len() < 2 {
            Ok((None, false))
        } else if parts[1] == "mine"@ {
            Ok((None, true))
        } else {
            match parse_unsigned(parts[1], u32::MAX as int) {
                None => Err(ErrorView::InvalidEntityQuery("search_radius must be a positive integer"@)),
                Some(v) => Ok((Some(v as u32), false)),
            }
        };
        match second {
            Err(e) => Err(e),
            Ok((radius, mining)) => {
                let third_mine = parts.len() >= 3 && parts[2] == "mine"@;
                if !third_mine && parts.len() >= 4 {
                    Err(ErrorView::InvalidConsoleSyntax("/gotoblock <block_id> [search_radius] [mine]"@))
                } else {
                    match block_id_spec(parts[0]) {
                        Err(e) => Err(e),
                        Ok(b) => Ok(CommandView::GotoBlock(b, radius, mining || third_mine)),
                    }
                }
            },
        }
    }
}

/// `/get <item> <amount>`.
pub open spec fn get_spec(arguments: Seq<char>) -> Result<CommandView, ErrorView> {
    let parts = split_ws(arguments);
    if parts.len() < 2 {
        Err(ErrorView::MissingConsoleArgument("/get <item> <amount>"@))
    } else {
        match parse_unsigned(parts[1], u32::MAX as int) {
            None => Err(ErrorView::InvalidConsoleSyntax("amount must be a positive integer"@)),
            Some(amount) => if amount == 0 {
                Err(ErrorView::InvalidConsoleSyntax("amount must be greater than zero"@))
            } else if parts.len() > 2 {
                Err(ErrorView::InvalidConsoleSyntax("/get <item> <amount>"@))
            } else {
                match item_id_spec(parts[0]) {
                    Err(e) => Err(e),
                    Ok(item) => Ok(CommandView::GetResource(item, amount as u32)),
                }
            },
        }
    }
}

/// Each of `values` as a block id; the first malformed one is refused.
pub open spec fn block_ids_spec(values: Seq<Seq<char>>) -> Result<Seq<Seq<char>>, ErrorView>
    decreases values.len(),
{
    if values.len() == 0 {
        Ok(Seq::empty())
    } else {
        match block_ids_spec(values.drop_last()) {
            Err(e) => Err(e),
            Ok(ids) => match block_id_spec(values.last()) {
                Err(e) => Err(e),
                Ok(b) => Ok(ids.push(b)),
            },
        }
    }
}

/// `/mine <block> [block...] <amount>`: the last argument is the amount.
pub open spec fn mine_spec(arguments: Seq<char>) -> Result<CommandView, ErrorView> {
    let parts = split_ws(arguments);
    if parts.len() < 2 {
        Err(ErrorView::MissingConsoleArgument("/mine <block> [block...] <amount>"@))
    } else {
        match parse_unsigned(parts.last(), u32::MAX as int) {
            None => Err(ErrorView::InvalidConsoleSyntax("amount must be a positive integer"@)),
            Some(amount) => if amount == 0 {
                Err(ErrorView::InvalidConsoleSyntax("amount must be greater than zero"@))
            } else {
                match block_ids_spec(parts.drop_last()) {
                    Err(e) => Err(e),
                    Ok(ids) => Ok(CommandView::Mine(ids, amount as u32)),
                }
            },
        }
    }
}

/// A placement at coordinates, the block id checked last.
pub open spec fn place_at_spec(x: Seq<char>, y: Seq<char>, z: Seq<char>, block: Seq<char>) -> Result<CommandView, ErrorView> {
    match coordinate_triple(x, y, z) {
        Err(e) => Err(e),
        Ok((xv, yv, zv)) => match block_id_spec(block) {
            Err(e) => Err(e),
            Ok(b) => Ok(CommandView::PlaceAt(xv, yv, zv, b)),
        },
    }
}

/// `/place <block>`, `/place <block> <x> <y> <z>`, or the coordinates
/// first when the first argument is an integer.
pub open spec fn place_spec(arguments: Seq<char>) -> Result<CommandView, ErrorView> {
    let parts = split_ws(arguments);
    if parts.len() == 1 {
        match block_id_spec(parts[0]) {
            Err(e) => Err(e),
            Ok(b) => Ok(CommandView::PlaceLooked(b)),
        }
    } else if parts.len() == 4 && parse_signed(parts[0]) is Some {
        place_at_spec(parts[0], parts[1], parts[2], parts[3])
    } else if parts.len() == 4 {
        place_at_spec(parts[1], parts[2], parts[3], parts[0])
    } else {
        Err(ErrorView::InvalidConsoleSyntax("/place <block_id> or /place <block_id> <x> <y> <z>"@))
    }
}

/// `/placeblock <block>` or `/placeblock <block> <x> <y> <z>`.
pub open spec fn placeblock_spec(arguments: Seq<char>) -> Result<CommandView, ErrorView> {
    let parts = split_ws(arguments);
    if parts.len() == 1 {
        match block_id_spec(parts[0]) {
            Err(e) => Err(e),
            Ok(b) => Ok(CommandView::PlaceLooked(b)),
        }
    } else if parts.len() == 4 {
        place_at_spec(parts[1], parts[2], parts[3], parts[0])
    } else {
        Err(ErrorView::InvalidConsoleSyntax("/placeblock <block> or /placeblock <block> <x> <y> <z>"@))
    }
}

/// Each of `values` as an item id; the first malformed one is refused.
pub open spec fn item_ids_spec(values: Seq<Seq<char>>) -> Result<Seq<Seq<char>>, ErrorView>
    decreases values.len(),
{
    if values.len() == 0 {
        Ok(Seq::empty())
    } else {
        match item_ids_spec(values.drop_last()) {
            Err(e) => Err(e),
            Ok(ids) => match item_id_spec(values.last()) {
                Err(e) => Err(e),
                Ok(i) => Ok(ids.push(i)),
            },
        }
    }
}

/// `/interact <block_id> <item_id[,item_id...]> [radius]` (radius 32 by
/// default).
pub open spec fn interact_spec(arguments: Seq<char>) -> Result<CommandView, ErrorView> {
    let usage = "/interact <block_id> <item_id[,item_id...]> [radius]"@;
    let parts = split_ws(arguments);
    if parts.len() < 2 {
        Err(ErrorView::MissingConsoleArgument(usage))
    } else {
        match optional_number(parts, 2, u32::MAX as int, "radius must be a positive integer"@) {
            Err(e) => Err(e),
            Ok(radius) => if parts.len() > 3 {
                Err(ErrorView::InvalidConsoleSyntax(usage))
            } else {
                match item_ids_spec(split_commas(parts[1])) {
                    Err(e) => Err(e),
                    Ok(items) => if items.len() == 0 {
                        Err(ErrorView::InvalidConsoleSyntax(usage))
                    } else {
                        match block_id_spec(parts[0]) {
                            Err(e) => Err(e),
                            Ok(b) => Ok(CommandView::InteractNearest(b, items, match radius {
                                Some(v) => v as u32,
                                None => 32,
                            })),
                        }
                    },
                }
            },
        }
    }
}

/// `/take-item <item> <count>` and `/store-item <item> <count>`.
pub open spec fn transfer_spec(arguments: Seq<char>, take: bool) -> Result<CommandView, ErrorView> {
    let parts = split_ws(arguments);
    if parts.len() == 0 {
        Err(ErrorView::MissingConsoleArgument("<item> <count>"@))
    } else {
        match item_id_spec(parts[0]) {
            Err(e) => Err(e),
            Ok(item) => if parts.len() < 2 {
                Err(ErrorView::MissingConsoleArgument("<item> <count>"@))
            } else {
                match parse_unsigned(parts[1], u32::MAX as int) {
                    None => Err(ErrorView::InvalidConsoleSyntax("count must be positive"@)),
                    Some(count) => if count == 0 || parts.len() > 2 {
                        Err(ErrorView::InvalidConsoleSyntax("<item> <positive-count>"@))
                    } else if take {
                        Ok(CommandView::TakeItem(item, count as u32))
                    } else {
                        Ok(CommandView::StoreItem(item, count as u32))
                    },
                }
            },
        }
    }
}

/// A command whose result is built from three coordinates.
pub open spec fn at_coordinates(arguments: Seq<char>, build: spec_fn(i32, i32, i32) -> CommandView) -> Result<CommandView, ErrorView> {
    match coordinates_spec(arguments) {
        Err(e) => Err(e),
        Ok((x, y, z)) => Ok(build(x, y, z)),
    }
}

/// A command whose single argument is a block id.
pub open spec fn on_block(command: Seq<char>, arguments: Seq<char>, usage: Seq<char>, build: spec_fn(Seq<char>) -> CommandView) -> Result<CommandView, ErrorView> {
    match single_argument_spec(command, arguments, usage) {
        Err(e) => Err(e),
        Ok(v) => match block_id_spec(v) {
            Err(e) => Err(e),
            Ok(b) => Ok(build(b)),
        },
    }
}

/// The command `name` (lower-cased; `command` as typed) with its
/// `arguments`.
pub open spec fn command_spec(name: Seq<char>, command: Seq<char>, arguments: Seq<char>) -> Result<CommandView, ErrorView> {
    match bare_command(name) {
        Some(c) => no_arguments_spec(command, arguments, c),
        None => if name == "entities"@ {
            entities_spec(arguments)
        } else if name == "goto"@ {
            at_coordinates(arguments, |x: i32, y: i32, z: i32| CommandView::Goto(x, y, z))
        } else if name == "goto-mine"@ {
            at_coordinates(arguments, |x: i32, y: i32, z: i32| CommandView::GotoMine(x, y, z))
        } else if name == "follow"@ {
            match player_spec(arguments) {
                Err(e) => Err(e),
                Ok(p) => Ok(CommandView::Follow(p)),
            }
        } else if name == "find"@ || name == "findblock"@ {
            find_block_spec(arguments)
        } else if name == "nearestblock"@ {
            nearest_block_spec(arguments)
        } else if name == "gotoblock"@ || name == "navigate-to-block"@ {
            goto_block_spec(arguments)
        } else if name == "get"@ {
            get_spec(arguments)
        } else if name == "mine"@ {
            mine_spec(arguments)
        } else if name == "look"@ || name == "lookat"@ {
            at_coordinates(arguments, |x: i32, y: i32, z: i32| CommandView::Look(x, y, z))
        } else if name == "lookblock"@ {
            on_block(command, arguments, "/lookblock <block_id>"@, |b: Seq<char>| CommandView::LookBlock(b))
        } else if name == "lookplayer"@ {
            match player_spec(arguments) {
                Err(e) => Err(e),
                Ok(p) => Ok(CommandView::LookPlayer(p)),
            }
        } else if name == "lookentity"@ {
            match single_argument_spec(command, arguments, "/lookentity <entity_type>"@) {
                Err(e) => Err(e),
                Ok(v) => Ok(CommandView::LookEntity(lower_seq(v))),
            }
        } else if name == "break"@ {
            at_coordinates(arguments, |x: i32, y: i32, z: i32| CommandView::Break(x, y, z))
        } else if name == "breaknearest"@ {
            on_block(command, arguments, "/breaknearest <block_id>"@, |b: Seq<char>| CommandView::BreakNearest(b))
        } else if name == "select-tool"@ {
            on_block(command, arguments, "/select-tool <block_id>"@, |b: Seq<char>| CommandView::SelectTool(b))
        } else if name == "place"@ {
            place_spec(arguments)
        } else if name == "placeblock"@ {
            placeblock_spec(arguments)
        } else if name == "interact"@ {
            interact_spec(arguments)
        } else if name == "equip"@ {
            match single_argument_spec(command, arguments, "/equip <item>"@) {
                Err(e) => Err(e),
                Ok(v) => match item_id_spec(v) {
                    Err(e) => Err(e),
                    Ok(i) => Ok(CommandView::Equip(i)),
                },
            }
        } else if name == "open-chest"@ {
            at_coordinates(arguments, |x: i32, y: i32, z: i32| CommandView::OpenChest(x, y, z))
        } else if name == "take-item"@ {
            transfer_spec(arguments, true)
        } else if name == "store-item"@ {
            transfer_spec(arguments, false)
        } else if name == "chat"@ {
            if arguments.len() == 0 {
                Err(ErrorView::MissingConsoleArgument("/chat <message>"@))
            } else {
                Ok(CommandView::Chat(arguments))
            }
        } else {
            Err(ErrorView::UnknownConsoleCommand(name))
        },
    }
}

/// What a console line means: nothing when blank; chat (trimmed) unless it
/// starts with `/`; otherwise the command named by its first word (matched
/// case-insensitively), with the trimmed rest as its arguments.
pub open spec fn input_spec(input: Seq<char>) -> Result<InputView, ErrorView> {
    let line = trim(input);
    if line.len() == 0 {
        Ok(InputView::Empty)
    } else if line[0] != '/' {
        Ok(InputView::ChatMessage(line))
    } else {
        let (command, rest) = split_first_ws(trim(line.drop_first()));
        match command_spec(lower_seq(command), command, trim(rest)) {
            Err(e) => Err(e),
            Ok(c) => Ok(InputView::Command(c)),
        }
    }
}

// ---------------------------------------------------------------------
// The parser.
// ---------------------------------------------------------------------

/// A `String` holding `s`.
fn text(s: &str) -> (r: String)
    ensures
        r@ == s@,
{
    String::from_str(s)
}

/// `/`, the command as typed, then `suffix`.
fn about_command(command: &[char], suffix: &str) -> (r: String)
    ensures
        r@ == "/"@ + command@ + suffix@,
{
    let mut r = String::from_str("/");
    let typed = string_from_chars(command);
    r.append(typed.as_str());
    r.append(suffix);
    r
}

/// Whether `name` is `word`.
fn named(name: &[char], word: &str) -> (r: bool)
    ensures
        r == (name@ == word@),
{
    let w = chars_of(word);
    chars_equal(name, w.as_slice())
}

/// The tokens of `arguments`, with their characters' view.
fn tokens_of(arguments: &[char]) -> (r: Vec<Vec<char>>)
    ensures
        token_views(r@) == split_ws(arguments@),
        r@.len() == split_ws(arguments@).len(),
        forall|i: int| 0 <= i < r@.len() ==> (#[trigger] r@[i])@ == split_ws(arguments@)[i],
{
    let r = split_whitespace(arguments);
    proof {
        assert forall|i: int| 0 <= i < r@.len() implies (#[trigger] r@[i])@ == split_ws(arguments@)[i] by {
            assert(token_views(r@)[i] == r@[i]@);
        }
    }
    r
}

fn no_arguments(command: &[char], arguments: &[char], parsed: ConsoleCommand) -> (r: Result<ConsoleCommand, AppError>)
    ensures
        outcome(r) == no_arguments_spec(command@, arguments@, parsed@),
{
    if arguments.len() == 0 {
        Ok(parsed)
    } else {
        Err(AppError::InvalidConsoleSyntax(about_command(command, " does not accept arguments")))
    }
}

fn single_argument(command: &[char], arguments: &[char], usage: &str) -> (r: Result<Vec<char>, AppError>)
    ensures
        match single_argument_spec(command@, arguments@, usage@) {
            Ok(v) => r matches Ok(x) && x@ == v,
            Err(e) => r matches Err(f) && f@ == e,
        },
{
    let parts = tokens_of(arguments);
    if parts.len() == 0 {
        return Err(AppError::MissingConsoleArgument(text(usage)));
    }
    if parts.len() > 1 {
        return Err(AppError::InvalidConsoleSyntax(about_command(command, " accepts one argument")));
    }
    Ok(parts[0].clone())
}

fn block_id(value: &[char]) -> (r: Result<String, AppError>)
    ensures
        match block_id_spec(value@) {
            Ok(v) => r matches Ok(x) && x@ == v,
            Err(e) => r matches Err(f) && f@ == e,
        },
{
    match canonical_id(value) {
        Some(v) => Ok(string_from_chars(v.as_slice())),
        None => Err(AppError::InvalidBlockIdentifier(string_from_chars(value))),
    }
}

fn normalize_item_id(value: &[char]) -> (r: Result<String, AppError>)
    ensures
        match item_id_spec(value@) {
            Ok(v) => r matches Ok(x) && x@ == v,
            Err(e) => r matches Err(f) && f@ == e,
        },
{
    match canonical_id(value) {
        Some(v) => Ok(string_from_chars(v.as_slice())),
        None => Err(AppError::InvalidConsoleSyntax(text("invalid namespaced identifier"))),
    }
}

fn coordinate_values(x: &[char], y: &[char], z: &[char]) -> (r: Result<(i32, i32, i32), AppError>)
    ensures
        match coordinate_triple(x@, y@, z@) {
            Ok(v) => r == Ok::<(i32, i32, i32), AppError>(v),
            Err(e) => r matches Err(f) && f@ == e,
        },
{
    let xv = match parse_i32(x) {
        Some(v) => v,
        None => {
            return Err(AppError::InvalidCoordinates(text("x must be an integer")));
        },
    };
    let yv = match parse_i32(y) {
        Some(v) => v,
        None => {
            return Err(AppError::InvalidCoordinates(text("y must be an integer")));
        },
    };
    let zv = match parse_i32(z) {
        Some(v) => v,
        None => {
            return Err(AppError::InvalidCoordinates(text("z must be an integer")));
        },
    };
    Ok((xv, yv, zv))
}

fn coordinates(arguments: &[char]) -> (r: Result<(i32, i32, i32), AppError>)
    ensures
        match coordinates_spec(arguments@) {
            Ok(v) => r == Ok::<(i32, i32, i32), AppError>(v),
            Err(e) => r matches Err(f) && f@ == e,
        },
{
    let parts = tokens_of(arguments);
    if parts.len() != 3 {
        return Err(AppError::InvalidCoordinates(text("expected <x> <y> <z>")));
    }
    coordinate_values(parts[0].as_slice(), parts[1].as_slice(), parts[2].as_slice())
}

fn player(arguments: &[char]) -> (r: Result<String, AppError>)
    ensures
        match player_spec(arguments@) {
            Ok(v) => r matches Ok(x) && x@ == v,
            Err(e) => r matches Err(f) && f@ == e,
        },
{
    let parts = tokens_of(arguments);
    if parts.len() == 0 {
        return Err(AppError::MissingConsoleArgument(text("<player>")));
    }
    if parts.len() > 1 {
        return Err(AppError::InvalidConsoleSyntax(text("expected a single player name")));
    }
    Ok(string_from_chars(parts[0].as_slice()))
}

fn entities(arguments: &[char]) -> (r: Result<ConsoleCommand, AppError>)
    ensures
        outcome(r) == entities_spec(arguments@),
{
    if arguments.len() == 0 {
        return Ok(ConsoleCommand::Entities { radius: None });
    }
    match parse_u32(arguments) {
        None => Err(AppError::InvalidEntityQuery(text("radius must be a positive integer no greater than 256"))),
        Some(radius) => {
            if radius == 0 || radius > 256 {
                Err(AppError::InvalidEntityQuery(text("radius must be between 1 and 256")))
            } else {
                Ok(ConsoleCommand::Entities { radius: Some(radius) })
            }
        },
    }
}

fn parse_find_block(arguments: &[char]) -> (r: Result<ConsoleCommand, AppError>)
    ensures
        outcome(r) == find_block_spec(arguments@),
{
    let parts = tokens_of(arguments);
    if parts.len() == 0 {
        return Err(AppError::MissingConsoleArgument(text("/findblock <block_id> [radius] [limit]")));
    }
    let radius = if parts.len() > 1 {
        match parse_u32(parts[1].as_slice()) {
            Some(v) => Some(v),
            None => {
                return Err(AppError::InvalidEntityQuery(text("radius must be a positive integer")));
            },
        }
    } else {
        None
    };
    let limit = if parts.len() > 2 {
        match parse_usize(parts[2].as_slice()) {
            Some(v) => Some(v),
            None => {
                return Err(AppError::InvalidEntityQuery(text("limit must be a positive integer")));
            },
        }
    } else {
        None
    };
    if parts.len() > 3 {
        return Err(AppError::InvalidConsoleSyntax(text("/findblock <block_id> [radius] [limit]")));
    }
    let block = block_id(parts[0].as_slice())?;
    Ok(ConsoleCommand::FindBlock { block_id: block, radius, limit })
}

fn parse_nearest_block(arguments: &[char]) -> (r: Result<ConsoleCommand, AppError>)
    ensures
        outcome(r) == nearest_block_spec(arguments@),
{
    let parts = tokens_of(arguments);
    if parts.len() == 0 {
        return Err(AppError::MissingConsoleArgument(text("/nearestblock <block_id> [radius]")));
    }
    let radius = if parts.len() > 1 {
        match parse_u32(parts[1].as_slice()) {
            Some(v) => Some(v),
            None => {
                return Err(AppError::InvalidEntityQuery(text("radius must be a positive integer")));
            },
        }
    } else {
        None
    };
    if parts.len() > 2 {
        return Err(AppError::InvalidConsoleSyntax(text("/nearestblock <block_id> [radius]")));
    }
    let block = block_id(parts[0].as_slice())?;
    Ok(ConsoleCommand::NearestBlock { block_id: block, radius })
}

fn parse_goto_block(arguments: &[char]) -> (r: Result<ConsoleCommand, AppError>)
    ensures
        outcome(r) == goto_block_spec(arguments@),
{
    let parts = tokens_of(arguments);
    if parts.len() == 0 {
        return Err(AppError::MissingConsoleArgument(text("/gotoblock <block_id> [search_radius]")));
    }
    let mut allow_mining = false;
    let search_radius = if parts.len() < 2 {
        None
    } else if named(parts[1].as_slice(), "mine") {
        allow_mining = true;
        None
    } else {
        match parse_u32(parts[1].as_slice()) {
            Some(v) => Some(v),
            None => {
                return Err(AppError::InvalidEntityQuery(text("search_radius must be a positive integer")));
            },
        }
    };
    let third_mine = parts.len() >= 3 && named(parts[2].as_slice(), "mine");
    if third_mine {
        allow_mining = true;
    } else if parts.len() >= 4 {
        return Err(AppError::InvalidConsoleSyntax(text("/gotoblock <block_id> [search_radius] [mine]")));
    }
    let block = block_id(parts[0].as_slice())?;
    Ok(ConsoleCommand::GotoBlock { block_id: block, search_radius, allow_mining })
}

fn parse_get(arguments: &[char]) -> (r: Result<ConsoleCommand, AppError>)
    ensures
        outcome(r) == get_spec(arguments@),
{
    let parts = tokens_of(arguments);
    if parts.len() < 2 {
        return Err(AppError::MissingConsoleArgument(text("/get <item> <amount>")));
    }
    let amount = match parse_u32(parts[1].as_slice()) {
        Some(v) => v,
        None => {
            return Err(AppError::InvalidConsoleSyntax(text("amount must be a positive integer")));
        },
    };
    if amount == 0 {
        return Err(AppError::InvalidConsoleSyntax(text("amount must be greater than zero")));
    }
    if parts.len() > 2 {
        return Err(AppError::InvalidConsoleSyntax(text("/get <item> <amount>")));
    }
    let resource_id = normalize_item_id(parts[0].as_slice())?;
    Ok(ConsoleCommand::GetResource { resource_id, amount })
}

proof fn lemma_block_ids_failure_persists(values: Seq<Seq<char>>, n: int)
    requires
        0 <= n <= values.len(),
        block_ids_spec(values.take(n)) is Err,
    ensures
        block_ids_spec(values) == block_ids_spec(values.take(n)),
    decreases values.len() - n,
{
    if n < values.len() {
        assert(values.take(n + 1).drop_last() =~= values.take(n));
        lemma_block_ids_failure_persists(values, n + 1);
    } else {
        assert(values.take(n) =~= values);
    }
}

proof fn lemma_item_ids_failure_persists(values: Seq<Seq<char>>, n: int)
    requires
        0 <= n <= values.len(),
        item_ids_spec(values.take(n)) is Err,
    ensures
        item_ids_spec(values) == item_ids_spec(values.take(n)),
    decreases values.len() - n,
{
    if n < values.len() {
        assert(values.take(n + 1).drop_last() =~= values.take(n));
        lemma_item_ids_failure_persists(values, n + 1);
    } else {
        assert(values.take(n) =~= values);
    }
}

fn parse_mine(arguments: &[char]) -> (r: Result<ConsoleCommand, AppError>)
    ensures
        outcome(r) == mine_spec(arguments@),
{
    let parts = tokens_of(arguments);
    if parts.len() < 2 {
        return Err(AppError::MissingConsoleArgument(text("/mine <block> [block...] <amount>")));
    }
    let last = parts.len() - 1;
    let amount = match parse_u32(parts[last].as_slice()) {
        Some(v) => v,
        None => {
            return Err(AppError::InvalidConsoleSyntax(text("amount must be a positive integer")));
        },
    };
    if amount == 0 {
        return Err(AppError::InvalidConsoleSyntax(text("amount must be greater than zero")));
    }
    let ghost values = split_ws(arguments@).drop_last();
    let mut block_ids: Vec<String> = Vec::new();
    let mut i: usize = 0;
    proof {
        assert(values.take(0) =~= Seq::<Seq<char>>::empty());
        assert(string_views(block_ids@) =~= Seq::<Seq<char>>::empty());
    }
    while i < last
        invariant
            i <= last,
            last == parts@.len() - 1,
            parts@.len() == split_ws(arguments@).len(),
            forall|k: int| 0 <= k < parts@.len() ==> (#[trigger] parts@[k])@ == split_ws(arguments@)[k],
            values == split_ws(arguments@).drop_last(),
            block_ids_spec(values.take(i as int)) == Ok::<Seq<Seq<char>>, ErrorView>(string_views(block_ids@)),
            mine_spec(arguments@) == match block_ids_spec(values) {
                Err(e) => Err(e),
                Ok(ids) => Ok(CommandView::Mine(ids, amount)),
            },
        decreases last - i,
    {
        proof {
            assert(values.take(i + 1).drop_last() =~= values.take(i as int));
            assert(values.take(i + 1).last() == parts@[i as int]@);
        }
        let id = match block_id(parts[i].as_slice()) {
            Ok(x) => x,
            Err(e) => {
                proof {
                    lemma_block_ids_failure_persists(values, i + 1);
                }
                return Err(e);
            },
        };
        proof {
            assert(string_views(block_ids@.push(id)) =~= string_views(block_ids@).push(id@));
        }
        block_ids.push(id);
        i = i + 1;
    }
    proof {
        assert(values.take(last as int) =~= values);
    }
    Ok(ConsoleCommand::Mine { block_ids, amount })
}

fn place_at(x: &[char], y: &[char], z: &[char], block: &[char]) -> (r: Result<ConsoleCommand, AppError>)
    ensures
        outcome(r) == place_at_spec(x@, y@, z@, block@),
{
    let (xv, yv, zv) = coordinate_values(x, y, z)?;
    let b = block_id(block)?;
    Ok(ConsoleCommand::PlaceAt { x: xv, y: yv, z: zv, block_id: b })
}

fn parse_place(arguments: &[char]) -> (r: Result<ConsoleCommand, AppError>)
    ensures
        outcome(r) == place_spec(arguments@),
{
    let parts = tokens_of(arguments);
    if parts.len() == 1 {
        let b = block_id(parts[0].as_slice())?;
        return Ok(ConsoleCommand::PlaceLooked { block_id: b });
    }
    if parts.len() == 4 {
        if parse_i32(parts[0].as_slice()).is_some() {
            return place_at(parts[0].as_slice(), parts[1].as_slice(), parts[2].as_slice(), parts[3].as_slice());
        }
        return place_at(parts[1].as_slice(), parts[2].as_slice(), parts[3].as_slice(), parts[0].as_slice());
    }
    Err(AppError::InvalidConsoleSyntax(text("/place <block_id> or /place <block_id> <x> <y> <z>")))
}

fn parse_placeblock(arguments: &[char]) -> (r: Result<ConsoleCommand, AppError>)
    ensures
        outcome(r) == placeblock_spec(arguments@),
{
    let parts = tokens_of(arguments);
    if parts.len() == 1 {
        let b = block_id(parts[0].as_slice())?;
        return Ok(ConsoleCommand::PlaceLooked { block_id: b });
    }
    if parts.len() == 4 {
        return place_at(parts[1].as_slice(), parts[2].as_slice(), parts[3].as_slice(), parts[0].as_slice());
    }
    Err(AppError::InvalidConsoleSyntax(text("/placeblock <block> or /placeblock <block> <x> <y> <z>")))
}

fn parse_interact(arguments: &[char]) -> (r: Result<ConsoleCommand, AppError>)
    ensures
        outcome(r) == interact_spec(arguments@),
{
    let parts = tokens_of(arguments);
    if parts.len() < 2 {
        return Err(AppError::MissingConsoleArgument(text("/interact <block_id> <item_id[,item_id...]> [radius]")));
    }
    let radius = if parts.len() > 2 {
        match parse_u32(parts[2].as_slice()) {
            Some(v) => v,
            None => {
                return Err(AppError::InvalidEntityQuery(text("radius must be a positive integer")));
            },
        }
    } else {
        32
    };
    if parts.len() > 3 {
        return Err(AppError::InvalidConsoleSyntax(text("/interact <block_id> <item_id[,item_id...]> [radius]")));
    }
    let pieces = comma_pieces(parts[1].as_slice());
    let ghost values = split_commas(parts@[1]@);
    let mut items: Vec<String> = Vec::new();
    let mut i: usize = 0;
    proof {
        assert(values.take(0) =~= Seq::<Seq<char>>::empty());
        assert(string_views(items@) =~= Seq::<Seq<char>>::empty());
    }
    while i < pieces.len()
        invariant
            i <= pieces@.len(),
            token_views(pieces@) == values,
            item_ids_spec(values.take(i as int)) == Ok::<Seq<Seq<char>>, ErrorView>(string_views(items@)),
            interact_spec(arguments@) == match item_ids_spec(values) {
                Err(e) => Err(e),
                Ok(ids) => if ids.len() == 0 {
                    Err(ErrorView::InvalidConsoleSyntax("/interact <block_id> <item_id[,item_id...]> [radius]"@))
                } else {
                    match block_id_spec(split_ws(arguments@)[0]) {
                        Err(e) => Err(e),
                        Ok(b) => Ok(CommandView::InteractNearest(b, ids, radius)),
                    }
                },
            },
        decreases pieces@.len() - i,
    {
        proof {
            assert(values.take(i + 1).drop_last() =~= values.take(i as int));
            assert(values.take(i + 1).last() == token_views(pieces@)[i as int]);
        }
        let id = match normalize_item_id(pieces[i].as_slice()) {
            Ok(x) => x,
            Err(e) => {
                proof {
                    lemma_item_ids_failure_persists(values, i + 1);
                }
                return Err(e);
            },
        };
        proof {
            assert(string_views(items@.push(id)) =~= string_views(items@).push(id@));
        }
        items.push(id);
        i = i + 1;
    }
    proof {
        assert(values.take(pieces@.len() as int) =~= values);
    }
    if items.len() == 0 {
        return Err(AppError::InvalidConsoleSyntax(text("/interact <block_id> <item_id[,item_id...]> [radius]")));
    }
    let b = block_id(parts[0].as_slice())?;
    Ok(ConsoleCommand::InteractNearest { block_id: b, items, radius })
}

fn parse_container_transfer(arguments: &[char], take: bool) -> (r: Result<ConsoleCommand, AppError>)
    ensures
        outcome(r) == transfer_spec(arguments@, take),
{
    let parts = tokens_of(arguments);
    if parts.len() == 0 {
        return Err(AppError::MissingConsoleArgument(text("<item> <count>")));
    }
    let item = normalize_item_id(parts[0].as_slice())?;
    if parts.len() < 2 {
        return Err(AppError::MissingConsoleArgument(text("<item> <count>")));
    }
    let count = match parse_u32(parts[1].as_slice()) {
        Some(v) => v,
        None => {
            return Err(AppError::InvalidConsoleSyntax(text("count must be positive")));
        },
    };
    if count == 0 || parts.len() > 2 {
        return Err(AppError::InvalidConsoleSyntax(text("<item> <positive-count>")));
    }
    if take {
        Ok(ConsoleCommand::TakeItem { item_id: item, count })
    } else {
        Ok(ConsoleCommand::StoreItem { item_id: item, count })
    }
}

fn on_block_command(command: &[char], arguments: &[char], usage: &str) -> (r: Result<String, AppError>)
    ensures
        match single_argument_spec(command@, arguments@, usage@) {
            Err(e) => r matches Err(f) && f@ == e,
            Ok(v) => match block_id_spec(v) {
                Err(e) => r matches Err(f) && f@ == e,
                Ok(b) => r matches Ok(x) && x@ == b,
            },
        },
{
    let value = single_argument(command, arguments, usage)?;
    block_id(value.as_slice())
}

/// The argument-less command `name` names, if any.
fn bare(name: &[char]) -> (r: Option<ConsoleCommand>)
    ensures
        match bare_command(name@) {
            Some(c) => r matches Some(x) && x@ == c,
            None => r is None,
        },
{
    if named(name, "help") {
        Some(ConsoleCommand::Help)
    } else if named(name, "status") {
        Some(ConsoleCommand::Status)
    } else if named(name, "where") {
        Some(ConsoleCommand::Where)
    } else if named(name, "health") {
        Some(ConsoleCommand::Health)
    } else if named(name, "players") {
        Some(ConsoleCommand::Players)
    } else if named(name, "inventory") {
        Some(ConsoleCommand::Inventory)
    } else if named(name, "containerstatus") {
        Some(ConsoleCommand::ObservedContainerStatus)
    } else if named(name, "path-status") {
        Some(ConsoleCommand::PathStatus)
    } else if named(name, "stop") || named(name, "stopmovement") {
        Some(ConsoleCommand::Stop)
    } else if named(name, "movement") {
        Some(ConsoleCommand::Movement)
    } else if named(name, "gotoblockstatus") {
        Some(ConsoleCommand::GotoBlockStatus)
    } else if named(name, "cancelgotoblock") {
        Some(ConsoleCommand::CancelGotoBlock)
    } else if named(name, "lookstop") {
        Some(ConsoleCommand::LookStop)
    } else if named(name, "lookstatus") {
        Some(ConsoleCommand::LookStatus)
    } else if named(name, "breakblock") {
        Some(ConsoleCommand::BreakBlock)
    } else if named(name, "stopinteraction") {
        Some(ConsoleCommand::StopInteraction)
    } else if named(name, "interactionstatus") {
        Some(ConsoleCommand::InteractionStatus)
    } else if named(name, "testoaklog") {
        Some(ConsoleCommand::TestOakLog)
    } else if named(name, "container-status") {
        Some(ConsoleCommand::ContainerStatus)
    } else if named(name, "close-container") {
        Some(ConsoleCommand::CloseContainer)
    } else if named(name, "reconnect") {
        Some(ConsoleCommand::Reconnect)
    } else if named(name, "quit") {
        Some(ConsoleCommand::Quit)
    } else {
        None
    }
}

/// Executable form of [`command_spec`].
fn run_command(name: &[char], command: &[char], arguments: &[char]) -> (r: Result<ConsoleCommand, AppError>)
    ensures
        outcome(r) == command_spec(name@, command@, arguments@),
{
    if let Some(c) = bare(name) {
        return no_arguments(command, arguments, c);
    }
    if named(name, "entities") {
        entities(arguments)
    } else if named(name, "goto") {
        let (x, y, z) = coordinates(arguments)?;
        Ok(ConsoleCommand::Goto { x, y, z })
    } else if named(name, "goto-mine") {
        let (x, y, z) = coordinates(arguments)?;
        Ok(ConsoleCommand::GotoMine { x, y, z })
    } else if named(name, "follow") {
        let p = player(arguments)?;
        Ok(ConsoleCommand::Follow { player: p })
    } else if named(name, "find") || named(name, "findblock") {
        parse_find_block(arguments)
    } else if named(name, "nearestblock") {
        parse_nearest_block(arguments)
    } else if named(name, "gotoblock") || named(name, "navigate-to-block") {
        parse_goto_block(arguments)
    } else if named(name, "get") {
        parse_get(arguments)
    } else if named(name, "mine") {
        parse_mine(arguments)
    } else if named(name, "look") || named(name, "lookat") {
        let (x, y, z) = coordinates(arguments)?;
        Ok(ConsoleCommand::Look { x, y, z })
    } else if named(name, "lookblock") {
        let b = on_block_command(command, arguments, "/lookblock <block_id>")?;
        Ok(ConsoleCommand::LookBlock { block_id: b })
    } else if named(name, "lookplayer") {
        let p = player(arguments)?;
        Ok(ConsoleCommand::LookPlayer { player: p })
    } else if named(name, "lookentity") {
        let v = single_argument(command, arguments, "/lookentity <entity_type>")?;
        let lowered = lower_chars(v.as_slice());
        Ok(ConsoleCommand::LookEntity { entity_type: string_from_chars(lowered.as_slice()) })
    } else if named(name, "break") {
        let (x, y, z) = coordinates(arguments)?;
        Ok(ConsoleCommand::Break { x, y, z })
    } else if named(name, "breaknearest") {
        let b = on_block_command(command, arguments, "/breaknearest <block_id>")?;
        Ok(ConsoleCommand::BreakNearest { block_id: b })
    } else if named(name, "select-tool") {
        let b = on_block_command(command, arguments, "/select-tool <block_id>")?;
        Ok(ConsoleCommand::SelectTool { block_id: b })
    } else if named(name, "place") {
        parse_place(arguments)
    } else if named(name, "placeblock") {
        parse_placeblock(arguments)
    } else if named(name, "interact") {
        parse_interact(arguments)
    } else if named(name, "equip") {
        let v = single_argument(command, arguments, "/equip <item>")?;
        let i = normalize_item_id(v.as_slice())?;
        Ok(ConsoleCommand::Equip { item: i })
    } else if named(name, "open-chest") {
        let (x, y, z) = coordinates(arguments)?;
        Ok(ConsoleCommand::OpenChest { x, y, z })
    } else if named(name, "take-item") {
        parse_container_transfer(arguments, true)
    } else if named(name, "store-item") {
        parse_container_transfer(arguments, false)
    } else if named(name, "chat") {
        if arguments.len() == 0 {
            Err(AppError::MissingConsoleArgument(text("/chat <message>")))
        } else {
            Ok(ConsoleCommand::Chat { message: string_from_chars(arguments) })
        }
    } else {
        Err(AppError::UnknownConsoleCommand(string_from_chars(name)))
    }
}

/// Parses one console line ([`input_spec`]).
pub fn parse_input(input: &str) -> (r: Result<ConsoleInput, AppError>)
    ensures
        outcome(r) == input_spec(input@),
{
    let chars = chars_of(input);
    let line = trim_chars(chars.as_slice());
    if line.len() == 0 {
        return Ok(ConsoleInput::Empty);
    }
    if line[0] != '/' {
        return Ok(ConsoleInput::ChatMessage(string_from_chars(line.as_slice())));
    }
    let rest = crate::text::copy_range(line.as_slice(), 1, line.len());
    proof {
        assert(rest@ =~= line@.drop_first());
    }
    let command_line = trim_chars(rest.as_slice());
    let (command, after) = split_at_first_ws(command_line.as_slice());
    let arguments = trim_chars(after.as_slice());
    let name = lower_chars(command.as_slice());
    match run_command(name.as_slice(), command.as_slice(), arguments.as_slice()) {
        Ok(c) => Ok(ConsoleInput::Command(c)),
        Err(e) => Err(e),
    }
}

/// `/nearestblock` keeps the radius the user typed: with a block id and a
/// number `n` (digits, at most `u32::MAX`), the command searches for that
/// block within radius `n`; with a block id alone it has no radius; and a
/// radius in the parsed command is always the number typed as the second
/// and last argument.
pub proof fn lemma_nearest_block_keeps_radius(arguments: Seq<char>)
    ensures
        ({
            let parts = split_ws(arguments);
            &&& parts.len() == 2 && parse_unsigned(parts[1], u32::MAX as int) is Some && block_id_spec(parts[0]) is Ok
                ==> nearest_block_spec(arguments) == Ok::<CommandView, ErrorView>(CommandView::NearestBlock(
                    block_id_spec(parts[0])->Ok_0,
                    Some(parse_unsigned(parts[1], u32::MAX as int)->0 as u32),
                ))
            &&& parts.len() == 1 && block_id_spec(parts[0]) is Ok
                ==> nearest_block_spec(arguments) == Ok::<CommandView, ErrorView>(CommandView::NearestBlock(
                    block_id_spec(parts[0])->Ok_0,
                    None,
                ))
            &&& (nearest_block_spec(arguments) matches Ok(CommandView::NearestBlock(_, Some(r)))
                ==> parts.len() == 2 && parse_unsigned(parts[1], u32::MAX as int) == Some(r as int))
        }),
{
    let parts = split_ws(arguments);
    if parts.len() >= 2 {
        crate::console::tokens::lemma_parse_unsigned_range(parts[1], u32::MAX as int);
    }
}

/// The coordinates a command acts on are the three integers typed, in
/// order, and nothing else: three arguments that each read as an `i32`
/// always give exactly those coordinates.
pub proof fn lemma_coordinates_are_typed(arguments: Seq<char>)
    ensures
        ({
            let parts = split_ws(arguments);
            &&& (coordinates_spec(arguments) matches Ok((x, y, z)) ==> parts.len() == 3
                && parse_signed(parts[0]) == Some(x as int) && parse_signed(parts[1]) == Some(y as int)
                && parse_signed(parts[2]) == Some(z as int))
            &&& parts.len() == 3 && parse_signed(parts[0]) is Some && parse_signed(parts[1]) is Some
                && parse_signed(parts[2]) is Some ==> coordinates_spec(arguments) is Ok
        }),
{
    let parts = split_ws(arguments);
    if parts.len() == 3 {
        crate::console::tokens::lemma_parse_signed_range(parts[0]);
        crate::console::tokens::lemma_parse_signed_range(parts[1]);
        crate::console::tokens::lemma_parse_signed_range(parts[2]);
    }
}

/// The block queries keep the numbers typed: `/findblock`'s radius is its
/// second argument and its limit its third, each absent when not typed;
/// `/gotoblock`'s search radius is its second argument unless that is
/// `mine`, and it mines exactly when `mine` is its second or third
/// argument; `/interact`'s radius is its third argument, 32 when not
/// typed. With a well-formed block id and valid numbers, `/findblock`
/// always succeeds with them.
pub proof fn lemma_block_queries_keep_numbers(arguments: Seq<char>)
    ensures
        ({
            let parts = split_ws(arguments);
            &&& (find_block_spec(arguments) matches Ok(CommandView::FindBlock(_, r, l)) ==> {
                &&& parts.len() >= 2 ==> (r matches Some(x) && parse_unsigned(parts[1], u32::MAX as int) == Some(x as int))
                &&& parts.len() < 2 ==> r is None
                &&& parts.len() >= 3 ==> (l matches Some(y) && parse_unsigned(parts[2], usize::MAX as int) == Some(y as int))
                &&& parts.len() < 3 ==> l is None
            })
            &&& 1 <= parts.len() <= 3 && block_id_spec(parts[0]) is Ok
                && (parts.len() >= 2 ==> parse_unsigned(parts[1], u32::MAX as int) is Some)
                && (parts.len() >= 3 ==> parse_unsigned(parts[2], usize::MAX as int) is Some)
                ==> find_block_spec(arguments) is Ok
            &&& (goto_block_spec(arguments) matches Ok(CommandView::GotoBlock(_, r, mining)) ==> {
                &&& parts.len() >= 2 && parts[1] != "mine"@ ==> (r matches Some(x)
                    && parse_unsigned(parts[1], u32::MAX as int) == Some(x as int))
                &&& parts.len() < 2 || parts[1] == "mine"@ ==> r is None
                &&& mining == ((parts.len() >= 2 && parts[1] == "mine"@) || (parts.len() >= 3 && parts[2] == "mine"@))
            })
            &&& (interact_spec(arguments) matches Ok(CommandView::InteractNearest(_, _, r)) ==> {
                &&& parts.len() >= 3 ==> parse_unsigned(parts[2], u32::MAX as int) == Some(r as int)
                &&& parts.len() < 3 ==> r == 32
            })
        }),
{
    let parts = split_ws(arguments);
    if parts.len() >= 2 {
        crate::console::tokens::lemma_parse_unsigned_range(parts[1], u32::MAX as int);
    }
    if parts.len() >= 3 {
        crate::console::tokens::lemma_parse_unsigned_range(parts[2], usize::MAX as int);
        crate::console::tokens::lemma_parse_unsigned_range(parts[2], u32::MAX as int);
    }
}

/// The amounts and counts typed reach the command: `/get`'s amount is its
/// second argument, `/mine`'s its last, `/take-item`'s and `/store-item`'s
/// count their second, each a positive number; `/entities`'s radius is
/// the whole argument, 1..=256, and absent only when nothing was typed.
pub proof fn lemma_amounts_are_typed(arguments: Seq<char>, take: bool)
    ensures
        ({
            let parts = split_ws(arguments);
            &&& (get_spec(arguments) matches Ok(CommandView::GetResource(_, n))
                ==> n > 0 && parts.len() == 2 && parse_unsigned(parts[1], u32::MAX as int) == Some(n as int))
            &&& parts.len() == 2 && item_id_spec(parts[0]) is Ok && parse_unsigned(parts[1], u32::MAX as int) is Some
                && parse_unsigned(parts[1], u32::MAX as int)->0 > 0 ==> get_spec(arguments) is Ok
            &&& (mine_spec(arguments) matches Ok(CommandView::Mine(_, n))
                ==> n > 0 && parse_unsigned(parts.last(), u32::MAX as int) == Some(n as int))
            &&& (transfer_spec(arguments, take) matches Ok(CommandView::TakeItem(_, n))
                ==> take && n > 0 && parts.len() == 2 && parse_unsigned(parts[1], u32::MAX as int) == Some(n as int))
            &&& (transfer_spec(arguments, take) matches Ok(CommandView::StoreItem(_, n))
                ==> !take && n > 0 && parts.len() == 2 && parse_unsigned(parts[1], u32::MAX as int) == Some(n as int))
            &&& parts.len() == 2 && item_id_spec(parts[0]) is Ok && parse_unsigned(parts[1], u32::MAX as int) is Some
                && parse_unsigned(parts[1], u32::MAX as int)->0 > 0 ==> transfer_spec(arguments, take) is Ok
            &&& (entities_spec(arguments) matches Ok(CommandView::Entities(r)) ==> {
                &&& arguments.len() == 0 ==> r is None
                &&& arguments.len() > 0 ==> (r matches Some(x) && 1 <= x <= 256
                    && parse_unsigned(arguments, u32::MAX as int) == Some(x as int))
            })
        }),
{
    let parts = split_ws(arguments);
    if parts.len() >= 2 {
        crate::console::tokens::lemma_parse_unsigned_range(parts[1], u32::MAX as int);
    }
    if parts.len() >= 1 {
        crate::console::tokens::lemma_parse_unsigned_range(parts.last(), u32::MAX as int);
    }
    crate::console::tokens::lemma_parse_unsigned_range(arguments, u32::MAX as int);
}

} // verus!
