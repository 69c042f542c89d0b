use magic_bot::console::commands::{parse_input, plain_chat_message, ConsoleCommand, ConsoleInput};
use magic_bot::error::AppError;

#[test]
fn parses_empty_input() {
    assert_eq!(parse_input(" \t ").unwrap(), ConsoleInput::Empty);
}

#[test]
fn parses_plain_chat_with_trimmed_whitespace() {
    assert_eq!(parse_input("  hello server  ").unwrap(), ConsoleInput::ChatMessage("hello server".to_owned()));
}

#[test]
fn parses_commands() {
    assert_eq!(parse_input("/help").unwrap(), ConsoleInput::Command(ConsoleCommand::Help));
    assert_eq!(
        parse_input("/findblock stone 64 5").unwrap(),
        ConsoleInput::Command(ConsoleCommand::FindBlock {
            block_id: "minecraft:stone".into(),
            radius: Some(64),
            limit: Some(5),
        })
    );
    assert_eq!(parse_input("/status").unwrap(), ConsoleInput::Command(ConsoleCommand::Status));
    assert_eq!(
        parse_input("/containerstatus").unwrap(),
        ConsoleInput::Command(ConsoleCommand::ObservedContainerStatus)
    );
    assert_eq!(
        parse_input("/chat hello").unwrap(),
        ConsoleInput::Command(ConsoleCommand::Chat { message: "hello".to_owned() })
    );
}

#[test]
fn rejects_missing_chat_argument() {
    assert!(matches!(parse_input("/chat"), Err(AppError::MissingConsoleArgument(_))));
}

#[test]
fn rejects_unknown_command() {
    assert!(matches!(parse_input("/unknown"), Err(AppError::UnknownConsoleCommand(_))));
}

#[test]
fn rejects_arguments_for_simple_commands() {
    assert!(matches!(parse_input("/help now"), Err(AppError::InvalidConsoleSyntax(_))));
}

#[test]
fn rejects_invalid_block_queries() {
    assert!(parse_input("/findblock").is_err());
    assert!(parse_input("/findblock minecraft:stone 0").is_ok());
    assert!(parse_input("/findblock minecraft:stone abc").is_err());
    assert!(parse_input("/nearestblock minecraft:stone 32 4").is_err());
}

#[test]
fn disabled_plain_input_is_not_forwarded() {
    let input = ConsoleInput::ChatMessage("hello".to_owned());
    assert_eq!(plain_chat_message(&input, false), None);
    assert_eq!(plain_chat_message(&input, true), Some("hello"));
}

#[test]
fn parses_block_navigation_commands() {
    assert_eq!(
        parse_input("/gotoblock stone 64").unwrap(),
        ConsoleInput::Command(ConsoleCommand::GotoBlock {
            block_id: "minecraft:stone".into(),
            search_radius: Some(64),
            allow_mining: false,
        })
    );
    assert_eq!(
        parse_input("/navigate-to-block stone mine").unwrap(),
        ConsoleInput::Command(ConsoleCommand::GotoBlock {
            block_id: "minecraft:stone".into(),
            search_radius: None,
            allow_mining: true,
        })
    );
    assert_eq!(
        parse_input("/goto-mine 1 64 -2").unwrap(),
        ConsoleInput::Command(ConsoleCommand::GotoMine { x: 1, y: 64, z: -2 })
    );
    assert_eq!(parse_input("/gotoblockstatus").unwrap(), ConsoleInput::Command(ConsoleCommand::GotoBlockStatus));
    assert_eq!(parse_input("/cancelgotoblock").unwrap(), ConsoleInput::Command(ConsoleCommand::CancelGotoBlock));
}

#[test]
fn parses_look_commands() {
    assert_eq!(
        parse_input("/look 1 64 -2").unwrap(),
        ConsoleInput::Command(ConsoleCommand::Look { x: 1, y: 64, z: -2 })
    );
    assert_eq!(
        parse_input("/lookblock stone").unwrap(),
        ConsoleInput::Command(ConsoleCommand::LookBlock { block_id: "minecraft:stone".into() })
    );
    assert_eq!(
        parse_input("/lookplayer Steve").unwrap(),
        ConsoleInput::Command(ConsoleCommand::LookPlayer { player: "Steve".into() })
    );
    assert_eq!(
        parse_input("/lookentity zombie").unwrap(),
        ConsoleInput::Command(ConsoleCommand::LookEntity { entity_type: "zombie".into() })
    );
}

#[test]
fn parses_independent_task_control_commands() {
    assert_eq!(parse_input("/stopmovement").unwrap(), ConsoleInput::Command(ConsoleCommand::Stop));
    assert_eq!(
        parse_input("/lookat 1 64 -2").unwrap(),
        ConsoleInput::Command(ConsoleCommand::Look { x: 1, y: 64, z: -2 })
    );
}

#[test]
fn parses_interaction_commands() {
    assert_eq!(parse_input("/breakblock").unwrap(), ConsoleInput::Command(ConsoleCommand::BreakBlock));
    assert_eq!(
        parse_input("/break 1 64 -2").unwrap(),
        ConsoleInput::Command(ConsoleCommand::Break { x: 1, y: 64, z: -2 })
    );
    assert_eq!(
        parse_input("/breaknearest oak_log").unwrap(),
        ConsoleInput::Command(ConsoleCommand::BreakNearest { block_id: "minecraft:oak_log".into() })
    );
    assert_eq!(
        parse_input("/select-tool diamond_ore").unwrap(),
        ConsoleInput::Command(ConsoleCommand::SelectTool { block_id: "minecraft:diamond_ore".into() })
    );
    assert_eq!(
        parse_input("/place cobblestone").unwrap(),
        ConsoleInput::Command(ConsoleCommand::PlaceLooked { block_id: "minecraft:cobblestone".into() })
    );
    assert_eq!(
        parse_input("/place 1 64 -2 cobblestone").unwrap(),
        ConsoleInput::Command(ConsoleCommand::PlaceAt { x: 1, y: 64, z: -2, block_id: "minecraft:cobblestone".into() })
    );
    assert_eq!(
        parse_input("/placeblock oak_log 901 91 984").unwrap(),
        ConsoleInput::Command(ConsoleCommand::PlaceAt { x: 901, y: 91, z: 984, block_id: "minecraft:oak_log".into() })
    );
    assert_eq!(
        parse_input("/placeblock minecraft:oak_log").unwrap(),
        ConsoleInput::Command(ConsoleCommand::PlaceLooked { block_id: "minecraft:oak_log".into() })
    );
    assert!(parse_input("/place 1 2").is_err());
    assert_eq!(parse_input("/testoaklog").unwrap(), ConsoleInput::Command(ConsoleCommand::TestOakLog));
}

#[test]
fn parses_interact_command() {
    assert_eq!(
        parse_input("/interact dirt wooden_hoe,stone_hoe").unwrap(),
        ConsoleInput::Command(ConsoleCommand::InteractNearest {
            block_id: "minecraft:dirt".into(),
            items: vec!["minecraft:wooden_hoe".into(), "minecraft:stone_hoe".into()],
            radius: 32,
        })
    );
    assert_eq!(
        parse_input("/interact minecraft:grass_block wooden_shovel 16").unwrap(),
        ConsoleInput::Command(ConsoleCommand::InteractNearest {
            block_id: "minecraft:grass_block".into(),
            items: vec!["minecraft:wooden_shovel".into()],
            radius: 16,
        })
    );
    assert!(parse_input("/interact dirt").is_err());
    assert!(parse_input("/interact dirt wooden_hoe extra garbage").is_err());
}

#[test]
fn parses_container_debug_commands() {
    assert_eq!(
        parse_input("/open-chest 1 64 -2").unwrap(),
        ConsoleInput::Command(ConsoleCommand::OpenChest { x: 1, y: 64, z: -2 })
    );
    assert_eq!(
        parse_input("/take-item diamond 3").unwrap(),
        ConsoleInput::Command(ConsoleCommand::TakeItem { item_id: "minecraft:diamond".into(), count: 3 })
    );
    assert_eq!(
        parse_input("/store-item cobblestone 64").unwrap(),
        ConsoleInput::Command(ConsoleCommand::StoreItem { item_id: "minecraft:cobblestone".into(), count: 64 })
    );
    assert!(parse_input("/take-item diamond 0").is_err());
}

#[test]
fn parses_status_query_commands() {
    assert_eq!(parse_input("/where").unwrap(), ConsoleInput::Command(ConsoleCommand::Where));
    assert_eq!(parse_input("/health").unwrap(), ConsoleInput::Command(ConsoleCommand::Health));
    assert!(matches!(parse_input("/where now"), Err(AppError::InvalidConsoleSyntax(_))));
}

#[test]
fn parses_equip_command() {
    assert_eq!(
        parse_input("/equip diamond_pickaxe").unwrap(),
        ConsoleInput::Command(ConsoleCommand::Equip { item: "minecraft:diamond_pickaxe".into() })
    );
    assert!(matches!(parse_input("/equip"), Err(AppError::MissingConsoleArgument(_))));
    assert!(matches!(parse_input("/equip diamond_pickaxe extra"), Err(AppError::InvalidConsoleSyntax(_))));
}

#[test]
fn parses_find_as_findblock_alias() {
    assert_eq!(
        parse_input("/find stone 64").unwrap(),
        ConsoleInput::Command(ConsoleCommand::FindBlock {
            block_id: "minecraft:stone".into(),
            radius: Some(64),
            limit: None,
        })
    );
    assert!(parse_input("/find").is_err());
}

#[test]
fn parses_place_in_block_first_and_coordinate_first_order() {
    assert_eq!(
        parse_input("/place minecraft:cobblestone 915 91 1005").unwrap(),
        ConsoleInput::Command(ConsoleCommand::PlaceAt { x: 915, y: 91, z: 1005, block_id: "minecraft:cobblestone".into() })
    );
    assert_eq!(
        parse_input("/place 915 91 1005 minecraft:cobblestone").unwrap(),
        ConsoleInput::Command(ConsoleCommand::PlaceAt { x: 915, y: 91, z: 1005, block_id: "minecraft:cobblestone".into() })
    );
}

#[test]
fn parses_get_resource_command() {
    assert_eq!(
        parse_input("/get diamond_ore 15").unwrap(),
        ConsoleInput::Command(ConsoleCommand::GetResource { resource_id: "minecraft:diamond_ore".into(), amount: 15 })
    );
    assert_eq!(
        parse_input("/get minecraft:oak_log 10").unwrap(),
        ConsoleInput::Command(ConsoleCommand::GetResource { resource_id: "minecraft:oak_log".into(), amount: 10 })
    );
}

#[test]
fn parses_get_resource_command_for_ore_items() {
    assert_eq!(
        parse_input("/get diamond 10").unwrap(),
        ConsoleInput::Command(ConsoleCommand::GetResource { resource_id: "minecraft:diamond".into(), amount: 10 })
    );
    assert_eq!(
        parse_input("/get raw_iron 20").unwrap(),
        ConsoleInput::Command(ConsoleCommand::GetResource { resource_id: "minecraft:raw_iron".into(), amount: 20 })
    );
    assert_eq!(
        parse_input("/get coal 50").unwrap(),
        ConsoleInput::Command(ConsoleCommand::GetResource { resource_id: "minecraft:coal".into(), amount: 50 })
    );
}

#[test]
fn parses_get_resource_command_for_mob_drops() {
    assert_eq!(
        parse_input("/get leather 10").unwrap(),
        ConsoleInput::Command(ConsoleCommand::GetResource { resource_id: "minecraft:leather".into(), amount: 10 })
    );
    assert_eq!(
        parse_input("/get porkchop 16").unwrap(),
        ConsoleInput::Command(ConsoleCommand::GetResource { resource_id: "minecraft:porkchop".into(), amount: 16 })
    );
    assert_eq!(
        parse_input("/get white_wool 20").unwrap(),
        ConsoleInput::Command(ConsoleCommand::GetResource { resource_id: "minecraft:white_wool".into(), amount: 20 })
    );
}

#[test]
fn get_resource_arguments_are_checked_in_order() {
    assert!(matches!(parse_input("/get"), Err(AppError::MissingConsoleArgument(_))));
    assert!(matches!(parse_input("/get diamond_ore"), Err(AppError::MissingConsoleArgument(_))));
    assert!(matches!(parse_input("/get diamond_ore 0"), Err(AppError::InvalidConsoleSyntax(_))));
    assert!(matches!(parse_input("/get diamond_ore -5"), Err(AppError::InvalidConsoleSyntax(_))));
    assert!(matches!(parse_input("/get diamond_ore abc"), Err(AppError::InvalidConsoleSyntax(_))));
    assert!(matches!(parse_input("/get diamond_ore 15 extra"), Err(AppError::InvalidConsoleSyntax(_))));
}

#[test]
fn parses_mine_command_with_a_single_block() {
    assert_eq!(
        parse_input("/mine stone 100").unwrap(),
        ConsoleInput::Command(ConsoleCommand::Mine { block_ids: vec!["minecraft:stone".into()], amount: 100 })
    );
}

#[test]
fn parses_mine_command_with_multiple_blocks() {
    assert_eq!(
        parse_input("/mine diamond_ore deepslate_diamond_ore 10").unwrap(),
        ConsoleInput::Command(ConsoleCommand::Mine {
            block_ids: vec!["minecraft:diamond_ore".into(), "minecraft:deepslate_diamond_ore".into()],
            amount: 10,
        })
    );
}

#[test]
fn mine_arguments_are_checked_in_order() {
    assert!(matches!(parse_input("/mine"), Err(AppError::MissingConsoleArgument(_))));
    assert!(matches!(parse_input("/mine 10"), Err(AppError::MissingConsoleArgument(_))));
    assert!(matches!(parse_input("/mine stone 0"), Err(AppError::InvalidConsoleSyntax(_))));
    assert!(matches!(parse_input("/mine stone -5"), Err(AppError::InvalidConsoleSyntax(_))));
    assert_eq!(
        parse_input("/mine a:b:c 10"),
        Err(AppError::InvalidBlockIdentifier("a:b:c".into()))
    );
}

#[test]
fn help_command_parses() {
    assert_eq!(parse_input("/help").unwrap(), ConsoleInput::Command(ConsoleCommand::Help));
}

#[test]
fn command_names_match_case_insensitively_and_messages_name_the_command() {
    assert_eq!(parse_input("/HELP").unwrap(), ConsoleInput::Command(ConsoleCommand::Help));
    assert_eq!(
        parse_input("/Status now"),
        Err(AppError::InvalidConsoleSyntax("/Status does not accept arguments".into()))
    );
    assert_eq!(parse_input("/Frobnicate"), Err(AppError::UnknownConsoleCommand("frobnicate".into())));
    assert_eq!(
        parse_input("/lookblock a b"),
        Err(AppError::InvalidConsoleSyntax("/lookblock accepts one argument".into()))
    );
}

#[test]
fn entities_radius_is_bounded() {
    assert_eq!(parse_input("/entities").unwrap(), ConsoleInput::Command(ConsoleCommand::Entities { radius: None }));
    assert_eq!(
        parse_input("/entities 256").unwrap(),
        ConsoleInput::Command(ConsoleCommand::Entities { radius: Some(256) })
    );
    assert_eq!(
        parse_input("/entities 257"),
        Err(AppError::InvalidEntityQuery("radius must be between 1 and 256".into()))
    );
    assert!(matches!(parse_input("/entities 0"), Err(AppError::InvalidEntityQuery(_))));
    assert!(matches!(parse_input("/entities ten"), Err(AppError::InvalidEntityQuery(_))));
}

#[test]
fn coordinates_must_be_three_integers_in_range() {
    assert_eq!(
        parse_input("/goto 2147483647 -2147483648 +5").unwrap(),
        ConsoleInput::Command(ConsoleCommand::Goto { x: 2147483647, y: -2147483648, z: 5 })
    );
    assert_eq!(
        parse_input("/goto 2147483648 0 0"),
        Err(AppError::InvalidCoordinates("x must be an integer".into()))
    );
    assert_eq!(parse_input("/goto 1 2"), Err(AppError::InvalidCoordinates("expected <x> <y> <z>".into())));
    assert_eq!(parse_input("/follow Alex").unwrap(), ConsoleInput::Command(ConsoleCommand::Follow { player: "Alex".into() }));
    assert!(matches!(parse_input("/follow"), Err(AppError::MissingConsoleArgument(_))));
}
