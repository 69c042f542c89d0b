use magic_bot::crafting::live::{live_begin, live_request, live_step, LiveEvent, LiveOutcome, LivePhase, LiveRequest};
use magic_bot::crafting::run::{craft_begin, craft_request, craft_step, CraftEvent, CraftRequest, RunPhase};
use magic_bot::crafting::live::{player_grid_slot, prepare_live_craft, LiveCraftRefusal, LIVE_CRAFT_MAX_OPERATIONS};
use magic_bot::crafting::menu::OutputRefusal;
use magic_bot::crafting::service::{claim_decision, stop_decision, CraftServiceStatus};
use magic_bot::crafting::execution::limits_event;
use magic_bot::crafting::{
    execute, execute_from_snapshot, grid_cell, menu_request, open_reply, operation_reply, placement_reply,
    MenuRequest, StepOutcome, CraftCancellation, CraftResult, CraftService, CraftStatus, CraftingDriver, CraftingMenu,
    CraftingOptions, DriverError, Failure, Ingredient, IngredientPlacement, IngredientSlot, ItemCounts,
    MenuSnapshot, Recipe, RecipeBook, RecipeLayout, ResolvedCraftPlan, SourceInfo, Station,
};

fn counts(items: &[(&str, u32)]) -> ItemCounts {
    ItemCounts::from_pairs(items)
}

fn source() -> SourceInfo {
    SourceInfo { version: "test".into(), protocol: 0, revision: "test".into(), complete: true }
}

fn custom(recipes: Vec<Recipe>) -> RecipeBook {
    RecipeBook::new(source(), recipes, Vec::new()).unwrap()
}

fn unary(id: &str, output: &str, input: &str) -> Recipe {
    Recipe {
        id: id.into(),
        output: output.into(),
        output_count: 1,
        station: Station::Player,
        layout: RecipeLayout::Shapeless {
            ingredients: vec![IngredientSlot { ingredient: Ingredient::Item(input.into()), count: 1 }],
        },
        known: true,
        special: false,
    }
}

#[test]
fn detects_cycles_and_depth_limits() {
    let cycle = custom(vec![
        unary("minecraft:a", "minecraft:a", "minecraft:b"),
        unary("minecraft:b", "minecraft:b", "minecraft:a"),
    ]);
    assert!(matches!(cycle.plan("a", 1, &counts(&[]), true, 8).failure, Some(Failure::Cycle { .. })));
    let chain = custom(vec![
        unary("minecraft:a", "minecraft:a", "minecraft:b"),
        unary("minecraft:b", "minecraft:b", "minecraft:c"),
    ]);
    assert_eq!(
        chain.plan("a", 1, &counts(&[]), true, 1).failure,
        Some(Failure::DepthLimit { item: "minecraft:b".into(), limit: 1 })
    );
}

#[test]
fn the_cycle_names_the_path_that_closes_it() {
    let cycle = custom(vec![
        unary("minecraft:a", "minecraft:a", "minecraft:b"),
        unary("minecraft:b", "minecraft:b", "minecraft:a"),
    ]);
    assert_eq!(
        cycle.plan("a", 1, &counts(&[]), true, 8).failure,
        Some(Failure::Cycle {
            path: vec!["minecraft:a".into(), "minecraft:b".into(), "minecraft:a".into()]
        })
    );
}

#[test]
fn failures_are_structured() {
    let book = custom(vec![unary("minecraft:a", "minecraft:a", "minecraft:b")]);
    assert_eq!(book.preferred("not_real"), Err(Failure::UnknownItem("minecraft:not_real".into())));
    assert_eq!(book.recipe("Not_Real").unwrap_err(), Failure::UnknownRecipe("minecraft:not_real".into()));
    assert_eq!(book.recipe("A").unwrap().id, "minecraft:a");
}

#[test]
fn planning_takes_from_stock_and_crafts_the_rest() {
    let mut planks = unary("minecraft:oak_planks", "minecraft:oak_planks", "minecraft:oak_log");
    planks.output_count = 4;
    let mut stick = unary("minecraft:stick", "minecraft:stick", "minecraft:oak_planks");
    stick.output_count = 4;
    if let RecipeLayout::Shapeless { ingredients } = &mut stick.layout {
        ingredients[0].count = 2;
    }
    let book = custom(vec![planks, stick]);
    let plan = book.plan("stick", 5, &counts(&[("minecraft:oak_log", 1)]), true, 8);
    assert_eq!(plan.failure, None);
    assert_eq!(plan.requested, 5);
    // Two stick operations need four planks: one log's worth.
    assert_eq!(plan.steps.len(), 2);
    assert_eq!(plan.steps[0].output, "minecraft:oak_planks");
    assert_eq!((plan.steps[0].operations, plan.steps[0].produced), (1, 4));
    assert_eq!(plan.steps[1].recipe_id, "minecraft:stick");
    assert_eq!((plan.steps[1].operations, plan.steps[1].produced), (2, 8));
    assert_eq!(plan.remaining.get("minecraft:stick"), 3);
    assert_eq!(plan.remaining.get("minecraft:oak_planks"), 0);
    assert_eq!(plan.remaining.get("minecraft:oak_log"), 0);
}

#[test]
fn a_table_recipe_without_a_table_fails_planning() {
    let mut pick = unary("minecraft:stone_pickaxe", "minecraft:stone_pickaxe", "minecraft:cobblestone");
    pick.station = Station::CraftingTable;
    let book = custom(vec![pick]);
    assert_eq!(
        book.plan("stone_pickaxe", 1, &counts(&[]), false, 8).failure,
        Some(Failure::StationUnavailable(Station::CraftingTable))
    );
}

#[test]
fn the_book_rejects_invalid_and_duplicate_recipes() {
    let mut zero = unary("minecraft:a", "minecraft:a", "minecraft:b");
    zero.output_count = 0;
    assert_eq!(
        RecipeBook::new(source(), vec![zero], Vec::new()).err(),
        Some("minecraft:a has zero output".to_string())
    );
    let dup = vec![
        unary("minecraft:a", "minecraft:a", "minecraft:b"),
        unary("minecraft:a", "minecraft:x", "minecraft:y"),
    ];
    assert_eq!(RecipeBook::new(source(), dup, Vec::new()).err(), Some("duplicate recipe id".to_string()));
    let mut big = unary("minecraft:big", "minecraft:big", "minecraft:b");
    big.layout = RecipeLayout::Shaped {
        width: 3,
        height: 1,
        ingredients: vec![IngredientSlot { ingredient: Ingredient::Empty, count: 1 }; 3],
    };
    assert_eq!(
        RecipeBook::new(source(), vec![big], Vec::new()).err(),
        Some("minecraft:big does not fit player grid".to_string())
    );
}

#[test]
fn the_preferred_recipe_is_known_ordinary_and_grid_capable() {
    let mut table = unary("minecraft:a_table", "minecraft:x", "minecraft:y");
    table.station = Station::CraftingTable;
    let mut unknown = unary("minecraft:a_unknown", "minecraft:x", "minecraft:y");
    unknown.known = false;
    let plain = unary("minecraft:z_plain", "minecraft:x", "minecraft:y");
    let book = custom(vec![table, unknown, plain]);
    assert_eq!(book.preferred("x").unwrap().id, "minecraft:z_plain");
    assert_eq!(book.recipes_for("minecraft:x").len(), 3);
}

struct Mock {
    state: MenuSnapshot,
    table: Result<(), DriverError>,
    fail_take: Option<DriverError>,
    cancel_after_place: Option<CraftCancellation>,
}

impl Mock {
    fn new(items: &[(&str, u32)]) -> Self {
        Self {
            state: MenuSnapshot {
                revision: 1,
                inventory: counts(items),
                free_inventory_slots: 10,
                alive: true,
                connected: true,
                ..Default::default()
            },
            table: Ok(()),
            fail_take: None,
            cancel_after_place: None,
        }
    }
    fn bump(&mut self) {
        self.state.revision += 1
    }
}

impl CraftingDriver for Mock {
    fn snapshot(&mut self) -> MenuSnapshot {
        self.state.clone()
    }
    fn open_player_menu(&mut self) -> Result<MenuSnapshot, DriverError> {
        self.state.menu = Some(CraftingMenu::Player);
        self.state.grid = vec![None; 4];
        self.bump();
        Ok(self.state.clone())
    }
    fn open_known_table(&mut self, _: u32, navigate: bool) -> Result<MenuSnapshot, DriverError> {
        self.table?;
        if !navigate {
            return Err(DriverError::Rejected);
        }
        self.state.menu = Some(CraftingMenu::Table);
        self.state.grid = vec![None; 9];
        self.bump();
        Ok(self.state.clone())
    }
    fn place_one(&mut self, slot: usize, item: &str, _: u64) -> Result<MenuSnapshot, DriverError> {
        if !self.state.inventory.contains_key(item) {
            return Err(DriverError::Rejected);
        }
        let n = self.state.inventory.get(item);
        if n == 0 {
            return Err(DriverError::Rejected);
        }
        self.state.inventory.insert(item.into(), n - 1);
        self.state.grid[slot] = Some(item.into());
        self.bump();
        if let Some(c) = &self.cancel_after_place {
            c.cancel()
        }
        Ok(self.state.clone())
    }
    fn take_output(&mut self, item: &str, _: u64) -> Result<MenuSnapshot, DriverError> {
        if let Some(e) = self.fail_take.take() {
            return Err(e);
        };
        for x in &mut self.state.grid {
            *x = None
        }
        let n = self.state.inventory.get(item);
        self.state.inventory.insert(item.into(), n + 4);
        self.bump();
        Ok(self.state.clone())
    }
    fn recover(&mut self, _: u64) -> Result<MenuSnapshot, DriverError> {
        let mut returned = Vec::new();
        for x in &mut self.state.grid {
            if let Some(i) = x.take() {
                returned.push(i);
            }
        }
        for i in returned {
            let n = self.state.inventory.get(&i);
            self.state.inventory.insert(i, n + 1);
        }
        self.state.cursor = None;
        self.bump();
        Ok(self.state.clone())
    }
}

fn sticks(count: u32) -> ResolvedCraftPlan {
    ResolvedCraftPlan {
        recipe_id: "minecraft:stick".into(),
        output_item: "minecraft:stick".into(),
        output_per_craft: 4,
        requested_output: count,
        shaped: true,
        placements: vec![
            IngredientPlacement { item: "minecraft:plank".into(), row: 0, column: 0 },
            IngredientPlacement { item: "minecraft:plank".into(), row: 1, column: 0 },
        ],
    }
}

fn run(driver: &mut impl CraftingDriver, plan: &ResolvedCraftPlan) -> CraftResult {
    execute(driver, plan, &CraftingOptions::default(), &CraftCancellation::default())
}

#[test]
fn player_shaped_and_no_overcraft_operations() {
    let mut m = Mock::new(&[("minecraft:plank", 4)]);
    let r = run(&mut m, &sticks(8));
    assert_eq!(r.status, CraftStatus::Completed);
    assert_eq!((r.crafted, r.completed_operations), (8, 2));
    assert_eq!(r.menu, Some(CraftingMenu::Player));
    assert_eq!(r.ingredients_consumed.get("minecraft:plank"), 4);
}

#[test]
fn missing_materials_never_opens_menu() {
    let mut m = Mock::new(&[("minecraft:plank", 1)]);
    let r = run(&mut m, &sticks(4));
    assert_eq!(r.status, CraftStatus::MissingMaterials);
    assert_eq!(r.missing.get("minecraft:plank"), 1);
    assert_eq!(m.state.menu, None);
}

#[test]
fn shapeless_layout_is_row_major() {
    let p = ResolvedCraftPlan {
        shaped: false,
        placements: vec![
            IngredientPlacement { item: "a".into(), row: 0, column: 0 },
            IngredientPlacement { item: "b".into(), row: 0, column: 1 },
            IngredientPlacement { item: "c".into(), row: 1, column: 0 },
        ],
        recipe_id: "r".into(),
        output_item: "out".into(),
        output_per_craft: 4,
        requested_output: 4,
    };
    let mut m = Mock::new(&[("a", 1), ("b", 1), ("c", 1)]);
    assert_eq!(run(&mut m, &p).status, CraftStatus::Completed);
}

#[test]
fn three_by_three_navigates_to_table() {
    let mut p = sticks(4);
    p.placements.push(IngredientPlacement { item: "minecraft:plank".into(), row: 2, column: 2 });
    let mut m = Mock::new(&[("minecraft:plank", 3)]);
    let r = run(&mut m, &p);
    assert_eq!(r.menu, Some(CraftingMenu::Table));
}

#[test]
fn table_not_allowed_is_wrong_menu() {
    let mut p = sticks(4);
    p.placements.push(IngredientPlacement { item: "minecraft:plank".into(), row: 2, column: 2 });
    let mut m = Mock::new(&[("minecraft:plank", 3)]);
    let o = CraftingOptions { allow_table: false, ..Default::default() };
    assert_eq!(execute(&mut m, &p, &o, &Default::default()).status, CraftStatus::WrongMenu);
}

struct Twice<'a> {
    m: &'a mut Mock,
    c: &'a mut u8,
}

impl CraftingDriver for Twice<'_> {
    fn snapshot(&mut self) -> MenuSnapshot {
        self.m.snapshot()
    }
    fn open_player_menu(&mut self) -> Result<MenuSnapshot, DriverError> {
        self.m.open_player_menu()
    }
    fn open_known_table(&mut self, r: u32, n: bool) -> Result<MenuSnapshot, DriverError> {
        self.m.open_known_table(r, n)
    }
    fn place_one(&mut self, s: usize, i: &str, r: u64) -> Result<MenuSnapshot, DriverError> {
        self.m.place_one(s, i, r)
    }
    fn take_output(&mut self, i: &str, r: u64) -> Result<MenuSnapshot, DriverError> {
        *self.c += 1;
        if *self.c == 2 {
            Err(DriverError::TimedOut)
        } else {
            self.m.take_output(i, r)
        }
    }
    fn recover(&mut self, r: u64) -> Result<MenuSnapshot, DriverError> {
        self.m.recover(r)
    }
}

#[test]
fn partial_result_and_cleanup() {
    let mut m = Mock::new(&[("minecraft:plank", 4)]);
    let mut calls = 0;
    let r = run(&mut Twice { m: &mut m, c: &mut calls }, &sticks(8));
    assert_eq!(r.status, CraftStatus::Partial);
    assert_eq!(r.crafted, 4);
    assert!(r.recovered);
    assert!(r.grid.iter().all(Option::is_none));
}

#[test]
fn cancellation_recovers_grid() {
    let token = CraftCancellation::default();
    let mut m = Mock::new(&[("minecraft:plank", 4)]);
    m.cancel_after_place = Some(token.clone());
    let r = execute(&mut m, &sticks(8), &Default::default(), &token);
    assert_eq!(r.status, CraftStatus::Cancelled);
    assert!(r.recovered);
}

struct Bad(Mock);

impl CraftingDriver for Bad {
    fn snapshot(&mut self) -> MenuSnapshot {
        self.0.snapshot()
    }
    fn open_player_menu(&mut self) -> Result<MenuSnapshot, DriverError> {
        self.0.open_player_menu()
    }
    fn open_known_table(&mut self, r: u32, n: bool) -> Result<MenuSnapshot, DriverError> {
        self.0.open_known_table(r, n)
    }
    fn place_one(&mut self, s: usize, i: &str, r: u64) -> Result<MenuSnapshot, DriverError> {
        self.0.place_one(s, i, r)
    }
    fn take_output(&mut self, _: &str, _: u64) -> Result<MenuSnapshot, DriverError> {
        Ok(self.0.state.clone())
    }
    fn recover(&mut self, r: u64) -> Result<MenuSnapshot, DriverError> {
        self.0.recover(r)
    }
}

#[test]
fn output_without_revision_is_rejected() {
    let m = Mock::new(&[("minecraft:plank", 2)]);
    assert_eq!(run(&mut Bad(m), &sticks(4)).status, CraftStatus::Rejected);
}

#[test]
fn terminal_driver_results_are_structured() {
    for (e, s) in [
        (DriverError::TimedOut, CraftStatus::TimedOut),
        (DriverError::Died, CraftStatus::Died),
        (DriverError::Disconnected, CraftStatus::Disconnected),
        (DriverError::WrongMenu, CraftStatus::WrongMenu),
        (DriverError::Cancelled, CraftStatus::Cancelled),
        (DriverError::NoSpace, CraftStatus::NoSpace),
    ] {
        let mut m = Mock::new(&[("minecraft:plank", 2)]);
        m.table = Err(e);
        let mut p = sticks(4);
        p.placements.push(IngredientPlacement { item: "minecraft:plank".into(), row: 2, column: 0 });
        m.state.inventory.insert("minecraft:plank".into(), 3);
        assert_eq!(run(&mut m, &p).status, s)
    }
}

#[test]
fn stop_on_an_idle_craft_service_is_a_no_op() {
    let service = CraftService::default();
    assert!(!service.stop());
}

#[test]
fn a_running_craft_can_be_stopped_once_claimed() {
    let service = CraftService::default();
    assert!(service.begin());
    assert!(!service.begin());
    assert!(service.stop());
    assert!(service.cancellation().is_cancelled());
    service.finish(Some(CraftStatus::Cancelled));
    assert!(!service.status().active);
    assert_eq!(service.status().last_status, Some(CraftStatus::Cancelled));
}

#[test]
fn no_space_is_reported_before_mutation() {
    let mut m = Mock::new(&[("minecraft:plank", 2)]);
    m.state.free_inventory_slots = 0;
    assert_eq!(run(&mut m, &sticks(4)).status, CraftStatus::NoSpace);
}

#[test]
fn invalid_plans_and_oversized_runs_are_rejected_untouched() {
    let mut m = Mock::new(&[("minecraft:plank", 2)]);
    let mut empty = sticks(4);
    empty.placements.clear();
    let r = run(&mut m, &empty);
    assert_eq!(r.status, CraftStatus::Rejected);
    assert_eq!(r.detail.as_deref(), Some("invalid resolved plan"));
    let options = CraftingOptions { maximum_operations: 1, ..Default::default() };
    let r = execute(&mut m, &sticks(8), &options, &CraftCancellation::default());
    assert_eq!(r.status, CraftStatus::Rejected);
    assert_eq!(r.detail.as_deref(), Some("operation bound exceeded"));
    assert_eq!(m.state.menu, None);
}

#[test]
fn a_zero_timeout_stops_before_the_first_operation() {
    let mut m = Mock::new(&[("minecraft:plank", 4)]);
    let options = CraftingOptions { timeout_millis: 0, ..Default::default() };
    let r = execute(&mut m, &sticks(8), &options, &CraftCancellation::default());
    assert_eq!(r.status, CraftStatus::TimedOut);
    assert_eq!(r.completed_operations, 0);
}

#[test]
fn requirements_count_every_placement_per_operation() {
    let p = sticks(8);
    assert_eq!(p.operations(), 2);
    assert_eq!(p.grid_size(), 2);
    assert_eq!(p.requirements(2).get("minecraft:plank"), 4);
    assert_eq!(p.requirements(0).get("minecraft:plank"), 0);
    assert!(p.requirements(0).contains_key("minecraft:plank"));
}

#[test]
fn item_counts_stay_sorted_and_keyed() {
    let mut c = counts(&[("b", 1), ("a", 2), ("b", 3)]);
    assert_eq!(c.len(), 2);
    assert_eq!(c.entry(0), (&"a".to_string(), 2));
    assert_eq!(c.entry(1), (&"b".to_string(), 3));
    c.remove("a");
    assert!(!c.contains_key("a"));
    assert_eq!(c.get("a"), 0);
    assert_eq!(c, counts(&[("b", 3)]));
}

fn tagged_book() -> RecipeBook {
    let planks = Recipe {
        id: "minecraft:oak_planks".into(),
        output: "minecraft:oak_planks".into(),
        output_count: 4,
        station: Station::Player,
        layout: RecipeLayout::Shapeless {
            ingredients: vec![IngredientSlot { ingredient: Ingredient::Tag("minecraft:logs".into()), count: 1 }],
        },
        known: true,
        special: false,
    };
    let stick = Recipe {
        id: "minecraft:stick".into(),
        output: "minecraft:stick".into(),
        output_count: 4,
        station: Station::Player,
        layout: RecipeLayout::Shaped {
            width: 1,
            height: 2,
            ingredients: vec![
                IngredientSlot {
                    ingredient: Ingredient::Alternatives(vec!["minecraft:oak_planks".into(), "minecraft:bamboo_planks".into()]),
                    count: 1,
                },
                IngredientSlot {
                    ingredient: Ingredient::Alternatives(vec!["minecraft:oak_planks".into(), "minecraft:bamboo_planks".into()]),
                    count: 1,
                },
            ],
        },
        known: true,
        special: false,
    };
    let pick = Recipe {
        id: "minecraft:stone_pickaxe".into(),
        output: "minecraft:stone_pickaxe".into(),
        output_count: 1,
        station: Station::CraftingTable,
        layout: RecipeLayout::Shaped {
            width: 3,
            height: 3,
            ingredients: vec![
                IngredientSlot { ingredient: Ingredient::Item("minecraft:cobblestone".into()), count: 1 },
                IngredientSlot { ingredient: Ingredient::Item("minecraft:cobblestone".into()), count: 1 },
                IngredientSlot { ingredient: Ingredient::Item("minecraft:cobblestone".into()), count: 1 },
                IngredientSlot { ingredient: Ingredient::Empty, count: 1 },
                IngredientSlot { ingredient: Ingredient::Item("minecraft:stick".into()), count: 1 },
                IngredientSlot { ingredient: Ingredient::Empty, count: 1 },
                IngredientSlot { ingredient: Ingredient::Empty, count: 1 },
                IngredientSlot { ingredient: Ingredient::Item("minecraft:stick".into()), count: 1 },
                IngredientSlot { ingredient: Ingredient::Empty, count: 1 },
            ],
        },
        known: true,
        special: false,
    };
    let logs = vec![
        "minecraft:oak_log".to_string(),
        "minecraft:spruce_log".to_string(),
        "minecraft:birch_log".to_string(),
    ];
    RecipeBook::new(source(), vec![planks, stick, pick], vec![("minecraft:logs".into(), logs)]).unwrap()
}

#[test]
fn availability_uses_alternatives_and_does_not_mutate_inventory() {
    let book = tagged_book();
    let inv = counts(&[("minecraft:bamboo_planks", 4)]);
    let before = inv.clone();
    let got = book.availability(book.recipe("stick").unwrap(), &inv, true, 2);
    assert_eq!(got.maximum_crafts, 2);
    assert_eq!(got.crafts, 2);
    assert!(got.missing.is_empty());
    assert_eq!(inv, before);
}

#[test]
fn tag_and_missing_counts_are_reported() {
    let book = tagged_book();
    let got = book.availability(book.recipe("oak_planks").unwrap(), &counts(&[]), true, 2);
    assert_eq!(got.maximum_crafts, 0);
    assert_eq!(got.crafts, 0);
    assert_eq!(got.missing.len(), 1);
    assert_eq!(got.missing[0].count, 2);
    assert_eq!(got.missing[0].alternatives.len(), 3);
    assert_eq!(got.missing[0].ingredient, "minecraft:birch_log");
}

#[test]
fn grid_station_is_enforced() {
    let book = tagged_book();
    let inv = counts(&[("minecraft:cobblestone", 3), ("minecraft:stick", 2)]);
    let got = book.availability(book.recipe("stone_pickaxe").unwrap(), &inv, false, 1);
    assert_eq!(got.failure, Some(Failure::StationUnavailable(Station::CraftingTable)));
    assert_eq!(got.station_required, Station::CraftingTable);
    let got = book.availability(book.recipe("stone_pickaxe").unwrap(), &inv, true, 1);
    assert_eq!(got.failure, None);
    assert_eq!(got.maximum_crafts, 1);
}

#[test]
fn an_unknown_tag_is_missing_as_a_whole() {
    let mut weird = unary("minecraft:w", "minecraft:w", "minecraft:x");
    weird.layout = RecipeLayout::Shapeless {
        ingredients: vec![IngredientSlot { ingredient: Ingredient::Tag("minecraft:nothing".into()), count: 3 }],
    };
    let book = custom(vec![weird]);
    let got = book.availability(book.recipe("w").unwrap(), &counts(&[]), true, 2);
    assert_eq!(got.missing.len(), 1);
    assert_eq!(got.missing[0].ingredient, "Tag(\"minecraft:nothing\")");
    assert_eq!(got.missing[0].count, 6);
    assert_eq!(
        book.plan("w", 1, &counts(&[]), true, 4).failure,
        Some(Failure::UnsupportedIngredient("unknown tag minecraft:nothing".into()))
    );
}

#[test]
fn rounds_operations_and_consumes_intermediates_virtually() {
    let book = tagged_book();
    let inv = counts(&[("minecraft:oak_log", 1)]);
    let plan = book.plan("stick", 5, &inv, true, 8);
    assert_eq!(plan.failure, None);
    assert_eq!(plan.steps.last().unwrap().operations, 2);
    assert_eq!(plan.steps.last().unwrap().produced, 8);
    assert!(plan.steps.iter().any(|s| s.output == "minecraft:oak_planks"));
    assert!(plan.steps.iter().any(|s| s.output == "minecraft:stick"));
}

#[test]
fn resolve_grid_places_shaped_ingredients_by_recipe_shape() {
    let book = tagged_book();
    let inv = counts(&[("minecraft:oak_planks", 4)]);
    let plan = book.resolve_grid("stick", 4, &inv).unwrap();
    assert_eq!(plan.recipe_id, "minecraft:stick");
    assert_eq!(plan.output_item, "minecraft:stick");
    assert_eq!(plan.requested_output, 4);
    assert_eq!(plan.grid_size(), 2);
    assert_eq!(plan.placements.len(), 2);
    assert!(plan.placements.iter().all(|p| p.item == "minecraft:oak_planks" && p.column == 0));
    let rows: Vec<u8> = plan.placements.iter().map(|p| p.row).collect();
    assert!(rows.contains(&0) && rows.contains(&1));
}

#[test]
fn resolve_grid_reports_table_sized_recipes() {
    let book = tagged_book();
    let inv = counts(&[("minecraft:cobblestone", 3), ("minecraft:stick", 2)]);
    let plan = book.resolve_grid("stone_pickaxe", 1, &inv).unwrap();
    assert_eq!(plan.grid_size(), 3);
    assert!(plan.shaped);
}

#[test]
fn resolve_grid_prefers_ingredients_already_in_stock() {
    let book = tagged_book();
    let inv = counts(&[("minecraft:spruce_log", 4)]);
    let plan = book.resolve_grid("oak_planks", 4, &inv).unwrap();
    assert!(plan.placements.iter().all(|p| p.item == "minecraft:spruce_log"));
    assert!(!plan.shaped);
}

#[test]
fn resolve_grid_fails_for_unknown_item() {
    let book = tagged_book();
    assert_eq!(
        book.resolve_grid("not_real", 1, &counts(&[])).unwrap_err(),
        Failure::UnknownItem("minecraft:not_real".into())
    );
}

fn menu_with(slots: Vec<Option<(&str, u32, u32)>>, inventory_slots: Vec<usize>) -> magic_bot::crafting::CraftingMenuSnapshot {
    magic_bot::crafting::CraftingMenuSnapshot {
        window_id: 0,
        revision: 1,
        result_slot: 0,
        inventory_slots,
        slots: slots
            .into_iter()
            .map(|s| {
                s.map(|(id, count, max)| magic_bot::container::model::StackSnapshot {
                    item_id: id.into(),
                    count,
                    max_count: max,
                })
            })
            .collect(),
        result: None,
    }
}

#[test]
fn the_item_slot_is_the_first_inventory_slot_holding_it() {
    let menu = menu_with(
        vec![
            Some(("minecraft:stick", 4, 64)),
            None,
            Some(("minecraft:oak_planks", 0, 64)),
            Some(("minecraft:oak_planks", 3, 64)),
            Some(("minecraft:oak_planks", 5, 64)),
        ],
        vec![1, 2, 3, 4],
    );
    assert_eq!(menu.find_item_slot("minecraft:oak_planks"), Some(3));
    // Slot 0 is not an inventory slot, so its sticks are never offered.
    assert_eq!(menu.find_item_slot("minecraft:stick"), None);
}

#[test]
fn a_crafted_item_stacks_onto_a_partial_stack_before_an_empty_slot() {
    let menu = menu_with(
        vec![None, None, Some(("minecraft:stick", 64, 64)), Some(("minecraft:stick", 10, 64))],
        vec![1, 2, 3],
    );
    assert_eq!(menu.find_destination_slot("minecraft:stick"), Some(3));
    assert_eq!(menu.find_destination_slot("minecraft:torch"), Some(1));
}

#[test]
fn a_full_inventory_has_no_destination() {
    let menu = menu_with(vec![Some(("minecraft:stick", 64, 64)), Some(("minecraft:dirt", 1, 64))], vec![0, 1]);
    assert_eq!(menu.find_destination_slot("minecraft:stick"), None);
}

fn shaped(id: &str, output: &str, output_count: u32, width: u8, height: u8, cells: &[&str]) -> Recipe {
    Recipe {
        id: id.into(),
        output: output.into(),
        output_count,
        station: if width > 2 || height > 2 { Station::CraftingTable } else { Station::Player },
        layout: RecipeLayout::Shaped {
            width,
            height,
            ingredients: cells
                .iter()
                .map(|c| IngredientSlot {
                    ingredient: if c.is_empty() { Ingredient::Empty } else { Ingredient::Item((*c).into()) },
                    count: 1,
                })
                .collect(),
        },
        known: true,
        special: false,
    }
}

#[test]
fn a_live_craft_refuses_a_zero_count_and_an_unknown_item() {
    let book = custom(vec![shaped("minecraft:stick", "minecraft:stick", 4, 1, 2, &["minecraft:oak_planks", "minecraft:oak_planks"])]);
    assert!(matches!(prepare_live_craft(&book, "stick", 0, &counts(&[])), Err(LiveCraftRefusal::ZeroCount)));
    assert!(matches!(
        prepare_live_craft(&book, "torch", 1, &counts(&[])),
        Err(LiveCraftRefusal::Unresolved(Failure::UnknownItem(_)))
    ));
}

#[test]
fn a_live_craft_counts_operations_and_checks_every_ingredient() {
    let book = custom(vec![shaped("minecraft:stick", "minecraft:stick", 4, 1, 2, &["minecraft:oak_planks", "minecraft:oak_planks"])]);
    // Nine sticks take three operations, six planks.
    let (plan, operations) = prepare_live_craft(&book, "stick", 9, &counts(&[("minecraft:oak_planks", 6)])).unwrap();
    assert_eq!(operations, 3);
    assert_eq!(plan.output_item, "minecraft:stick");
    match prepare_live_craft(&book, "stick", 9, &counts(&[("minecraft:oak_planks", 5)])) {
        Err(LiveCraftRefusal::Missing { item, missing, have }) => {
            assert_eq!(item, "minecraft:oak_planks");
            assert_eq!((missing, have), (1, 5));
        }
        _ => panic!("five planks are one short"),
    }
}

#[test]
fn a_live_craft_caps_operations_and_reports_the_first_short_ingredient_by_id() {
    let book = custom(vec![shaped("minecraft:torch", "minecraft:torch", 4, 1, 2, &["minecraft:coal", "minecraft:stick"])]);
    let plenty = counts(&[("minecraft:coal", 1000), ("minecraft:stick", 1000)]);
    let (_, operations) = prepare_live_craft(&book, "torch", 1000, &plenty).unwrap();
    assert_eq!(operations, LIVE_CRAFT_MAX_OPERATIONS);
    match prepare_live_craft(&book, "torch", 8, &counts(&[])) {
        Err(LiveCraftRefusal::Missing { item, missing, have }) => {
            assert_eq!(item, "minecraft:coal");
            assert_eq!((missing, have), (2, 0));
        }
        _ => panic!("nothing is held"),
    }
}

#[test]
fn a_live_craft_refuses_a_table_recipe() {
    let book = custom(vec![shaped(
        "minecraft:stone_pickaxe",
        "minecraft:stone_pickaxe",
        1,
        3,
        3,
        &["minecraft:cobblestone", "minecraft:cobblestone", "minecraft:cobblestone", "", "minecraft:stick", "", "", "minecraft:stick", ""],
    )]);
    let stock = counts(&[("minecraft:cobblestone", 3), ("minecraft:stick", 2)]);
    assert!(matches!(prepare_live_craft(&book, "stone_pickaxe", 1, &stock), Err(LiveCraftRefusal::NeedsTable)));
}

#[test]
fn placements_map_onto_the_player_grid_row_by_row() {
    let at = |row, column| IngredientPlacement { item: "minecraft:stick".into(), row, column };
    assert_eq!(player_grid_slot(&at(0, 0)), 1);
    assert_eq!(player_grid_slot(&at(0, 1)), 2);
    assert_eq!(player_grid_slot(&at(1, 0)), 3);
    assert_eq!(player_grid_slot(&at(1, 1)), 4);
}

#[test]
fn the_crafted_output_goes_to_a_stack_with_room_or_an_empty_slot() {
    let mut menu = menu_with(vec![None, None, Some(("minecraft:stick", 60, 64))], vec![1, 2]);
    assert_eq!(menu.output_destination("minecraft:stick"), Err(OutputRefusal::WrongResult));
    menu.result = Some(("minecraft:stick".into(), 4));
    assert_eq!(menu.output_destination("minecraft:stick"), Ok(2));
    assert_eq!(menu.output_destination("minecraft:torch"), Err(OutputRefusal::WrongResult));
    let full = {
        let mut m = menu_with(vec![Some(("minecraft:dirt", 64, 64))], vec![0]);
        m.result = Some(("minecraft:stick".into(), 4));
        m
    };
    assert_eq!(full.output_destination("minecraft:stick"), Err(OutputRefusal::NoSpace));
}

#[test]
fn a_running_craft_reports_its_recipe_and_progress() {
    let service = CraftService::default();
    assert!(service.begin());
    service.set_recipe("minecraft:stick".into());
    service.record_progress(2, 8);
    let status = service.status();
    assert!(status.active);
    assert_eq!(status.recipe_id, Some("minecraft:stick".to_string()));
    assert_eq!((status.completed_operations, status.crafted), (2, 8));
    service.finish(Some(CraftStatus::Completed));
    assert!(!service.status().active);
    // A finished service can be claimed again, with a clean slate.
    assert!(service.begin());
    assert_eq!(service.status().crafted, 0);
    assert!(!service.cancellation().is_cancelled());
}

#[test]
fn an_operation_counts_only_once_its_output_arrives_at_a_newer_revision() {
    let plan = sticks(8);
    let state = MenuSnapshot { revision: 5, inventory: counts(&[("minecraft:stick", 2)]), free_inventory_slots: 3, ..Default::default() };
    let arrived = MenuSnapshot { revision: 6, inventory: counts(&[("minecraft:stick", 6)]), free_inventory_slots: 3, ..Default::default() };
    assert_eq!(operation_reply(&plan, &state, &Ok(arrived.clone())), StepOutcome::Accepted);
    let short = MenuSnapshot { revision: 6, inventory: counts(&[("minecraft:stick", 5)]), free_inventory_slots: 3, ..Default::default() };
    assert_eq!(operation_reply(&plan, &state, &Ok(short)), StepOutcome::Stopped(CraftStatus::Rejected));
    let stale = MenuSnapshot { revision: 5, ..arrived.clone() };
    assert_eq!(operation_reply(&plan, &state, &Ok(stale)), StepOutcome::Stopped(CraftStatus::Rejected));
    let full = MenuSnapshot { revision: 6, inventory: counts(&[("minecraft:stick", 2)]), free_inventory_slots: 0, ..Default::default() };
    assert_eq!(operation_reply(&plan, &state, &Ok(full)), StepOutcome::Stopped(CraftStatus::NoSpace));
    assert_eq!(operation_reply(&plan, &state, &Err(DriverError::Died)), StepOutcome::Stopped(CraftStatus::Died));
}

#[test]
fn placements_and_opening_are_judged_by_their_replies() {
    let newer = MenuSnapshot { revision: 8, menu: Some(CraftingMenu::Player), ..Default::default() };
    assert_eq!(placement_reply(7, &Ok(newer.clone())), StepOutcome::Accepted);
    assert_eq!(placement_reply(8, &Ok(newer.clone())), StepOutcome::Stopped(CraftStatus::Rejected));
    assert_eq!(placement_reply(7, &Err(DriverError::TimedOut)), StepOutcome::Stopped(CraftStatus::TimedOut));
    assert_eq!(open_reply(7, CraftingMenu::Player, &Ok(newer.clone())), StepOutcome::Accepted);
    assert_eq!(open_reply(7, CraftingMenu::Table, &Ok(newer)), StepOutcome::Stopped(CraftStatus::WrongMenu));
    assert_eq!(open_reply(7, CraftingMenu::Player, &Err(DriverError::Disconnected)), StepOutcome::Stopped(CraftStatus::Disconnected));
}

#[test]
fn what_is_handed_to_the_driver() {
    let cell = IngredientPlacement { item: "minecraft:plank".into(), row: 1, column: 2 };
    assert_eq!(grid_cell(&cell, CraftingMenu::Table), 5);
    let small = IngredientPlacement { item: "minecraft:plank".into(), row: 1, column: 1 };
    assert_eq!(grid_cell(&small, CraftingMenu::Player), 3);
    let options = CraftingOptions::default();
    assert_eq!(menu_request(&sticks(4), &options), MenuRequest::Player);
    let mut wide = sticks(4);
    wide.placements.push(IngredientPlacement { item: "minecraft:plank".into(), row: 2, column: 0 });
    let table = menu_request(&wide, &options);
    assert_eq!(table, MenuRequest::Table { radius: options.table_search_radius, navigate: options.allow_table_navigation });
    let refused = CraftingOptions { allow_table: false, ..CraftingOptions::default() };
    assert_eq!(menu_request(&wide, &refused), MenuRequest::Refused);
}

#[test]
fn a_failed_preflight_is_the_run_and_calls_no_driver_step() {
    let mut m = Mock::new(&[("minecraft:plank", 1)]);
    let start = m.snapshot();
    let r = execute_from_snapshot(&mut m, &sticks(4), &CraftingOptions::default(), &CraftCancellation::default(), &std::time::Instant::now(), &start);
    assert_eq!(r.status, CraftStatus::MissingMaterials);
    assert_eq!(r.missing.get("minecraft:plank"), 1);
    assert_eq!(r.initial_revision, start.revision);
    assert_eq!(m.state.menu, None);
}

#[test]
fn the_run_machine_asks_nothing_when_materials_are_missing() {
    let m = Mock::new(&[("minecraft:plank", 1)]);
    let options = CraftingOptions::default();
    let run = craft_begin(&sticks(4), &options, &m.state);
    assert_eq!(run.phase, RunPhase::Done);
    assert_eq!(run.result.status, CraftStatus::MissingMaterials);
    assert_eq!(craft_request(&sticks(4), &options, &run), CraftRequest::Finished);
}

#[test]
fn the_run_machine_asks_for_each_placement_and_completes_on_accepted_replies() {
    let plan = sticks(4);
    let options = CraftingOptions::default();
    let mut m = Mock::new(&[("minecraft:plank", 2)]);
    let mut run = craft_begin(&plan, &options, &m.state);
    assert_eq!(craft_request(&plan, &options, &run), CraftRequest::OpenPlayer);
    craft_step(&plan, &options, &mut run, CraftEvent::Reply(m.open_player_menu()));
    assert_eq!(craft_request(&plan, &options, &run), CraftRequest::CheckLimits);
    craft_step(&plan, &options, &mut run, CraftEvent::Limits { timed_out: false, cancelled: false });
    let first = craft_request(&plan, &options, &run);
    assert_eq!(first, CraftRequest::PlaceOne { cell: 0, item: "minecraft:plank".into(), after: 2 });
    craft_step(&plan, &options, &mut run, CraftEvent::Reply(m.place_one(0, "minecraft:plank", 2)));
    assert_eq!(craft_request(&plan, &options, &run), CraftRequest::CheckCancel);
    craft_step(&plan, &options, &mut run, CraftEvent::Cancelled(false));
    assert_eq!(craft_request(&plan, &options, &run), CraftRequest::PlaceOne { cell: 2, item: "minecraft:plank".into(), after: 3 });
    craft_step(&plan, &options, &mut run, CraftEvent::Reply(m.place_one(2, "minecraft:plank", 3)));
    craft_step(&plan, &options, &mut run, CraftEvent::Cancelled(false));
    assert_eq!(craft_request(&plan, &options, &run), CraftRequest::TakeOutput { item: "minecraft:stick".into(), after: 4 });
    craft_step(&plan, &options, &mut run, CraftEvent::Reply(m.take_output("minecraft:stick", 4)));
    assert_eq!(run.result.status, CraftStatus::Completed);
    assert_eq!((run.result.crafted, run.result.completed_operations), (4, 1));
    assert!(run.phase == RunPhase::Done || run.phase == RunPhase::Recovering);
}

#[test]
fn a_live_craft_checks_the_stop_switch_places_in_order_and_counts_output() {
    let plan = sticks(8);
    let mut run = live_begin(&plan, 2);
    for _ in 0..2 {
        assert_eq!(live_request(&plan, &run), LiveRequest::CheckCancel);
        run = live_step(&plan, &run, LiveEvent::Cancelled(false));
        assert_eq!(live_request(&plan, &run), LiveRequest::Place { slot: 1, item: "minecraft:plank".into() });
        run = live_step(&plan, &run, LiveEvent::Clicked(true));
        assert_eq!(live_request(&plan, &run), LiveRequest::Place { slot: 3, item: "minecraft:plank".into() });
        run = live_step(&plan, &run, LiveEvent::Clicked(true));
        assert_eq!(live_request(&plan, &run), LiveRequest::TakeOutput { item: "minecraft:stick".into() });
        run = live_step(&plan, &run, LiveEvent::Clicked(true));
    }
    assert_eq!(run.phase, LivePhase::Done);
    assert_eq!(run.outcome, Some(LiveOutcome::Crafted(8)));
    let stopped = live_step(&plan, &live_begin(&plan, 2), LiveEvent::Cancelled(true));
    assert_eq!(stopped.outcome, Some(LiveOutcome::Cancelled));
}

#[test]
fn the_service_decisions_follow_the_status_read() {
    let idle = CraftServiceStatus::default();
    let busy = CraftServiceStatus { active: true, recipe_id: Some("minecraft:stick".into()), crafted: 4, ..Default::default() };
    assert!(!stop_decision(&idle));
    assert!(stop_decision(&busy));
    assert!(claim_decision(&busy).is_none());
    let fresh = claim_decision(&CraftServiceStatus { crafted: 9, last_status: Some(CraftStatus::Completed), ..Default::default() })
        .expect("an idle service is claimed");
    assert!(fresh.active);
    assert_eq!((fresh.recipe_id, fresh.completed_operations, fresh.crafted, fresh.last_status), (None, 0, 0, None));
}

#[test]
fn stop_on_and_begin_on_act_on_the_status_given() {
    let service = CraftService::default();
    let busy = CraftServiceStatus { active: true, ..Default::default() };
    assert!(!service.begin_on(&busy));
    assert!(!service.status().active);
    assert!(!service.stop_on(&CraftServiceStatus::default()));
    assert!(!service.cancellation().is_cancelled());
    assert!(service.stop_on(&busy));
    assert!(service.cancellation().is_cancelled());
    assert!(service.begin_on(&CraftServiceStatus::default()));
    assert!(service.status().active);
    assert!(!service.cancellation().is_cancelled());
}

#[test]
fn the_limits_answer_follows_the_clock_then_the_stop_switch() {
    let is = |e: CraftEvent, t: bool, c: bool| matches!(e, CraftEvent::Limits { timed_out, cancelled } if timed_out == t && cancelled == c);
    assert!(is(limits_event(0, 0, false), true, false));
    assert!(is(limits_event(30_000, 30_000, true), true, false));
    assert!(is(limits_event(29_999, 30_000, true), false, true));
    assert!(is(limits_event(29_999, 30_000, false), false, false));
}

#[test]
fn a_run_left_without_recovery_reports_the_last_grid_and_cursor() {
    let mut m = Mock::new(&[("minecraft:plank", 4)]);
    m.fail_take = Some(DriverError::Rejected);
    let options = CraftingOptions { restore_grid: false, ..Default::default() };
    let r = execute(&mut m, &sticks(8), &options, &CraftCancellation::default());
    assert_eq!(r.status, CraftStatus::Rejected);
    assert!(!r.recovered);
    assert_eq!(r.grid, vec![Some("minecraft:plank".to_string()), None, Some("minecraft:plank".to_string()), None]);
    assert_eq!(r.cursor, None);
    assert_eq!(r.final_revision, m.state.revision);
}

#[test]
fn a_failed_check_keeps_the_start_grid_and_cursor() {
    let mut m = Mock::new(&[("minecraft:plank", 1)]);
    m.state.grid = vec![Some("minecraft:dirt".into()), None];
    m.state.cursor = Some(("minecraft:dirt".into(), 3));
    let r = run(&mut m, &sticks(4));
    assert_eq!(r.status, CraftStatus::MissingMaterials);
    assert_eq!(r.grid, vec![Some("minecraft:dirt".to_string()), None]);
    assert_eq!(r.cursor, Some(("minecraft:dirt".to_string(), 3)));
    assert_eq!(m.state.revision, 1);
}
