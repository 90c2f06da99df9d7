//! A play session: the game in progress, the dialog that is open, and what
//! each frame of input does to both.
//!
//! Nothing here draws or reads a device. The front end hands over the keys
//! pressed in a frame and the buttons clicked in a dialog, and shows what the
//! session holds afterwards.

use crate::dice::{TurnRolls, MAX_DAMAGE, MIN_DAMAGE};
use crate::game_condition::{
    ActiveCondition, CollectionCondition, ConditionView, GameStatus, SurvivalCondition,
    TreasureHuntCondition,
};
use crate::item::ItemType;
use crate::messages;
use crate::messages::{death_text, no_items_text};
use crate::npc::npc_at;
use crate::state::{is_initial, GameState, GameStateView};
use crate::world::{item_at, TileType};
use vstd::prelude::*;

verus! {

/// The dialog that is open, if any.
#[derive(Debug, Clone, Copy, PartialEq, Eq, Structural)]
pub enum DialogState {
    GameTypeSelection,
    NoDialog,
    QuitConfirmation,
    UseItem,
    GameOver,
    Victory,
}

impl Default for DialogState {
    /// A session opens with the choice of the game mode.
    fn default() -> (dialog: DialogState)
        ensures
            dialog == DialogState::GameTypeSelection,
    {
        DialogState::GameTypeSelection
    }
}

/// The game modes on offer.
#[derive(Debug, Clone, Copy, PartialEq, Eq, Structural)]
pub enum AvailableGameType {
    TreasureHunt,
    Survival,
    Collection,
}

impl AvailableGameType {
    /// The name of the mode, as shown in the menu.
    pub open spec fn name_text(self) -> Seq<char> {
        match self {
            AvailableGameType::TreasureHunt => "Treasure Hunt"@,
            AvailableGameType::Survival => "Survival Challenge"@,
            AvailableGameType::Collection => "Item Collection"@,
        }
    }

    /// What the menu says of the mode.
    pub open spec fn description_text(self) -> Seq<char> {
        match self {
            AvailableGameType::TreasureHunt => "Find and collect the treasure while avoiding dangers."@,
            AvailableGameType::Survival => "Survive for 50 turns without dying."@,
            AvailableGameType::Collection => "Collect 3 gems, 2 scrolls, and 1 potion."@,
        }
    }

    /// The condition that the mode is played under: a survival game lasts 50
    /// turns, and a collection asks for three gems, two scrolls and a potion.
    pub open spec fn condition_view(self) -> ConditionView {
        match self {
            AvailableGameType::TreasureHunt => ConditionView::TreasureHunt,
            AvailableGameType::Survival => ConditionView::Survival { target_turns: 50 },
            AvailableGameType::Collection => ConditionView::Collection {
                required_items: seq![
                    (ItemType::Gem, 3u32),
                    (ItemType::Scroll, 2u32),
                    (ItemType::Potion, 1u32),
                ],
            },
        }
    }

    pub fn get_name(&self) -> (name: &str)
        ensures
            name@ == self.name_text(),
    {
        match self {
            AvailableGameType::TreasureHunt => "Treasure Hunt",
            AvailableGameType::Survival => "Survival Challenge",
            AvailableGameType::Collection => "Item Collection",
        }
    }

    pub fn get_description(&self) -> (description: &str)
        ensures
            description@ == self.description_text(),
    {
        match self {
            AvailableGameType::TreasureHunt => "Find and collect the treasure while avoiding dangers.",
            AvailableGameType::Survival => "Survive for 50 turns without dying.",
            AvailableGameType::Collection => "Collect 3 gems, 2 scrolls, and 1 potion.",
        }
    }

    /// Makes the condition that the mode is played under.
    pub fn condition(&self) -> (condition: ActiveCondition)
        ensures
            condition@ == self.condition_view(),
    {
        match self {
            AvailableGameType::TreasureHunt => ActiveCondition::TreasureHunt(TreasureHuntCondition),
            AvailableGameType::Survival => ActiveCondition::Survival(SurvivalCondition::new(50)),
            AvailableGameType::Collection => {
                let mut required_items: Vec<(ItemType, u32)> = Vec::new();
                required_items.push((ItemType::Gem, 3));
                required_items.push((ItemType::Scroll, 2));
                required_items.push((ItemType::Potion, 1));
                assert(required_items@ =~= seq![
                    (ItemType::Gem, 3u32),
                    (ItemType::Scroll, 2u32),
                    (ItemType::Potion, 1u32),
                ]);
                ActiveCondition::Collection(CollectionCondition::new(required_items))
            },
        }
    }
}

/// What the pointer did over the map in one frame.
#[derive(Debug)]
pub struct WorldViewInteraction {
    /// The tile under the pointer.
    pub mouse_position: Option<(i32, i32)>,
    /// The tile that was clicked.
    pub clicked_position: Option<(i32, i32)>,
}

impl WorldViewInteraction {
    pub fn new() -> (interaction: WorldViewInteraction)
        ensures
            interaction == (WorldViewInteraction { mouse_position: None, clicked_position: None }),
    {
        WorldViewInteraction { mouse_position: None, clicked_position: None }
    }

    pub fn with_mouse_position(self, pos: Option<(i32, i32)>) -> (interaction:
        WorldViewInteraction)
        ensures
            interaction == (WorldViewInteraction { mouse_position: pos, ..self }),
    {
        WorldViewInteraction { mouse_position: pos, clicked_position: self.clicked_position }
    }

    pub fn with_clicked_position(self, pos: Option<(i32, i32)>) -> (interaction:
        WorldViewInteraction)
        ensures
            interaction == (WorldViewInteraction { clicked_position: pos, ..self }),
    {
        WorldViewInteraction { mouse_position: self.mouse_position, clicked_position: pos }
    }
}

impl Default for WorldViewInteraction {
    fn default() -> (interaction: WorldViewInteraction)
        ensures
            interaction == (WorldViewInteraction { mouse_position: None, clicked_position: None }),
    {
        WorldViewInteraction::new()
    }
}

/// The keys that were pressed in one frame.
#[derive(Debug, Clone, Copy, PartialEq, Eq, Structural)]
pub struct FrameInput {
    pub quit: bool,
    pub up: bool,
    pub down: bool,
    pub left: bool,
    pub right: bool,
    pub pickup: bool,
    pub use_item: bool,
}

impl FrameInput {
    /// The step that the movement keys ask for. Down wins over up and right
    /// over left; the two axes are independent.
    pub open spec fn step(self) -> (int, int) {
        (
            if self.right {
                1
            } else if self.left {
                -1
            } else {
                0
            },
            if self.down {
                1
            } else if self.up {
                -1
            } else {
                0
            },
        )
    }

    /// Whether the keys ask for a step at all.
    pub open spec fn moves(self) -> bool {
        self.step() != (0int, 0int)
    }

    /// Whether the keys make the player act, so that the creatures answer.
    pub open spec fn acts(self) -> bool {
        self.moves() || self.pickup || self.use_item
    }

    /// A frame in which no key was pressed.
    pub fn none() -> (input: FrameInput)
        ensures
            !input.quit,
            !input.acts(),
    {
        FrameInput {
            quit: false,
            up: false,
            down: false,
            left: false,
            right: false,
            pickup: false,
            use_item: false,
        }
    }
}

/// What is drawn on a tile: whatever is on top.
#[derive(Debug, Clone, Copy, PartialEq, Eq, Structural)]
pub enum TopLayer {
    /// The player stands here.
    Player,
    /// The creature at this index stands here.
    Npc(usize),
    /// The item at this index of the world's items lies here.
    Item(usize),
    /// Nothing but the ground.
    Tile(TileType),
    /// The tile is outside the grid.
    Nothing,
}

/// What is on top at `p`: the player before any creature, a creature before
/// any item, an item before the ground.
pub open spec fn top_layer(state: GameStateView, p: (i32, i32)) -> TopLayer {
    if state.player.position == p {
        TopLayer::Player
    } else if let Some(i) = npc_at(state.npcs, p) {
        TopLayer::Npc(i as usize)
    } else if let Some(i) = item_at(state.world.items, p) {
        TopLayer::Item(i as usize)
    } else if let Some(tile) = state.world.tile_at(p.0 as int, p.1 as int) {
        TopLayer::Tile(tile)
    } else {
        TopLayer::Nothing
    }
}

/// The game after the player's commands of one frame, before the creatures
/// answer: the step, then the pickup, then the note that there is nothing to
/// use if the inventory is asked for and is empty.
pub open spec fn after_commands(game: GameStateView, input: FrameInput, damage: int) -> GameStateView {
    let moved = if input.moves() {
        game.after_move(input.step().0, input.step().1, damage)
    } else {
        game
    };
    let picked = if input.pickup {
        moved.after_pickup()
    } else {
        moved
    };
    if input.use_item && picked.player.inventory.len() == 0 {
        picked.logged(no_items_text())
    } else {
        picked
    }
}

/// The game after one frame of input in play: the player's commands, and
/// then, if the player acted, every creature's turn.
pub open spec fn after_frame(
    game: GameStateView,
    input: FrameInput,
    damage: int,
    rolls: Seq<TurnRolls>,
) -> GameStateView {
    let commanded = after_commands(game, input, damage);
    if input.acts() {
        commanded.after_all_npc_turns(rolls)
    } else {
        commanded
    }
}

/// A play session.
#[derive(Debug)]
pub struct RoguelikeApp {
    /// The game in progress, once a mode has been chosen.
    pub game_state: Option<GameState>,
    pub dialog_state: DialogState,
    /// The tile under the pointer.
    pub mouse_world_pos: Option<(i32, i32)>,
}

/// The mathematical value of a [`RoguelikeApp`].
pub struct AppView {
    pub game_state: Option<GameStateView>,
    pub dialog_state: DialogState,
    pub mouse_world_pos: Option<(i32, i32)>,
}

impl View for RoguelikeApp {
    type V = AppView;

    open spec fn view(&self) -> AppView {
        AppView {
            game_state: match self.game_state {
                Some(game) => Some(game@),
                None => None,
            },
            dialog_state: self.dialog_state,
            mouse_world_pos: self.mouse_world_pos,
        }
    }
}

impl AppView {
    /// The game in progress, if there is one, is well formed.
    pub open spec fn wf(self) -> bool {
        self.game_state matches Some(game) ==> game.wf()
    }

    /// The game with the death of the player noted in the log, if there is a
    /// game and the player is dead.
    pub open spec fn noted(self) -> Option<GameStateView> {
        match self.game_state {
            Some(game) => if game.player.is_alive() {
                Some(game)
            } else {
                Some(game.logged(death_text()))
            },
            None => None,
        }
    }

    /// The session after one frame of input.
    ///
    /// A dead player is noted in the log in every frame. The quit key opens
    /// the quit dialog and nothing else happens. Otherwise, while no dialog
    /// is open and a game is in progress, the frame is played; the use key
    /// then opens the item dialog if the player carries anything.
    pub open spec fn after_input(
        self,
        input: FrameInput,
        damage: int,
        rolls: Seq<TurnRolls>,
    ) -> AppView {
        if input.quit {
            AppView {
                game_state: self.noted(),
                dialog_state: DialogState::QuitConfirmation,
                ..self
            }
        } else if self.dialog_state == DialogState::NoDialog && self.game_state is Some {
            let game = self.noted()->0;
            AppView {
                game_state: Some(after_frame(game, input, damage, rolls)),
                dialog_state: if input.use_item && after_commands(
                    game,
                    input,
                    damage,
                ).player.inventory.len() > 0 {
                    DialogState::UseItem
                } else {
                    DialogState::NoDialog
                },
                ..self
            }
        } else {
            AppView { game_state: self.noted(), ..self }
        }
    }

    /// The session once the end of the game has been looked for: while no
    /// dialog is open, a lost game opens the game-over dialog and a won game
    /// the victory dialog.
    pub open spec fn after_status_check(self) -> AppView {
        if self.dialog_state == DialogState::NoDialog && self.game_state is Some {
            match self.game_state->0.status() {
                GameStatus::Lost => AppView { dialog_state: DialogState::GameOver, ..self },
                GameStatus::Won => AppView { dialog_state: DialogState::Victory, ..self },
                GameStatus::Playing => self,
            }
        } else {
            self
        }
    }
}

/// Whether `damage` and `rolls` can be what the dice showed in a frame that
/// ended with `creatures` creatures in play.
pub open spec fn dice_fit(damage: int, rolls: Seq<TurnRolls>, creatures: nat) -> bool {
    &&& MIN_DAMAGE <= damage <= MAX_DAMAGE
    &&& rolls.len() == creatures
    &&& forall|i: int| 0 <= i < rolls.len() ==> (#[trigger] rolls[i]).valid()
}

impl GameState {
    /// What is on top at `(x, y)`: the player before any creature, a creature
    /// before any item, an item before the ground.
    pub fn top_layer_at(&self, x: i32, y: i32) -> (layer: TopLayer)
        requires
            self.wf(),
        ensures
            layer == top_layer(self@, (x, y)),
    {
        if self.player.position.0 == x && self.player.position.1 == y {
            return TopLayer::Player;
        }
        if let Some(i) = self.find_npc_at((x, y)) {
            return TopLayer::Npc(i);
        }
        if let Some(i) = self.world.find_item_at((x, y)) {
            return TopLayer::Item(i);
        }
        match self.world.get_tile(x, y) {
            Some(tile) => TopLayer::Tile(*tile),
            None => TopLayer::Nothing,
        }
    }

    /// Carries out the player's commands of one frame: the step, then the
    /// pickup, then the note that there is nothing to use. Says whether the
    /// item dialog is to open.
    pub fn run_commands(&mut self, input: &FrameInput) -> (wants_items: bool)
        requires
            old(self).wf(),
        ensures
            exists|damage: int|
                {
                    &&& MIN_DAMAGE <= damage <= MAX_DAMAGE
                    &&& final(self)@ == #[trigger] after_commands(old(self)@, *input, damage)
                },
            wants_items == (input.use_item && final(self)@.player.inventory.len() > 0),
            final(self).wf(),
    {
        let mut dx: i32 = 0;
        let mut dy: i32 = 0;
        if input.up {
            dy = -1;
        }
        if input.down {
            dy = 1;
        }
        if input.left {
            dx = -1;
        }
        if input.right {
            dx = 1;
        }
        assert((dx as int, dy as int) == input.step());
        let ghost mut damage: int = MIN_DAMAGE as int;
        if dx != 0 || dy != 0 {
            self.try_move_player(dx, dy);
            proof {
                damage = choose|damage: int|
                    MIN_DAMAGE <= damage <= MAX_DAMAGE && self@ == #[trigger] old(
                        self,
                    )@.after_move(dx as int, dy as int, damage);
            }
        }
        if input.pickup {
            self.try_pickup_item();
        }
        let mut wants_items = false;
        if input.use_item {
            if self.player.inventory.len() > 0 {
                wants_items = true;
            } else {
                self.add_log_message(messages::no_items());
            }
        }
        assert(self@ == after_commands(old(self)@, *input, damage));
        wants_items
    }

    /// Plays one frame of input: the player's commands, and then, if the
    /// player acted, every creature's turn. Says whether the item dialog is
    /// to open.
    pub fn play_frame(&mut self, input: &FrameInput) -> (wants_items: bool)
        requires
            old(self).wf(),
        ensures
            exists|damage: int, rolls: Seq<TurnRolls>|
                {
                    &&& dice_fit(damage, rolls, final(self)@.npcs.len())
                    &&& final(self)@ == #[trigger] after_frame(old(self)@, *input, damage, rolls)
                    &&& wants_items == (input.use_item && after_commands(
                        old(self)@,
                        *input,
                        damage,
                    ).player.inventory.len() > 0)
                },
            final(self).wf(),
    {
        let wants_items = self.run_commands(input);
        let ghost commanded = self@;
        let ghost damage = choose|damage: int|
            {
                &&& MIN_DAMAGE <= damage <= MAX_DAMAGE
                &&& commanded == #[trigger] after_commands(old(self)@, *input, damage)
            };
        let acted = input.up || input.down || input.left || input.right || input.pickup
            || input.use_item;
        assert(acted == input.acts());
        if acted {
            self.process_npc_actions();
            proof {
                let rolls = choose|rolls: Seq<TurnRolls>|
                    {
                        &&& rolls.len() == commanded.npcs.len()
                        &&& forall|i: int| 0 <= i < rolls.len() ==> (#[trigger] rolls[i]).valid()
                        &&& self@ == #[trigger] commanded.after_npc_turns(
                            rolls,
                            rolls.len() as int,
                        )
                    };
                assert(self@ == after_frame(old(self)@, *input, damage, rolls));
                assert(dice_fit(damage, rolls, self@.npcs.len()));
            }
        } else {
            proof {
                let rolls = Seq::new(self@.npcs.len(), |i: int| quiet_rolls());
                assert(self@ == after_frame(old(self)@, *input, damage, rolls));
                assert(dice_fit(damage, rolls, self@.npcs.len()));
            }
        }
        wants_items
    }
}

/// Dice that are valid, for the turns that are not played.
pub open spec fn quiet_rolls() -> TurnRolls {
    TurnRolls {
        move_chance: 99,
        first_direction: 0,
        second_direction: 0,
        drop_chance: 99,
        ware: 0,
        damage: MIN_DAMAGE,
    }
}

impl RoguelikeApp {
    /// The game in progress, if there is one, is well formed.
    pub open spec fn wf(&self) -> bool {
        self@.wf()
    }

    /// Whether the game in progress, if there is one, is well formed.
    pub fn is_well_formed(&self) -> (well_formed: bool)
        ensures
            well_formed == self.wf(),
    {
        match &self.game_state {
            Some(game_state) => game_state.is_well_formed(),
            None => true,
        }
    }

    /// Opens a session: no game yet, and the choice of the mode on screen.
    pub fn new() -> (app: RoguelikeApp)
        ensures
            app@ == (AppView {
                game_state: None,
                dialog_state: DialogState::GameTypeSelection,
                mouse_world_pos: None,
            }),
            app.wf(),
    {
        RoguelikeApp {
            game_state: None,
            dialog_state: DialogState::GameTypeSelection,
            mouse_world_pos: None,
        }
    }

    /// Starts a game of the mode chosen, in place of any game in progress,
    /// and closes the dialog.
    pub fn start_game_with_type(&mut self, game_type: AvailableGameType)
        ensures
            final(self)@.game_state matches Some(game) && is_initial(game) && game.condition
                == game_type.condition_view(),
            final(self)@.dialog_state == DialogState::NoDialog,
            final(self)@.mouse_world_pos == old(self)@.mouse_world_pos,
            final(self).wf(),
    {
        let game_condition = game_type.condition();
        self.game_state = Some(GameState::with_condition(game_condition));
        self.dialog_state = DialogState::NoDialog;
    }

    /// Takes in the keys of one frame.
    ///
    /// A dead player is noted in the log in every frame. The quit key opens
    /// the quit dialog and nothing else happens. Otherwise, while no dialog
    /// is open and a game is in progress, the frame is played; the use key
    /// then opens the item dialog if the player carries anything.
    pub fn handle_input(&mut self, input: &FrameInput)
        requires
            old(self).wf(),
        ensures
            exists|damage: int, rolls: Seq<TurnRolls>|
                {
                    &&& MIN_DAMAGE <= damage <= MAX_DAMAGE
                    &&& forall|i: int| 0 <= i < rolls.len() ==> (#[trigger] rolls[i]).valid()
                    &&& final(self)@.game_state matches Some(game) ==> rolls.len()
                        == game.npcs.len()
                    &&& final(self)@ == #[trigger] old(self)@.after_input(*input, damage, rolls)
                },
            final(self).wf(),
    {
        let ghost mut damage: int = MIN_DAMAGE as int;
        let ghost mut rolls: Seq<TurnRolls> = Seq::empty();
        let playing = self.dialog_state == DialogState::NoDialog;
        let mut wants_items = false;
        match &mut self.game_state {
            Some(game_state) => {
                if !game_state.player.is_alive() {
                    game_state.add_log_message(messages::death());
                }
                let ghost noted = game_state@;
                if !input.quit && playing {
                    wants_items = game_state.play_frame(input);
                    proof {
                        let (d, r) = choose|d: int, r: Seq<TurnRolls>|
                            {
                                &&& dice_fit(d, r, game_state@.npcs.len())
                                &&& game_state@ == #[trigger] after_frame(noted, *input, d, r)
                                &&& wants_items == (input.use_item && after_commands(
                                    noted,
                                    *input,
                                    d,
                                ).player.inventory.len() > 0)
                            };
                        damage = d;
                        rolls = r;
                    }
                } else {
                    proof {
                        rolls = Seq::new(game_state@.npcs.len(), |i: int| quiet_rolls());
                    }
                }
            },
            None => {},
        }
        if input.quit {
            self.dialog_state = DialogState::QuitConfirmation;
        } else if wants_items {
            self.dialog_state = DialogState::UseItem;
        }
        assert(self@ == old(self)@.after_input(*input, damage, rolls));
    }

    /// Looks for the end of the game: while no dialog is open, a lost game
    /// opens the game-over dialog and a won game the victory dialog.
    pub fn check_status(&mut self)
        ensures
            final(self)@ == old(self)@.after_status_check(),
            old(self).wf() ==> final(self).wf(),
    {
        if self.dialog_state == DialogState::NoDialog {
            let status = match &self.game_state {
                Some(game_state) => game_state.check_game_status(),
                None => GameStatus::Playing,
            };
            match status {
                GameStatus::Lost => {
                    self.dialog_state = DialogState::GameOver;
                },
                GameStatus::Won => {
                    self.dialog_state = DialogState::Victory;
                },
                GameStatus::Playing => {},
            }
        }
    }

    /// One frame of the session: the keys are taken in, and then the end of
    /// the game is looked for.
    pub fn update(&mut self, input: &FrameInput)
        requires
            old(self).wf(),
        ensures
            exists|damage: int, rolls: Seq<TurnRolls>|
                {
                    &&& MIN_DAMAGE <= damage <= MAX_DAMAGE
                    &&& forall|i: int| 0 <= i < rolls.len() ==> (#[trigger] rolls[i]).valid()
                    &&& final(self)@.game_state matches Some(game) ==> rolls.len()
                        == game.npcs.len()
                    &&& final(self)@ == #[trigger] old(self)@.after_input(
                        *input,
                        damage,
                        rolls,
                    ).after_status_check()
                },
            final(self).wf(),
    {
        self.handle_input(input);
        let ghost taken_in = self@;
        self.check_status();
        proof {
            let (d, r) = choose|d: int, r: Seq<TurnRolls>|
                {
                    &&& MIN_DAMAGE <= d <= MAX_DAMAGE
                    &&& forall|i: int| 0 <= i < r.len() ==> (#[trigger] r[i]).valid()
                    &&& taken_in.game_state matches Some(game) ==> r.len() == game.npcs.len()
                    &&& taken_in == #[trigger] old(self)@.after_input(*input, d, r)
                };
            assert(self@ == old(self)@.after_input(*input, d, r).after_status_check());
        }
    }

    /// The player has chosen the item at index `index` in the item dialog: it
    /// is used, the creatures answer, and the dialog closes. Without a game,
    /// or without such an item, nothing happens.
    pub fn choose_item(&mut self, index: usize)
        requires
            old(self).wf(),
        ensures
            match old(self)@.game_state {
                Some(game) if index < game.player.inventory.len() => {
                    &&& final(self)@.dialog_state == DialogState::NoDialog
                    &&& final(self)@.mouse_world_pos == old(self)@.mouse_world_pos
                    &&& final(self)@.game_state matches Some(after) && exists|
                        rolls: Seq<TurnRolls>,
                    |
                        {
                            &&& rolls.len() == after.npcs.len()
                            &&& forall|i: int|
                                0 <= i < rolls.len() ==> (#[trigger] rolls[i]).valid()
                            &&& after == #[trigger] game.after_inventory_use(
                                index as int,
                            ).after_all_npc_turns(rolls)
                        }
                },
                _ => final(self)@ == old(self)@,
            },
            final(self).wf(),
    {
        let mut used = false;
        match &mut self.game_state {
            Some(game_state) => {
                used = game_state.use_inventory_item(index);
            },
            None => {},
        }
        if used {
            self.dialog_state = DialogState::NoDialog;
        }
    }

    /// Closes the dialog that is open and goes back to the game.
    pub fn close_dialog(&mut self)
        ensures
            final(self)@ == (AppView { dialog_state: DialogState::NoDialog, ..old(self)@ }),
    {
        self.dialog_state = DialogState::NoDialog;
    }

    /// Remembers the tile under the pointer.
    pub fn note_interaction(&mut self, interaction: &WorldViewInteraction)
        ensures
            final(self)@ == (AppView {
                mouse_world_pos: interaction.mouse_position,
                ..old(self)@
            }),
    {
        self.mouse_world_pos = interaction.mouse_position;
    }
}

} // verus!
