//! Input during a run: pausing, switching views, gathering scrap and
//! repairing.

use vstd::prelude::*;
use crate::enemy::entities::ScrapPile;
use crate::simulation::constants::{GATHERING_TIME, INTERACTION_RANGE, SCRAP_EFFICIENCY_BONUS};
use crate::simulation::events::{EventBus, UIEvent};
use crate::state::game_state::{GameState, ViewMode};
use crate::ui::input_manager::{InputManager, InputState};
use crate::ui::pause_menu::SettingsEffect;
use crate::units::{clamp_i32, clamp_to_i32, clamp_u64, div_toward_zero, divide_toward_zero, Vec2, MILLI};

verus! {

/// Id of the upgrade that raises the scrap of a pile.
pub open spec fn scrap_efficiency_id() -> Seq<char> {
    "scrap_efficiency"@
}

/// Id of the tutorial step that is dismissed by an interaction.
pub open spec fn complete_step_id() -> Seq<char> {
    "complete"@
}

/// Square of the speed, in thousandths of a pixel per second, from which
/// on the player counts as moving.
pub const MOVING_SPEED_SQUARED: i64 = 10_000;

/// Whether pile `i` is active and strictly within `INTERACTION_RANGE` of
/// `pos`.
pub open spec fn pile_in_reach(piles: Seq<ScrapPile>, pos: Vec2, i: int) -> bool {
    &&& 0 <= i < piles.len()
    &&& piles[i].active
    &&& piles[i].position.within(pos, INTERACTION_RANGE as int)
}

/// Whether pile `i` is the nearest to `pos` among the active piles in
/// reach, and the first of those that are equally near.
pub open spec fn is_nearest_pile(piles: Seq<ScrapPile>, pos: Vec2, i: int) -> bool {
    &&& pile_in_reach(piles, pos, i)
    &&& forall|j: int| #[trigger]
        pile_in_reach(piles, pos, j) ==> {
            ||| piles[i].position.dist_sq(pos) < piles[j].position.dist_sq(pos)
            ||| (piles[i].position.dist_sq(pos) == piles[j].position.dist_sq(pos) && i <= j)
        }
}

/// The nearest active scrap pile in reach of `pos`; `None` if none is in
/// reach.
pub open spec fn nearest_pile(piles: Seq<ScrapPile>, pos: Vec2) -> Option<usize> {
    if exists|i: int| is_nearest_pile(piles, pos, i) {
        Some((choose|i: int| is_nearest_pile(piles, pos, i)) as usize)
    } else {
        None
    }
}

/// Scrap a pile of `amount` yields at the given level of the efficiency
/// upgrade: `SCRAP_EFFICIENCY_BONUS` more for each level, rounded toward
/// zero and kept within `i32`.
pub open spec fn gathered_amount(amount: i32, level: u32) -> i32 {
    clamp_i32(div_toward_zero(amount * (MILLI + SCRAP_EFFICIENCY_BONUS * level), MILLI as int)) as i32
}

/// Whether the player moves.
pub open spec fn is_moving(velocity: Vec2) -> bool {
    velocity.x * velocity.x + velocity.y * velocity.y >= MOVING_SPEED_SQUARED
}

/// The state after a pile is collected: its scrap, raised by the
/// efficiency upgrade, goes to the resources, the pile is spent, and the
/// gathering starts over.
pub open spec fn collected(state: GameState, target: int, piles: Seq<ScrapPile>) -> bool {
    &&& 0 <= target < state.scrap_piles@.len()
    &&& piles == state.scrap_piles@.update(
        target,
        ScrapPile { active: false, ..state.scrap_piles@[target] },
    )
}

impl InputManager {
    /// The nearest active scrap pile in reach of the player.
    pub fn find_nearest_scrap_pile(&self, state: &GameState) -> (found: Option<usize>)
        ensures
            found == nearest_pile(state.scrap_piles@, state.player.position),
            match found {
                Some(i) => is_nearest_pile(state.scrap_piles@, state.player.position, i as int),
                None => forall|j: int|
                    !#[trigger] pile_in_reach(state.scrap_piles@, state.player.position, j),
            },
    {
        let pos = state.player.position;
        let r: u128 = INTERACTION_RANGE as u128;
        let mut best: Option<usize> = None;
        let mut best_sq: u128 = r * r;
        let mut k: usize = 0;
        while k < state.scrap_piles.len()
            invariant
                k <= state.scrap_piles@.len(),
                pos == state.player.position,
                r == INTERACTION_RANGE,
                best_sq <= r * r,
                match best {
                    Some(i) => {
                        &&& i < k
                        &&& pile_in_reach(state.scrap_piles@, pos, i as int)
                        &&& best_sq == state.scrap_piles@[i as int].position.dist_sq(pos)
                    },
                    None => best_sq == r * r,
                },
                forall|j: int|
                    0 <= j < k && #[trigger] pile_in_reach(state.scrap_piles@, pos, j) ==> {
                        &&& best.is_some()
                        &&& (best_sq < state.scrap_piles@[j].position.dist_sq(pos) || (best_sq
                            == state.scrap_piles@[j].position.dist_sq(pos) && best.unwrap() <= j))
                    },
            decreases state.scrap_piles@.len() - k,
        {
            let pile = &state.scrap_piles[k];
            if pile.active {
                let d = pile.position.distance_squared(pos);
                if d < best_sq {
                    best_sq = d;
                    best = Some(k);
                }
            }
            k += 1;
        }
        proof {
            match best {
                Some(i) => {
                    assert(is_nearest_pile(state.scrap_piles@, pos, i as int));
                    let c = choose|c: int| is_nearest_pile(state.scrap_piles@, pos, c);
                    assert(pile_in_reach(state.scrap_piles@, pos, i as int));
                    assert(pile_in_reach(state.scrap_piles@, pos, c));
                },
                None => {
                    assert forall|c: int| !is_nearest_pile(state.scrap_piles@, pos, c) by {
                        if is_nearest_pile(state.scrap_piles@, pos, c) {
                            assert(pile_in_reach(state.scrap_piles@, pos, c));
                        }
                    }
                },
            }
        }
        best
    }

    /// Whether `after` and `ui_after` are the state and the requests after
    /// one frame of gathering.
    ///
    /// Unless the player stands still and holds the interaction key, the
    /// gathering starts over. Else the pile gathered is the one already
    /// chosen, or the nearest in reach; time runs while there is such a
    /// pile; and once `GATHERING_TIME` has run the pile is collected: its
    /// scrap, raised by the efficiency upgrade, goes to the resources, the
    /// pile is spent, a toggle of the slot `(0, 0)` is requested, and the
    /// gathering starts over.
    pub open spec fn gathered(
        before: GameState,
        after: GameState,
        ui_before: Seq<UIEvent>,
        ui_after: Seq<UIEvent>,
        interact_down: bool,
        dt: u64,
    ) -> bool {
        let target = if before.gathering_target.is_none() {
            nearest_pile(before.scrap_piles@, before.player.position)
        } else {
            before.gathering_target
        };
        let timer = clamp_u64(before.gathering_timer + dt) as u64;
        &&& after == (GameState {
            gathering_target: after.gathering_target,
            gathering_timer: after.gathering_timer,
            scrap_piles: after.scrap_piles,
            resources: crate::economy::resources::Resources {
                scrap: after.resources.scrap,
                ..before.resources
            },
            ..before
        })
        &&& if !interact_down || is_moving(before.player.velocity) {
            &&& after.gathering_target.is_none()
            &&& after.gathering_timer == 0
            &&& after.scrap_piles@ == before.scrap_piles@
            &&& after.resources == before.resources
            &&& ui_after == ui_before
        } else if target.is_none() || target.unwrap() >= before.scrap_piles@.len() {
            &&& after.gathering_target == target
            &&& after.gathering_timer == before.gathering_timer
            &&& after.scrap_piles@ == before.scrap_piles@
            &&& after.resources == before.resources
            &&& ui_after == ui_before
        } else if timer < GATHERING_TIME {
            &&& after.gathering_target == target
            &&& after.gathering_timer == timer
            &&& after.scrap_piles@ == before.scrap_piles@
            &&& after.resources == before.resources
            &&& ui_after == ui_before
        } else {
            &&& after.gathering_target.is_none()
            &&& after.gathering_timer == 0
            &&& collected(before, target.unwrap() as int, after.scrap_piles@)
            &&& after.resources.scrap == before.resources.scrap_after_add(
                gathered_amount(
                    before.scrap_piles@[target.unwrap() as int].amount,
                    before.upgrades.level(scrap_efficiency_id()),
                ),
            )
            &&& ui_after == ui_before.push(UIEvent::Toggle(0, 0))
        }
    }

    /// One frame of gathering scrap, by [`InputManager::gathered`].
    pub fn handle_scrap_gathering(
        &self,
        state: &mut GameState,
        events: &mut EventBus,
        interact_down: bool,
        dt: u64,
    )
        ensures
            final(events).game@ == old(events).game@,
            InputManager::gathered(
                *old(state),
                *final(state),
                old(events).ui@,
                final(events).ui@,
                interact_down,
                dt,
            ),
    {
        let vx = state.player.velocity.x as i128;
        let vy = state.player.velocity.y as i128;
        assert(0 <= vx * vx <= 0x8000_0000 * 0x8000_0000 && 0 <= vy * vy <= 0x8000_0000
            * 0x8000_0000) by (nonlinear_arith)
            requires
                -0x8000_0000 <= vx <= 0x8000_0000,
                -0x8000_0000 <= vy <= 0x8000_0000,
        ;
        let moving = vx * vx + vy * vy >= MOVING_SPEED_SQUARED as i128;
        if !interact_down || moving {
            state.gathering_target = None;
            state.gathering_timer = 0;
            return ;
        }
        if state.gathering_target.is_none() {
            state.gathering_target = self.find_nearest_scrap_pile(state);
        }
        let target = match state.gathering_target {
            Some(t) => t,
            None => {
                return ;
            },
        };
        if target >= state.scrap_piles.len() {
            return ;
        }
        state.gathering_timer = state.gathering_timer.saturating_add(dt);
        if state.gathering_timer < GATHERING_TIME {
            return ;
        }
        let level = state.upgrades.get_level("scrap_efficiency");
        let amount = state.scrap_piles[target].amount;
        assert(0 <= SCRAP_EFFICIENCY_BONUS * level <= 200 * 0xffff_ffff) by (nonlinear_arith)
            requires
                SCRAP_EFFICIENCY_BONUS == 200,
                0 <= level <= 0xffff_ffff,
        ;
        let factor: i128 = (MILLI + SCRAP_EFFICIENCY_BONUS * (level as u64)) as i128;
        assert(-0x8000_0000 * (1000 + 200 * 0xffff_ffff) <= amount * factor <= 0x8000_0000 * (1000
            + 200 * 0xffff_ffff)) by (nonlinear_arith)
            requires
                -0x8000_0000 <= amount <= 0x8000_0000,
                0 <= factor <= 1000 + 200 * 0xffff_ffff,
        ;
        let gathered = clamp_to_i32(divide_toward_zero((amount as i128) * factor, MILLI));
        state.resources.add_scrap(gathered);
        state.scrap_piles[target].active = false;
        events.push_ui(UIEvent::Toggle(0, 0));
        state.gathering_target = None;
        state.gathering_timer = 0;
    }

    /// The repair point on which the player stands: the first room in
    /// which they stand, and the first repair point of that room on which
    /// they stand.
    pub open spec fn standing_on(state: GameState) -> Option<(int, int)> {
        if exists|r: int| state.interior.first_room_at(state.player.position, r) {
            let r = choose|r: int| state.interior.first_room_at(state.player.position, r);
            if exists|p: int| state.interior.rooms@[r].first_point_at(state.player.position, p) {
                Some(
                    (
                        r,
                        choose|p: int|
                            state.interior.rooms@[r].first_point_at(state.player.position, p),
                    ),
                )
            } else {
                None
            }
        } else {
            None
        }
    }

    /// Whether an interaction is taken by the tutorial: at its welcome,
    /// and at the step that is dismissed by an interaction.
    pub open spec fn tutorial_takes(state: GameState) -> bool {
        ||| (state.tutorial_state.current_index == 0 && !state.tutorial_state.completed)
        ||| match state.tutorial_state.step_index(state.tutorial_config) {
            Some(i) => state.tutorial_config.steps@[i].id@ == complete_step_id(),
            None => false,
        }
    }

    /// Whether `after` is the state after an interaction, which repaired a
    /// point or not as `repaired` says.
    ///
    /// At the tutorial's welcome and at its last step an interaction moves
    /// the tutorial on. Else it repairs the repair point on which the
    /// player stands, if that can be repaired, and a repair in the room the
    /// tutorial points to moves the tutorial on.
    pub open spec fn interacted(before: GameState, after: GameState, repaired: bool) -> bool {
        if InputManager::tutorial_takes(before) {
            &&& !repaired
            &&& after == (GameState {
                tutorial_state: before.tutorial_state.advanced(before.tutorial_config),
                ..before
            })
        } else {
            &&& repaired == match InputManager::standing_on(before) {
                Some((r, p)) => before.can_repair_point(r, p),
                None => false,
            }
            &&& !repaired ==> after == before
            &&& repaired ==> {
                let (r, p) = InputManager::standing_on(before).unwrap();
                &&& before.interior_repaired(after, r, p)
                &&& after == (GameState {
                    ship: after.ship,
                    interior: after.interior,
                    resources: crate::economy::resources::Resources {
                        scrap: after.resources.scrap,
                        ..before.resources
                    },
                    tutorial_state: after.tutorial_state,
                    ..before
                })
                &&& after.tutorial_state == if before.tutorial_state.target(before.tutorial_config)
                    == Some(before.interior.rooms@[r].id) {
                    before.tutorial_state.advanced(before.tutorial_config)
                } else {
                    before.tutorial_state
                }
            }
        }
    }

    /// An interaction, by [`InputManager::interacted`]. Says whether it
    /// repaired a point.
    pub fn handle_interact(&self, state: &mut GameState) -> (repaired: bool)
        ensures
            InputManager::interacted(*old(state), *final(state), repaired),
    {
        if state.tutorial_state.is_welcome() {
            state.tutorial_state.advance(&state.tutorial_config);
            return false;
        }
        let dismiss = match state.tutorial_state.current_step(&state.tutorial_config) {
            Some(step) => step.id == "complete".to_owned(),
            None => false,
        };
        if dismiss {
            state.tutorial_state.advance(&state.tutorial_config);
            return false;
        }
        let room_idx = match state.interior.room_index_at(state.player.position) {
            Some(r) => r,
            None => {
                proof {
                    assert forall|r: int| !state.interior.first_room_at(state.player.position, r) by {
                        if state.interior.first_room_at(state.player.position, r) {
                            assert(state.interior.rooms@[r].covers(state.player.position));
                        }
                    }
                }
                return false;
            },
        };
        proof {
            let r = choose|r: int| state.interior.first_room_at(state.player.position, r);
            assert(state.interior.first_room_at(state.player.position, room_idx as int));
            assert(r == room_idx);
        }
        let point_idx = match state.interior.rooms[room_idx].repair_point_at(state.player.position) {
            Some(p) => p,
            None => {
                proof {
                    let room = state.interior.rooms@[room_idx as int];
                    assert forall|p: int| !room.first_point_at(state.player.position, p) by {
                        if room.first_point_at(state.player.position, p) {
                            assert(room.repair_points@[p].covers(
                                room.x as int,
                                room.y as int,
                                state.player.position,
                            ));
                        }
                    }
                }
                return false;
            },
        };
        proof {
            let room = state.interior.rooms@[room_idx as int];
            let p = choose|p: int| room.first_point_at(state.player.position, p);
            assert(room.first_point_at(state.player.position, point_idx as int));
            assert(p == point_idx);
        }
        if !state.attempt_interior_repair(room_idx, point_idx) {
            return false;
        }
        let ghost mid = *state;
        if let Some(target) = state.tutorial_state.target_room(&state.tutorial_config) {
            if state.interior.rooms[room_idx].id == target {
                state.tutorial_state.advance(&state.tutorial_config);
            }
        }
        true
    }

    /// Whether `after` and `ui_after` are the state and the requests after
    /// the input of a frame in the interior view: a frame of gathering,
    /// and then an interaction if its key went down.
    pub open spec fn interior_input_done(
        before: GameState,
        after: GameState,
        ui_before: Seq<UIEvent>,
        ui_after: Seq<UIEvent>,
        input: InputState,
    ) -> bool {
        exists|mid: GameState|
            {
                &&& #[trigger] InputManager::gathered(
                    before,
                    mid,
                    ui_before,
                    ui_after,
                    input.interact_down,
                    input.frame_time,
                )
                &&& if input.interact_pressed {
                    exists|repaired: bool| #[trigger] InputManager::interacted(mid, after, repaired)
                } else {
                    after == mid
                }
            }
    }

    /// Input in the interior view, by
    /// [`InputManager::interior_input_done`].
    pub fn handle_interior_input(
        &mut self,
        input: &InputState,
        state: &mut GameState,
        events: &mut EventBus,
    )
        ensures
            final(events).game@ == old(events).game@,
            InputManager::interior_input_done(
                *old(state),
                *final(state),
                old(events).ui@,
                final(events).ui@,
                *input,
            ),
    {
        self.handle_scrap_gathering(state, events, input.interact_down, input.frame_time);
        let ghost mid = *state;
        if input.interact_pressed {
            let repaired = self.handle_interact(state);
            proof {
                assert(InputManager::interacted(mid, *state, repaired));
            }
        }
        proof {
            assert(InputManager::gathered(
                *old(state),
                mid,
                old(events).ui@,
                events.ui@,
                input.interact_down,
                input.frame_time,
            ));
        }
    }

    /// The view after the tab key: the other view if it went down.
    pub open spec fn switched_view(view_mode: ViewMode, tab_pressed: bool) -> ViewMode {
        if tab_pressed {
            match view_mode {
                ViewMode::Interior => ViewMode::Exterior,
                ViewMode::Exterior => ViewMode::Interior,
            }
        } else {
            view_mode
        }
    }

    /// Whether `after`, `ui_after` and `effect` are the state, the requests
    /// and what is asked of the program after the input of a frame of a
    /// run. A paused run hands the input to the pause menu. Else tab
    /// switches between the views, escape or the pause key ask for a pause,
    /// and in the interior view the input goes on to gathering and
    /// interaction.
    pub open spec fn gameplay_input_done(
        before: GameState,
        after: GameState,
        ui_before: Seq<UIEvent>,
        ui_after: Seq<UIEvent>,
        input: InputState,
        effect: SettingsEffect,
    ) -> bool {
        if before.paused {
            crate::ui::pause_menu::pause_input_done(
                before,
                after,
                ui_before,
                ui_after,
                input,
                effect,
            )
        } else {
            let switched = GameState {
                view_mode: InputManager::switched_view(before.view_mode, input.tab_pressed),
                ..before
            };
            &&& effect == SettingsEffect::nothing()
            &&& if input.escape_pressed || input.pause_pressed {
                &&& ui_after == ui_before.push(UIEvent::Pause)
                &&& after == switched
            } else if switched.view_mode == ViewMode::Interior {
                InputManager::interior_input_done(switched, after, ui_before, ui_after, input)
            } else {
                &&& ui_after == ui_before
                &&& after == switched
            }
        }
    }

    /// Input during a run, by [`InputManager::gameplay_input_done`].
    pub fn handle_gameplay_input(
        &mut self,
        input: &InputState,
        state: &mut GameState,
        events: &mut EventBus,
    ) -> (effect: SettingsEffect)
        ensures
            final(events).game@ == old(events).game@,
            InputManager::gameplay_input_done(
                *old(state),
                *final(state),
                old(events).ui@,
                final(events).ui@,
                *input,
                effect,
            ),
    {
        if state.paused {
            return self.handle_pause_menu_input(input, state, events);
        }
        if input.tab_pressed {
            state.view_mode = match state.view_mode {
                ViewMode::Interior => ViewMode::Exterior,
                ViewMode::Exterior => ViewMode::Interior,
            };
        }
        if input.escape_pressed || input.pause_pressed {
            events.push_ui(UIEvent::Pause);
            return SettingsEffect::none();
        }
        if state.view_mode == ViewMode::Interior {
            self.handle_interior_input(input, state, events);
        }
        SettingsEffect::none()
    }
}

} // verus!
