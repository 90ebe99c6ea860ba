//! Currency, settlement and ranking.

pub mod currency;
pub mod ranking;
pub mod settlement;

use vstd::prelude::*;
use crate::economy::currency::CurrencySystem;
use crate::economy::ranking::RankingSystem;
use crate::economy::settlement::{GameOutcome, SettlementCalculator, SettlementResult, settlement_inputs_ok, final_of};
use crate::game::GameState;

verus! {

/// Economy parameters. Rates are in basis points (1/10000).
#[derive(Debug, Clone, Copy, PartialEq, Eq, Structural)]
pub struct EconomyConfig {
    pub base_bet: u64,
    pub rake_bp: u64,
    pub min_beans_for_match: u64,
    pub daily_free_beans: u64,
    pub win_bonus_base_bp: u64,
    pub loss_reduction_skill_bp: u64,
    pub win_bonus_skill_bp: u64,
}

impl Default for EconomyConfig {
    fn default() -> (r: EconomyConfig)
        ensures
            r == (EconomyConfig {
                base_bet: 1000,
                rake_bp: 500,
                min_beans_for_match: 1000,
                daily_free_beans: 5000,
                win_bonus_base_bp: 10000,
                loss_reduction_skill_bp: 500,
                win_bonus_skill_bp: 300,
            }),
    {
        EconomyConfig {
            base_bet: 1000,
            rake_bp: 500,
            min_beans_for_match: 1000,
            daily_free_beans: 5000,
            win_bonus_base_bp: 10000,
            loss_reduction_skill_bp: 500,
            win_bonus_skill_bp: 300,
        }
    }
}

/// Currency, ranking and settlement together.
pub struct EconomySystem {
    pub config: EconomyConfig,
    pub currency: CurrencySystem,
    pub ranking: RankingSystem,
    pub settlement: SettlementCalculator,
}

impl EconomySystem {
    pub fn new(config: EconomyConfig) -> (r: EconomySystem)
        ensures
            r.config == config,
            r.settlement.config() == config,
            r.currency.wf(),
    {
        EconomySystem {
            config,
            currency: CurrencySystem::new(),
            ranking: RankingSystem::new(),
            settlement: SettlementCalculator::new(config),
        }
    }

    /// Settles a finished hand with the system's configuration.
    pub fn process_game_result(&mut self, game_state: &GameState, outcomes: Vec<GameOutcome>) -> (r: Vec<SettlementResult>)
        requires
            settlement_inputs_ok(outcomes@, old(self).config),
        ensures
            r@.len() == outcomes@.len(),
            forall|i: int| 0 <= i < r@.len() ==> (#[trigger] r@[i]).final_beans == final_of(outcomes@[i], old(self).config, outcomes@.len() as int),
    {
        self.settlement.calculate_settlement(game_state, outcomes, &self.config)
    }
}

impl Default for EconomySystem {
    fn default() -> (r: EconomySystem)
        ensures
            r.config.base_bet == 1000,
            r.config.rake_bp == 500,
    {
        EconomySystem::new(EconomyConfig::default())
    }
}

} // verus!
