//! The authority-gated configuration write.
use vstd::prelude::*;
use crate::config::{Config, ConfigSettings};
use crate::errors::PumpFunError;
use crate::pubkey::Pubkey;

verus! {

/// A configuration call: the calling identity and the stored record.
#[derive(Debug, Clone, Copy)]
pub struct Configure {
    pub admin: Pubkey,
    pub global_config: Config,
}

/// The record that `settings` describes, owned by `authority`.
pub open spec fn config_from(settings: ConfigSettings, authority: Pubkey) -> Config {
    Config {
        authority,
        fee_recipient: settings.fee_recipient,
        curve_limit: settings.curve_limit,
        initial_virtual_token_reserve: settings.initial_virtual_token_reserve,
        initial_virtual_sol_reserve: settings.initial_virtual_sol_reserve,
        initial_real_token_reserve: settings.initial_real_token_reserve,
        total_token_supply: settings.total_token_supply,
        buy_fee_bps: settings.buy_fee_bps,
        sell_fee_bps: settings.sell_fee_bps,
        migration_fee_bps: settings.migration_fee_bps,
    }
}

impl Configure {
    /// Why the call fails, if it does. The first call adopts the caller as the
    /// permanent authority, whatever the settings name; a later call must come
    /// from that authority and name it unchanged.
    pub open spec fn configure_error(&self, new_config: ConfigSettings) -> Option<PumpFunError> {
        if self.admin.is_null() {
            Some(PumpFunError::UnauthorizedAddress)
        } else if self.global_config.authority.is_null() {
            None
        } else if self.global_config.authority.bytes@ != self.admin.bytes@ {
            Some(PumpFunError::UnauthorizedAddress)
        } else if new_config.authority.bytes@ != self.admin.bytes@ {
            Some(PumpFunError::CannotChangeAuthority)
        } else {
            None
        }
    }

    /// Replaces the stored parameters with `new_config`, gated on the authority.
    pub fn process(&mut self, new_config: ConfigSettings) -> (r: Result<(), PumpFunError>)
        ensures
            final(self).admin == old(self).admin,
            match old(self).configure_error(new_config) {
                Some(e) => r == Err::<(), PumpFunError>(e) && *final(self) == *old(self),
                None => r is Ok && final(self).global_config == config_from(new_config, old(self).admin),
            },
    {
        if self.admin.is_default() {
            return Err(PumpFunError::UnauthorizedAddress);
        }
        if !self.global_config.authority.is_default() {
            if self.global_config.authority != self.admin {
                return Err(PumpFunError::UnauthorizedAddress);
            }
            if new_config.authority != self.admin {
                return Err(PumpFunError::CannotChangeAuthority);
            }
        }
        self.global_config = Config {
            authority: self.admin,
            fee_recipient: new_config.fee_recipient,
            curve_limit: new_config.curve_limit,
            initial_virtual_token_reserve: new_config.initial_virtual_token_reserve,
            initial_virtual_sol_reserve: new_config.initial_virtual_sol_reserve,
            initial_real_token_reserve: new_config.initial_real_token_reserve,
            total_token_supply: new_config.total_token_supply,
            buy_fee_bps: new_config.buy_fee_bps,
            sell_fee_bps: new_config.sell_fee_bps,
            migration_fee_bps: new_config.migration_fee_bps,
        };
        Ok(())
    }
}

} // verus!
