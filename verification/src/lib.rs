//! Admission control for a token launch.
//!
//! A launch moves through four phases. Its creator revokes the token's
//! authorities, opens trading, may register a liquidity pool, and finalizes.
//! While trading is allowed, every purchase is admitted or rejected by a fixed
//! list of rules: a cap per wallet, a minimum gap between purchases, and a
//! limit on the share of the supply that one wallet may hold.
//!
//! Every function takes the caller's identity and the current time as plain
//! arguments, decides from the records it is given, and either applies its
//! whole effect or leaves every record as it was.

pub mod errors;
pub mod state;
pub mod events;
pub mod admission;
pub mod transitions;
pub mod history;
