//! Relay of a token swap to an external automated-market-maker program:
//! account-role validation, the outbound call layout, and the mapping of the
//! external outcome to the caller's result.

pub mod relay;
