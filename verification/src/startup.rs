//! How a periphery gets in touch with its core.

use vstd::prelude::*;

verus! {

/// The way in which a periphery gets in touch with its core.
pub enum ConnectionMode<'a> {
    /// It connects to the core at `core_host`, as the server `connect_as`.
    Outbound { core_host: &'a str, connect_as: &'a str },
    /// It takes the connection of the core.
    Inbound,
}

/// Must provide 'connect_as' (PERIPHERY_CONNECT_AS) for outbound connection.
#[derive(Debug, Clone, Copy, PartialEq, Eq, Structural)]
pub struct MissingConnectAs;

/// The way in which a periphery gets in touch with its core.
pub fn connection_mode<'a>(core_host: Option<&'a str>, connect_as: Option<&'a str>) -> (r: Result<
    ConnectionMode<'a>,
    MissingConnectAs,
>)
    ensures
        match (core_host, connect_as) {
            (Some(core_host), Some(connect_as)) => r == Ok::<ConnectionMode, MissingConnectAs>(
                ConnectionMode::Outbound { core_host, connect_as },
            ),
            (None, _) => r == Ok::<ConnectionMode, MissingConnectAs>(ConnectionMode::Inbound),
            (Some(_), None) => r == Err::<ConnectionMode, MissingConnectAs>(MissingConnectAs),
        },
{
    match (core_host, connect_as) {
        (Some(core_host), Some(connect_as)) => Ok(ConnectionMode::Outbound { core_host, connect_as }),
        (None, _) => Ok(ConnectionMode::Inbound),
        (Some(_), None) => Err(MissingConnectAs),
    }
}

} // verus!
