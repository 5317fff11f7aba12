//! The relays: TCP and UDP

pub mod tcp;
pub mod udp;
pub mod connections;

use vstd::prelude::*;

use crate::command::RelayCommand;
use crate::error::{ChannelError, RelayPortError};

verus! {

/// How a relay loop ends on what its command channel delivered: cleanly on a
/// shutdown command, with an `InternalCommunicationError` when the channel failed.
pub open spec fn spec_command_result(received: Result<RelayCommand, ChannelError>) -> Result<
    (),
    RelayPortError,
> {
    match received {
        Ok(RelayCommand::Shutdown) => Ok(()),
        Err(e) => Err(RelayPortError::InternalCommunicationError(e)),
    }
}

/// How a relay loop ends on what its command channel delivered (see [`spec_command_result`]).
pub fn command_result(received: Result<RelayCommand, ChannelError>) -> (r: Result<(), RelayPortError>)
    ensures
        r == spec_command_result(received),
        received is Ok ==> r == Ok::<(), RelayPortError>(()),
        received matches Err(e) ==> r == Err::<(), RelayPortError>(
            RelayPortError::InternalCommunicationError(e),
        ),
{
    match received {
        Ok(RelayCommand::Shutdown) => Ok(()),
        Err(e) => Err(RelayPortError::InternalCommunicationError(e)),
    }
}

/// A relay loop ends on whatever its command channel delivers: cleanly on a
/// shutdown command, and with an `InternalCommunicationError` that carries the
/// channel's failure, whichever failure it is.
pub proof fn law_command_ends_loop(received: Result<RelayCommand, ChannelError>, e: ChannelError)
    ensures
        spec_command_result(Ok(RelayCommand::Shutdown)) == Ok::<(), RelayPortError>(()),
        spec_command_result(Err(e)) == Err::<(), RelayPortError>(
            RelayPortError::InternalCommunicationError(e),
        ),
        spec_command_result(received) is Ok <==> received is Ok,
{
}

} // verus!
