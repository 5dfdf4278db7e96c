//! DHCP diagnostics: which message a test sends.

use vstd::prelude::*;
use crate::error::{ErrorView, NetctlError};

verus! {

/// Kind of DHCP message that a test is about.
#[derive(Clone, Copy, Debug, PartialEq, Eq, Structural)]
pub enum DhcpMessageType {
    Discover,
    Request,
    Release,
    Inform,
    Decline,
}

/// A message that the diagnostic tool can send.
#[derive(Clone, Copy, Debug, PartialEq, Eq, Structural)]
pub enum DhcpSend {
    Discover,
    Request,
    Release,
    Inform,
}

/// The message to send for a test of the given kind. Decline messages cannot
/// be sent.
pub open spec fn message_for(message_type: DhcpMessageType) -> Result<DhcpSend, ErrorView> {
    match message_type {
        DhcpMessageType::Discover => Ok(DhcpSend::Discover),
        DhcpMessageType::Request => Ok(DhcpSend::Request),
        DhcpMessageType::Release => Ok(DhcpSend::Release),
        DhcpMessageType::Inform => Ok(DhcpSend::Inform),
        DhcpMessageType::Decline => Err(
            ErrorView::NotSupported("DECLINE message type not yet supported"@),
        ),
    }
}

/// The message to send for a test of the given kind, as `message_for`
/// describes it.
pub fn dhcp_test(message_type: DhcpMessageType) -> (r: Result<DhcpSend, NetctlError>)
    ensures
        match message_for(message_type) {
            Ok(m) => r == Ok::<DhcpSend, NetctlError>(m),
            Err(e) => r matches Err(x) && x@ == e,
        },
{
    match message_type {
        DhcpMessageType::Discover => Ok(DhcpSend::Discover),
        DhcpMessageType::Request => Ok(DhcpSend::Request),
        DhcpMessageType::Release => Ok(DhcpSend::Release),
        DhcpMessageType::Inform => Ok(DhcpSend::Inform),
        DhcpMessageType::Decline => Err(
            NetctlError::NotSupported(String::from_str("DECLINE message type not yet supported")),
        ),
    }
}

} // verus!
