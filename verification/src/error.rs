//! The failures that the library reports.

use vstd::prelude::*;

verus! {

/// Why an operation of the library failed.
#[derive(Clone, Copy, Debug, PartialEq, Eq, Structural)]
pub enum Error {
    /// The disk or an external process could not be read or written.
    IoFailure,
    /// An external command printed something of an unexpected shape.
    ParseFailure,
    /// A payload could not be decoded, or no decoding of it holds a balance.
    DecodeFailure,
    /// A probe or a queued message ran out of time.
    Timeout,
    /// An optional part of the configuration is absent.
    ConfigurationMissing,
    /// Every attempt to learn the balance failed.
    BalanceUnavailable,
    /// No DHCP lease is known for an address, or the lease names no
    /// hardware address.
    NotFound,
    /// The client is on the black list.
    Blacklisted,
}

impl Error {
    /// A short description for logs.
    pub fn message(&self) -> (text: &'static str)
        ensures
            text@ == self.message_spec(),
    {
        match self {
            Error::IoFailure => "input or output failed",
            Error::ParseFailure => "unexpected output of an external command",
            Error::DecodeFailure => "payload could not be decoded",
            Error::Timeout => "timed out",
            Error::ConfigurationMissing => "section is not defined in configuration",
            Error::BalanceUnavailable => "failed to get balance",
            Error::NotFound => "DHCP lease not found",
            Error::Blacklisted => "client is blacklisted",
        }
    }

    pub open spec fn message_spec(self) -> Seq<char> {
        match self {
            Error::IoFailure => "input or output failed"@,
            Error::ParseFailure => "unexpected output of an external command"@,
            Error::DecodeFailure => "payload could not be decoded"@,
            Error::Timeout => "timed out"@,
            Error::ConfigurationMissing => "section is not defined in configuration"@,
            Error::BalanceUnavailable => "failed to get balance"@,
            Error::NotFound => "DHCP lease not found"@,
            Error::Blacklisted => "client is blacklisted"@,
        }
    }
}

} // verus!
