use vstd::prelude::*;

verus! {

/// An area of the manager that a user may be allowed to use.
#[derive(PartialEq, Eq, Structural, Clone, Copy, Debug, Hash)]
pub enum Scope {
    Config,
    OS,
    File,
    Info,
    Process,
    Usage,
    Request,
}

/// A further proof of identity: a wallet signature.
pub enum AdditionalVerification {
    WalletSignature { v: u8, r: [u8; 32], s: [u8; 32] },
}

/// How a user logs in: with a wallet signature of the session message.
pub enum LoginMethod {
    WalletSignature { v: u8, r: [u8; 32], s: [u8; 32] },
}

/// A login request.
pub struct Login {
    pub login_method: LoginMethod,
}

} // verus!
