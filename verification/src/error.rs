//! Error types.

use vstd::prelude::*;

verus! {

/// Errors that may be returned by the token-swap engine and its callers.
#[derive(Clone, Copy, Debug, PartialEq, Eq, Structural)]
pub enum SwapError {
    /// The account cannot be initialized because it is already being used.
    AlreadyInUse,
    /// The program address provided doesn't match the value generated by the program.
    InvalidProgramAddress,
    /// The owner of the input isn't set to the program address generated by the program.
    InvalidOwner,
    /// The deserialization of the account returned something besides a mint.
    ExpectedMint,
    /// The deserialization of the account returned something besides an account.
    ExpectedAccount,
    /// The pool supply is empty.
    EmptyPool,
    /// The pool token mint has a non-zero supply.
    InvalidSupply,
    /// The provided token account has a delegate.
    InvalidDelegate,
    /// The input token is invalid for swap.
    InvalidInput,
    /// Address of the provided swap token account is incorrect.
    IncorrectSwapAccount,
    /// Address of the provided pool token mint is incorrect.
    IncorrectPoolMint,
    /// The calculation failed.
    CalculationFailure,
    /// Invalid instruction number passed in.
    InvalidInstruction,
    /// Swap input token accounts have the same mint.
    RepeatedMint,
    /// Swap instruction exceeds desired slippage limit.
    ExceededSlippage,
    /// Initial deposit requires all tokens.
    InvalidBootstrap,
}

} // verus!
