use vstd::prelude::*;
use crate::account::AccountId;

verus! {

/// An amount of the chain's native currency.
pub type Balance = u128;

/// A share of the proceeds, in hundredths.
pub type Percentage = u128;

/// A point in time as the chain reports it.
pub type Timestamp = u64;

/// The stage of the sale that the administrator has declared.
#[derive(Clone, Copy, Debug, PartialEq, Eq, Structural)]
pub enum MintingStatus {
    Unset,
    Prepresale,
    Presale,
    Public,
    Ended,
}

/// One of the two stages in which only allowlisted accounts may mint.
#[derive(Clone, Copy, Debug, PartialEq, Eq, Structural)]
pub enum GatedPhase {
    Prepresale,
    Presale,
}

impl MintingStatus {
    /// The stage that an index stands for: 1 to 4 are the stages from
    /// `Prepresale` to `Ended`, anything else leaves the stage unset.
    pub open spec fn spec_from_index(index: Option<u8>) -> MintingStatus {
        match index {
            Some(i) => if i == 1 {
                MintingStatus::Prepresale
            } else if i == 2 {
                MintingStatus::Presale
            } else if i == 3 {
                MintingStatus::Public
            } else if i == 4 {
                MintingStatus::Ended
            } else {
                MintingStatus::Unset
            },
            None => MintingStatus::Unset,
        }
    }

    pub fn from_index(index: Option<u8>) -> (status: MintingStatus)
        ensures
            status == Self::spec_from_index(index),
    {
        match index {
            Some(1) => MintingStatus::Prepresale,
            Some(2) => MintingStatus::Presale,
            Some(3) => MintingStatus::Public,
            Some(4) => MintingStatus::Ended,
            _ => MintingStatus::Unset,
        }
    }

    /// The index under which the administrator selects this stage.
    pub open spec fn spec_index(self) -> Option<u8> {
        match self {
            MintingStatus::Unset => None,
            MintingStatus::Prepresale => Some(1u8),
            MintingStatus::Presale => Some(2u8),
            MintingStatus::Public => Some(3u8),
            MintingStatus::Ended => Some(4u8),
        }
    }

    pub fn index(self) -> (index: Option<u8>)
        ensures
            index == self.spec_index(),
            Self::spec_from_index(index) == self,
    {
        match self {
            MintingStatus::Unset => None,
            MintingStatus::Prepresale => Some(1),
            MintingStatus::Presale => Some(2),
            MintingStatus::Public => Some(3),
            MintingStatus::Ended => Some(4),
        }
    }

    /// The gated stage that this status is, if it is one.
    pub open spec fn spec_gated(self) -> Option<GatedPhase> {
        match self {
            MintingStatus::Prepresale => Some(GatedPhase::Prepresale),
            MintingStatus::Presale => Some(GatedPhase::Presale),
            _ => None,
        }
    }

    pub fn gated(self) -> (phase: Option<GatedPhase>)
        ensures
            phase == self.spec_gated(),
    {
        match self {
            MintingStatus::Prepresale => Some(GatedPhase::Prepresale),
            MintingStatus::Presale => Some(GatedPhase::Presale),
            _ => None,
        }
    }

    /// The text under which a stage is shown.
    pub open spec fn spec_text(self) -> Seq<char> {
        match self {
            MintingStatus::Unset => "Unset"@,
            MintingStatus::Prepresale => "Prepresale"@,
            MintingStatus::Presale => "Presale"@,
            MintingStatus::Public => "Public"@,
            MintingStatus::Ended => "Ended"@,
        }
    }

    pub fn as_str(self) -> (text: String)
        ensures
            text@ == self.spec_text(),
    {
        match self {
            MintingStatus::Unset => "Unset".to_owned(),
            MintingStatus::Prepresale => "Prepresale".to_owned(),
            MintingStatus::Presale => "Presale".to_owned(),
            MintingStatus::Public => "Public".to_owned(),
            MintingStatus::Ended => "Ended".to_owned(),
        }
    }
}

/// Why an operation of the launchpad was refused.
#[derive(Clone, Copy, Debug, PartialEq, Eq, Structural)]
pub enum Shiden34Error {
    /// The payment is not the price of the request, or a total would not fit.
    BadMintValue,
    /// The request asks for more tokens than are left.
    CollectionIsFull,
    /// The request asks for more tokens than one call may mint.
    TooManyTokensToMint,
    /// The request asks for no token at all.
    CannotMintZeroTokens,
    /// The caller may not do this.
    Unauthorized,
    /// No stage of the sale has been declared yet.
    MintingNotStarted,
    /// The sale has been declared over.
    MintingHasEnded,
    /// Proceeds cannot be taken out before the public sale has ended.
    SaleNotFinished,
    /// The caller's share has been paid out in full.
    NothingToWithdraw,
}

impl Shiden34Error {
    /// The tag under which callers see the error.
    pub open spec fn spec_text(self) -> Seq<char> {
        match self {
            Shiden34Error::BadMintValue => "BadMintValue"@,
            Shiden34Error::CollectionIsFull => "CollectionIsFull"@,
            Shiden34Error::TooManyTokensToMint => "TooManyTokensToMint"@,
            Shiden34Error::CannotMintZeroTokens => "CannotMintZeroTokens"@,
            Shiden34Error::Unauthorized => "Unauthorized"@,
            Shiden34Error::MintingNotStarted => "MintingNotStarted"@,
            Shiden34Error::MintingHasEnded => "MintingHasEnded"@,
            Shiden34Error::SaleNotFinished => "SaleNotFinished"@,
            Shiden34Error::NothingToWithdraw => "NothingToWithdraw"@,
        }
    }

    pub fn as_str(self) -> (text: String)
        ensures
            text@ == self.spec_text(),
    {
        match self {
            Shiden34Error::BadMintValue => "BadMintValue".to_owned(),
            Shiden34Error::CollectionIsFull => "CollectionIsFull".to_owned(),
            Shiden34Error::TooManyTokensToMint => "TooManyTokensToMint".to_owned(),
            Shiden34Error::CannotMintZeroTokens => "CannotMintZeroTokens".to_owned(),
            Shiden34Error::Unauthorized => "Unauthorized".to_owned(),
            Shiden34Error::MintingNotStarted => "MintingNotStarted".to_owned(),
            Shiden34Error::MintingHasEnded => "MintingHasEnded".to_owned(),
            Shiden34Error::SaleNotFinished => "SaleNotFinished".to_owned(),
            Shiden34Error::NothingToWithdraw => "NothingToWithdraw".to_owned(),
        }
    }
}

/// What the host chain tells an operation about the call it serves.
#[derive(Clone, Copy, Debug, PartialEq, Eq)]
pub struct CallContext {
    /// The account that made the call.
    pub caller: AccountId,
    /// Whether access control takes the caller for the administrator.
    pub caller_is_admin: bool,
    /// The currency sent along with the call.
    pub transferred_value: Balance,
    /// The time of the block that holds the call.
    pub block_timestamp: Timestamp,
}

/// The notice that a token has changed hands. A token that is issued comes
/// from nobody.
#[derive(Clone, Copy, Debug, PartialEq, Eq)]
pub struct Transfer {
    pub from: Option<AccountId>,
    pub to: Option<AccountId>,
    pub id: u64,
}

impl Transfer {
    /// The notice that token `id` is issued to `to`.
    pub open spec fn spec_issue(to: AccountId, id: u64) -> Transfer {
        Transfer { from: None, to: Some(to), id }
    }

    pub fn issue(to: AccountId, id: u64) -> (t: Transfer)
        ensures
            t == Self::spec_issue(to, id),
    {
        Transfer { from: None, to: Some(to), id }
    }
}

} // verus!
