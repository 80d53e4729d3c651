//! Configured provider accounts and the switching policy.

use vstd::prelude::*;

verus! {

/// How an account authenticates against the provider.
#[derive(Clone, Copy, Debug, PartialEq, Eq, Structural)]
pub enum AuthMode {
    /// A stored API key.
    ApiKey,
    /// A ChatGPT session.
    ChatGPT,
    /// A ChatGPT token pair handed in from outside.
    ChatgptAuthTokens,
}

impl AuthMode {
    /// Both ChatGPT kinds count as ChatGPT accounts.
    pub open spec fn spec_is_chatgpt(self) -> bool {
        self == AuthMode::ChatGPT || self == AuthMode::ChatgptAuthTokens
    }

    #[verifier::when_used_as_spec(spec_is_chatgpt)]
    pub fn is_chatgpt(self) -> (r: bool)
        ensures
            r == self.spec_is_chatgpt(),
    {
        match self {
            AuthMode::ChatGPT | AuthMode::ChatgptAuthTokens => true,
            AuthMode::ApiKey => false,
        }
    }
}

/// The policy by which the active account is changed.
#[derive(Clone, Copy, Debug, PartialEq, Eq, Structural)]
pub enum AccountSwitchingMode {
    /// Never switch automatically.
    Manual,
    /// Switch only after the active account hit a limit.
    OnLimit,
    /// Keep the accounts' usage within a fixed distance of each other.
    EvenUsage,
    /// Rotate when the active account crosses a 45% usage step.
    Step45,
    /// Prefer the account whose limits reset soonest.
    ResetBased,
}

impl AccountSwitchingMode {
    /// The mode only reacts to a limit that was hit: it never moves away
    /// from an account ahead of one.
    pub open spec fn spec_is_reactive_only(self) -> bool {
        self == AccountSwitchingMode::Manual || self == AccountSwitchingMode::OnLimit
    }

    /// Tells whether the mode only reacts to a limit that was hit.
    #[verifier::when_used_as_spec(spec_is_reactive_only)]
    pub fn is_reactive_only(self) -> (r: bool)
        ensures
            r == self.spec_is_reactive_only(),
    {
        match self {
            AccountSwitchingMode::Manual | AccountSwitchingMode::OnLimit => true,
            _ => false,
        }
    }
}

/// One configured account, as far as the selectors read it: its identifier,
/// its kind, and which credentials are stored for it.
#[derive(Clone, Debug)]
pub struct StoredAccount {
    pub id: String,
    pub mode: AuthMode,
    /// A token record is stored for the account.
    pub has_tokens: bool,
    /// An API key is stored for the account.
    pub has_api_key: bool,
}

impl StoredAccount {
    /// The account can authenticate: a ChatGPT kind needs its token record,
    /// the API-key kind its key.
    pub open spec fn has_credentials(self) -> bool {
        match self.mode {
            AuthMode::ChatGPT | AuthMode::ChatgptAuthTokens => self.has_tokens,
            AuthMode::ApiKey => self.has_api_key,
        }
    }

    /// A ChatGPT-kind account with usable credentials.
    pub open spec fn is_usable_chatgpt(self) -> bool {
        self.mode.spec_is_chatgpt() && self.has_credentials()
    }

    /// An API-key account with usable credentials.
    pub open spec fn is_usable_api_key(self) -> bool {
        self.mode == AuthMode::ApiKey && self.has_credentials()
    }

    /// Makes an account from what the credential store lists for it.
    pub fn new(id: String, mode: AuthMode, has_tokens: bool, has_api_key: bool) -> (account:
        StoredAccount)
        ensures
            account.id == id,
            account.mode == mode,
            account.has_tokens == has_tokens,
            account.has_api_key == has_api_key,
    {
        StoredAccount { id, mode, has_tokens, has_api_key }
    }
}

/// Tells whether the account has the credentials its kind needs.
pub fn account_has_credentials(account: &StoredAccount) -> (r: bool)
    ensures
        r == account.has_credentials(),
{
    match account.mode {
        AuthMode::ChatGPT | AuthMode::ChatgptAuthTokens => account.has_tokens,
        AuthMode::ApiKey => account.has_api_key,
    }
}

} // verus!
