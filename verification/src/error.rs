//! The two error kinds: a policy document that cannot be loaded, and a
//! request that is refused.

use vstd::prelude::*;
use vstd::string::StringExecFns;

use crate::tier::Classifier;

verus! {

/// The single runtime denial. Every refused request looks the same to the
/// caller, whichever check failed.
#[derive(Debug, Clone, Copy, PartialEq, Eq)]
pub enum AuthError {
    NotAuthenticated,
}

impl AuthError {
    /// The status code a transport reports for this denial.
    pub fn status(&self) -> (code: u16)
        ensures
            code == 401,
    {
        401
    }

    /// The generic message shown to the caller.
    pub fn message(&self) -> (text: String)
        ensures
            text@ == "You must be logged in to access this resource"@,
    {
        String::from_str("You must be logged in to access this resource")
    }
}

/// The uniform denial.
pub fn not_authed() -> (e: AuthError)
    ensures
        e == AuthError::NotAuthenticated,
{
    AuthError::NotAuthenticated
}

/// A tier name in the policy document that its classifier does not admit.
/// Raised only while the document is validated, never while a request is
/// handled.
#[derive(Debug, PartialEq, Eq)]
pub struct ConfigError {
    /// The classifier that refused the value; it fixes the allowed names.
    pub class: Classifier,
    /// The entry at fault, as `category::operation`.
    pub scope: String,
    /// The offending tier name.
    pub value: String,
}

/// What a [`ConfigError`] says, over plain sequences.
pub struct ConfigErrorView {
    pub class: Classifier,
    pub scope: Seq<char>,
    pub value: Seq<char>,
}

impl View for ConfigError {
    type V = ConfigErrorView;

    open spec fn view(&self) -> ConfigErrorView {
        ConfigErrorView { class: self.class, scope: self.scope@, value: self.value@ }
    }
}

impl ConfigErrorView {
    /// The diagnostic an operator reads.
    pub open spec fn message(self) -> Seq<char> {
        "Auth Config Error: '"@ + self.scope + "' is '"@ + self.value + "' but must be one of "@
            + self.class.listing() + ", or null"@
    }
}

impl ConfigError {
    /// The tier names the entry could have held.
    pub fn allowed(&self) -> (names: Vec<String>)
        ensures
            names.deep_view() == self.class.vocabulary(),
    {
        self.class.names()
    }

    /// The diagnostic an operator reads: the entry, the value found there and
    /// the names it may hold.
    pub fn message(&self) -> (text: String)
        ensures
            text@ == self@.message(),
    {
        let mut text = String::from_str("Auth Config Error: '");
        text.append(self.scope.as_str());
        text.append("' is '");
        text.append(self.value.as_str());
        text.append("' but must be one of ");
        text.append(self.class.list());
        text.append(", or null");
        text
    }
}

} // verus!
