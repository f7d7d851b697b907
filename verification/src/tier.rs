//! Tier names and the classifiers that say which of them an entry of the
//! policy document may hold.

use vstd::prelude::*;
use vstd::string::StringExecFns;

use crate::error::{ConfigError, ConfigErrorView};

verus! {

/// What an optional tier name holds, as a sequence of characters.
pub open spec fn tier_view(tier: Option<String>) -> Option<Seq<char>> {
    match tier {
        Some(name) => Some(name@),
        None => None,
    }
}

/// The three vocabularies. Tiers are not ordered globally: which names an
/// entry may hold depends on the kind of operation it guards.
#[derive(Debug, Clone, Copy, PartialEq, Eq)]
pub enum Classifier {
    /// Most operations: `public`, `admin` or `user`.
    AllCategory,
    /// Operations on a user's own data: `self` or `admin`.
    SelfCategory,
    /// Operations that need a logged-in caller: `user` or `admin`.
    AuthCategory,
}

impl Classifier {
    /// The names this classifier admits.
    pub open spec fn vocabulary(self) -> Seq<Seq<char>> {
        match self {
            Classifier::AllCategory => seq!["public"@, "admin"@, "user"@],
            Classifier::SelfCategory => seq!["self"@, "admin"@],
            Classifier::AuthCategory => seq!["user"@, "admin"@],
        }
    }

    /// Whether `name` lies in the vocabulary.
    pub open spec fn admits(self, name: Seq<char>) -> bool {
        self.vocabulary().contains(name)
    }

    /// The vocabulary as it is quoted in a diagnostic.
    pub open spec fn listing(self) -> Seq<char> {
        match self {
            Classifier::AllCategory => "'public', 'admin', 'user'"@,
            Classifier::SelfCategory => "'self', 'admin'"@,
            Classifier::AuthCategory => "'user', 'admin'"@,
        }
    }

    /// What validating one entry yields: nothing when the entry is unset or
    /// holds an admitted name, the error otherwise.
    pub open spec fn check(self, scope: Seq<char>, tier: Option<Seq<char>>) -> Option<
        ConfigErrorView,
    > {
        match tier {
            None => None,
            Some(name) => if self.admits(name) {
                None
            } else {
                Some(ConfigErrorView { class: self, scope: scope, value: name })
            },
        }
    }

    /// The vocabulary, in the order of [`Classifier::vocabulary`].
    pub fn names(&self) -> (names: Vec<String>)
        ensures
            names.deep_view() == self.vocabulary(),
    {
        let mut names: Vec<String> = Vec::new();
        match self {
            Classifier::AllCategory => {
                names.push(String::from_str("public"));
                names.push(String::from_str("admin"));
                names.push(String::from_str("user"));
            },
            Classifier::SelfCategory => {
                names.push(String::from_str("self"));
                names.push(String::from_str("admin"));
            },
            Classifier::AuthCategory => {
                names.push(String::from_str("user"));
                names.push(String::from_str("admin"));
            },
        }
        assert(names.deep_view() =~= self.vocabulary());
        names
    }

    /// The vocabulary as it is quoted in a diagnostic.
    pub fn list(&self) -> (text: &'static str)
        ensures
            text@ == self.listing(),
    {
        match self {
            Classifier::AllCategory => "'public', 'admin', 'user'",
            Classifier::SelfCategory => "'self', 'admin'",
            Classifier::AuthCategory => "'user', 'admin'",
        }
    }

    /// Whether `name` lies in the vocabulary.
    pub fn accepts(&self, name: &String) -> (yes: bool)
        ensures
            yes == self.admits(name@),
    {
        let names = self.names();
        let mut i: usize = 0;
        while i < names.len()
            invariant
                i <= names.len(),
                names.deep_view() == self.vocabulary(),
                forall|j: int| 0 <= j < i ==> self.vocabulary()[j] != name@,
            decreases names.len() - i,
        {
            assert(names.deep_view()[i as int] == names[i as int]@);
            if names[i] == *name {
                return true;
            }
            i = i + 1;
        }
        false
    }

    /// Validates one entry of the policy document. An unset entry is always
    /// valid; a set one must hold a name of the vocabulary.
    pub fn validate(&self, scope_type: &str, scope: &Option<String>) -> (r: Result<
        bool,
        ConfigError,
    >)
        ensures
            match self.check(scope_type@, tier_view(*scope)) {
                None => r == Ok::<bool, ConfigError>(true),
                Some(refusal) => r matches Err(e) && e@ == refusal,
            },
    {
        match scope {
            None => Ok(true),
            Some(name) => {
                if self.accepts(name) {
                    Ok(true)
                } else {
                    Err(
                        ConfigError {
                            class: *self,
                            scope: String::from_str(scope_type),
                            value: name.clone(),
                        },
                    )
                }
            },
        }
    }
}

/// Validates an entry that may hold `public`, `admin` or `user`.
pub fn is_all(scope_type: &str, scope: &Option<String>) -> (r: Result<bool, ConfigError>)
    ensures
        match Classifier::AllCategory.check(scope_type@, tier_view(*scope)) {
            None => r == Ok::<bool, ConfigError>(true),
            Some(refusal) => r matches Err(e) && e@ == refusal,
        },
{
    Classifier::AllCategory.validate(scope_type, scope)
}

/// Validates an entry that may hold `self` or `admin`.
pub fn is_self(scope_type: &str, scope: &Option<String>) -> (r: Result<bool, ConfigError>)
    ensures
        match Classifier::SelfCategory.check(scope_type@, tier_view(*scope)) {
            None => r == Ok::<bool, ConfigError>(true),
            Some(refusal) => r matches Err(e) && e@ == refusal,
        },
{
    Classifier::SelfCategory.validate(scope_type, scope)
}

/// Validates an entry that may hold `user` or `admin`.
pub fn is_auth(scope_type: &str, scope: &Option<String>) -> (r: Result<bool, ConfigError>)
    ensures
        match Classifier::AuthCategory.check(scope_type@, tier_view(*scope)) {
            None => r == Ok::<bool, ConfigError>(true),
            Some(refusal) => r matches Err(e) && e@ == refusal,
        },
{
    Classifier::AuthCategory.validate(scope_type, scope)
}

/// Every name that a classifier admits is one of the four tiers. An entry
/// that passed validation therefore holds a requirement the permission gate
/// knows, and never one it has to deny for want of a meaning.
pub proof fn lemma_admitted_names_are_tiers(class: Classifier, name: Seq<char>)
    requires
        class.admits(name),
    ensures
        name == "public"@ || name == "admin"@ || name == "user"@ || name == "self"@,
{
    let at = choose|i: int| 0 <= i < class.vocabulary().len() && class.vocabulary()[i] == name;
    assert(class.vocabulary()[at] == name);
}

} // verus!
