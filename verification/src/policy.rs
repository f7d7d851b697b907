//! The policy document, category by category: which tier each operation
//! requires, and how a document is validated.

use vstd::prelude::*;
use vstd::string::StringExecFns;

use crate::error::{ConfigError, ConfigErrorView};
use crate::tier::{is_all, is_auth, is_self, tier_view, Classifier};

verus! {

/// One line of the policy table: the entry `scope`, validated by `class`,
/// holds `tier` (or nothing).
pub struct PolicyEntry {
    pub class: Classifier,
    pub scope: Seq<char>,
    pub tier: Option<Seq<char>>,
}

impl PolicyEntry {
    /// The error this entry raises, if its tier lies outside the vocabulary.
    pub open spec fn refusal(self) -> Option<ConfigErrorView> {
        self.class.check(self.scope, self.tier)
    }
}

/// The refusal of the first entry at or after `start` that raises one.
pub open spec fn first_refusal_from(entries: Seq<PolicyEntry>, start: int) -> Option<
    ConfigErrorView,
>
    decreases entries.len() - start,
{
    if start < 0 || start >= entries.len() {
        None
    } else if entries[start].refusal() is Some {
        entries[start].refusal()
    } else {
        first_refusal_from(entries, start + 1)
    }
}

/// What validating a table yields: validation stops at the first entry that
/// raises an error.
pub open spec fn first_refusal(entries: Seq<PolicyEntry>) -> Option<ConfigErrorView> {
    first_refusal_from(entries, 0)
}

/// Validation reports nothing exactly when no entry raises an error.
pub proof fn lemma_valid_iff_every_entry_valid(entries: Seq<PolicyEntry>)
    ensures
        first_refusal(entries) is None <==> forall|i: int|
            0 <= i < entries.len() ==> (#[trigger] entries[i]).refusal() is None,
{
    lemma_refusal_from(entries, 0);
}

/// The error that validation reports is raised by an entry of the table, and
/// no entry before that one raises any.
pub proof fn lemma_first_refusal_is_first(entries: Seq<PolicyEntry>)
    ensures
        first_refusal(entries) matches Some(refusal) ==> exists|i: int|
            ({
                &&& 0 <= i < entries.len()
                &&& (#[trigger] entries[i]).refusal() == Some(refusal)
                &&& forall|j: int| 0 <= j < i ==> (#[trigger] entries[j]).refusal() is None
            }),
{
    lemma_refusal_from(entries, 0);
}

/// An entry that holds a name outside its vocabulary makes validation fail,
/// and the error names that very entry unless an earlier one is at fault too.
pub proof fn lemma_outside_vocabulary_fails(entries: Seq<PolicyEntry>, at: int)
    requires
        0 <= at < entries.len(),
        entries[at].tier matches Some(name) && !entries[at].class.admits(name),
    ensures
        first_refusal(entries) is Some,
        (forall|j: int| 0 <= j < at ==> (#[trigger] entries[j]).refusal() is None)
            ==> first_refusal(entries) == Some(
            ConfigErrorView {
                class: entries[at].class,
                scope: entries[at].scope,
                value: entries[at].tier->0,
            },
        ),
{
    lemma_refusal_from(entries, 0);
}

/// An unset entry is valid under every classifier.
pub proof fn lemma_unset_is_valid(class: Classifier, scope: Seq<char>)
    ensures
        class.check(scope, None) is None,
{
}

/// Validating two tables one after the other: the first table's error wins.
pub proof fn lemma_first_refusal_concat(head: Seq<PolicyEntry>, tail: Seq<PolicyEntry>)
    ensures
        first_refusal(head + tail) == if first_refusal(head) is Some {
            first_refusal(head)
        } else {
            first_refusal(tail)
        },
{
    lemma_refusal_from_concat(head, tail, 0);
}

proof fn lemma_refusal_from(entries: Seq<PolicyEntry>, start: int)
    requires
        0 <= start <= entries.len(),
    ensures
        first_refusal_from(entries, start) is None <==> forall|i: int|
            start <= i < entries.len() ==> (#[trigger] entries[i]).refusal() is None,
        first_refusal_from(entries, start) matches Some(refusal) ==> exists|i: int|
            ({
                &&& start <= i < entries.len()
                &&& (#[trigger] entries[i]).refusal() == Some(refusal)
                &&& forall|j: int| start <= j < i ==> (#[trigger] entries[j]).refusal() is None
            }),
    decreases entries.len() - start,
{
    if start < entries.len() {
        if entries[start].refusal() is Some {
            assert(forall|j: int| start <= j < start ==> (#[trigger] entries[j]).refusal() is None);
        } else {
            lemma_refusal_from(entries, start + 1);
            if let Some(refusal) = first_refusal_from(entries, start + 1) {
                let i = choose|i: int|
                    {
                        &&& start + 1 <= i < entries.len()
                        &&& (#[trigger] entries[i]).refusal() == Some(refusal)
                        &&& forall|j: int|
                            start + 1 <= j < i ==> (#[trigger] entries[j]).refusal() is None
                    };
                assert(forall|j: int| start <= j < i ==> (#[trigger] entries[j]).refusal() is None);
            }
        }
    }
}

proof fn lemma_refusal_from_concat(head: Seq<PolicyEntry>, tail: Seq<PolicyEntry>, start: int)
    requires
        0 <= start <= head.len() + tail.len(),
    ensures
        first_refusal_from(head + tail, start) == if start >= head.len() {
            first_refusal_from(tail, start - head.len())
        } else if first_refusal_from(head, start) is Some {
            first_refusal_from(head, start)
        } else {
            first_refusal(tail)
        },
    decreases head.len() + tail.len() - start,
{
    let all = head + tail;
    if start < all.len() {
        lemma_refusal_from_concat(head, tail, start + 1);
    }
}

/// A part of the policy document that can be checked against the tier
/// vocabularies.
pub trait ValidAuth {
    /// The entries this part configures, in the order they are validated.
    spec fn entries(&self) -> Seq<PolicyEntry>;

    /// Validates every entry, failing on the first that holds a name outside
    /// its vocabulary.
    fn is_valid(&self) -> (r: Result<bool, ConfigError>)
        ensures
            match first_refusal(self.entries()) {
                None => r == Ok::<bool, ConfigError>(true),
                Some(refusal) => r matches Err(e) && e@ == refusal,
            },
    ;
}

/// Tiers for managing webhooks.
#[derive(Debug, PartialEq)]
pub struct AuthWebhooks {
    pub list: Option<String>,
    pub delete: Option<String>,
    pub update: Option<String>,
}

/// What an [`AuthWebhooks`] holds, over plain sequences.
pub struct AuthWebhooksView {
    pub list: Option<Seq<char>>,
    pub delete: Option<Seq<char>>,
    pub update: Option<Seq<char>>,
}

impl View for AuthWebhooks {
    type V = AuthWebhooksView;

    open spec fn view(&self) -> AuthWebhooksView {
        AuthWebhooksView {
            list: tier_view(self.list),
            delete: tier_view(self.delete),
            update: tier_view(self.update),
        }
    }
}

impl AuthWebhooks {
    /// The policy in force when the document has no `webhooks` category.
    pub open spec fn defaults() -> AuthWebhooksView {
        AuthWebhooksView {
            list: Some("admin"@),
            delete: Some("admin"@),
            update: Some("admin"@),
        }
    }

    /// The defaults of the `webhooks` category.
    pub fn new() -> (policy: Self)
        ensures
            policy@ == Self::defaults(),
    {
        AuthWebhooks {
            list: Some(String::from_str("admin")),
            delete: Some(String::from_str("admin")),
            update: Some(String::from_str("admin")),
        }
    }
}

impl ValidAuth for AuthWebhooks {
    open spec fn entries(&self) -> Seq<PolicyEntry> {
        seq![
            PolicyEntry {
                class: Classifier::AuthCategory,
                scope: "webhooks::list"@,
                tier: self@.list,
            },
            PolicyEntry {
                class: Classifier::AuthCategory,
                scope: "webhooks::delete"@,
                tier: self@.delete,
            },
            PolicyEntry {
                class: Classifier::AuthCategory,
                scope: "webhooks::update"@,
                tier: self@.update,
            },
        ]
    }

    fn is_valid(&self) -> (r: Result<bool, ConfigError>) {
        proof {
            reveal_with_fuel(first_refusal_from, 4);
        }
        is_auth("webhooks::list", &self.list)?;
        is_auth("webhooks::delete", &self.delete)?;
        is_auth("webhooks::update", &self.update)?;

        Ok(true)
    }
}

/// Tiers for reading and writing service metadata.
#[derive(Debug, PartialEq)]
pub struct AuthMeta {
    pub get: Option<String>,
    pub list: Option<String>,
    pub set: Option<String>,
}

/// What an [`AuthMeta`] holds, over plain sequences.
pub struct AuthMetaView {
    pub get: Option<Seq<char>>,
    pub list: Option<Seq<char>>,
    pub set: Option<Seq<char>>,
}

impl View for AuthMeta {
    type V = AuthMetaView;

    open spec fn view(&self) -> AuthMetaView {
        AuthMetaView {
            get: tier_view(self.get),
            list: tier_view(self.list),
            set: tier_view(self.set),
        }
    }
}

impl AuthMeta {
    /// The policy in force when the document has no `meta` category.
    pub open spec fn defaults() -> AuthMetaView {
        AuthMetaView {
            get: Some("public"@),
            list: Some("public"@),
            set: Some("admin"@),
        }
    }

    /// The defaults of the `meta` category.
    pub fn new() -> (policy: Self)
        ensures
            policy@ == Self::defaults(),
    {
        AuthMeta {
            get: Some(String::from_str("public")),
            list: Some(String::from_str("public")),
            set: Some(String::from_str("admin")),
        }
    }
}

impl ValidAuth for AuthMeta {
    open spec fn entries(&self) -> Seq<PolicyEntry> {
        seq![
            PolicyEntry {
                class: Classifier::AllCategory,
                scope: "meta::get"@,
                tier: self@.get,
            },
            PolicyEntry {
                class: Classifier::AllCategory,
                scope: "meta::list"@,
                tier: self@.list,
            },
            PolicyEntry {
                class: Classifier::AuthCategory,
                scope: "meta::set"@,
                tier: self@.set,
            },
        ]
    }

    fn is_valid(&self) -> (r: Result<bool, ConfigError>) {
        proof {
            reveal_with_fuel(first_refusal_from, 4);
        }
        is_all("meta::get", &self.get)?;
        is_all("meta::list", &self.list)?;
        is_auth("meta::set", &self.set)?;

        Ok(true)
    }
}

/// Tiers for bulk export of the data.
#[derive(Debug, PartialEq)]
pub struct AuthClone {
    pub get: Option<String>,
    pub query: Option<String>,
}

/// What an [`AuthClone`] holds, over plain sequences.
pub struct AuthCloneView {
    pub get: Option<Seq<char>>,
    pub query: Option<Seq<char>>,
}

impl View for AuthClone {
    type V = AuthCloneView;

    open spec fn view(&self) -> AuthCloneView {
        AuthCloneView {
            get: tier_view(self.get),
            query: tier_view(self.query),
        }
    }
}

impl AuthClone {
    /// The policy in force when the document has no `clone` category.
    pub open spec fn defaults() -> AuthCloneView {
        AuthCloneView {
            get: Some("user"@),
            query: Some("user"@),
        }
    }

    /// The defaults of the `clone` category.
    pub fn new() -> (policy: Self)
        ensures
            policy@ == Self::defaults(),
    {
        AuthClone {
            get: Some(String::from_str("user")),
            query: Some(String::from_str("user")),
        }
    }
}

impl ValidAuth for AuthClone {
    open spec fn entries(&self) -> Seq<PolicyEntry> {
        seq![
            PolicyEntry {
                class: Classifier::AllCategory,
                scope: "clone::get"@,
                tier: self@.get,
            },
            PolicyEntry {
                class: Classifier::AllCategory,
                scope: "clone::query"@,
                tier: self@.query,
            },
        ]
    }

    fn is_valid(&self) -> (r: Result<bool, ConfigError>) {
        proof {
            reveal_with_fuel(first_refusal_from, 3);
        }
        is_all("clone::get", &self.get)?;
        is_all("clone::query", &self.query)?;

        Ok(true)
    }
}

/// Tier for reading the feature schema.
#[derive(Debug, PartialEq)]
pub struct AuthSchema {
    pub get: Option<String>,
}

/// What an [`AuthSchema`] holds, over plain sequences.
pub struct AuthSchemaView {
    pub get: Option<Seq<char>>,
}

impl View for AuthSchema {
    type V = AuthSchemaView;

    open spec fn view(&self) -> AuthSchemaView {
        AuthSchemaView {
            get: tier_view(self.get),
        }
    }
}

impl AuthSchema {
    /// The policy in force when the document has no `schema` category.
    pub open spec fn defaults() -> AuthSchemaView {
        AuthSchemaView {
            get: Some("public"@),
        }
    }

    /// The defaults of the `schema` category.
    pub fn new() -> (policy: Self)
        ensures
            policy@ == Self::defaults(),
    {
        AuthSchema {
            get: Some(String::from_str("public")),
        }
    }
}

impl ValidAuth for AuthSchema {
    open spec fn entries(&self) -> Seq<PolicyEntry> {
        seq![
            PolicyEntry {
                class: Classifier::AllCategory,
                scope: "schema::get"@,
                tier: self@.get,
            },
        ]
    }

    fn is_valid(&self) -> (r: Result<bool, ConfigError>) {
        proof {
            reveal_with_fuel(first_refusal_from, 2);
        }
        is_all("schema::get", &self.get)?;

        Ok(true)
    }
}

/// Tiers for reading statistics.
#[derive(Debug, PartialEq)]
pub struct AuthStats {
    pub get: Option<String>,
    pub bounds: Option<String>,
}

/// What an [`AuthStats`] holds, over plain sequences.
pub struct AuthStatsView {
    pub get: Option<Seq<char>>,
    pub bounds: Option<Seq<char>>,
}

impl View for AuthStats {
    type V = AuthStatsView;

    open spec fn view(&self) -> AuthStatsView {
        AuthStatsView {
            get: tier_view(self.get),
            bounds: tier_view(self.bounds),
        }
    }
}

impl AuthStats {
    /// The policy in force when the document has no `stats` category.
    pub open spec fn defaults() -> AuthStatsView {
        AuthStatsView {
            get: Some("public"@),
            bounds: Some("public"@),
        }
    }

    /// The defaults of the `stats` category.
    pub fn new() -> (policy: Self)
        ensures
            policy@ == Self::defaults(),
    {
        AuthStats {
            get: Some(String::from_str("public")),
            bounds: Some(String::from_str("public")),
        }
    }
}

impl ValidAuth for AuthStats {
    open spec fn entries(&self) -> Seq<PolicyEntry> {
        seq![
            PolicyEntry {
                class: Classifier::AllCategory,
                scope: "stats::get"@,
                tier: self@.get,
            },
            PolicyEntry {
                class: Classifier::AllCategory,
                scope: "stats::bounds"@,
                tier: self@.bounds,
            },
        ]
    }

    fn is_valid(&self) -> (r: Result<bool, ConfigError>) {
        proof {
            reveal_with_fuel(first_refusal_from, 3);
        }
        is_all("stats::get", &self.get)?;
        is_all("stats::bounds", &self.bounds)?;

        Ok(true)
    }
}

/// Tier for reading the policy itself.
#[derive(Debug, PartialEq)]
pub struct AuthAuth {
    pub get: Option<String>,
}

/// What an [`AuthAuth`] holds, over plain sequences.
pub struct AuthAuthView {
    pub get: Option<Seq<char>>,
}

impl View for AuthAuth {
    type V = AuthAuthView;

    open spec fn view(&self) -> AuthAuthView {
        AuthAuthView {
            get: tier_view(self.get),
        }
    }
}

impl AuthAuth {
    /// The policy in force when the document has no `auth` category.
    pub open spec fn defaults() -> AuthAuthView {
        AuthAuthView {
            get: Some("public"@),
        }
    }

    /// The defaults of the `auth` category.
    pub fn new() -> (policy: Self)
        ensures
            policy@ == Self::defaults(),
    {
        AuthAuth {
            get: Some(String::from_str("public")),
        }
    }
}

impl ValidAuth for AuthAuth {
    open spec fn entries(&self) -> Seq<PolicyEntry> {
        seq![
            PolicyEntry {
                class: Classifier::AllCategory,
                scope: "auth::get"@,
                tier: self@.get,
            },
        ]
    }

    fn is_valid(&self) -> (r: Result<bool, ConfigError>) {
        proof {
            reveal_with_fuel(first_refusal_from, 2);
        }
        is_all("auth::get", &self.get)?;

        Ok(true)
    }
}

/// Tiers for vector tiles.
#[derive(Debug, PartialEq)]
pub struct AuthMVT {
    pub get: Option<String>,
    pub delete: Option<String>,
    pub regen: Option<String>,
    pub meta: Option<String>,
}

/// What an [`AuthMVT`] holds, over plain sequences.
pub struct AuthMVTView {
    pub get: Option<Seq<char>>,
    pub delete: Option<Seq<char>>,
    pub regen: Option<Seq<char>>,
    pub meta: Option<Seq<char>>,
}

impl View for AuthMVT {
    type V = AuthMVTView;

    open spec fn view(&self) -> AuthMVTView {
        AuthMVTView {
            get: tier_view(self.get),
            delete: tier_view(self.delete),
            regen: tier_view(self.regen),
            meta: tier_view(self.meta),
        }
    }
}

impl AuthMVT {
    /// The policy in force when the document has no `mvt` category.
    pub open spec fn defaults() -> AuthMVTView {
        AuthMVTView {
            get: Some("public"@),
            delete: Some("admin"@),
            regen: Some("user"@),
            meta: Some("public"@),
        }
    }

    /// The defaults of the `mvt` category.
    pub fn new() -> (policy: Self)
        ensures
            policy@ == Self::defaults(),
    {
        AuthMVT {
            get: Some(String::from_str("public")),
            delete: Some(String::from_str("admin")),
            regen: Some(String::from_str("user")),
            meta: Some(String::from_str("public")),
        }
    }
}

impl ValidAuth for AuthMVT {
    open spec fn entries(&self) -> Seq<PolicyEntry> {
        seq![
            PolicyEntry {
                class: Classifier::AllCategory,
                scope: "mvt::get"@,
                tier: self@.get,
            },
            PolicyEntry {
                class: Classifier::AllCategory,
                scope: "mvt::regen"@,
                tier: self@.regen,
            },
            PolicyEntry {
                class: Classifier::AllCategory,
                scope: "mvt::delete"@,
                tier: self@.delete,
            },
            PolicyEntry {
                class: Classifier::AllCategory,
                scope: "mvt::meta"@,
                tier: self@.meta,
            },
        ]
    }

    fn is_valid(&self) -> (r: Result<bool, ConfigError>) {
        proof {
            reveal_with_fuel(first_refusal_from, 5);
        }
        is_all("mvt::get", &self.get)?;
        is_all("mvt::regen", &self.regen)?;
        is_all("mvt::delete", &self.delete)?;
        is_all("mvt::meta", &self.meta)?;

        Ok(true)
    }
}

/// Tiers for user accounts and sessions.
#[derive(Debug, PartialEq)]
pub struct AuthUser {
    pub info: Option<String>,
    pub list: Option<String>,
    pub create: Option<String>,
    pub create_session: Option<String>,
}

/// What an [`AuthUser`] holds, over plain sequences.
pub struct AuthUserView {
    pub info: Option<Seq<char>>,
    pub list: Option<Seq<char>>,
    pub create: Option<Seq<char>>,
    pub create_session: Option<Seq<char>>,
}

impl View for AuthUser {
    type V = AuthUserView;

    open spec fn view(&self) -> AuthUserView {
        AuthUserView {
            info: tier_view(self.info),
            list: tier_view(self.list),
            create: tier_view(self.create),
            create_session: tier_view(self.create_session),
        }
    }
}

impl AuthUser {
    /// The policy in force when the document has no `user` category.
    pub open spec fn defaults() -> AuthUserView {
        AuthUserView {
            info: Some("self"@),
            list: Some("user"@),
            create: Some("public"@),
            create_session: Some("self"@),
        }
    }

    /// The defaults of the `user` category.
    pub fn new() -> (policy: Self)
        ensures
            policy@ == Self::defaults(),
    {
        AuthUser {
            info: Some(String::from_str("self")),
            list: Some(String::from_str("user")),
            create: Some(String::from_str("public")),
            create_session: Some(String::from_str("self")),
        }
    }
}

impl ValidAuth for AuthUser {
    open spec fn entries(&self) -> Seq<PolicyEntry> {
        seq![
            PolicyEntry {
                class: Classifier::AllCategory,
                scope: "user::create"@,
                tier: self@.create,
            },
            PolicyEntry {
                class: Classifier::AllCategory,
                scope: "user::list"@,
                tier: self@.list,
            },
            PolicyEntry {
                class: Classifier::SelfCategory,
                scope: "user::create_session"@,
                tier: self@.create_session,
            },
            PolicyEntry {
                class: Classifier::SelfCategory,
                scope: "user::info"@,
                tier: self@.info,
            },
        ]
    }

    fn is_valid(&self) -> (r: Result<bool, ConfigError>) {
        proof {
            reveal_with_fuel(first_refusal_from, 5);
        }
        is_all("user::create", &self.create)?;
        is_all("user::list", &self.list)?;
        is_self("user::create_session", &self.create_session)?;
        is_self("user::info", &self.info)?;

        Ok(true)
    }
}

/// Tiers for map styles.
#[derive(Debug, PartialEq)]
pub struct AuthStyle {
    pub create: Option<String>,
    pub patch: Option<String>,
    pub set_public: Option<String>,
    pub set_private: Option<String>,
    pub delete: Option<String>,
    pub get: Option<String>,
    pub list: Option<String>,
}

/// What an [`AuthStyle`] holds, over plain sequences.
pub struct AuthStyleView {
    pub create: Option<Seq<char>>,
    pub patch: Option<Seq<char>>,
    pub set_public: Option<Seq<char>>,
    pub set_private: Option<Seq<char>>,
    pub delete: Option<Seq<char>>,
    pub get: Option<Seq<char>>,
    pub list: Option<Seq<char>>,
}

impl View for AuthStyle {
    type V = AuthStyleView;

    open spec fn view(&self) -> AuthStyleView {
        AuthStyleView {
            create: tier_view(self.create),
            patch: tier_view(self.patch),
            set_public: tier_view(self.set_public),
            set_private: tier_view(self.set_private),
            delete: tier_view(self.delete),
            get: tier_view(self.get),
            list: tier_view(self.list),
        }
    }
}

impl AuthStyle {
    /// The policy in force when the document has no `style` category.
    pub open spec fn defaults() -> AuthStyleView {
        AuthStyleView {
            create: Some("self"@),
            patch: Some("self"@),
            set_public: Some("self"@),
            set_private: Some("self"@),
            delete: Some("self"@),
            get: Some("public"@),
            list: Some("public"@),
        }
    }

    /// The defaults of the `style` category.
    pub fn new() -> (policy: Self)
        ensures
            policy@ == Self::defaults(),
    {
        AuthStyle {
            create: Some(String::from_str("self")),
            patch: Some(String::from_str("self")),
            set_public: Some(String::from_str("self")),
            set_private: Some(String::from_str("self")),
            delete: Some(String::from_str("self")),
            get: Some(String::from_str("public")),
            list: Some(String::from_str("public")),
        }
    }
}

impl ValidAuth for AuthStyle {
    open spec fn entries(&self) -> Seq<PolicyEntry> {
        seq![
            PolicyEntry {
                class: Classifier::SelfCategory,
                scope: "style::create"@,
                tier: self@.create,
            },
            PolicyEntry {
                class: Classifier::SelfCategory,
                scope: "style::patch"@,
                tier: self@.patch,
            },
            PolicyEntry {
                class: Classifier::SelfCategory,
                scope: "style::set_public"@,
                tier: self@.set_public,
            },
            PolicyEntry {
                class: Classifier::SelfCategory,
                scope: "style::set_private"@,
                tier: self@.set_private,
            },
            PolicyEntry {
                class: Classifier::SelfCategory,
                scope: "style::delete"@,
                tier: self@.delete,
            },
            PolicyEntry {
                class: Classifier::AllCategory,
                scope: "style::get"@,
                tier: self@.get,
            },
            PolicyEntry {
                class: Classifier::AllCategory,
                scope: "style::list"@,
                tier: self@.list,
            },
        ]
    }

    fn is_valid(&self) -> (r: Result<bool, ConfigError>) {
        proof {
            reveal_with_fuel(first_refusal_from, 8);
        }
        is_self("style::create", &self.create)?;
        is_self("style::patch", &self.patch)?;
        is_self("style::set_public", &self.set_public)?;
        is_self("style::set_private", &self.set_private)?;
        is_self("style::delete", &self.delete)?;
        is_all("style::get", &self.get)?;
        is_all("style::list", &self.list)?;

        Ok(true)
    }
}

/// Tiers for reading changesets.
#[derive(Debug, PartialEq)]
pub struct AuthDelta {
    pub get: Option<String>,
    pub list: Option<String>,
}

/// What an [`AuthDelta`] holds, over plain sequences.
pub struct AuthDeltaView {
    pub get: Option<Seq<char>>,
    pub list: Option<Seq<char>>,
}

impl View for AuthDelta {
    type V = AuthDeltaView;

    open spec fn view(&self) -> AuthDeltaView {
        AuthDeltaView {
            get: tier_view(self.get),
            list: tier_view(self.list),
        }
    }
}

impl AuthDelta {
    /// The policy in force when the document has no `delta` category.
    pub open spec fn defaults() -> AuthDeltaView {
        AuthDeltaView {
            get: Some("public"@),
            list: Some("public"@),
        }
    }

    /// The defaults of the `delta` category.
    pub fn new() -> (policy: Self)
        ensures
            policy@ == Self::defaults(),
    {
        AuthDelta {
            get: Some(String::from_str("public")),
            list: Some(String::from_str("public")),
        }
    }
}

impl ValidAuth for AuthDelta {
    open spec fn entries(&self) -> Seq<PolicyEntry> {
        seq![
            PolicyEntry {
                class: Classifier::AllCategory,
                scope: "delta::get"@,
                tier: self@.get,
            },
            PolicyEntry {
                class: Classifier::AllCategory,
                scope: "delta::list"@,
                tier: self@.list,
            },
        ]
    }

    fn is_valid(&self) -> (r: Result<bool, ConfigError>) {
        proof {
            reveal_with_fuel(first_refusal_from, 3);
        }
        is_all("delta::get", &self.get)?;
        is_all("delta::list", &self.list)?;

        Ok(true)
    }
}

/// Tiers for reading and writing features.
///
/// By default `force` holds the name `none`, which no vocabulary admits: the
/// gate denies it to everyone, and validating the defaults reports it.
#[derive(Debug, PartialEq)]
pub struct AuthFeature {
    pub force: Option<String>,
    pub create: Option<String>,
    pub get: Option<String>,
    pub history: Option<String>,
}

/// What an [`AuthFeature`] holds, over plain sequences.
pub struct AuthFeatureView {
    pub force: Option<Seq<char>>,
    pub create: Option<Seq<char>>,
    pub get: Option<Seq<char>>,
    pub history: Option<Seq<char>>,
}

impl View for AuthFeature {
    type V = AuthFeatureView;

    open spec fn view(&self) -> AuthFeatureView {
        AuthFeatureView {
            force: tier_view(self.force),
            create: tier_view(self.create),
            get: tier_view(self.get),
            history: tier_view(self.history),
        }
    }
}

impl AuthFeature {
    /// The policy in force when the document has no `feature` category.
    pub open spec fn defaults() -> AuthFeatureView {
        AuthFeatureView {
            force: Some("none"@),
            create: Some("user"@),
            get: Some("public"@),
            history: Some("public"@),
        }
    }

    /// The defaults of the `feature` category.
    pub fn new() -> (policy: Self)
        ensures
            policy@ == Self::defaults(),
    {
        AuthFeature {
            force: Some(String::from_str("none")),
            create: Some(String::from_str("user")),
            get: Some(String::from_str("public")),
            history: Some(String::from_str("public")),
        }
    }
}

impl ValidAuth for AuthFeature {
    open spec fn entries(&self) -> Seq<PolicyEntry> {
        seq![
            PolicyEntry {
                class: Classifier::AuthCategory,
                scope: "feature::create"@,
                tier: self@.create,
            },
            PolicyEntry {
                class: Classifier::AuthCategory,
                scope: "feature::force"@,
                tier: self@.force,
            },
            PolicyEntry {
                class: Classifier::AllCategory,
                scope: "feature::get"@,
                tier: self@.get,
            },
            PolicyEntry {
                class: Classifier::AllCategory,
                scope: "feature::history"@,
                tier: self@.history,
            },
        ]
    }

    fn is_valid(&self) -> (r: Result<bool, ConfigError>) {
        proof {
            reveal_with_fuel(first_refusal_from, 5);
        }
        is_auth("feature::create", &self.create)?;
        is_auth("feature::force", &self.force)?;
        is_all("feature::get", &self.get)?;
        is_all("feature::history", &self.history)?;

        Ok(true)
    }
}

/// Tiers for named boundaries.
#[derive(Debug, PartialEq)]
pub struct AuthBounds {
    pub list: Option<String>,
    pub create: Option<String>,
    pub delete: Option<String>,
    pub get: Option<String>,
}

/// What an [`AuthBounds`] holds, over plain sequences.
pub struct AuthBoundsView {
    pub list: Option<Seq<char>>,
    pub create: Option<Seq<char>>,
    pub delete: Option<Seq<char>>,
    pub get: Option<Seq<char>>,
}

impl View for AuthBounds {
    type V = AuthBoundsView;

    open spec fn view(&self) -> AuthBoundsView {
        AuthBoundsView {
            list: tier_view(self.list),
            create: tier_view(self.create),
            delete: tier_view(self.delete),
            get: tier_view(self.get),
        }
    }
}

impl AuthBounds {
    /// The policy in force when the document has no `bounds` category.
    pub open spec fn defaults() -> AuthBoundsView {
        AuthBoundsView {
            list: Some("public"@),
            create: Some("admin"@),
            delete: Some("admin"@),
            get: Some("public"@),
        }
    }

    /// The defaults of the `bounds` category.
    pub fn new() -> (policy: Self)
        ensures
            policy@ == Self::defaults(),
    {
        AuthBounds {
            list: Some(String::from_str("public")),
            create: Some(String::from_str("admin")),
            delete: Some(String::from_str("admin")),
            get: Some(String::from_str("public")),
        }
    }
}

impl ValidAuth for AuthBounds {
    open spec fn entries(&self) -> Seq<PolicyEntry> {
        seq![
            PolicyEntry {
                class: Classifier::AllCategory,
                scope: "bounds::list"@,
                tier: self@.list,
            },
            PolicyEntry {
                class: Classifier::AllCategory,
                scope: "bounds::create"@,
                tier: self@.create,
            },
            PolicyEntry {
                class: Classifier::AllCategory,
                scope: "bounds::delete"@,
                tier: self@.delete,
            },
            PolicyEntry {
                class: Classifier::AllCategory,
                scope: "bounds::get"@,
                tier: self@.get,
            },
        ]
    }

    fn is_valid(&self) -> (r: Result<bool, ConfigError>) {
        proof {
            reveal_with_fuel(first_refusal_from, 5);
        }
        is_all("bounds::list", &self.list)?;
        is_all("bounds::create", &self.create)?;
        is_all("bounds::delete", &self.delete)?;
        is_all("bounds::get", &self.get)?;

        Ok(true)
    }
}

/// Tiers for the editor-compatible interface.
#[derive(Debug, PartialEq)]
pub struct AuthOSM {
    pub get: Option<String>,
    pub create: Option<String>,
}

/// What an [`AuthOSM`] holds, over plain sequences.
pub struct AuthOSMView {
    pub get: Option<Seq<char>>,
    pub create: Option<Seq<char>>,
}

impl View for AuthOSM {
    type V = AuthOSMView;

    open spec fn view(&self) -> AuthOSMView {
        AuthOSMView {
            get: tier_view(self.get),
            create: tier_view(self.create),
        }
    }
}

impl AuthOSM {
    /// The policy in force when the document has no `osm` category.
    pub open spec fn defaults() -> AuthOSMView {
        AuthOSMView {
            get: Some("public"@),
            create: Some("user"@),
        }
    }

    /// The defaults of the `osm` category.
    pub fn new() -> (policy: Self)
        ensures
            policy@ == Self::defaults(),
    {
        AuthOSM {
            get: Some(String::from_str("public")),
            create: Some(String::from_str("user")),
        }
    }
}

impl ValidAuth for AuthOSM {
    open spec fn entries(&self) -> Seq<PolicyEntry> {
        seq![
            PolicyEntry {
                class: Classifier::AllCategory,
                scope: "osm::get"@,
                tier: self@.get,
            },
            PolicyEntry {
                class: Classifier::AuthCategory,
                scope: "osm::create"@,
                tier: self@.create,
            },
        ]
    }

    fn is_valid(&self) -> (r: Result<bool, ConfigError>) {
        proof {
            reveal_with_fuel(first_refusal_from, 3);
        }
        is_all("osm::get", &self.get)?;
        is_auth("osm::create", &self.create)?;

        Ok(true)
    }
}

} // verus!
