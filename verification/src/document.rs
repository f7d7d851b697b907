//! The whole policy document, and the question every operation asks of it:
//! may this caller proceed?

use vstd::prelude::*;
use vstd::string::StringExecFns;

use crate::credential::{Auth, AuthView, StoreReply, StoreReplyView};
use crate::error::{AuthError, ConfigError};
use crate::gate::{auth_met, decision, grants};
use crate::policy::{
    first_refusal, first_refusal_from, lemma_first_refusal_concat, AuthAuth, AuthAuthView,
    AuthBounds, AuthBoundsView, AuthClone, AuthCloneView, AuthDelta, AuthDeltaView, AuthFeature,
    AuthFeatureView, AuthMVT, AuthMVTView, AuthMeta, AuthMetaView, AuthOSM, AuthOSMView,
    AuthSchema, AuthSchemaView, AuthStats, AuthStatsView, AuthStyle, AuthStyleView, AuthUser,
    AuthUserView, AuthWebhooks, AuthWebhooksView, PolicyEntry, ValidAuth,
};
use crate::tier::{is_all, tier_view, Classifier};

verus! {

/// What an optional part of the document holds.
pub open spec fn part_view<T: View>(part: Option<T>) -> Option<T::V> {
    match part {
        Some(policy) => Some(policy@),
        None => None,
    }
}

/// The entries an optional part of the document configures: none when the
/// part is absent.
pub open spec fn part_entries<T: ValidAuth>(part: Option<T>) -> Seq<PolicyEntry> {
    match part {
        Some(policy) => policy.entries(),
        None => Seq::empty(),
    }
}

/// The policy document of a deployment: one tier for the service as a whole
/// and one optional sub-document per category of operations.
///
/// A category that is absent is governed by its defaults. A category that is
/// present governs all of its operations itself: an operation it leaves unset
/// has no requirement and is closed to everyone.
///
/// Every question put to the document takes the credential of the request
/// and what the identity store answered to [`Auth::store_query`]; the
/// credential is resolved on the way.
#[derive(Debug, PartialEq)]
pub struct CustomAuth {
    pub server: Option<String>,
    pub meta: Option<AuthMeta>,
    pub webhooks: Option<AuthWebhooks>,
    pub stats: Option<AuthStats>,
    pub mvt: Option<AuthMVT>,
    pub schema: Option<AuthSchema>,
    pub auth: Option<AuthAuth>,
    pub user: Option<AuthUser>,
    pub feature: Option<AuthFeature>,
    pub style: Option<AuthStyle>,
    pub delta: Option<AuthDelta>,
    pub bounds: Option<AuthBounds>,
    pub clone: Option<AuthClone>,
    pub osm: Option<AuthOSM>,
}

/// What a [`CustomAuth`] holds, over plain sequences.
pub struct CustomAuthView {
    pub server: Option<Seq<char>>,
    pub meta: Option<AuthMetaView>,
    pub webhooks: Option<AuthWebhooksView>,
    pub stats: Option<AuthStatsView>,
    pub mvt: Option<AuthMVTView>,
    pub schema: Option<AuthSchemaView>,
    pub auth: Option<AuthAuthView>,
    pub user: Option<AuthUserView>,
    pub feature: Option<AuthFeatureView>,
    pub style: Option<AuthStyleView>,
    pub delta: Option<AuthDeltaView>,
    pub bounds: Option<AuthBoundsView>,
    pub clone: Option<AuthCloneView>,
    pub osm: Option<AuthOSMView>,
}

impl View for CustomAuth {
    type V = CustomAuthView;

    open spec fn view(&self) -> CustomAuthView {
        CustomAuthView {
            server: tier_view(self.server),
            meta: part_view(self.meta),
            webhooks: part_view(self.webhooks),
            stats: part_view(self.stats),
            mvt: part_view(self.mvt),
            schema: part_view(self.schema),
            auth: part_view(self.auth),
            user: part_view(self.user),
            feature: part_view(self.feature),
            style: part_view(self.style),
            delta: part_view(self.delta),
            bounds: part_view(self.bounds),
            clone: part_view(self.clone),
            osm: part_view(self.osm),
        }
    }
}

impl CustomAuthView {
    /// The policy that governs the `meta` operations.
    pub open spec fn meta_policy(self) -> AuthMetaView {
        match self.meta {
            Some(policy) => policy,
            None => AuthMeta::defaults(),
        }
    }

    /// The policy that governs the `webhooks` operations.
    pub open spec fn webhooks_policy(self) -> AuthWebhooksView {
        match self.webhooks {
            Some(policy) => policy,
            None => AuthWebhooks::defaults(),
        }
    }

    /// The policy that governs the `stats` operations.
    pub open spec fn stats_policy(self) -> AuthStatsView {
        match self.stats {
            Some(policy) => policy,
            None => AuthStats::defaults(),
        }
    }

    /// The policy that governs the `mvt` operations.
    pub open spec fn mvt_policy(self) -> AuthMVTView {
        match self.mvt {
            Some(policy) => policy,
            None => AuthMVT::defaults(),
        }
    }

    /// The policy that governs the `schema` operations.
    pub open spec fn schema_policy(self) -> AuthSchemaView {
        match self.schema {
            Some(policy) => policy,
            None => AuthSchema::defaults(),
        }
    }

    /// The policy that governs the `auth` operations.
    pub open spec fn auth_policy(self) -> AuthAuthView {
        match self.auth {
            Some(policy) => policy,
            None => AuthAuth::defaults(),
        }
    }

    /// The policy that governs the `user` operations.
    pub open spec fn user_policy(self) -> AuthUserView {
        match self.user {
            Some(policy) => policy,
            None => AuthUser::defaults(),
        }
    }

    /// The policy that governs the `feature` operations.
    pub open spec fn feature_policy(self) -> AuthFeatureView {
        match self.feature {
            Some(policy) => policy,
            None => AuthFeature::defaults(),
        }
    }

    /// The policy that governs the `style` operations.
    pub open spec fn style_policy(self) -> AuthStyleView {
        match self.style {
            Some(policy) => policy,
            None => AuthStyle::defaults(),
        }
    }

    /// The policy that governs the `delta` operations.
    pub open spec fn delta_policy(self) -> AuthDeltaView {
        match self.delta {
            Some(policy) => policy,
            None => AuthDelta::defaults(),
        }
    }

    /// The policy that governs the `bounds` operations.
    pub open spec fn bounds_policy(self) -> AuthBoundsView {
        match self.bounds {
            Some(policy) => policy,
            None => AuthBounds::defaults(),
        }
    }

    /// The policy that governs the `clone` operations.
    pub open spec fn clone_policy(self) -> AuthCloneView {
        match self.clone {
            Some(policy) => policy,
            None => AuthClone::defaults(),
        }
    }

    /// The policy that governs the `osm` operations.
    pub open spec fn osm_policy(self) -> AuthOSMView {
        match self.osm {
            Some(policy) => policy,
            None => AuthOSM::defaults(),
        }
    }
}

impl CustomAuth {
    /// The document in which every category holds its defaults.
    pub open spec fn defaults() -> CustomAuthView {
        CustomAuthView {
            server: Some("public"@),
            meta: Some(AuthMeta::defaults()),
            webhooks: Some(AuthWebhooks::defaults()),
            stats: Some(AuthStats::defaults()),
            mvt: Some(AuthMVT::defaults()),
            schema: Some(AuthSchema::defaults()),
            auth: Some(AuthAuth::defaults()),
            user: Some(AuthUser::defaults()),
            feature: Some(AuthFeature::defaults()),
            style: Some(AuthStyle::defaults()),
            delta: Some(AuthDelta::defaults()),
            bounds: Some(AuthBounds::defaults()),
            clone: Some(AuthClone::defaults()),
            osm: Some(AuthOSM::defaults()),
        }
    }

    /// The default document: the service is public and every category is
    /// present with its defaults.
    pub fn new() -> (policy: Self)
        ensures
            policy@ == Self::defaults(),
    {
        CustomAuth {
            server: Some(String::from_str("public")),
            webhooks: Some(AuthWebhooks::new()),
            meta: Some(AuthMeta::new()),
            stats: Some(AuthStats::new()),
            schema: Some(AuthSchema::new()),
            auth: Some(AuthAuth::new()),
            mvt: Some(AuthMVT::new()),
            user: Some(AuthUser::new()),
            feature: Some(AuthFeature::new()),
            style: Some(AuthStyle::new()),
            delta: Some(AuthDelta::new()),
            bounds: Some(AuthBounds::new()),
            clone: Some(AuthClone::new()),
            osm: Some(AuthOSM::new()),
        }
    }

    /// Whether the caller is an administrator, whatever the document says.
    pub fn is_admin(&self, auth: &mut Auth, reply: &StoreReply) -> (r: Result<bool, AuthError>)
        ensures
            r == decision(Some("admin"@), old(auth)@, reply@),
            final(auth)@ == old(auth)@.validated(reply@),
    {
        auth_met(&Some(String::from_str("admin")), auth, reply)
    }

    /// Whether the caller may use the service at all.
    pub fn allows_server(&self, auth: &mut Auth, reply: &StoreReply) -> (r: Result<
        bool,
        AuthError,
    >)
        ensures
            r == decision(self@.server, old(auth)@, reply@),
            final(auth)@ == old(auth)@.validated(reply@),
    {
        auth_met(&self.server, auth, reply)
    }

    /// Whether the caller may perform `webhooks::list`.
    pub fn allows_webhooks_list(&self, auth: &mut Auth, reply: &StoreReply) -> (r: Result<
        bool,
        AuthError,
    >)
        ensures
            r == decision(self@.webhooks_policy().list, old(auth)@, reply@),
            final(auth)@ == old(auth)@.validated(reply@),
    {
        match &self.webhooks {
            None => auth_met(&AuthWebhooks::new().list, auth, reply),
            Some(webhooks) => auth_met(&webhooks.list, auth, reply),
        }
    }

    /// Whether the caller may perform `webhooks::delete`.
    pub fn allows_webhooks_delete(&self, auth: &mut Auth, reply: &StoreReply) -> (r: Result<
        bool,
        AuthError,
    >)
        ensures
            r == decision(self@.webhooks_policy().delete, old(auth)@, reply@),
            final(auth)@ == old(auth)@.validated(reply@),
    {
        match &self.webhooks {
            None => auth_met(&AuthWebhooks::new().delete, auth, reply),
            Some(webhooks) => auth_met(&webhooks.delete, auth, reply),
        }
    }

    /// Whether the caller may perform `webhooks::update`.
    pub fn allows_webhooks_update(&self, auth: &mut Auth, reply: &StoreReply) -> (r: Result<
        bool,
        AuthError,
    >)
        ensures
            r == decision(self@.webhooks_policy().update, old(auth)@, reply@),
            final(auth)@ == old(auth)@.validated(reply@),
    {
        match &self.webhooks {
            None => auth_met(&AuthWebhooks::new().update, auth, reply),
            Some(webhooks) => auth_met(&webhooks.update, auth, reply),
        }
    }

    /// Whether the caller may perform `meta::get`.
    pub fn allows_meta_get(&self, auth: &mut Auth, reply: &StoreReply) -> (r: Result<
        bool,
        AuthError,
    >)
        ensures
            r == decision(self@.meta_policy().get, old(auth)@, reply@),
            final(auth)@ == old(auth)@.validated(reply@),
    {
        match &self.meta {
            None => auth_met(&AuthMeta::new().get, auth, reply),
            Some(meta) => auth_met(&meta.get, auth, reply),
        }
    }

    /// Whether the caller may perform `meta::list`.
    pub fn allows_meta_list(&self, auth: &mut Auth, reply: &StoreReply) -> (r: Result<
        bool,
        AuthError,
    >)
        ensures
            r == decision(self@.meta_policy().list, old(auth)@, reply@),
            final(auth)@ == old(auth)@.validated(reply@),
    {
        match &self.meta {
            None => auth_met(&AuthMeta::new().list, auth, reply),
            Some(meta) => auth_met(&meta.list, auth, reply),
        }
    }

    /// Whether the caller may perform `meta::set`.
    pub fn allows_meta_set(&self, auth: &mut Auth, reply: &StoreReply) -> (r: Result<
        bool,
        AuthError,
    >)
        ensures
            r == decision(self@.meta_policy().set, old(auth)@, reply@),
            final(auth)@ == old(auth)@.validated(reply@),
    {
        match &self.meta {
            None => auth_met(&AuthMeta::new().set, auth, reply),
            Some(meta) => auth_met(&meta.set, auth, reply),
        }
    }

    /// Whether the caller may perform `stats::get`.
    pub fn allows_stats_get(&self, auth: &mut Auth, reply: &StoreReply) -> (r: Result<
        bool,
        AuthError,
    >)
        ensures
            r == decision(self@.stats_policy().get, old(auth)@, reply@),
            final(auth)@ == old(auth)@.validated(reply@),
    {
        match &self.stats {
            None => auth_met(&AuthStats::new().get, auth, reply),
            Some(stats) => auth_met(&stats.get, auth, reply),
        }
    }

    /// Whether the caller may perform `stats::bounds`.
    pub fn allows_stats_bounds(&self, auth: &mut Auth, reply: &StoreReply) -> (r: Result<
        bool,
        AuthError,
    >)
        ensures
            r == decision(self@.stats_policy().bounds, old(auth)@, reply@),
            final(auth)@ == old(auth)@.validated(reply@),
    {
        match &self.stats {
            None => auth_met(&AuthStats::new().bounds, auth, reply),
            Some(stats) => auth_met(&stats.bounds, auth, reply),
        }
    }

    /// Whether the caller may perform `mvt::get`.
    pub fn allows_mvt_get(&self, auth: &mut Auth, reply: &StoreReply) -> (r: Result<
        bool,
        AuthError,
    >)
        ensures
            r == decision(self@.mvt_policy().get, old(auth)@, reply@),
            final(auth)@ == old(auth)@.validated(reply@),
    {
        match &self.mvt {
            None => auth_met(&AuthMVT::new().get, auth, reply),
            Some(mvt) => auth_met(&mvt.get, auth, reply),
        }
    }

    /// Whether the caller may perform `mvt::delete`.
    pub fn allows_mvt_delete(&self, auth: &mut Auth, reply: &StoreReply) -> (r: Result<
        bool,
        AuthError,
    >)
        ensures
            r == decision(self@.mvt_policy().delete, old(auth)@, reply@),
            final(auth)@ == old(auth)@.validated(reply@),
    {
        match &self.mvt {
            None => auth_met(&AuthMVT::new().delete, auth, reply),
            Some(mvt) => auth_met(&mvt.delete, auth, reply),
        }
    }

    /// Whether the caller may perform `mvt::regen`.
    pub fn allows_mvt_regen(&self, auth: &mut Auth, reply: &StoreReply) -> (r: Result<
        bool,
        AuthError,
    >)
        ensures
            r == decision(self@.mvt_policy().regen, old(auth)@, reply@),
            final(auth)@ == old(auth)@.validated(reply@),
    {
        match &self.mvt {
            None => auth_met(&AuthMVT::new().regen, auth, reply),
            Some(mvt) => auth_met(&mvt.regen, auth, reply),
        }
    }

    /// Whether the caller may perform `mvt::meta`.
    pub fn allows_mvt_meta(&self, auth: &mut Auth, reply: &StoreReply) -> (r: Result<
        bool,
        AuthError,
    >)
        ensures
            r == decision(self@.mvt_policy().meta, old(auth)@, reply@),
            final(auth)@ == old(auth)@.validated(reply@),
    {
        match &self.mvt {
            None => auth_met(&AuthMVT::new().meta, auth, reply),
            Some(mvt) => auth_met(&mvt.meta, auth, reply),
        }
    }

    /// Whether the caller may perform `user::list`.
    pub fn allows_user_list(&self, auth: &mut Auth, reply: &StoreReply) -> (r: Result<
        bool,
        AuthError,
    >)
        ensures
            r == decision(self@.user_policy().list, old(auth)@, reply@),
            final(auth)@ == old(auth)@.validated(reply@),
    {
        match &self.user {
            None => auth_met(&AuthUser::new().list, auth, reply),
            Some(user) => auth_met(&user.list, auth, reply),
        }
    }

    /// Whether the caller may perform `user::create`.
    pub fn allows_user_create(&self, auth: &mut Auth, reply: &StoreReply) -> (r: Result<
        bool,
        AuthError,
    >)
        ensures
            r == decision(self@.user_policy().create, old(auth)@, reply@),
            final(auth)@ == old(auth)@.validated(reply@),
    {
        match &self.user {
            None => auth_met(&AuthUser::new().create, auth, reply),
            Some(user) => auth_met(&user.create, auth, reply),
        }
    }

    /// Whether the caller may perform `user::info`.
    pub fn allows_user_info(&self, auth: &mut Auth, reply: &StoreReply) -> (r: Result<
        bool,
        AuthError,
    >)
        ensures
            r == decision(self@.user_policy().info, old(auth)@, reply@),
            final(auth)@ == old(auth)@.validated(reply@),
    {
        match &self.user {
            None => auth_met(&AuthUser::new().info, auth, reply),
            Some(user) => auth_met(&user.info, auth, reply),
        }
    }

    /// Whether the caller may perform `user::create_session`.
    pub fn allows_user_create_session(&self, auth: &mut Auth, reply: &StoreReply) -> (r: Result<
        bool,
        AuthError,
    >)
        ensures
            r == decision(self@.user_policy().create_session, old(auth)@, reply@),
            final(auth)@ == old(auth)@.validated(reply@),
    {
        match &self.user {
            None => auth_met(&AuthUser::new().create_session, auth, reply),
            Some(user) => auth_met(&user.create_session, auth, reply),
        }
    }

    /// Whether the caller may perform `style::create`.
    pub fn allows_style_create(&self, auth: &mut Auth, reply: &StoreReply) -> (r: Result<
        bool,
        AuthError,
    >)
        ensures
            r == decision(self@.style_policy().create, old(auth)@, reply@),
            final(auth)@ == old(auth)@.validated(reply@),
    {
        match &self.style {
            None => auth_met(&AuthStyle::new().create, auth, reply),
            Some(style) => auth_met(&style.create, auth, reply),
        }
    }

    /// Whether the caller may perform `style::patch`.
    pub fn allows_style_patch(&self, auth: &mut Auth, reply: &StoreReply) -> (r: Result<
        bool,
        AuthError,
    >)
        ensures
            r == decision(self@.style_policy().patch, old(auth)@, reply@),
            final(auth)@ == old(auth)@.validated(reply@),
    {
        match &self.style {
            None => auth_met(&AuthStyle::new().patch, auth, reply),
            Some(style) => auth_met(&style.patch, auth, reply),
        }
    }

    /// Whether the caller may perform `style::set_public`.
    pub fn allows_style_set_public(&self, auth: &mut Auth, reply: &StoreReply) -> (r: Result<
        bool,
        AuthError,
    >)
        ensures
            r == decision(self@.style_policy().set_public, old(auth)@, reply@),
            final(auth)@ == old(auth)@.validated(reply@),
    {
        match &self.style {
            None => auth_met(&AuthStyle::new().set_public, auth, reply),
            Some(style) => auth_met(&style.set_public, auth, reply),
        }
    }

    /// Whether the caller may perform `style::set_private`.
    pub fn allows_style_set_private(&self, auth: &mut Auth, reply: &StoreReply) -> (r: Result<
        bool,
        AuthError,
    >)
        ensures
            r == decision(self@.style_policy().set_private, old(auth)@, reply@),
            final(auth)@ == old(auth)@.validated(reply@),
    {
        match &self.style {
            None => auth_met(&AuthStyle::new().set_private, auth, reply),
            Some(style) => auth_met(&style.set_private, auth, reply),
        }
    }

    /// Whether the caller may perform `style::delete`.
    pub fn allows_style_delete(&self, auth: &mut Auth, reply: &StoreReply) -> (r: Result<
        bool,
        AuthError,
    >)
        ensures
            r == decision(self@.style_policy().delete, old(auth)@, reply@),
            final(auth)@ == old(auth)@.validated(reply@),
    {
        match &self.style {
            None => auth_met(&AuthStyle::new().delete, auth, reply),
            Some(style) => auth_met(&style.delete, auth, reply),
        }
    }

    /// Whether the caller may perform `style::get`.
    pub fn allows_style_get(&self, auth: &mut Auth, reply: &StoreReply) -> (r: Result<
        bool,
        AuthError,
    >)
        ensures
            r == decision(self@.style_policy().get, old(auth)@, reply@),
            final(auth)@ == old(auth)@.validated(reply@),
    {
        match &self.style {
            None => auth_met(&AuthStyle::new().get, auth, reply),
            Some(style) => auth_met(&style.get, auth, reply),
        }
    }

    /// Whether the caller may perform `style::list`.
    pub fn allows_style_list(&self, auth: &mut Auth, reply: &StoreReply) -> (r: Result<
        bool,
        AuthError,
    >)
        ensures
            r == decision(self@.style_policy().list, old(auth)@, reply@),
            final(auth)@ == old(auth)@.validated(reply@),
    {
        match &self.style {
            None => auth_met(&AuthStyle::new().list, auth, reply),
            Some(style) => auth_met(&style.list, auth, reply),
        }
    }

    /// Whether the caller may perform `delta::get`.
    pub fn allows_delta_get(&self, auth: &mut Auth, reply: &StoreReply) -> (r: Result<
        bool,
        AuthError,
    >)
        ensures
            r == decision(self@.delta_policy().get, old(auth)@, reply@),
            final(auth)@ == old(auth)@.validated(reply@),
    {
        match &self.delta {
            None => auth_met(&AuthDelta::new().get, auth, reply),
            Some(delta) => auth_met(&delta.get, auth, reply),
        }
    }

    /// Whether the caller may perform `delta::list`.
    pub fn allows_delta_list(&self, auth: &mut Auth, reply: &StoreReply) -> (r: Result<
        bool,
        AuthError,
    >)
        ensures
            r == decision(self@.delta_policy().list, old(auth)@, reply@),
            final(auth)@ == old(auth)@.validated(reply@),
    {
        match &self.delta {
            None => auth_met(&AuthDelta::new().list, auth, reply),
            Some(delta) => auth_met(&delta.list, auth, reply),
        }
    }

    /// Whether the caller may perform `clone::get`.
    pub fn allows_clone_get(&self, auth: &mut Auth, reply: &StoreReply) -> (r: Result<
        bool,
        AuthError,
    >)
        ensures
            r == decision(self@.clone_policy().get, old(auth)@, reply@),
            final(auth)@ == old(auth)@.validated(reply@),
    {
        match &self.clone {
            None => auth_met(&AuthClone::new().get, auth, reply),
            Some(clone) => auth_met(&clone.get, auth, reply),
        }
    }

    /// Whether the caller may perform `clone::query`.
    pub fn allows_clone_query(&self, auth: &mut Auth, reply: &StoreReply) -> (r: Result<
        bool,
        AuthError,
    >)
        ensures
            r == decision(self@.clone_policy().query, old(auth)@, reply@),
            final(auth)@ == old(auth)@.validated(reply@),
    {
        match &self.clone {
            None => auth_met(&AuthClone::new().query, auth, reply),
            Some(clone) => auth_met(&clone.query, auth, reply),
        }
    }

    /// Whether the caller may perform `bounds::get`.
    pub fn allows_bounds_get(&self, auth: &mut Auth, reply: &StoreReply) -> (r: Result<
        bool,
        AuthError,
    >)
        ensures
            r == decision(self@.bounds_policy().get, old(auth)@, reply@),
            final(auth)@ == old(auth)@.validated(reply@),
    {
        match &self.bounds {
            None => auth_met(&AuthBounds::new().get, auth, reply),
            Some(bounds) => auth_met(&bounds.get, auth, reply),
        }
    }

    /// Whether the caller may perform `bounds::create`.
    pub fn allows_bounds_create(&self, auth: &mut Auth, reply: &StoreReply) -> (r: Result<
        bool,
        AuthError,
    >)
        ensures
            r == decision(self@.bounds_policy().create, old(auth)@, reply@),
            final(auth)@ == old(auth)@.validated(reply@),
    {
        match &self.bounds {
            None => auth_met(&AuthBounds::new().create, auth, reply),
            Some(bounds) => auth_met(&bounds.create, auth, reply),
        }
    }

    /// Whether the caller may perform `bounds::delete`.
    pub fn allows_bounds_delete(&self, auth: &mut Auth, reply: &StoreReply) -> (r: Result<
        bool,
        AuthError,
    >)
        ensures
            r == decision(self@.bounds_policy().delete, old(auth)@, reply@),
            final(auth)@ == old(auth)@.validated(reply@),
    {
        match &self.bounds {
            None => auth_met(&AuthBounds::new().delete, auth, reply),
            Some(bounds) => auth_met(&bounds.delete, auth, reply),
        }
    }

    /// Whether the caller may perform `bounds::list`.
    pub fn allows_bounds_list(&self, auth: &mut Auth, reply: &StoreReply) -> (r: Result<
        bool,
        AuthError,
    >)
        ensures
            r == decision(self@.bounds_policy().list, old(auth)@, reply@),
            final(auth)@ == old(auth)@.validated(reply@),
    {
        match &self.bounds {
            None => auth_met(&AuthBounds::new().list, auth, reply),
            Some(bounds) => auth_met(&bounds.list, auth, reply),
        }
    }

    /// Whether the caller may perform `feature::create`.
    pub fn allows_feature_create(&self, auth: &mut Auth, reply: &StoreReply) -> (r: Result<
        bool,
        AuthError,
    >)
        ensures
            r == decision(self@.feature_policy().create, old(auth)@, reply@),
            final(auth)@ == old(auth)@.validated(reply@),
    {
        match &self.feature {
            None => auth_met(&AuthFeature::new().create, auth, reply),
            Some(feature) => auth_met(&feature.create, auth, reply),
        }
    }

    /// Whether the caller may perform `feature::force`.
    pub fn allows_feature_force(&self, auth: &mut Auth, reply: &StoreReply) -> (r: Result<
        bool,
        AuthError,
    >)
        ensures
            r == decision(self@.feature_policy().force, old(auth)@, reply@),
            final(auth)@ == old(auth)@.validated(reply@),
    {
        match &self.feature {
            None => auth_met(&AuthFeature::new().force, auth, reply),
            Some(feature) => auth_met(&feature.force, auth, reply),
        }
    }

    /// Whether the caller may perform `feature::get`.
    pub fn allows_feature_get(&self, auth: &mut Auth, reply: &StoreReply) -> (r: Result<
        bool,
        AuthError,
    >)
        ensures
            r == decision(self@.feature_policy().get, old(auth)@, reply@),
            final(auth)@ == old(auth)@.validated(reply@),
    {
        match &self.feature {
            None => auth_met(&AuthFeature::new().get, auth, reply),
            Some(feature) => auth_met(&feature.get, auth, reply),
        }
    }

    /// Whether the caller may perform `feature::history`.
    pub fn allows_feature_history(&self, auth: &mut Auth, reply: &StoreReply) -> (r: Result<
        bool,
        AuthError,
    >)
        ensures
            r == decision(self@.feature_policy().history, old(auth)@, reply@),
            final(auth)@ == old(auth)@.validated(reply@),
    {
        match &self.feature {
            None => auth_met(&AuthFeature::new().history, auth, reply),
            Some(feature) => auth_met(&feature.history, auth, reply),
        }
    }

    /// Whether the caller may perform `schema::get`.
    pub fn allows_schema_get(&self, auth: &mut Auth, reply: &StoreReply) -> (r: Result<
        bool,
        AuthError,
    >)
        ensures
            r == decision(self@.schema_policy().get, old(auth)@, reply@),
            final(auth)@ == old(auth)@.validated(reply@),
    {
        match &self.schema {
            None => auth_met(&AuthSchema::new().get, auth, reply),
            Some(schema) => auth_met(&schema.get, auth, reply),
        }
    }

    /// Whether the caller may perform `auth::get`.
    pub fn allows_auth_get(&self, auth: &mut Auth, reply: &StoreReply) -> (r: Result<
        bool,
        AuthError,
    >)
        ensures
            r == decision(self@.auth_policy().get, old(auth)@, reply@),
            final(auth)@ == old(auth)@.validated(reply@),
    {
        match &self.auth {
            None => auth_met(&AuthAuth::new().get, auth, reply),
            Some(policy) => auth_met(&policy.get, auth, reply),
        }
    }

    /// Whether the caller may perform `osm::get`.
    pub fn allows_osm_get(&self, auth: &mut Auth, reply: &StoreReply) -> (r: Result<
        bool,
        AuthError,
    >)
        ensures
            r == decision(self@.osm_policy().get, old(auth)@, reply@),
            final(auth)@ == old(auth)@.validated(reply@),
    {
        match &self.osm {
            None => auth_met(&AuthOSM::new().get, auth, reply),
            Some(osm) => auth_met(&osm.get, auth, reply),
        }
    }

    /// Whether the caller may perform `osm::create`.
    pub fn allows_osm_create(&self, auth: &mut Auth, reply: &StoreReply) -> (r: Result<
        bool,
        AuthError,
    >)
        ensures
            r == decision(self@.osm_policy().create, old(auth)@, reply@),
            final(auth)@ == old(auth)@.validated(reply@),
    {
        match &self.osm {
            None => auth_met(&AuthOSM::new().create, auth, reply),
            Some(osm) => auth_met(&osm.create, auth, reply),
        }
    }
}

impl ValidAuth for CustomAuth {
    open spec fn entries(&self) -> Seq<PolicyEntry> {
        seq![
            PolicyEntry {
                class: Classifier::AllCategory,
                scope: "server"@,
                tier: self@.server,
            },
        ] + part_entries(self.meta) + part_entries(self.webhooks) + part_entries(self.stats) + part_entries(self.mvt) + part_entries(self.schema) + part_entries(self.auth) + part_entries(self.user) + part_entries(self.feature) + part_entries(self.style) + part_entries(self.delta) + part_entries(self.bounds) + part_entries(self.clone) + part_entries(self.osm)
    }

    fn is_valid(&self) -> (r: Result<bool, ConfigError>) {
        proof {
            lemma_document_entries(self);
        }
        is_all("server", &self.server)?;

        match &self.meta {
            None => (),
            Some(meta) => {
                meta.is_valid()?;
            },
        };

        match &self.webhooks {
            None => (),
            Some(webhooks) => {
                webhooks.is_valid()?;
            },
        };

        match &self.stats {
            None => (),
            Some(stats) => {
                stats.is_valid()?;
            },
        };

        match &self.mvt {
            None => (),
            Some(mvt) => {
                mvt.is_valid()?;
            },
        };

        match &self.schema {
            None => (),
            Some(schema) => {
                schema.is_valid()?;
            },
        };

        match &self.auth {
            None => (),
            Some(auth) => {
                auth.is_valid()?;
            },
        };

        match &self.user {
            None => (),
            Some(user) => {
                user.is_valid()?;
            },
        };

        match &self.feature {
            None => (),
            Some(feature) => {
                feature.is_valid()?;
            },
        };

        match &self.style {
            None => (),
            Some(style) => {
                style.is_valid()?;
            },
        };

        match &self.delta {
            None => (),
            Some(delta) => {
                delta.is_valid()?;
            },
        };

        match &self.bounds {
            None => (),
            Some(bounds) => {
                bounds.is_valid()?;
            },
        };

        match &self.clone {
            None => (),
            Some(clone) => {
                clone.is_valid()?;
            },
        };

        match &self.osm {
            None => (),
            Some(osm) => {
                osm.is_valid()?;
            },
        };

        Ok(true)
    }
}

/// The error of a document is that of its first part that raises one: the
/// service tier first, then each category that is present, in the order of the
/// fields. A document is valid exactly when all of these are.
pub proof fn lemma_document_entries(doc: &CustomAuth)
    ensures
        first_refusal(doc.entries()) == if Classifier::AllCategory.check(
            "server"@,
            doc@.server,
        ) is Some {
            Classifier::AllCategory.check("server"@, doc@.server)
        } else if first_refusal(part_entries(doc.meta)) is Some {
            first_refusal(part_entries(doc.meta))
        } else if first_refusal(part_entries(doc.webhooks)) is Some {
            first_refusal(part_entries(doc.webhooks))
        } else if first_refusal(part_entries(doc.stats)) is Some {
            first_refusal(part_entries(doc.stats))
        } else if first_refusal(part_entries(doc.mvt)) is Some {
            first_refusal(part_entries(doc.mvt))
        } else if first_refusal(part_entries(doc.schema)) is Some {
            first_refusal(part_entries(doc.schema))
        } else if first_refusal(part_entries(doc.auth)) is Some {
            first_refusal(part_entries(doc.auth))
        } else if first_refusal(part_entries(doc.user)) is Some {
            first_refusal(part_entries(doc.user))
        } else if first_refusal(part_entries(doc.feature)) is Some {
            first_refusal(part_entries(doc.feature))
        } else if first_refusal(part_entries(doc.style)) is Some {
            first_refusal(part_entries(doc.style))
        } else if first_refusal(part_entries(doc.delta)) is Some {
            first_refusal(part_entries(doc.delta))
        } else if first_refusal(part_entries(doc.bounds)) is Some {
            first_refusal(part_entries(doc.bounds))
        } else if first_refusal(part_entries(doc.clone)) is Some {
            first_refusal(part_entries(doc.clone))
        } else {
            first_refusal(part_entries(doc.osm))
        },
        first_refusal(doc.entries()) is None <==> ({
            &&& Classifier::AllCategory.check("server"@, doc@.server) is None
            &&& first_refusal(part_entries(doc.meta)) is None
            &&& first_refusal(part_entries(doc.webhooks)) is None
            &&& first_refusal(part_entries(doc.stats)) is None
            &&& first_refusal(part_entries(doc.mvt)) is None
            &&& first_refusal(part_entries(doc.schema)) is None
            &&& first_refusal(part_entries(doc.auth)) is None
            &&& first_refusal(part_entries(doc.user)) is None
            &&& first_refusal(part_entries(doc.feature)) is None
            &&& first_refusal(part_entries(doc.style)) is None
            &&& first_refusal(part_entries(doc.delta)) is None
            &&& first_refusal(part_entries(doc.bounds)) is None
            &&& first_refusal(part_entries(doc.clone)) is None
            &&& first_refusal(part_entries(doc.osm)) is None
        }),
{
    reveal_with_fuel(first_refusal_from, 2);
    let t0 = seq![
        PolicyEntry { class: Classifier::AllCategory, scope: "server"@, tier: doc@.server },
    ];
    lemma_first_refusal_concat(t0, part_entries(doc.meta));
    let t1 = t0 + part_entries(doc.meta);
    lemma_first_refusal_concat(t1, part_entries(doc.webhooks));
    let t2 = t1 + part_entries(doc.webhooks);
    lemma_first_refusal_concat(t2, part_entries(doc.stats));
    let t3 = t2 + part_entries(doc.stats);
    lemma_first_refusal_concat(t3, part_entries(doc.mvt));
    let t4 = t3 + part_entries(doc.mvt);
    lemma_first_refusal_concat(t4, part_entries(doc.schema));
    let t5 = t4 + part_entries(doc.schema);
    lemma_first_refusal_concat(t5, part_entries(doc.auth));
    let t6 = t5 + part_entries(doc.auth);
    lemma_first_refusal_concat(t6, part_entries(doc.user));
    let t7 = t6 + part_entries(doc.user);
    lemma_first_refusal_concat(t7, part_entries(doc.feature));
    let t8 = t7 + part_entries(doc.feature);
    lemma_first_refusal_concat(t8, part_entries(doc.style));
    let t9 = t8 + part_entries(doc.style);
    lemma_first_refusal_concat(t9, part_entries(doc.delta));
    let t10 = t9 + part_entries(doc.delta);
    lemma_first_refusal_concat(t10, part_entries(doc.bounds));
    let t11 = t10 + part_entries(doc.bounds);
    lemma_first_refusal_concat(t11, part_entries(doc.clone));
    let t12 = t11 + part_entries(doc.clone);
    lemma_first_refusal_concat(t12, part_entries(doc.osm));
    let t13 = t12 + part_entries(doc.osm);
}

/// A category that the document leaves out is governed by its defaults; one
/// that the document holds is governed by what it holds and by nothing else.
pub proof fn lemma_absent_category_defaults(doc: CustomAuthView)
    ensures
        doc.meta is None ==> doc.meta_policy() == AuthMeta::defaults(),
        doc.webhooks is None ==> doc.webhooks_policy() == AuthWebhooks::defaults(),
        doc.stats is None ==> doc.stats_policy() == AuthStats::defaults(),
        doc.mvt is None ==> doc.mvt_policy() == AuthMVT::defaults(),
        doc.schema is None ==> doc.schema_policy() == AuthSchema::defaults(),
        doc.auth is None ==> doc.auth_policy() == AuthAuth::defaults(),
        doc.user is None ==> doc.user_policy() == AuthUser::defaults(),
        doc.feature is None ==> doc.feature_policy() == AuthFeature::defaults(),
        doc.style is None ==> doc.style_policy() == AuthStyle::defaults(),
        doc.delta is None ==> doc.delta_policy() == AuthDelta::defaults(),
        doc.bounds is None ==> doc.bounds_policy() == AuthBounds::defaults(),
        doc.clone is None ==> doc.clone_policy() == AuthClone::defaults(),
        doc.osm is None ==> doc.osm_policy() == AuthOSM::defaults(),
        doc.meta matches Some(policy) ==> doc.meta_policy() == policy,
        doc.webhooks matches Some(policy) ==> doc.webhooks_policy() == policy,
        doc.stats matches Some(policy) ==> doc.stats_policy() == policy,
        doc.mvt matches Some(policy) ==> doc.mvt_policy() == policy,
        doc.schema matches Some(policy) ==> doc.schema_policy() == policy,
        doc.auth matches Some(policy) ==> doc.auth_policy() == policy,
        doc.user matches Some(policy) ==> doc.user_policy() == policy,
        doc.feature matches Some(policy) ==> doc.feature_policy() == policy,
        doc.style matches Some(policy) ==> doc.style_policy() == policy,
        doc.delta matches Some(policy) ==> doc.delta_policy() == policy,
        doc.bounds matches Some(policy) ==> doc.bounds_policy() == policy,
        doc.clone matches Some(policy) ==> doc.clone_policy() == policy,
        doc.osm matches Some(policy) ==> doc.osm_policy() == policy,
{
}

/// Leaving a category out and leaving an operation unset are told apart:
/// without a `meta` category its `get` operation is open to everyone, while a
/// `meta` category that does not set `get` closes it to everyone.
pub proof fn lemma_absent_differs_from_unset(
    doc: CustomAuthView,
    cred: AuthView,
    reply: StoreReplyView,
)
    ensures
        doc.meta is None ==> grants(doc.meta_policy().get, cred, reply),
        doc.meta matches Some(policy) && policy.get is None ==> !grants(
            doc.meta_policy().get,
            cred,
            reply,
        ),
{
}

} // verus!
