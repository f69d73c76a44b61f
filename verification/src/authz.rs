//! Role/ownership authorization.
//!
//! A principal's role is a closed variant: an ordinary contributor, the
//! owner of exactly one named establishment, or an administrator. A declarative
//! policy is a list of rules, each granting an action to a role pattern
//! within a resource scope; the decision is the union of matches: allow
//! if any rule matches, otherwise deny.
//!
//! The scope discipline follows ownership: when the principal owns the
//! very resource under decision, only rules scoped to one's own resource
//! apply; otherwise only rules that hold independently of ownership
//! apply. An owner may therefore be granted something on other
//! establishments (writing a review) that is withheld on their own.

use vstd::prelude::*;

verus! {

/// A principal's role. Ownership is data inside the role: an `Owner`
/// names exactly the one establishment it owns.
#[derive(Debug, Clone, PartialEq, Eq)]
pub enum UserRole {
    Reviewer,
    Owner { owned_establishment: String },
    Admin,
}

/// The mathematical image of a role.
pub enum RoleModel {
    Reviewer,
    Owner(Seq<char>),
    Admin,
}

impl View for UserRole {
    type V = RoleModel;

    open spec fn view(&self) -> RoleModel {
        match self {
            UserRole::Reviewer => RoleModel::Reviewer,
            UserRole::Owner { owned_establishment } => RoleModel::Owner(owned_establishment@),
            UserRole::Admin => RoleModel::Admin,
        }
    }
}

/// An action a principal may attempt on a resource.
#[derive(Debug, Clone, Copy, PartialEq, Eq, Structural)]
pub enum Action {
    /// Read one's own authored content, wherever it lives.
    ReadOwn,
    Write,
    Read,
    Delete,
}

/// Which roles a rule applies to.
#[derive(Debug, Clone, Copy, PartialEq, Eq, Structural)]
pub enum RolePattern {
    AnyRole,
    IsReviewer,
    IsOwner,
    IsAdmin,
}

/// Which resources a rule applies to: any resource independently of
/// ownership, or exactly the resource the principal owns.
#[derive(Debug, Clone, Copy, PartialEq, Eq, Structural)]
pub enum ResourceScope {
    AnyResource,
    OwnResource,
}

/// Which actions a rule grants.
#[derive(Debug, Clone, Copy, PartialEq, Eq, Structural)]
pub enum ActionPattern {
    AnyAction,
    Exactly(Action),
}

/// One declarative grant: the role pattern, the resource scope, and the
/// action it allows.
#[derive(Debug, Clone, Copy, PartialEq, Eq, Structural)]
pub struct PolicyRule {
    pub role: RolePattern,
    pub scope: ResourceScope,
    pub action: ActionPattern,
}

/// Whether a role pattern covers a role.
pub open spec fn spec_role_matches(pattern: RolePattern, role: RoleModel) -> bool {
    match pattern {
        RolePattern::AnyRole => true,
        RolePattern::IsReviewer => role is Reviewer,
        RolePattern::IsOwner => role is Owner,
        RolePattern::IsAdmin => role is Admin,
    }
}

/// Whether an action pattern covers an action.
pub open spec fn spec_action_matches(pattern: ActionPattern, action: Action) -> bool {
    match pattern {
        ActionPattern::AnyAction => true,
        ActionPattern::Exactly(a) => a == action,
    }
}

/// The scope a decision falls in: the principal's own resource exactly
/// when the principal owns the resource under decision.
pub open spec fn spec_scope_of(role: RoleModel, resource: Seq<char>) -> ResourceScope {
    if role matches RoleModel::Owner(owned) && owned == resource {
        ResourceScope::OwnResource
    } else {
        ResourceScope::AnyResource
    }
}

/// Whether one rule grants `action` on `resource` to a principal of
/// `role`.
pub open spec fn spec_rule_allows(
    rule: PolicyRule,
    role: RoleModel,
    resource: Seq<char>,
    action: Action,
) -> bool {
    spec_role_matches(rule.role, role) && spec_action_matches(rule.action, action) && rule.scope
        == spec_scope_of(role, resource)
}

/// Whether a policy grants `action` on `resource` to a principal of
/// `role`: allow if any rule matches, otherwise deny.
pub open spec fn spec_policy_allows(
    rules: Seq<PolicyRule>,
    role: RoleModel,
    resource: Seq<char>,
    action: Action,
) -> bool {
    exists|i: int| 0 <= i < rules.len() && spec_rule_allows(#[trigger] rules[i], role, resource, action)
}

/// The review platform's policy: anyone may read their own authored
/// content and write reviews, except that these ownership-independent
/// grants never apply to an establishment's own owner on that
/// establishment; an owner may read the reviews of the establishment
/// they own; an administrator may do anything.
pub open spec fn spec_default_rules() -> Seq<PolicyRule> {
    seq![
        (PolicyRule {
            role: RolePattern::AnyRole,
            scope: ResourceScope::AnyResource,
            action: ActionPattern::Exactly(Action::ReadOwn),
        }),
        (PolicyRule {
            role: RolePattern::AnyRole,
            scope: ResourceScope::AnyResource,
            action: ActionPattern::Exactly(Action::Write),
        }),
        (PolicyRule {
            role: RolePattern::IsOwner,
            scope: ResourceScope::OwnResource,
            action: ActionPattern::Exactly(Action::Read),
        }),
        (PolicyRule {
            role: RolePattern::IsAdmin,
            scope: ResourceScope::AnyResource,
            action: ActionPattern::AnyAction,
        }),
    ]
}

/// A loaded, immutable policy: the rule list evaluated by union of
/// matches.
pub struct PolicySet {
    pub rules: Vec<PolicyRule>,
}

impl PolicySet {
    /// The review platform's policy, as a loaded rule set.
    pub fn default_policy() -> (r: PolicySet)
        ensures
            r.rules@ =~= spec_default_rules(),
    {
        let mut rules: Vec<PolicyRule> = Vec::new();
        rules.push(PolicyRule {
            role: RolePattern::AnyRole,
            scope: ResourceScope::AnyResource,
            action: ActionPattern::Exactly(Action::ReadOwn),
        });
        rules.push(PolicyRule {
            role: RolePattern::AnyRole,
            scope: ResourceScope::AnyResource,
            action: ActionPattern::Exactly(Action::Write),
        });
        rules.push(PolicyRule {
            role: RolePattern::IsOwner,
            scope: ResourceScope::OwnResource,
            action: ActionPattern::Exactly(Action::Read),
        });
        rules.push(PolicyRule {
            role: RolePattern::IsAdmin,
            scope: ResourceScope::AnyResource,
            action: ActionPattern::AnyAction,
        });
        PolicySet { rules }
    }

    /// Decides whether a principal of `role` may perform `action` on
    /// `resource` under this policy: allow exactly when some rule
    /// matches. A pure function of the arguments; no state is touched.
    pub fn check(&self, role: &UserRole, resource: &str, action: Action) -> (r: bool)
        ensures
            r == spec_policy_allows(self.rules@, role@, resource@, action),
    {
        let scope = scope_of(role, resource);
        let n = self.rules.len();
        let mut i: usize = 0;
        while i < n
            invariant
                n == self.rules@.len(),
                0 <= i <= n,
                scope == spec_scope_of(role@, resource@),
                forall|j: int| 0 <= j < i ==> !spec_rule_allows(
                    #[trigger] self.rules@[j],
                    role@,
                    resource@,
                    action,
                ),
            decreases n - i,
        {
            let rule = self.rules[i];
            if role_matches(rule.role, role) && action_matches(rule.action, action) && rule.scope
                == scope {
                assert(spec_rule_allows(self.rules@[i as int], role@, resource@, action));
                return true;
            }
            i = i + 1;
        }
        false
    }
}

/// Whether a role pattern covers a role.
pub fn role_matches(pattern: RolePattern, role: &UserRole) -> (r: bool)
    ensures
        r == spec_role_matches(pattern, role@),
{
    match pattern {
        RolePattern::AnyRole => true,
        RolePattern::IsReviewer => matches!(role, UserRole::Reviewer),
        RolePattern::IsOwner => matches!(role, UserRole::Owner { .. }),
        RolePattern::IsAdmin => matches!(role, UserRole::Admin),
    }
}

/// Whether an action pattern covers an action.
pub fn action_matches(pattern: ActionPattern, action: Action) -> (r: bool)
    ensures
        r == spec_action_matches(pattern, action),
{
    match pattern {
        ActionPattern::AnyAction => true,
        ActionPattern::Exactly(a) => a == action,
    }
}

/// The scope a decision falls in for this principal and resource.
pub fn scope_of(role: &UserRole, resource: &str) -> (r: ResourceScope)
    ensures
        r == spec_scope_of(role@, resource@),
{
    match role {
        UserRole::Owner { owned_establishment } => {
            let res = String::from_str(resource);
            if *owned_establishment == res {
                ResourceScope::OwnResource
            } else {
                ResourceScope::AnyResource
            }
        },
        _ => ResourceScope::AnyResource,
    }
}

/// Decides whether a principal of `role` may perform `action` on
/// `resource` under the review platform's policy.
pub fn check_permission(role: &UserRole, resource: &str, action: Action) -> (r: bool)
    ensures
        r == spec_policy_allows(spec_default_rules(), role@, resource@, action),
{
    let policy = PolicySet::default_policy();
    policy.check(role, resource, action)
}

/// An administrator is allowed anything: every resource, every action.
pub proof fn lemma_admin_allows(resource: Seq<char>, action: Action)
    ensures
        spec_policy_allows(spec_default_rules(), RoleModel::Admin, resource, action),
{
    assert(spec_rule_allows(spec_default_rules()[3], RoleModel::Admin, resource, action));
}

/// An owner may read the establishment they own, and no other: reading
/// another establishment's reviews is denied.
pub proof fn lemma_owner_read(owned: Seq<char>, resource: Seq<char>)
    ensures
        spec_policy_allows(spec_default_rules(), RoleModel::Owner(owned), owned, Action::Read),
        owned != resource ==> !spec_policy_allows(
            spec_default_rules(),
            RoleModel::Owner(owned),
            resource,
            Action::Read,
        ),
{
    assert(spec_rule_allows(spec_default_rules()[2], RoleModel::Owner(owned), owned, Action::Read));
    if owned != resource {
        assert forall|i: int|
            0 <= i < spec_default_rules().len() ==> !spec_rule_allows(
                #[trigger] spec_default_rules()[i],
                RoleModel::Owner(owned),
                resource,
                Action::Read,
            ) by {
            assert(spec_scope_of(RoleModel::Owner(owned), resource) == ResourceScope::AnyResource);
        }
    }
}

/// An ordinary contributor may read their own authored content whatever
/// the resource under decision names, and may never delete.
pub proof fn lemma_reviewer_scope(resource: Seq<char>)
    ensures
        spec_policy_allows(spec_default_rules(), RoleModel::Reviewer, resource, Action::ReadOwn),
        !spec_policy_allows(spec_default_rules(), RoleModel::Reviewer, resource, Action::Delete),
{
    assert(spec_rule_allows(
        spec_default_rules()[0],
        RoleModel::Reviewer,
        resource,
        Action::ReadOwn,
    ));
}

} // verus!
