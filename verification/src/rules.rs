//! The validation-rule compiler.
//!
//! Attaches each CEL rule to the schema node its field path identifies
//! (the root node when the path is absent), appending to that node's
//! extension slot in declaration order.  An empty rule expression is an
//! `EmptyRuleExpression` failure (every rule must carry one), and a
//! path that does not match any node is an `UnresolvedFieldPath`
//! failure; nothing is attached then.

use vstd::prelude::*;

use crate::error::BuildError;
use crate::paths::dot_path_wf;
use crate::paths::parse_dot_path;
use crate::paths::path_segs;
use crate::schema::CelRule;
use crate::schema::NodeV;
use crate::schema::RuleV;
use crate::schema::SchemaNode;
use crate::schema::SchemaShape;
use crate::schema::ShapeV;
use crate::schema::rules_view;

verus! {

/// The index of the first property named `name`, or `-1`.
pub open spec fn find_prop(ps: Seq<(Seq<char>, NodeV)>, name: Seq<char>) -> int
    decreases ps.len(),
{
    if ps.len() == 0 {
        -1
    } else if ps[0].0 == name {
        0
    } else {
        let r = find_prop(ps.drop_first(), name);
        if r == -1 {
            -1
        } else {
            r + 1
        }
    }
}

pub proof fn lemma_find_prop_props(ps: Seq<(Seq<char>, NodeV)>, name: Seq<char>)
    ensures
        -1 <= find_prop(ps, name) < ps.len(),
        find_prop(ps, name) >= 0 ==> ps[find_prop(ps, name)].0 == name,
    decreases ps.len(),
{
    if ps.len() > 0 && ps[0].0 != name {
        lemma_find_prop_props(ps.drop_first(), name);
    }
}

pub proof fn lemma_find_prop_hit(ps: Seq<(Seq<char>, NodeV)>, name: Seq<char>, k: int)
    requires
        0 <= k < ps.len(),
        ps[k].0 == name,
        forall|j: int| 0 <= j < k ==> ps[j].0 != name,
    ensures
        find_prop(ps, name) == k,
    decreases k,
{
    if ps[0].0 == name {
        assert(k == 0);
    } else {
        assert(forall|j: int| 0 <= j < k - 1 ==> ps.drop_first()[j] == ps[j + 1]);
        lemma_find_prop_hit(ps.drop_first(), name, k - 1);
    }
}

pub proof fn lemma_find_prop_miss(ps: Seq<(Seq<char>, NodeV)>, name: Seq<char>)
    requires
        forall|j: int| 0 <= j < ps.len() ==> ps[j].0 != name,
    ensures
        find_prop(ps, name) == -1,
    decreases ps.len(),
{
    if ps.len() > 0 {
        lemma_find_prop_miss(ps.drop_first(), name);
    }
}

/// Whether the path suffix `path[i..]` leads to a node of the tree:
/// each remaining segment must name a property of the current (object)
/// node.
pub open spec fn resolves(n: NodeV, path: Seq<Seq<char>>, i: int) -> bool
    decreases path.len() - i,
{
    if i < 0 || i >= path.len() {
        true
    } else {
        match n.shape {
            ShapeV::Object { properties, .. } => {
                let j = find_prop(properties, path[i]);
                &&& j >= 0
                &&& resolves(properties[j].1, path, i + 1)
            },
            _ => false,
        }
    }
}

/// The node with one rule appended to its extension slot.
pub open spec fn with_rule(n: NodeV, r: RuleV) -> NodeV {
    NodeV { rules: n.rules.push(r), ..n }
}

/// The tree with `r` appended to the extension slot of the node that
/// `path[i..]` leads to; unchanged when the path does not resolve.
pub open spec fn attach_one(n: NodeV, path: Seq<Seq<char>>, i: int, r: RuleV) -> NodeV
    decreases path.len() - i,
{
    if i < 0 || i >= path.len() {
        with_rule(n, r)
    } else {
        match n.shape {
            ShapeV::Object { properties, required, additional } => {
                let j = find_prop(properties, path[i]);
                if 0 <= j < properties.len() {
                    NodeV {
                        shape: ShapeV::Object {
                            properties: properties.update(
                                j,
                                (properties[j].0, attach_one(properties[j].1, path, i + 1, r)),
                            ),
                            required,
                            additional,
                        },
                        ..n
                    }
                } else {
                    n
                }
            },
            _ => n,
        }
    }
}

/// Attaches `rule` at the node `path[idx..]` leads to.  Returns whether
/// the path resolved; the tree is unchanged otherwise.
fn attach_at(node: &mut SchemaNode, path: &Vec<String>, idx: usize, rule: &CelRule) -> (ok: bool)
    requires
        idx <= path@.len(),
    ensures
        ok == resolves(old(node)@, path.deep_view(), idx as int),
        ok ==> final(node)@ == attach_one(old(node)@, path.deep_view(), idx as int, rule@),
        !ok ==> final(node)@ == old(node)@,
    decreases path@.len() - idx,
{
    if idx == path.len() {
        let ghost pre = node@;
        node.rules.push(rule.duplicate());
        proof {
            assert(rules_view(node.rules) =~= pre.rules.push(rule@));
            assert(node@ =~= with_rule(pre, rule@));
        }
        true
    } else {
        let ghost pre = node@;
        let ghost pv = path.deep_view();
        match &mut node.shape {
            SchemaShape::Object { properties, required, additional } => {
                let ghost psv = pre.shape->Object_properties;
                let target = &path[idx];
                let m = properties.len();
                let mut found: usize = m;
                let mut i: usize = 0;
                while i < m
                    invariant
                        0 <= i <= m,
                        found <= m,
                        m == properties@.len(),
                        psv.len() == m,
                        forall|k: int|
                            0 <= k < m ==> psv[k] == (properties@[k].0@, properties@[k].1@),
                        found == m ==> forall|k: int| 0 <= k < i ==> psv[k].0 != target@,
                        found < m ==> found < i && psv[found as int].0 == target@ && forall|
                            k: int,
                        | 0 <= k < found ==> psv[k].0 != target@,
                    decreases m - i,
                {
                    if found == m && properties[i].0 == *target {
                        found = i;
                    }
                    i += 1;
                }
                if found == m {
                    proof {
                        lemma_find_prop_miss(psv, target@);
                    }
                    false
                } else {
                    proof {
                        lemma_find_prop_hit(psv, target@, found as int);
                    }
                    let pair = &mut properties[found];
                    let ok = attach_at(&mut pair.1, path, idx + 1, rule);
                    proof {
                        if ok {
                            assert(node@.shape->Object_properties =~= psv.update(
                                found as int,
                                (psv[found as int].0, attach_one(psv[found as int].1, pv, idx + 1, rule@)),
                            ));
                            assert(node@ =~= attach_one(pre, pv, idx as int, rule@));
                        } else {
                            assert(node@.shape->Object_properties =~= psv);
                            assert(node@ =~= pre);
                        }
                    }
                    ok
                }
            },
            _ => {
                false
            },
        }
    }
}

/// Whether one rule's target exists in the tree: the root when it has
/// no field path, else the node its (well-shaped) path leads to.
pub open spec fn rule_target_ok(t: NodeV, r: RuleV) -> bool {
    match r.field_path {
        None => true,
        Some(p) => dot_path_wf(p) && resolves(t, path_segs(p), 0),
    }
}

/// The tree after attaching one rule at its target.
pub open spec fn apply_rule(t: NodeV, r: RuleV) -> NodeV {
    match r.field_path {
        None => with_rule(t, r),
        Some(p) => attach_one(t, path_segs(p), 0, r),
    }
}

/// What is wrong with one rule, if anything.
pub ghost enum RuleIssue {
    /// The expression is the empty string.
    EmptyExpression,
    /// The named field path is malformed or names no node of the tree.
    MissingTarget(Seq<char>),
}

/// The first defect of `r` against the tree `t`: an empty expression,
/// else a field path without a target; `None` for a sound rule.
pub open spec fn rule_issue(t: NodeV, r: RuleV) -> Option<RuleIssue> {
    if r.rule.len() == 0 {
        Some(RuleIssue::EmptyExpression)
    } else {
        match r.field_path {
            None => None,
            Some(p) => if rule_target_ok(t, r) {
                None
            } else {
                Some(RuleIssue::MissingTarget(p))
            },
        }
    }
}

/// The tree after attaching the rules `rs[i..]` in order, or `None` at
/// the first rule with an empty expression or without a target.
pub open spec fn compile_from(t: NodeV, rs: Seq<RuleV>, i: int) -> Option<NodeV>
    decreases rs.len() - i,
{
    if i < 0 || i >= rs.len() {
        Some(t)
    } else if rule_issue(t, rs[i]) is Some {
        None
    } else {
        compile_from(apply_rule(t, rs[i]), rs, i + 1)
    }
}

/// The first defective rule among `rs[i..]`, with its index, as
/// compilation would meet it; `None` when every rule compiles.
pub open spec fn compile_failure(t: NodeV, rs: Seq<RuleV>, i: int) -> Option<(int, RuleIssue)>
    decreases rs.len() - i,
{
    if i < 0 || i >= rs.len() {
        None
    } else {
        match rule_issue(t, rs[i]) {
            Some(issue) => Some((i, issue)),
            None => compile_failure(apply_rule(t, rs[i]), rs, i + 1),
        }
    }
}

/// Compiles a rule set into the tree: attaches every rule at the node
/// its field path identifies (the root without a path), in declaration
/// order, preserving duplicates.  Fails at the first defective rule —
/// `EmptyRuleExpression` for an empty expression (a build-time
/// invariant of every rule), `UnresolvedFieldPath` for a path that is
/// malformed or names no node; no partial result is returned then.
#[verifier::loop_isolation(false)]
pub fn compile_rules(root: SchemaNode, rules: &Vec<CelRule>) -> (r: Result<SchemaNode, BuildError>)
    ensures
        r is Ok <==> compile_from(root@, rules_view(*rules), 0) is Some,
        r matches Ok(t) ==> Some(t@) == compile_from(root@, rules_view(*rules), 0),
        r matches Err(e) ==> compile_failure(root@, rules_view(*rules), 0) matches Some(f) && 0
            <= f.0 < rules@.len() && (f.1 is EmptyExpression ==> (e matches
        BuildError::EmptyRuleExpression { index } && index as int == f.0)) && (f.1 matches
        RuleIssue::MissingTarget(p) ==> (e matches BuildError::UnresolvedFieldPath { path }
            && path@ == p)),
{
    let ghost rsv = rules_view(*rules);
    let empty_path: Vec<String> = Vec::new();
    let mut t = root;
    let ghost root_v = t@;
    let mut i: usize = 0;
    while i < rules.len()
        invariant
            0 <= i <= rules@.len(),
            rsv == rules_view(*rules),
            empty_path@.len() == 0,
            compile_from(root_v, rsv, 0) == compile_from(t@, rsv, i as int),
            compile_failure(root_v, rsv, 0) == compile_failure(t@, rsv, i as int),
        decreases rules@.len() - i,
    {
        let rule = &rules[i];
        proof {
            assert(rsv[i as int] == rule@);
        }
        let ghost pre = t@;
        if rule.rule.as_str().is_empty() {
            proof {
                assert(rule_issue(pre, rsv[i as int]) == Some(RuleIssue::EmptyExpression));
                assert(compile_failure(pre, rsv, i as int) == Some(
                    (i as int, RuleIssue::EmptyExpression),
                ));
                assert(compile_from(pre, rsv, i as int) is None);
            }
            return Err(BuildError::EmptyRuleExpression { index: i });
        }
        match &rule.field_path {
            None => {
                attach_at(&mut t, &empty_path, 0, rule);
                proof {
                    assert(empty_path.deep_view() =~= Seq::<Seq<char>>::empty());
                    assert(t@ == apply_rule(pre, rsv[i as int]));
                }
            },
            Some(p) => {
                match parse_dot_path(p.as_str()) {
                    None => {
                        proof {
                            assert(rule_issue(pre, rsv[i as int]) == Some(
                                RuleIssue::MissingTarget(p@),
                            ));
                            assert(compile_failure(pre, rsv, i as int) == Some(
                                (i as int, RuleIssue::MissingTarget(p@)),
                            ));
                            assert(compile_from(pre, rsv, i as int) is None);
                        }
                        return Err(BuildError::UnresolvedFieldPath { path: p.clone() });
                    },
                    Some(segs) => {
                        let ok = attach_at(&mut t, &segs, 0, rule);
                        if !ok {
                            proof {
                                assert(segs.deep_view() == path_segs(p@));
                                assert(rule_issue(pre, rsv[i as int]) == Some(
                                    RuleIssue::MissingTarget(p@),
                                ));
                                assert(compile_failure(pre, rsv, i as int) == Some(
                                    (i as int, RuleIssue::MissingTarget(p@)),
                                ));
                                assert(compile_from(pre, rsv, i as int) is None);
                            }
                            return Err(BuildError::UnresolvedFieldPath { path: p.clone() });
                        }
                        proof {
                            assert(t@ == apply_rule(pre, rsv[i as int]));
                        }
                    },
                }
            },
        }
        i += 1;
    }
    Ok(t)
}

} // verus!
