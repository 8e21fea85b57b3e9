//! The walk over a bundle's descriptors: which dependencies of the bundle, and
//! of its own modules, make up the set of artifacts to download.
//!
//! The walk is two levels deep and no deeper, and both of its namespaces are
//! fixed.

use vstd::prelude::*;
use vstd::string::StringExecFns;
use crate::maven::{lemma_first_error_none, spec_first_error, MavenError};
use crate::text::{spec_starts_with, starts_with};
use crate::types::gradle_module_metadata::{
    dependency_views, Dependency, DependencyView, GradleModuleMetadata, Variant,
};

verus! {

/// The group of the bundle and of its own modules: only these are descended
/// into.
pub const ONECONFIG_GROUP: &'static str = "org.polyfrost.oneconfig";

/// The namespace of the organization: only dependencies inside it are part of
/// the set.
pub const ORGANIZATION_GROUP: &'static str = "org.polyfrost";

/// Whether `group` is `namespace` itself or lies below it.
pub open spec fn spec_in_namespace(group: Seq<char>, namespace: Seq<char>) -> bool {
    group == namespace || spec_starts_with(group, namespace + seq!['.'])
}

/// Tells whether `group` is `namespace` itself or lies below it.
pub fn in_namespace(group: &str, namespace: &str) -> (r: bool)
    ensures
        r == spec_in_namespace(group@, namespace@),
{
    if group.eq(namespace) {
        return true;
    }
    let mut below = String::from_str(namespace);
    below.push('.');
    assert(below@ =~= namespace@ + seq!['.']);
    starts_with(group, below.as_str())
}

/// The facet of a descriptor that a level of the walk reads.
#[derive(Clone, Copy, Debug, PartialEq, Eq, Structural)]
pub enum Facet {
    /// The modules of the bundle: read from the bundle's own descriptor.
    Modules,
    /// What a module needs at run time: read from a module's descriptor.
    Runtime,
}

/// The dependencies that one variant declares for a facet: its own where it
/// is that facet, none where it is another.
pub open spec fn spec_variant_dependencies(variant: Variant, facet: Facet) -> Seq<DependencyView> {
    match variant {
        Variant::OneConfigModulesApiElements { dependencies } => if facet == Facet::Modules {
            dependency_views(dependencies@)
        } else {
            Seq::empty()
        },
        Variant::RuntimeElements { dependencies } => if facet == Facet::Runtime {
            dependency_views(dependencies@)
        } else {
            Seq::empty()
        },
        Variant::Other => Seq::empty(),
    }
}

/// The dependencies that a list of variants declares for a facet, in order.
pub open spec fn spec_declared(variants: Seq<Variant>, facet: Facet) -> Seq<DependencyView>
    decreases variants.len(),
{
    if variants.len() == 0 {
        Seq::empty()
    } else {
        spec_declared(variants.drop_last(), facet) + spec_variant_dependencies(
            variants.last(),
            facet,
        )
    }
}

/// What decides whether a dependency passes.
#[derive(Clone, Copy, Debug, PartialEq, Eq, Structural)]
pub enum Rule {
    /// A dependency of the bundle is part of the set: it lies in the
    /// organization's namespace and is marked for the loader.
    LevelOne,
    /// The walk reads the descriptor of a dependency of the bundle: it is one
    /// of the bundle's own modules.
    Descends,
    /// A dependency of a module is part of the set: it lies in the
    /// organization's namespace.
    LevelTwo,
}

/// Whether a dependency passes a rule.
pub open spec fn spec_passes(rule: Rule, dep: DependencyView) -> bool {
    match rule {
        Rule::LevelOne => dep.attributes.loader_include && spec_in_namespace(
            dep.group,
            ORGANIZATION_GROUP@,
        ),
        Rule::Descends => spec_in_namespace(dep.group, ONECONFIG_GROUP@),
        Rule::LevelTwo => spec_in_namespace(dep.group, ORGANIZATION_GROUP@),
    }
}

/// The dependencies that pass a rule, in order.
pub open spec fn spec_select(deps: Seq<DependencyView>, rule: Rule) -> Seq<DependencyView> {
    deps.filter(|d: DependencyView| spec_passes(rule, d))
}

/// The first level: the dependencies of the bundle that are part of the set.
pub open spec fn spec_level_one(root: GradleModuleMetadata) -> Seq<DependencyView> {
    spec_select(spec_declared(root.variants@, Facet::Modules), Rule::LevelOne)
}

/// The dependencies of one module that are part of the set.
pub open spec fn spec_level_two(module: GradleModuleMetadata) -> Seq<DependencyView> {
    spec_select(spec_declared(module.variants@, Facet::Runtime), Rule::LevelTwo)
}

/// The second level: the dependencies of all fetched modules that are part of
/// the set, module after module. A module that could not be fetched adds
/// nothing.
pub open spec fn spec_level_two_all(
    nested: Seq<Result<GradleModuleMetadata, MavenError>>,
) -> Seq<DependencyView>
    decreases nested.len(),
{
    if nested.len() == 0 {
        Seq::empty()
    } else {
        spec_level_two_all(nested.drop_last()) + (match nested.last() {
            Ok(module) => spec_level_two(module),
            Err(_) => Seq::empty(),
        })
    }
}

/// Whether a list holds an artifact with this group and module.
pub open spec fn spec_occurs(deps: Seq<DependencyView>, key: (Seq<char>, Seq<char>)) -> bool {
    exists|k: int| 0 <= k < deps.len() && (#[trigger] deps[k]).key() == key
}

/// A list without its repetitions: of the entries with one group and module,
/// only the last stays, in its place.
pub open spec fn spec_dedup(deps: Seq<DependencyView>) -> Seq<DependencyView>
    decreases deps.len(),
{
    if deps.len() == 0 {
        Seq::empty()
    } else if spec_occurs(deps.drop_first(), deps[0].key()) {
        spec_dedup(deps.drop_first())
    } else {
        seq![deps[0]] + spec_dedup(deps.drop_first())
    }
}

/// Everything the walk comes by: the bundle itself, then the first level,
/// then the second.
pub open spec fn spec_candidates(
    root: DependencyView,
    descriptor: GradleModuleMetadata,
    nested: Seq<Result<GradleModuleMetadata, MavenError>>,
) -> Seq<DependencyView> {
    seq![root] + spec_level_one(descriptor) + spec_level_two_all(nested)
}

/// The set of artifacts of a bundle: everything the walk comes by, without
/// repetitions.
pub open spec fn spec_artifact_set(
    root: DependencyView,
    descriptor: GradleModuleMetadata,
    nested: Seq<Result<GradleModuleMetadata, MavenError>>,
) -> Seq<DependencyView> {
    spec_dedup(spec_candidates(root, descriptor, nested))
}

/// The dependencies that a descriptor declares for a facet, in order.
pub fn declared(descriptor: &GradleModuleMetadata, facet: Facet) -> (r: Vec<Dependency>)
    ensures
        dependency_views(r@) == spec_declared(descriptor.variants@, facet),
{
    let mut out: Vec<Dependency> = Vec::new();
    let mut i: usize = 0;
    assert(descriptor.variants@.take(0) =~= Seq::<Variant>::empty());
    while i < descriptor.variants.len()
        invariant
            i <= descriptor.variants.len(),
            dependency_views(out@) == spec_declared(descriptor.variants@.take(i as int), facet),
        decreases descriptor.variants.len() - i,
    {
        let ghost before = dependency_views(out@);
        let ghost upto = descriptor.variants@.take(i + 1);
        assert(upto.drop_last() =~= descriptor.variants@.take(i as int));
        assert(upto.last() == descriptor.variants@[i as int]);
        let wanted = match &descriptor.variants[i] {
            Variant::OneConfigModulesApiElements { dependencies } => if facet == Facet::Modules {
                Some(dependencies)
            } else {
                None
            },
            Variant::RuntimeElements { dependencies } => if facet == Facet::Runtime {
                Some(dependencies)
            } else {
                None
            },
            Variant::Other => None,
        };
        match wanted {
            Some(dependencies) => {
                assert(spec_variant_dependencies(descriptor.variants@[i as int], facet)
                    == dependency_views(dependencies@));
                let mut j: usize = 0;
                while j < dependencies.len()
                    invariant
                        j <= dependencies.len(),
                        dependency_views(out@) == before + dependency_views(dependencies@).take(
                            j as int,
                        ),
                    decreases dependencies.len() - j,
                {
                    let ghost prev = out@;
                    let dep = dependencies[j].clone();
                    out.push(dep);
                    assert(dependency_views(out@) =~= dependency_views(prev).push(dep@));
                    assert(dependency_views(dependencies@).take(j + 1) =~= dependency_views(
                        dependencies@,
                    ).take(j as int).push(dep@));
                    j += 1;
                }
                assert(dependency_views(dependencies@).take(dependencies.len() as int)
                    =~= dependency_views(dependencies@));
            },
            None => {
                assert(spec_variant_dependencies(descriptor.variants@[i as int], facet)
                    =~= Seq::<DependencyView>::empty());
                assert(before + Seq::<DependencyView>::empty() =~= before);
            },
        }
        i += 1;
    }
    assert(descriptor.variants@.take(descriptor.variants.len() as int) =~= descriptor.variants@);
    out
}

fn passes(rule: Rule, dep: &Dependency) -> (r: bool)
    ensures
        r == spec_passes(rule, dep@),
{
    match rule {
        Rule::LevelOne => dep.attributes.loader_include && in_namespace(
            dep.group.as_str(),
            ORGANIZATION_GROUP,
        ),
        Rule::Descends => in_namespace(dep.group.as_str(), ONECONFIG_GROUP),
        Rule::LevelTwo => in_namespace(dep.group.as_str(), ORGANIZATION_GROUP),
    }
}

/// The dependencies that pass a rule, in order.
pub fn select(deps: &Vec<Dependency>, rule: Rule) -> (r: Vec<Dependency>)
    ensures
        dependency_views(r@) == spec_select(dependency_views(deps@), rule),
{
    let ghost all = dependency_views(deps@);
    let mut out: Vec<Dependency> = Vec::new();
    let mut i: usize = 0;
    proof {
        reveal(Seq::filter);
        assert(all.take(0) =~= Seq::<DependencyView>::empty());
        assert(dependency_views(out@) =~= Seq::<DependencyView>::empty());
    }
    while i < deps.len()
        invariant
            i <= deps.len(),
            all == dependency_views(deps@),
            dependency_views(out@) == spec_select(all.take(i as int), rule),
        decreases deps.len() - i,
    {
        let ghost prev = out@;
        proof {
            reveal(Seq::filter);
            let upto = all.take(i + 1);
            assert(upto.drop_last() =~= all.take(i as int));
            assert(upto.last() == deps@[i as int]@);
        }
        if passes(rule, &deps[i]) {
            let dep = deps[i].clone();
            out.push(dep);
            assert(dependency_views(out@) =~= dependency_views(prev).push(dep@));
        }
        i += 1;
    }
    assert(all.take(deps.len() as int) =~= all);
    out
}

/// The first level of the walk: the dependencies of the bundle that are part
/// of the set.
pub fn level_one(root: &GradleModuleMetadata) -> (r: Vec<Dependency>)
    ensures
        dependency_views(r@) == spec_level_one(*root),
{
    let all = declared(root, Facet::Modules);
    select(&all, Rule::LevelOne)
}

/// The dependencies of the first level whose own descriptors the walk reads.
pub fn descent_targets(level_one: &Vec<Dependency>) -> (r: Vec<Dependency>)
    ensures
        dependency_views(r@) == spec_select(dependency_views(level_one@), Rule::Descends),
{
    select(level_one, Rule::Descends)
}

/// The dependencies of one module that are part of the set.
pub fn level_two(module: &GradleModuleMetadata) -> (r: Vec<Dependency>)
    ensures
        dependency_views(r@) == spec_level_two(*module),
{
    let all = declared(module, Facet::Runtime);
    select(&all, Rule::LevelTwo)
}

/// Takes the repetitions out of a list: of the entries with one group and
/// module, only the last stays.
pub fn dedup(deps: &Vec<Dependency>) -> (r: Vec<Dependency>)
    ensures
        dependency_views(r@) == spec_dedup(dependency_views(deps@)),
{
    let ghost all = dependency_views(deps@);
    let mut out: Vec<Dependency> = Vec::new();
    let mut i: usize = 0;
    assert(all.skip(0) =~= all);
    assert(dependency_views(out@) + spec_dedup(all) =~= spec_dedup(all));
    while i < deps.len()
        invariant
            i <= deps.len(),
            all == dependency_views(deps@),
            spec_dedup(all) == dependency_views(out@) + spec_dedup(all.skip(i as int)),
        decreases deps.len() - i,
    {
        let ghost rest = all.skip(i as int).drop_first();
        assert(rest =~= all.skip(i + 1));
        let mut later = false;
        let mut j: usize = i + 1;
        while j < deps.len()
            invariant
                i < j <= deps.len(),
                all == dependency_views(deps@),
                later == (exists|k: int| i < k < j && (#[trigger] all[k]).key() == all[i as int].key()),
            decreases deps.len() - j,
        {
            if deps[j].same_artifact(&deps[i]) {
                later = true;
                assert(all[j as int].key() == all[i as int].key());
            }
            j += 1;
        }
        proof {
            if later {
                let k = choose|k: int| i < k < deps.len() && (#[trigger] all[k]).key() == all[i as int].key();
                assert(rest[k - i - 1].key() == all[i as int].key());
            }
            if spec_occurs(rest, all[i as int].key()) {
                let k = choose|k: int| 0 <= k < rest.len() && (#[trigger] rest[k]).key() == all[i as int].key();
                assert(all[k + i + 1].key() == all[i as int].key());
            }
            assert(later == spec_occurs(rest, all.skip(i as int)[0].key()));
        }
        let ghost prev = out@;
        if !later {
            let dep = deps[i].clone();
            out.push(dep);
            assert(dependency_views(out@) =~= dependency_views(prev).push(dep@));
            assert(dependency_views(out@) + spec_dedup(rest) =~= dependency_views(prev) + (
                seq![dep@] + spec_dedup(rest)));
        }
        i += 1;
    }
    assert(all.skip(deps.len() as int) =~= Seq::<DependencyView>::empty());
    assert(dependency_views(out@) + Seq::<DependencyView>::empty() =~= dependency_views(out@));
    out
}

/// Every entry of a list without repetitions is an entry of the list.
pub proof fn lemma_dedup_subset(deps: Seq<DependencyView>)
    ensures
        forall|i: int|
            0 <= i < spec_dedup(deps).len() ==> deps.contains(#[trigger] spec_dedup(deps)[i]),
    decreases deps.len(),
{
    if deps.len() > 0 {
        let rest = deps.drop_first();
        lemma_dedup_subset(rest);
        assert forall|i: int| 0 <= i < spec_dedup(deps).len() implies deps.contains(
            #[trigger] spec_dedup(deps)[i],
        ) by {
            let x = spec_dedup(deps)[i];
            if spec_occurs(rest, deps[0].key()) || i > 0 {
                let at = if spec_occurs(rest, deps[0].key()) {
                    i
                } else {
                    i - 1
                };
                assert(x == spec_dedup(rest)[at]);
                assert(rest.contains(spec_dedup(rest)[at]));
                let k = choose|k: int| 0 <= k < rest.len() && rest[k] == x;
                assert(deps[k + 1] == x);
            } else {
                assert(deps[0] == x);
            }
        }
    }
}

/// In a list without repetitions no two entries share group and module.
pub proof fn lemma_dedup_distinct(deps: Seq<DependencyView>)
    ensures
        forall|i: int, j: int|
            0 <= i < j < spec_dedup(deps).len() ==> (#[trigger] spec_dedup(deps)[i]).key() != (
            #[trigger] spec_dedup(deps)[j]).key(),
    decreases deps.len(),
{
    if deps.len() > 0 {
        let rest = deps.drop_first();
        lemma_dedup_distinct(rest);
        lemma_dedup_subset(rest);
        if !spec_occurs(rest, deps[0].key()) {
            assert forall|i: int, j: int| 0 <= i < j < spec_dedup(deps).len() implies (
            #[trigger] spec_dedup(deps)[i]).key() != (#[trigger] spec_dedup(deps)[j]).key() by {
                if i == 0 {
                    let y = spec_dedup(rest)[j - 1];
                    assert(rest.contains(y));
                    let k = choose|k: int| 0 <= k < rest.len() && rest[k] == y;
                    assert(rest[k].key() != deps[0].key());
                } else {
                    assert(spec_dedup(deps)[i] == spec_dedup(rest)[i - 1]);
                    assert(spec_dedup(deps)[j] == spec_dedup(rest)[j - 1]);
                }
            }
        }
    }
}

/// Every group and module of a list is still there once the repetitions are
/// out, so a list that is not empty stays so.
pub proof fn lemma_dedup_complete(deps: Seq<DependencyView>)
    ensures
        forall|i: int| 0 <= i < deps.len() ==> spec_occurs(spec_dedup(deps), (#[trigger] deps[i]).key()),
        deps.len() > 0 ==> spec_dedup(deps).len() > 0,
    decreases deps.len(),
{
    if deps.len() > 0 {
        let rest = deps.drop_first();
        lemma_dedup_complete(rest);
        let kept = !spec_occurs(rest, deps[0].key());
        let shift: int = if kept {
            1
        } else {
            0
        };
        assert forall|i: int| 0 <= i < deps.len() implies spec_occurs(
            spec_dedup(deps),
            (#[trigger] deps[i]).key(),
        ) by {
            if i == 0 && kept {
                assert(spec_dedup(deps)[0].key() == deps[0].key());
            } else {
                let key = deps[i].key();
                if i == 0 {
                    let k = choose|k: int| 0 <= k < rest.len() && (#[trigger] rest[k]).key() == key;
                    assert(spec_occurs(spec_dedup(rest), rest[k].key()));
                } else {
                    assert(rest[i - 1].key() == key);
                    assert(spec_occurs(spec_dedup(rest), rest[i - 1].key()));
                }
                let m = choose|m: int|
                    0 <= m < spec_dedup(rest).len() && (#[trigger] spec_dedup(rest)[m]).key() == key;
                assert(spec_dedup(deps)[m + shift].key() == key);
            }
        }
        assert(spec_occurs(spec_dedup(deps), deps[0].key()));
    }
}

/// Every dependency that a rule selects passes the rule.
pub proof fn lemma_select_passes(deps: Seq<DependencyView>, rule: Rule)
    ensures
        forall|i: int|
            0 <= i < spec_select(deps, rule).len() ==> spec_passes(
                rule,
                #[trigger] spec_select(deps, rule)[i],
            ),
{
    assert forall|i: int| 0 <= i < spec_select(deps, rule).len() implies spec_passes(
        rule,
        #[trigger] spec_select(deps, rule)[i],
    ) by {
        deps.lemma_filter_pred(|d: DependencyView| spec_passes(rule, d), i);
    }
}

/// Everything on the second level lies in the organization's namespace.
pub proof fn lemma_level_two_in_namespace(nested: Seq<Result<GradleModuleMetadata, MavenError>>)
    ensures
        forall|i: int|
            0 <= i < spec_level_two_all(nested).len() ==> spec_in_namespace(
                (#[trigger] spec_level_two_all(nested)[i]).group,
                ORGANIZATION_GROUP@,
            ),
    decreases nested.len(),
{
    if nested.len() > 0 {
        lemma_level_two_in_namespace(nested.drop_last());
        match nested.last() {
            Ok(module) => {
                lemma_select_passes(
                    spec_declared(module.variants@, Facet::Runtime),
                    Rule::LevelTwo,
                );
            },
            Err(_) => {},
        }
    }
}

/// The set of artifacts of a bundle is never empty, no two of its entries
/// share group and module, and each of them is the bundle itself or lies in
/// the organization's namespace: a dependency outside it is no part of the
/// set, and nothing that only such a dependency declares is.
pub proof fn lemma_artifact_set(
    root: DependencyView,
    descriptor: GradleModuleMetadata,
    nested: Seq<Result<GradleModuleMetadata, MavenError>>,
)
    ensures
        spec_artifact_set(root, descriptor, nested).len() > 0,
        forall|i: int, j: int|
            0 <= i < j < spec_artifact_set(root, descriptor, nested).len() ==> (
            #[trigger] spec_artifact_set(root, descriptor, nested)[i]).key() != (
            #[trigger] spec_artifact_set(root, descriptor, nested)[j]).key(),
        forall|i: int|
            0 <= i < spec_artifact_set(root, descriptor, nested).len() ==> {
                let entry = #[trigger] spec_artifact_set(root, descriptor, nested)[i];
                entry == root || spec_in_namespace(entry.group, ORGANIZATION_GROUP@)
            },
{
    let candidates = spec_candidates(root, descriptor, nested);
    let first = spec_level_one(descriptor);
    let second = spec_level_two_all(nested);
    lemma_dedup_complete(candidates);
    lemma_dedup_distinct(candidates);
    lemma_dedup_subset(candidates);
    lemma_select_passes(spec_declared(descriptor.variants@, Facet::Modules), Rule::LevelOne);
    lemma_level_two_in_namespace(nested);
    assert forall|i: int| 0 <= i < spec_dedup(candidates).len() implies {
        let entry = #[trigger] spec_dedup(candidates)[i];
        entry == root || spec_in_namespace(entry.group, ORGANIZATION_GROUP@)
    } by {
        let entry = spec_dedup(candidates)[i];
        assert(candidates.contains(entry));
        let k = choose|k: int| 0 <= k < candidates.len() && candidates[k] == entry;
        if k == 0 {
        } else if k < 1 + first.len() {
            assert(entry == first[k - 1]);
        } else {
            assert(entry == second[k - 1 - first.len()]);
        }
    }
}

/// The set of artifacts of a bundle, from the bundle itself, its descriptor,
/// and what came back for the descriptors of its `descent_targets`.
///
/// One descriptor that could not be fetched fails the walk with its error,
/// the first in the list where there are several: no part of a set is ever
/// returned.
pub fn resolve_artifact_set(
    root: &Dependency,
    descriptor: &GradleModuleMetadata,
    nested: &Vec<Result<GradleModuleMetadata, MavenError>>,
) -> (r: Result<Vec<Dependency>, MavenError>)
    ensures
        match spec_first_error(nested@) {
            Some(e) => r == Err::<Vec<Dependency>, MavenError>(e),
            None => r is Ok && dependency_views(r->Ok_0@) == spec_artifact_set(
                root@,
                *descriptor,
                nested@,
            ),
        },
        r is Ok <==> forall|i: int| 0 <= i < nested.len() ==> (#[trigger] nested[i]) is Ok,
        r matches Ok(set) ==> set.len() > 0 && (forall|i: int, j: int|
            0 <= i < j < set.len() ==> (#[trigger] set[i])@.key() != (#[trigger] set[j])@.key())
            && (forall|i: int|
            0 <= i < set.len() ==> (#[trigger] set[i])@ == root@ || spec_in_namespace(
                set[i]@.group,
                ORGANIZATION_GROUP@,
            )),
{
    proof {
        lemma_first_error_none(nested@);
    }
    let mut candidates: Vec<Dependency> = Vec::new();
    candidates.push(root.clone());
    let mut first = level_one(descriptor);
    candidates.append(&mut first);
    assert(dependency_views(candidates@) =~= seq![root@] + spec_level_one(*descriptor));
    let mut i: usize = 0;
    assert(nested@.take(0) =~= Seq::<Result<GradleModuleMetadata, MavenError>>::empty());
    assert(nested@.skip(0) =~= nested@);
    assert(dependency_views(candidates@) + Seq::<DependencyView>::empty() =~= dependency_views(
        candidates@,
    ));
    while i < nested.len()
        invariant
            i <= nested.len(),
            spec_first_error(nested@) == spec_first_error(nested@.skip(i as int)),
            dependency_views(candidates@) == seq![root@] + spec_level_one(*descriptor)
                + spec_level_two_all(nested@.take(i as int)),
        decreases nested.len() - i,
    {
        proof {
            let upto = nested@.take(i + 1);
            assert(upto.drop_last() =~= nested@.take(i as int));
            assert(upto.last() == nested@[i as int]);
            assert(nested@.skip(i as int).drop_first() =~= nested@.skip(i + 1));
        }
        match &nested[i] {
            Ok(module) => {
                let mut second = level_two(module);
                let ghost before = dependency_views(candidates@);
                let ghost added = dependency_views(second@);
                candidates.append(&mut second);
                assert(dependency_views(candidates@) =~= before + added);
                assert(before + added =~= seq![root@] + spec_level_one(*descriptor) + (
                spec_level_two_all(nested@.take(i as int)) + added));
            },
            Err(e) => {
                return Err(*e);
            },
        }
        i += 1;
    }
    assert(nested@.take(nested.len() as int) =~= nested@);
    assert(nested@.skip(nested.len() as int) =~= Seq::<Result<GradleModuleMetadata, MavenError>>::empty());
    let set = dedup(&candidates);
    proof {
        lemma_artifact_set(root@, *descriptor, nested@);
        let views = spec_artifact_set(root@, *descriptor, nested@);
        assert(dependency_views(set@) == views);
        assert(set.len() == views.len());
        assert forall|i: int, j: int| 0 <= i < j < set.len() implies (#[trigger] set[i])@.key() != (
        #[trigger] set[j])@.key() by {
            assert(set[i]@ == views[i]);
            assert(set[j]@ == views[j]);
        }
        assert forall|i: int| 0 <= i < set.len() implies (#[trigger] set[i])@ == root@
            || spec_in_namespace(set[i]@.group, ORGANIZATION_GROUP@) by {
            assert(set[i]@ == views[i]);
        }
    }
    Ok(set)
}

} // verus!
