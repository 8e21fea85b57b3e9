use oneconfig_artifacts::maven::MavenError;
use oneconfig_artifacts::types::gradle_module_metadata::{
    Dependency, DependencyAttributes, GradleModuleMetadata, Variant, VersionRequirement,
};
use oneconfig_artifacts::walker::{
    declared, dedup, descent_targets, in_namespace, level_one, level_two, resolve_artifact_set,
    select, Facet, Rule, ONECONFIG_GROUP, ORGANIZATION_GROUP,
};

fn dep(group: &str, module: &str, version: &str, marked: bool) -> Dependency {
    Dependency {
        group: group.to_string(),
        module: module.to_string(),
        version: VersionRequirement { requires: version.to_string() },
        third_party_compatibility: None,
        attributes: DependencyAttributes { loader_include: marked, jij: false },
    }
}

fn modules(dependencies: Vec<Dependency>) -> Variant {
    Variant::OneConfigModulesApiElements { dependencies }
}

fn runtime(dependencies: Vec<Dependency>) -> Variant {
    Variant::RuntimeElements { dependencies }
}

fn names(deps: &[Dependency]) -> Vec<String> {
    deps.iter().map(|d| format!("{}:{}:{}", d.group, d.module, d.version.requires)).collect()
}

fn root() -> Dependency {
    dep("org.polyfrost.oneconfig", "1.8.9-forge", "1.0.0", false)
}

#[test]
fn namespaces_are_fixed() {
    assert_eq!(ONECONFIG_GROUP, "org.polyfrost.oneconfig");
    assert_eq!(ORGANIZATION_GROUP, "org.polyfrost");
}

#[test]
fn namespace_holds_itself_and_what_lies_below() {
    assert!(in_namespace("org.polyfrost", "org.polyfrost"));
    assert!(in_namespace("org.polyfrost.oneconfig", "org.polyfrost"));
    assert!(in_namespace("org.polyfrost.a.b", "org.polyfrost"));
    assert!(!in_namespace("org.polyfrostx", "org.polyfrost"));
    assert!(!in_namespace("org.polyfrost.", "org.polyfrost.oneconfig"));
    assert!(!in_namespace("org", "org.polyfrost"));
    assert!(!in_namespace("com.example", "org.polyfrost"));
    assert!(!in_namespace("", "org.polyfrost"));
}

#[test]
fn declared_reads_only_the_facet_asked_for() {
    let descriptor = GradleModuleMetadata {
        variants: vec![
            Variant::Other,
            runtime(vec![dep("a", "r1", "1", true)]),
            modules(vec![dep("a", "m1", "1", true), dep("a", "m2", "1", false)]),
            modules(vec![dep("a", "m3", "1", true)]),
            runtime(vec![]),
        ],
    };
    assert_eq!(names(&declared(&descriptor, Facet::Modules)), ["a:m1:1", "a:m2:1", "a:m3:1"]);
    assert_eq!(names(&declared(&descriptor, Facet::Runtime)), ["a:r1:1"]);
    assert!(declared(&GradleModuleMetadata { variants: vec![] }, Facet::Modules).is_empty());
}

#[test]
fn first_level_is_marked_and_inside_the_organization() {
    let descriptor = GradleModuleMetadata {
        variants: vec![
            modules(vec![
                dep("org.polyfrost.oneconfig", "config", "1", true),
                dep("org.polyfrost.oneconfig", "internal", "1", false),
                dep("org.polyfrost", "universal", "2", true),
                dep("com.example", "third", "3", true),
            ]),
            runtime(vec![dep("org.polyfrost", "only-runtime", "1", true)]),
        ],
    };
    assert_eq!(
        names(&level_one(&descriptor)),
        ["org.polyfrost.oneconfig:config:1", "org.polyfrost:universal:2"]
    );
}

#[test]
fn only_own_modules_are_descended_into() {
    let first = vec![
        dep("org.polyfrost.oneconfig", "config", "1", true),
        dep("org.polyfrost", "universal", "2", true),
        dep("org.polyfrost.oneconfig.sub", "deep", "1", true),
    ];
    assert_eq!(
        names(&descent_targets(&first)),
        ["org.polyfrost.oneconfig:config:1", "org.polyfrost.oneconfig.sub:deep:1"]
    );
}

#[test]
fn second_level_is_inside_the_organization_marked_or_not() {
    let module = GradleModuleMetadata {
        variants: vec![
            modules(vec![dep("org.polyfrost", "not-runtime", "1", true)]),
            runtime(vec![
                dep("org.polyfrost", "universal", "2", false),
                dep("org.jetbrains.kotlin", "kotlin-stdlib", "1.9", true),
                dep("org.polyfrost.oneconfig", "utils", "1", true),
            ]),
        ],
    };
    assert_eq!(
        names(&level_two(&module)),
        ["org.polyfrost:universal:2", "org.polyfrost.oneconfig:utils:1"]
    );
}

#[test]
fn select_keeps_order() {
    let deps = vec![
        dep("org.polyfrost", "b", "1", true),
        dep("x", "c", "1", true),
        dep("org.polyfrost", "a", "1", true),
    ];
    assert_eq!(names(&select(&deps, Rule::LevelTwo)), ["org.polyfrost:b:1", "org.polyfrost:a:1"]);
    assert!(select(&deps, Rule::Descends).is_empty());
}

#[test]
fn dedup_keeps_the_last_of_each_group_and_module() {
    let deps = vec![
        dep("g", "a", "1", true),
        dep("g", "b", "1", true),
        dep("g", "a", "2", true),
        dep("h", "a", "1", true),
        dep("g", "b", "1", true),
    ];
    assert_eq!(names(&dedup(&deps)), ["g:a:2", "h:a:1", "g:b:1"]);
    assert!(dedup(&[].to_vec()).is_empty());
}

#[test]
fn set_is_root_first_level_and_second_level() {
    let descriptor = GradleModuleMetadata {
        variants: vec![modules(vec![
            dep("org.polyfrost.oneconfig", "config", "1", true),
            dep("org.polyfrost", "universal", "2", true),
        ])],
    };
    let nested = vec![Ok(GradleModuleMetadata {
        variants: vec![runtime(vec![
            dep("org.polyfrost.oneconfig", "utils", "1", false),
            dep("org.polyfrost", "universal", "3", false),
        ])],
    })];
    let set = resolve_artifact_set(&root(), &descriptor, &nested).unwrap();
    assert_eq!(
        names(&set),
        [
            "org.polyfrost.oneconfig:1.8.9-forge:1.0.0",
            "org.polyfrost.oneconfig:config:1",
            "org.polyfrost.oneconfig:utils:1",
            "org.polyfrost:universal:3",
        ]
    );
}

#[test]
fn set_of_a_bundle_without_dependencies_is_the_bundle() {
    let set = resolve_artifact_set(&root(), &GradleModuleMetadata { variants: vec![] }, &vec![]).unwrap();
    assert_eq!(names(&set), ["org.polyfrost.oneconfig:1.8.9-forge:1.0.0"]);
}

#[test]
fn no_two_entries_of_a_set_share_group_and_module() {
    let descriptor = GradleModuleMetadata {
        variants: vec![modules(vec![
            dep("org.polyfrost.oneconfig", "a", "1", true),
            dep("org.polyfrost.oneconfig", "a", "2", true),
            dep("org.polyfrost.oneconfig", "1.8.9-forge", "0.9.0", true),
        ])],
    };
    let nested = vec![
        Ok(GradleModuleMetadata {
            variants: vec![runtime(vec![dep("org.polyfrost.oneconfig", "a", "3", false)])],
        }),
        Ok(GradleModuleMetadata {
            variants: vec![runtime(vec![dep("org.polyfrost.oneconfig", "a", "4", false)])],
        }),
    ];
    let set = resolve_artifact_set(&root(), &descriptor, &nested).unwrap();
    assert!(!set.is_empty());
    for i in 0..set.len() {
        for j in i + 1..set.len() {
            assert!(set[i].group != set[j].group || set[i].module != set[j].module);
        }
    }
    assert_eq!(
        names(&set),
        ["org.polyfrost.oneconfig:1.8.9-forge:0.9.0", "org.polyfrost.oneconfig:a:4"]
    );
}

#[test]
fn dependency_outside_the_namespace_is_left_out_with_all_it_declares() {
    let outside = dep("com.example", "third", "1", true);
    let descriptor = GradleModuleMetadata {
        variants: vec![
            modules(vec![outside, dep("org.polyfrost.oneconfig", "config", "1", true)]),
            runtime(vec![dep("org.polyfrost", "from-root-runtime", "1", true)]),
        ],
    };
    let first = level_one(&descriptor);
    assert_eq!(names(&descent_targets(&first)), ["org.polyfrost.oneconfig:config:1"]);
    let nested = vec![Ok(GradleModuleMetadata {
        variants: vec![runtime(vec![dep("com.example", "further", "1", true)])],
    })];
    let set = resolve_artifact_set(&root(), &descriptor, &nested).unwrap();
    assert_eq!(
        names(&set),
        ["org.polyfrost.oneconfig:1.8.9-forge:1.0.0", "org.polyfrost.oneconfig:config:1"]
    );
}

#[test]
fn one_failed_descriptor_fails_the_walk() {
    let descriptor = GradleModuleMetadata {
        variants: vec![modules(vec![dep("org.polyfrost.oneconfig", "config", "1", true)])],
    };
    let nested = vec![
        Ok(GradleModuleMetadata { variants: vec![] }),
        Err(MavenError::Reqwest { status: Some(503) }),
        Err(MavenError::XmlParse),
    ];
    let r = resolve_artifact_set(&root(), &descriptor, &nested);
    assert!(matches!(r, Err(MavenError::Reqwest { status: Some(503) })));
}
