use cyrup_release::error::WorkspaceError;
use cyrup_release::graph::{DependencyGraph, PackageInfo, WorkspaceInfo};

fn workspace(packages: &[(&str, &[usize])]) -> WorkspaceInfo {
    WorkspaceInfo {
        packages: packages
            .iter()
            .map(|(name, deps)| PackageInfo { name: name.to_string(), dependencies: deps.to_vec() })
            .collect(),
    }
}

fn tiers_of(ws: &WorkspaceInfo) -> Vec<Vec<usize>> {
    let graph = DependencyGraph::build(ws).expect("acyclic");
    let plan = graph.publish_order().expect("plan");
    plan.all_tiers().clone()
}

#[test]
fn three_packages_two_tiers() {
    let ws = workspace(&[("a", &[]), ("b", &[0]), ("c", &[0])]);
    assert_eq!(tiers_of(&ws), vec![vec![0], vec![1, 2]]);
}

#[test]
fn packages_without_dependencies_form_tier_zero() {
    let ws = workspace(&[("a", &[]), ("b", &[]), ("c", &[])]);
    assert_eq!(tiers_of(&ws), vec![vec![0, 1, 2]]);
}

#[test]
fn empty_workspace_has_no_tiers() {
    let ws = workspace(&[]);
    let graph = DependencyGraph::build(&ws).unwrap();
    assert_eq!(graph.package_count(), 0);
    let plan = graph.publish_order().unwrap();
    assert_eq!(plan.tier_count(), 0);
    assert_eq!(plan.package_count(), 0);
}

#[test]
fn chain_gives_one_package_per_tier() {
    let ws = workspace(&[("top", &[1]), ("mid", &[2]), ("base", &[])]);
    assert_eq!(tiers_of(&ws), vec![vec![2], vec![1], vec![0]]);
}

#[test]
fn diamond_places_each_package_as_low_as_possible() {
    // d depends on b and c, which depend on a; e depends on a and d.
    let ws = workspace(&[("a", &[]), ("b", &[0]), ("c", &[0]), ("d", &[1, 2]), ("e", &[0, 3])]);
    let graph = DependencyGraph::build(&ws).unwrap();
    let plan = graph.publish_order().unwrap();
    assert_eq!(plan.all_tiers().clone(), vec![vec![0], vec![1, 2], vec![3], vec![4]]);
    assert_eq!(plan.tier_of(0), 0);
    assert_eq!(plan.tier_of(2), 1);
    assert_eq!(plan.tier_of(3), 2);
    assert_eq!(plan.tier_of(4), 3);
    assert_eq!(plan.tier(1), &vec![1, 2]);
    assert_eq!(graph.dependencies(3), &vec![1, 2]);
}

#[test]
fn every_package_follows_its_dependencies() {
    let ws = workspace(&[
        ("n0", &[3, 5]),
        ("n1", &[]),
        ("n2", &[1]),
        ("n3", &[2]),
        ("n4", &[1, 2]),
        ("n5", &[]),
    ]);
    let graph = DependencyGraph::build(&ws).unwrap();
    let plan = graph.publish_order().unwrap();
    for p in 0..6 {
        for d in graph.dependencies(p) {
            assert!(plan.tier_of(*d) < plan.tier_of(p));
        }
    }
    let mut seen = vec![0usize; 6];
    for tier in plan.all_tiers() {
        assert!(!tier.is_empty());
        for p in tier {
            seen[*p] += 1;
        }
    }
    assert_eq!(seen, vec![1; 6]);
}

#[test]
fn cycle_is_reported_with_its_members() {
    // a -> b -> c -> a, and d depends on a but lies on no cycle.
    let ws = workspace(&[("a", &[1]), ("b", &[2]), ("c", &[0]), ("d", &[0])]);
    match DependencyGraph::build(&ws) {
        Err(WorkspaceError::CircularDependency { packages }) => {
            let mut sorted = packages.clone();
            sorted.sort();
            assert_eq!(sorted, vec!["a".to_string(), "b".to_string(), "c".to_string()]);
            // Each reported package depends on the one reported after it.
            let index = |name: &String| ws.packages.iter().position(|p| &p.name == name).unwrap();
            for i in 0..packages.len() {
                let from = index(&packages[i]);
                let to = index(&packages[(i + 1) % packages.len()]);
                assert!(ws.packages[from].dependencies.contains(&to));
            }
        }
        other => panic!("expected a cycle, got {:?}", other),
    }
}

#[test]
fn cycle_below_an_acyclic_part_is_found() {
    let ws = workspace(&[("free", &[]), ("x", &[0, 2]), ("y", &[1])]);
    match DependencyGraph::build(&ws) {
        Err(WorkspaceError::CircularDependency { packages }) => {
            let mut sorted = packages;
            sorted.sort();
            assert_eq!(sorted, vec!["x".to_string(), "y".to_string()]);
        }
        other => panic!("expected a cycle, got {:?}", other),
    }
}

#[test]
fn self_dependency_is_a_cycle_of_one() {
    let ws = workspace(&[("a", &[]), ("selfish", &[1])]);
    match DependencyGraph::build(&ws) {
        Err(WorkspaceError::CircularDependency { packages }) => {
            assert_eq!(packages, vec!["selfish".to_string()]);
        }
        other => panic!("expected a cycle, got {:?}", other),
    }
}

#[test]
fn dependency_outside_the_workspace_is_invalid() {
    let ws = workspace(&[("a", &[]), ("b", &[7])]);
    assert!(matches!(
        DependencyGraph::build(&ws),
        Err(WorkspaceError::InvalidStructure { .. })
    ));
}
