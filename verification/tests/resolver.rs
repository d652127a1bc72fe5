use pchain_compile::error::Error;
use pchain_compile::manifests::{
    get_dependency_paths, Dependency, Manifest, Resolution, Resolver, ResolverAction,
    ResolverEvent,
};
use std::collections::HashMap;

/// A file system in miniature: the local paths in the manifest of each
/// directory, and the directory that each path names from each directory.
struct World {
    manifests: HashMap<String, Vec<String>>,
    links: HashMap<(String, String), String>,
    absolute: HashMap<String, String>,
    reads: Vec<String>,
}

impl World {
    fn new() -> World {
        World {
            manifests: HashMap::new(),
            links: HashMap::new(),
            absolute: HashMap::new(),
            reads: Vec::new(),
        }
    }

    fn package(&mut self, dir: &str, paths: &[&str]) {
        self.manifests.insert(dir.to_string(), paths.iter().map(|p| p.to_string()).collect());
    }

    fn link(&mut self, base: &str, path: &str, target: &str) {
        self.links.insert((base.to_string(), path.to_string()), target.to_string());
    }

    fn absolute(&mut self, path: &str) {
        self.absolute.insert(path.to_string(), path.to_string());
    }

    fn answer(&mut self, action: ResolverAction) -> ResolverEvent {
        match action {
            ResolverAction::ReadManifest { dir } => {
                self.reads.push(dir.clone());
                ResolverEvent::Manifest(self.manifests.get(&dir).map(|paths| Manifest {
                    package_name: Some("p".to_string()),
                    dependencies: paths
                        .iter()
                        .enumerate()
                        .map(|(i, p)| Dependency { name: format!("d{i}"), path: Some(p.clone()) })
                        .collect(),
                }))
            }
            ResolverAction::ResolveAsGiven { path } => {
                ResolverEvent::Path(self.absolute.get(&path).cloned())
            }
            ResolverAction::ResolveRelative { base, path } => {
                ResolverEvent::Path(self.links.get(&(base, path)).cloned())
            }
            ResolverAction::Finished(_) => unreachable!(),
        }
    }

    fn resolve(&mut self, root: &str) -> Result<Vec<String>, Error> {
        self.resolution(root).map(|resolution| resolution.resolved)
    }

    fn resolution(&mut self, root: &str) -> Result<Resolution, Error> {
        let mut resolver: Resolver = get_dependency_paths(root);
        let mut action = resolver.next_action();
        let mut steps = 0;
        loop {
            if let ResolverAction::Finished(result) = action {
                assert!(resolver.is_finished());
                return result;
            }
            assert!(!resolver.is_finished());
            steps += 1;
            assert!(steps < 10_000, "the resolution does not end");
            let event = self.answer(action);
            action = resolver.step(event);
        }
    }
}

fn sorted(mut list: Vec<String>) -> Vec<String> {
    list.sort();
    list
}

fn distinct(list: &[String]) -> bool {
    let mut seen = std::collections::HashSet::new();
    list.iter().all(|item| seen.insert(item.clone()))
}

#[test]
fn a_package_without_local_dependencies() {
    let mut world = World::new();
    world.package("/a", &[]);
    assert_eq!(world.resolve("/a"), Ok(vec![]));
    assert_eq!(world.reads, vec!["/a".to_string()]);
}

#[test]
fn a_chain_of_dependencies() {
    let mut world = World::new();
    world.package("/a", &["../b"]);
    world.package("/b", &["../c"]);
    world.package("/c", &[]);
    world.link("/a", "../b", "/b");
    world.link("/b", "../c", "/c");
    assert_eq!(world.resolve("/a"), Ok(vec!["/b".to_string(), "/c".to_string()]));
    assert_eq!(world.reads, vec!["/a".to_string(), "/b".to_string(), "/c".to_string()]);
}

#[test]
fn a_path_is_tried_as_given_before_it_is_tried_from_the_package() {
    let mut world = World::new();
    world.package("/a", &["/x", "y"]);
    world.package("/x", &[]);
    world.package("/elsewhere/x", &[]);
    world.package("/a/y", &[]);
    world.absolute("/x");
    world.link("/a", "/x", "/elsewhere/x");
    world.link("/a", "y", "/a/y");
    assert_eq!(world.resolve("/a"), Ok(vec!["/x".to_string(), "/a/y".to_string()]));
}

#[test]
fn a_package_that_depends_on_itself() {
    let mut world = World::new();
    world.package("/a", &[".", "../a"]);
    world.link("/a", ".", "/a");
    world.link("/a", "../a", "/a");
    assert_eq!(world.resolve("/a"), Ok(vec![]));
    assert_eq!(world.reads, vec!["/a".to_string()]);
}

#[test]
fn two_packages_that_depend_on_each_other() {
    let mut world = World::new();
    world.package("/a", &["../b"]);
    world.package("/b", &["../a", "../b"]);
    world.link("/a", "../b", "/b");
    world.link("/b", "../a", "/a");
    world.link("/b", "../b", "/b");
    assert_eq!(world.resolve("/a"), Ok(vec!["/b".to_string()]));
    assert_eq!(world.reads, vec!["/a".to_string(), "/b".to_string()]);
}

#[test]
fn a_longer_cycle_and_a_diamond() {
    let mut world = World::new();
    world.package("/a", &["b", "c"]);
    world.package("/b", &["d"]);
    world.package("/c", &["d", "a"]);
    world.package("/d", &["b", "e"]);
    world.package("/e", &["c"]);
    for base in ["/a", "/b", "/c", "/d", "/e"] {
        for name in ["a", "b", "c", "d", "e"] {
            world.link(base, name, &format!("/{name}"));
        }
    }
    let found = world.resolve("/a").unwrap();
    assert!(distinct(&found));
    assert_eq!(
        sorted(found),
        vec!["/b".to_string(), "/c".to_string(), "/d".to_string(), "/e".to_string()]
    );
    assert!(distinct(&world.reads));
    assert_eq!(world.reads.len(), 5);
}

#[test]
fn every_directory_of_a_dense_graph_is_read_once() {
    let names: Vec<String> = (0..12).map(|i| format!("/p{i}")).collect();
    let mut world = World::new();
    for base in &names {
        let all: Vec<&str> = names.iter().map(|n| n.as_str()).collect();
        world.package(base, &all);
        for name in &names {
            world.link(base, name, name);
        }
    }
    let found = world.resolve("/p0").unwrap();
    assert!(distinct(&found));
    assert_eq!(found.len(), 11);
    assert!(!found.contains(&"/p0".to_string()));
    assert!(distinct(&world.reads));
    assert_eq!(world.reads.len(), 12);
}

#[test]
fn without_the_manifest_of_the_package_the_resolution_fails() {
    let mut world = World::new();
    assert_eq!(world.resolve("/a"), Err(Error::ManifestFailure));
}

#[test]
fn a_path_of_the_package_that_names_nothing_fails_the_resolution() {
    let mut world = World::new();
    world.package("/a", &["../b", "../nowhere", "../c"]);
    world.package("/b", &[]);
    world.package("/c", &[]);
    world.link("/a", "../b", "/b");
    world.link("/a", "../c", "/c");
    assert_eq!(world.resolve("/a"), Err(Error::InvalidDependencyPath));
    assert_eq!(world.reads, vec!["/a".to_string(), "/b".to_string()]);
}

#[test]
fn a_dependency_without_a_manifest_is_kept() {
    let mut world = World::new();
    world.package("/a", &["../b", "../c"]);
    world.package("/c", &[]);
    world.link("/a", "../b", "/b");
    world.link("/a", "../c", "/c");
    assert_eq!(world.resolve("/a"), Ok(vec!["/b".to_string(), "/c".to_string()]));
}

#[test]
fn a_path_of_a_dependency_that_names_nothing_is_passed_over_with_the_rest_of_its_manifest() {
    let mut world = World::new();
    world.package("/a", &["../b", "../e"]);
    world.package("/b", &["../c", "../nowhere", "../d"]);
    world.package("/c", &[]);
    world.package("/d", &[]);
    world.package("/e", &[]);
    world.link("/a", "../b", "/b");
    world.link("/a", "../e", "/e");
    world.link("/b", "../c", "/c");
    world.link("/b", "../d", "/d");
    assert_eq!(
        world.resolve("/a"),
        Ok(vec!["/b".to_string(), "/c".to_string(), "/e".to_string()])
    );
}

#[test]
fn nothing_is_passed_over_where_all_resolves() {
    let mut world = World::new();
    world.package("/a", &["../b"]);
    world.package("/b", &["../a"]);
    world.link("/a", "../b", "/b");
    world.link("/b", "../a", "/a");
    assert_eq!(
        world.resolution("/a"),
        Ok(Resolution { resolved: vec!["/b".to_string()], ignored: vec![] })
    );
}

#[test]
fn what_is_passed_over_is_kept_on_record() {
    let mut world = World::new();
    world.package("/a", &["../b", "../e", "../f"]);
    world.package("/b", &["../c", "../nowhere", "../d", "../c"]);
    world.package("/c", &[]);
    world.package("/d", &[]);
    world.package("/f", &["../gone"]);
    world.link("/a", "../b", "/b");
    world.link("/a", "../e", "/e");
    world.link("/a", "../f", "/f");
    world.link("/b", "../c", "/c");
    world.link("/b", "../d", "/d");
    let resolution = world.resolution("/a").unwrap();
    assert_eq!(
        resolution.resolved,
        vec!["/b".to_string(), "/c".to_string(), "/e".to_string(), "/f".to_string()]
    );
    assert_eq!(
        resolution.ignored,
        vec![
            "../nowhere".to_string(),
            "../d".to_string(),
            "../c".to_string(),
            "/e".to_string(),
            "../gone".to_string(),
        ]
    );
}

#[test]
fn an_answer_to_another_question_changes_nothing() {
    let mut resolver = get_dependency_paths("/a");
    let asked = ResolverAction::ReadManifest { dir: "/a".to_string() };
    assert_eq!(resolver.next_action(), asked);
    assert_eq!(resolver.step(ResolverEvent::Path(Some("/b".to_string()))), asked);
    assert_eq!(resolver.step(ResolverEvent::Path(None)), asked);
    let manifest = Manifest {
        package_name: None,
        dependencies: vec![Dependency { name: "b".to_string(), path: Some("b".to_string()) }],
    };
    let next = resolver.step(ResolverEvent::Manifest(Some(manifest)));
    assert_eq!(next, ResolverAction::ResolveAsGiven { path: "b".to_string() });
    assert_eq!(resolver.step(ResolverEvent::Manifest(None)), next);
    assert_eq!(
        resolver.step(ResolverEvent::Path(None)),
        ResolverAction::ResolveRelative { base: "/a".to_string(), path: "b".to_string() }
    );
}

#[test]
fn a_finished_resolution_stays_finished() {
    let mut resolver = get_dependency_paths("/a");
    let end = resolver.step(ResolverEvent::Manifest(None));
    assert_eq!(end, ResolverAction::Finished(Err(Error::ManifestFailure)));
    assert_eq!(resolver.step(ResolverEvent::Manifest(None)), end);
    assert_eq!(resolver.step(ResolverEvent::Path(Some("/b".to_string()))), end);
    assert!(resolver.is_finished());
}
